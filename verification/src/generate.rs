//! Generated records: the stats a node carries when it is minted as a mage's
//! equipment item, and where its provider's give record lives.

use vstd::prelude::*;
use crate::args::generate::NodeItemArgs;
use crate::quint::{points_of, Quint, PER_POINT};
use crate::json::JsonValue;
use crate::repo_mage::lexicon_now;
use crate::samples::{at_uri_error, check_at_uri, int_entry, is_int_entry, is_str_entry, str_entry};
use crate::text::{i64_text, signed_decimal};

verus! {

/// The stats block of a node item.
#[derive(Debug, Clone, PartialEq, Eq)]
pub struct NodeStats {
    pub rating: i64,
    pub milli_quintessence: i64,
    pub quintessence: i64,
    pub makes_tass: bool,
    pub tass_form: Option<String>,
    pub resonance: Option<String>,
}

/// The balance a node item is minted with, before clamping: the explicit
/// milli balance, else the whole points, else a full node (its cap).
pub open spec fn requested_millis(args: NodeItemArgs) -> int {
    match args.milli_quintessence {
        Some(m) => m as int,
        None => match args.quintessence {
            Some(q) => q * PER_POINT,
            None => args.rating * PER_POINT,
        },
    }
}

/// `v` clamped into `[lo, hi]`.
pub open spec fn clamped(v: int, lo: int, hi: int) -> int {
    if v < lo {
        lo
    } else if v > hi {
        hi
    } else {
        v
    }
}

/// The arguments whose requested balance fits in an `i64` where it is
/// computed: with a rating in `[1, 5]` (any other rating is refused first).
pub open spec fn mintable(args: NodeItemArgs) -> bool {
    1 <= args.rating <= 5 && args.milli_quintessence is None && args.quintessence is Some
        ==> i64::MIN <= args.quintessence->0 * PER_POINT <= i64::MAX
}

/// Why a node item cannot be generated.
#[derive(Debug, Clone, PartialEq, Eq)]
pub enum NodeItemError {
    /// The rating lies outside `[1, 5]`; the message to show.
    Rating(String),
    /// The mage is not a DID; the validator's text.
    Mage(String),
    /// The give record's URI is not a valid AT-URI; the parser's text.
    GiveUri(String),
}

/// What jacquard's `Did::new_owned` says of `s`: `None` when it is a DID,
/// else its error's text.
pub uninterp spec fn did_error(s: Seq<char>) -> Option<Seq<char>>;

/// jacquard's `Did::new_owned`, reduced to its error text, as [`did_error`]
/// names it.
#[verifier::external_body]
fn check_did(s: &str) -> (r: Option<String>)
    ensures
        match did_error(s@) {
            Some(e) => r matches Some(m) && m@ == e,
            None => r is None,
        },
{
    match jacquard_common::types::did::Did::<jacquard_common::DefaultStr>::new_owned(s) {
        Ok(_) => None,
        Err(e) => Some(e.to_string()),
    }
}

/// `s` is the stats block of a node item made from `args`: the requested
/// balance clamped into `[0, rating]` points, shown as its floor; nodes
/// make tass.
pub open spec fn stats_of(s: NodeStats, args: NodeItemArgs) -> bool {
    let m = clamped(requested_millis(args), 0, args.rating * PER_POINT);
    &&& s.rating == args.rating
    &&& s.milli_quintessence == m
    &&& s.quintessence == points_of(m)
    &&& s.makes_tass
    &&& s.tass_form == args.tass_form
    &&& s.resonance == args.resonance
}

/// The stats of a node item: a rating in `[1, 5]` caps the balance at that
/// many points; the requested balance is clamped into `[0, cap]` and shown
/// as its floor; nodes make tass. A rating outside `[1, 5]` is refused
/// first, then a mage that is not a DID.
pub fn node_stats(args: &NodeItemArgs) -> (r: Result<NodeStats, NodeItemError>)
    requires
        mintable(*args),
    ensures
        !(1 <= args.rating <= 5) ==> (r matches Err(NodeItemError::Rating(m))
            && m@ == "rating must be between 1 and 5 (got "@ + signed_decimal(args.rating as int) + ")"@),
        1 <= args.rating <= 5 && did_error(args.mage@) is Some ==> (r matches Err(NodeItemError::Mage(m))
            && m@ == did_error(args.mage@)->0),
        1 <= args.rating <= 5 && did_error(args.mage@) is None ==> (r matches Ok(s) && stats_of(s, *args)),
{
    if args.rating < 1 || args.rating > 5 {
        let mut m = String::from_str("rating must be between 1 and 5 (got ");
        let n = i64_text(args.rating);
        m.append(n.as_str());
        m.append(")");
        return Err(NodeItemError::Rating(m));
    }
    if let Some(e) = check_did(args.mage.as_str()) {
        return Err(NodeItemError::Mage(e));
    }
    let cap = args.rating * PER_POINT;
    let requested = match args.milli_quintessence {
        Some(m) => m,
        None => match args.quintessence {
            Some(q) => q * PER_POINT,
            None => cap,
        },
    };
    let millis = if requested < 0 {
        0
    } else if requested > cap {
        cap
    } else {
        requested
    };
    let quint = Quint::from_millis(millis);
    Ok(NodeStats {
        rating: args.rating,
        milli_quintessence: quint.millis(),
        quintessence: quint.points(),
        makes_tass: true,
        tass_form: args.tass_form.clone(),
        resonance: args.resonance.clone(),
    })
}

/// The AT-URI of a provider's give record: `at://<mage>/equipment.rpg.give/<rkey>`.
pub fn give_uri(mage: &str, rkey: &str) -> (r: String)
    ensures
        r@ == "at://"@ + mage@ + "/equipment.rpg.give/"@ + rkey@,
{
    let mut s = String::from_str("at://");
    s.append(mage);
    s.append("/equipment.rpg.give/");
    s.append(rkey);
    s
}

/// A member `k` whose value is the boolean `b`.
pub open spec fn is_bool_entry(e: (String, JsonValue), k: Seq<char>, b: bool) -> bool {
    e.0@ == k && e.1 == JsonValue::Bool(b)
}

/// The number of members an optional field adds.
pub open spec fn count_of<T>(o: Option<T>) -> int {
    if o is Some { 1 } else { 0 }
}

/// The JSON of a node item's stats: rating, milli balance, points, that it
/// makes tass, then the tass form and resonance when given.
pub open spec fn stats_json_is(v: JsonValue, s: NodeStats) -> bool {
    &&& v matches JsonValue::Object(es)
    &&& es@.len() == 4 + count_of(s.tass_form) + count_of(s.resonance)
    &&& is_int_entry(es@[0], "rating"@, s.rating)
    &&& is_int_entry(es@[1], "milliQuintessence"@, s.milli_quintessence)
    &&& is_int_entry(es@[2], "quintessence"@, s.quintessence)
    &&& is_bool_entry(es@[3], "makesTass"@, s.makes_tass)
    &&& (s.tass_form matches Some(t) ==> is_str_entry(es@[4], "tassForm"@, t@))
    &&& (s.resonance matches Some(r) ==> is_str_entry(es@[4 + count_of(s.tass_form)], "resonance"@, r@))
}

fn push_opt(es: &mut Vec<(String, JsonValue)>, k: &str, o: &Option<String>)
    ensures
        final(es)@.len() == old(es)@.len() + count_of(*o),
        forall|i: int| 0 <= i < old(es)@.len() ==> final(es)@[i] == old(es)@[i],
        o matches Some(v) ==> is_str_entry(final(es)@[old(es)@.len() as int], k@, v@),
{
    match o {
        Some(v) => es.push(str_entry(k, v.as_str())),
        None => {},
    }
}

/// The stats of a node item as JSON.
pub fn stats_json(s: &NodeStats) -> (v: JsonValue)
    ensures
        stats_json_is(v, *s),
{
    let mut es = vec![
        int_entry("rating", s.rating),
        int_entry("milliQuintessence", s.milli_quintessence),
        int_entry("quintessence", s.quintessence),
        (String::from_str("makesTass"), JsonValue::Bool(s.makes_tass)),
    ];
    push_opt(&mut es, "tassForm", &s.tass_form);
    push_opt(&mut es, "resonance", &s.resonance);
    JsonValue::Object(es)
}

/// The give record a provider mage writes for a node item: to the mage, of
/// the item kind, titled with the node's name, given at `now`, with the
/// stats and, when given, the description.
pub open spec fn give_json_is(v: JsonValue, args: NodeItemArgs, s: NodeStats, now: Seq<char>) -> bool {
    &&& v matches JsonValue::Object(es)
    &&& es@.len() == 6 + count_of(args.description)
    &&& is_str_entry(es@[0], "recipient"@, args.mage@)
    &&& is_str_entry(es@[1], "item"@, args.item@)
    &&& is_str_entry(es@[2], "kind"@, "node"@)
    &&& is_str_entry(es@[3], "title"@, args.name@)
    &&& is_str_entry(es@[4], "givenAt"@, now)
    &&& es@[5].0@ == "stats"@ && stats_json_is(es@[5].1, s)
    &&& (args.description matches Some(d) ==> is_str_entry(es@[6], "description"@, d@))
}

/// The item record the mage keeps: of the item kind, titled with the node's
/// name, pointing at the give record and its provider, accepted at `now`,
/// with the stats and, when given, the description.
pub open spec fn item_json_is(v: JsonValue, args: NodeItemArgs, s: NodeStats, give: Seq<char>, now: Seq<char>) -> bool {
    &&& v matches JsonValue::Object(es)
    &&& es@.len() == 7 + count_of(args.description)
    &&& is_str_entry(es@[0], "item"@, args.item@)
    &&& is_str_entry(es@[1], "kind"@, "node"@)
    &&& is_str_entry(es@[2], "title"@, args.name@)
    &&& is_str_entry(es@[3], "give"@, give)
    &&& is_str_entry(es@[4], "provider"@, args.mage@)
    &&& is_str_entry(es@[5], "acceptedAt"@, now)
    &&& es@[6].0@ == "stats"@ && stats_json_is(es@[6].1, s)
    &&& (args.description matches Some(d) ==> is_str_entry(es@[7], "description"@, d@))
}

/// The `{ give, item }` pair of a node item.
pub open spec fn pair_json_is(v: JsonValue, args: NodeItemArgs, s: NodeStats, give: Seq<char>, now: Seq<char>) -> bool {
    &&& v matches JsonValue::Object(es)
    &&& es@.len() == 2
    &&& es@[0].0@ == "give"@ && give_json_is(es@[0].1, args, s, now)
    &&& es@[1].0@ == "item"@ && item_json_is(es@[1].1, args, s, give, now)
}

/// The give and item records of a node item whose give record has key
/// `give_rkey`, made at the lexicon datetime `now`: the stats of
/// [`node_stats`], then the give record's URI checked as an AT-URI.
pub fn node_item_pair(args: &NodeItemArgs, give_rkey: &str, now: &str) -> (r: Result<JsonValue, NodeItemError>)
    requires
        mintable(*args),
    ensures
        !(1 <= args.rating <= 5) ==> (r matches Err(NodeItemError::Rating(_))),
        1 <= args.rating <= 5 && did_error(args.mage@) is Some ==> (r matches Err(NodeItemError::Mage(m))
            && m@ == did_error(args.mage@)->0),
        1 <= args.rating <= 5 && did_error(args.mage@) is None ==> ({
            let uri = "at://"@ + args.mage@ + "/equipment.rpg.give/"@ + give_rkey@;
            &&& at_uri_error(uri) matches Some(e) ==> (r matches Err(NodeItemError::GiveUri(m)) && m@ == e)
            &&& at_uri_error(uri) is None ==> (r matches Ok(v) && exists|s: NodeStats| #[trigger] stats_of(s, *args)
                && pair_json_is(v, *args, s, uri, now@))
        }),
{
    let stats = node_stats(args)?;
    let uri = give_uri(args.mage.as_str(), give_rkey);
    if let Some(e) = check_at_uri(uri.as_str()) {
        return Err(NodeItemError::GiveUri(e));
    }
    let sj = stats_json(&stats);
    let sj2 = stats_json(&stats);
    let mut give = vec![
        str_entry("recipient", args.mage.as_str()),
        str_entry("item", args.item.as_str()),
        str_entry("kind", "node"),
        str_entry("title", args.name.as_str()),
        str_entry("givenAt", now),
        (String::from_str("stats"), sj),
    ];
    push_opt(&mut give, "description", &args.description);
    let mut item = vec![
        str_entry("item", args.item.as_str()),
        str_entry("kind", "node"),
        str_entry("title", args.name.as_str()),
        str_entry("give", uri.as_str()),
        str_entry("provider", args.mage.as_str()),
        str_entry("acceptedAt", now),
        (String::from_str("stats"), sj2),
    ];
    push_opt(&mut item, "description", &args.description);
    let pair = JsonValue::Object(vec![
        (String::from_str("give"), JsonValue::Object(give)),
        (String::from_str("item"), JsonValue::Object(item)),
    ]);
    proof {
        assert(stats_of(stats, *args));
    }
    Ok(pair)
}

/// jacquard's `Tid::now_0()`, a fresh record key, as its text. Nothing is
/// claimed of it.
#[verifier::external_body]
fn tid_now() -> (s: String) {
    jacquard_common::types::tid::Tid::now_0().as_str().to_owned()
}

/// `gen node-item`: the give and item records of a node item with a fresh
/// give key and the current time (see [`node_item_pair`]).
pub fn generate_node_item(args: &NodeItemArgs) -> (r: Result<JsonValue, NodeItemError>)
    requires
        mintable(*args),
    ensures
        !(1 <= args.rating <= 5) ==> (r matches Err(NodeItemError::Rating(_))),
        1 <= args.rating <= 5 && did_error(args.mage@) is Some ==> (r matches Err(NodeItemError::Mage(m))
            && m@ == did_error(args.mage@)->0),
        1 <= args.rating <= 5 && did_error(args.mage@) is None ==> (r is Ok || r matches Err(NodeItemError::GiveUri(_))),
        r matches Err(NodeItemError::Rating(_)) ==> !(1 <= args.rating <= 5),
        r matches Err(NodeItemError::Mage(m)) ==> did_error(args.mage@) == Some(m@),
        r matches Ok(v) ==> exists|s: NodeStats, rkey: Seq<char>, now: Seq<char>| stats_of(s, *args)
            && #[trigger] pair_json_is(v, *args, s, "at://"@ + args.mage@ + "/equipment.rpg.give/"@ + rkey, now),
{
    let now = lexicon_now();
    let rkey = tid_now();
    let r = node_item_pair(args, rkey.as_str(), now.as_str());
    proof {
        if r is Ok {
            let v = r->Ok_0;
            let uri = "at://"@ + args.mage@ + "/equipment.rpg.give/"@ + rkey@;
            let s = choose|s: NodeStats| #[trigger] stats_of(s, *args) && pair_json_is(v, *args, s, uri, now@);
            assert(pair_json_is(v, *args, s, uri, now@));
        }
    }
    r
}

} // verus!
