//! The example records the `samples` command writes: one node, the tass it
//! crystallizes, a meditation at the node and a spend from the tass, all
//! stamped with one fixed time so that regenerated files do not differ.

use vstd::prelude::*;
use crate::cli::{sample_uri, SAMPLE_DID};
use crate::json::JsonValue;
use crate::repo_mage::{datetime_roundable, lexicon_datetime, lexicon_stamp};

verus! {

/// The fixed creation time of every sample record.
pub const SAMPLE_AT: &'static str = "2026-06-21T12:00:00.000Z";

/// The record key of the sample node.
pub const NODE_RKEY: &'static str = "3ksamplesample1";

/// The record key of the sample tass.
pub const TASS_RKEY: &'static str = "3ksamplesample2";

/// What jacquard's `AtUri` parse says of `s`: `None` when it is a valid
/// AT-URI, else its error's text.
pub uninterp spec fn at_uri_error(s: Seq<char>) -> Option<Seq<char>>;

/// jacquard's `AtUri` `FromStr` parse, reduced to its error text, as
/// [`at_uri_error`] names it.
#[verifier::external_body]
pub(crate) fn check_at_uri(s: &str) -> (r: Option<String>)
    ensures
        match at_uri_error(s@) {
            Some(e) => r matches Some(m) && m@ == e,
            None => r is None,
        },
{
    match s.parse::<jacquard_common::types::aturi::AtUri>() {
        Ok(_) => None,
        Err(e) => Some(e.to_string()),
    }
}

/// One sample file: its name, the line that describes it, and the record.
#[derive(Debug)]
pub struct SampleDef {
    pub filename: String,
    pub description: String,
    pub record: JsonValue,
}

/// A member `k` whose value is the string `v`.
pub open spec fn is_str_entry(e: (String, JsonValue), k: Seq<char>, v: Seq<char>) -> bool {
    &&& e.0@ == k
    &&& e.1 matches JsonValue::Str(s)
    &&& s@ == v
}

/// A member `k` whose value is the integer `n`.
pub open spec fn is_int_entry(e: (String, JsonValue), k: Seq<char>, n: i64) -> bool {
    e.0@ == k && e.1 == JsonValue::Int(n)
}

/// The sample node: "Crystal Spring", rating 3, with its description,
/// location, dynamic resonance and tass form.
pub open spec fn is_node_sample(v: JsonValue, created_at: Seq<char>) -> bool {
    &&& v matches JsonValue::Object(es)
    &&& es@.len() == 7
    &&& is_str_entry(es@[0], "name"@, "Crystal Spring"@)
    &&& is_int_entry(es@[1], "rating"@, 3)
    &&& is_str_entry(es@[2], "createdAt"@, created_at)
    &&& is_str_entry(es@[3], "description"@,
        "A clear spring deep in the old forest; the water hums faintly to those who can hear."@)
    &&& is_str_entry(es@[4], "location"@, "Old-growth forest, three miles north of the caern"@)
    &&& is_str_entry(es@[5], "resonance"@, "dynamic"@)
    &&& is_str_entry(es@[6], "tassForm"@, "a smooth river-stone, warm to the touch"@)
}

/// The sample tassilize: 5 points at the node, as a silver coin.
pub open spec fn is_tassilize_sample(v: JsonValue, created_at: Seq<char>, node_uri: Seq<char>) -> bool {
    &&& v matches JsonValue::Object(es)
    &&& es@.len() == 5
    &&& is_str_entry(es@[0], "node"@, node_uri)
    &&& is_int_entry(es@[1], "quintessence"@, 5)
    &&& is_str_entry(es@[2], "createdAt"@, created_at)
    &&& is_str_entry(es@[3], "form"@, "a silver coin, untarnished"@)
    &&& is_str_entry(es@[4], "note"@, "Pulled from the spring's surface at dawn."@)
}

/// The sample meditation: 3 points drawn at the node.
pub open spec fn is_meditate_sample(v: JsonValue, created_at: Seq<char>, node_uri: Seq<char>) -> bool {
    &&& v matches JsonValue::Object(es)
    &&& es@.len() == 3
    &&& is_str_entry(es@[0], "node"@, node_uri)
    &&& is_int_entry(es@[1], "amount"@, 3)
    &&& is_str_entry(es@[2], "createdAt"@, created_at)
}

/// The sample enervation: 2 points spent from the tass, with its purpose.
pub open spec fn is_enervate_sample(v: JsonValue, created_at: Seq<char>, tass_uri: Seq<char>) -> bool {
    &&& v matches JsonValue::Object(es)
    &&& es@.len() == 4
    &&& is_str_entry(es@[0], "tass"@, tass_uri)
    &&& is_int_entry(es@[1], "amount"@, 2)
    &&& is_str_entry(es@[2], "createdAt"@, created_at)
    &&& is_str_entry(es@[3], "purpose"@,
        "Lock the door behind us \u{2014} looks like it was just unlocked all along."@)
}

/// The four sample files, in the order they are written, with their names,
/// descriptions and records.
pub open spec fn are_samples(r: Seq<SampleDef>, created_at: Seq<char>, node_uri: Seq<char>, tass_uri: Seq<char>) -> bool {
    &&& r.len() == 4
    &&& r[0].filename@ == "node-crystal-spring.example.json"@
    &&& r[0].description@ == "A rating-3 Node with dynamic resonance and a default ambient pool (15q)."@
    &&& is_node_sample(r[0].record, created_at)
    &&& r[1].filename@ == "tassilize-silver-coin.example.json"@
    &&& r[1].description@ == "Genesis record: 5q crystallized at the Crystal Spring node as a silver coin."@
    &&& is_tassilize_sample(r[1].record, created_at, node_uri)
    &&& r[2].filename@ == "meditate-dawn-pull.example.json"@
    &&& r[2].description@ == "Meditating at the Crystal Spring, drawing 3q into the mage's pattern."@
    &&& is_meditate_sample(r[2].record, created_at, node_uri)
    &&& r[3].filename@ == "enervate-spend.example.json"@
    &&& r[3].description@ == "Spending 2q from the silver-coin tass to fuel a coincidence."@
    &&& is_enervate_sample(r[3].record, created_at, tass_uri)
}

pub(crate) fn str_entry(k: &str, v: &str) -> (e: (String, JsonValue))
    ensures
        is_str_entry(e, k@, v@),
{
    (String::from_str(k), JsonValue::Str(String::from_str(v)))
}

pub(crate) fn int_entry(k: &str, n: i64) -> (e: (String, JsonValue))
    ensures
        is_int_entry(e, k@, n),
{
    (String::from_str(k), JsonValue::Int(n))
}

fn sample(filename: &str, description: &str, record: JsonValue) -> (s: SampleDef)
    ensures
        s.filename@ == filename@,
        s.description@ == description@,
        s.record == record,
{
    SampleDef { filename: String::from_str(filename), description: String::from_str(description), record }
}

/// The sample files for a creation time and the URIs of the sample node
/// and tass.
pub fn sample_records(created_at: &str, node_uri: &str, tass_uri: &str) -> (r: Vec<SampleDef>)
    ensures
        are_samples(r@, created_at@, node_uri@, tass_uri@),
{
    let node = JsonValue::Object(vec![
        str_entry("name", "Crystal Spring"),
        int_entry("rating", 3),
        str_entry("createdAt", created_at),
        str_entry("description",
            "A clear spring deep in the old forest; the water hums faintly to those who can hear."),
        str_entry("location", "Old-growth forest, three miles north of the caern"),
        str_entry("resonance", "dynamic"),
        str_entry("tassForm", "a smooth river-stone, warm to the touch"),
    ]);
    let tassilize = JsonValue::Object(vec![
        str_entry("node", node_uri),
        int_entry("quintessence", 5),
        str_entry("createdAt", created_at),
        str_entry("form", "a silver coin, untarnished"),
        str_entry("note", "Pulled from the spring's surface at dawn."),
    ]);
    let meditate = JsonValue::Object(vec![
        str_entry("node", node_uri),
        int_entry("amount", 3),
        str_entry("createdAt", created_at),
    ]);
    let enervate = JsonValue::Object(vec![
        str_entry("tass", tass_uri),
        int_entry("amount", 2),
        str_entry("createdAt", created_at),
        str_entry("purpose", "Lock the door behind us \u{2014} looks like it was just unlocked all along."),
    ]);
    vec![
        sample("node-crystal-spring.example.json",
            "A rating-3 Node with dynamic resonance and a default ambient pool (15q).", node),
        sample("tassilize-silver-coin.example.json",
            "Genesis record: 5q crystallized at the Crystal Spring node as a silver coin.", tassilize),
        sample("meditate-dawn-pull.example.json",
            "Meditating at the Crystal Spring, drawing 3q into the mage's pattern.", meditate),
        sample("enervate-spend.example.json",
            "Spending 2q from the silver-coin tass to fuel a coincidence.", enervate),
    ]
}

/// Why the sample files cannot be built.
#[derive(Debug, Clone, PartialEq, Eq)]
pub enum SampleError {
    /// A sample URI is not a valid AT-URI; the parser's text.
    Uri(String),
    /// chrono does not parse the fixed creation time.
    Timestamp,
}

/// The URI of the sample node.
pub open spec fn node_sample_uri() -> Seq<char> {
    "at://"@ + SAMPLE_DID@ + "/"@ + "com.superbfowle.tass.node"@ + "/"@ + NODE_RKEY@
}

/// The URI of the sample tass.
pub open spec fn tass_sample_uri() -> Seq<char> {
    "at://"@ + SAMPLE_DID@ + "/"@ + "com.superbfowle.tass.tassilize"@ + "/"@ + TASS_RKEY@
}

/// The sample files: the node and tass URIs are checked as AT-URIs, in that
/// order, and every record is stamped with the lexicon datetime of
/// [`SAMPLE_AT`].
pub fn build_samples() -> (r: Result<Vec<SampleDef>, SampleError>)
    ensures
        at_uri_error(node_sample_uri()) matches Some(e) ==> (r matches Err(SampleError::Uri(m)) && m@ == e),
        at_uri_error(node_sample_uri()) is None && at_uri_error(tass_sample_uri()) is Some ==> (r matches Err(
            SampleError::Uri(m)) && m@ == at_uri_error(tass_sample_uri())->0),
        at_uri_error(node_sample_uri()) is None && at_uri_error(tass_sample_uri()) is None ==> match lexicon_datetime(SAMPLE_AT@) {
            Some(t) => r matches Ok(v) && are_samples(v@, t, node_sample_uri(), tass_sample_uri()),
            None => r == Err::<Vec<SampleDef>, SampleError>(SampleError::Timestamp),
        },
{
    let node_uri = sample_uri("com.superbfowle.tass.node", NODE_RKEY);
    if let Some(e) = check_at_uri(node_uri.as_str()) {
        return Err(SampleError::Uri(e));
    }
    let tass_uri = sample_uri("com.superbfowle.tass.tassilize", TASS_RKEY);
    if let Some(e) = check_at_uri(tass_uri.as_str()) {
        return Err(SampleError::Uri(e));
    }
    proof {
        reveal_strlit("2026-06-21T12:00:00.000Z");
        let year = SAMPLE_AT@.take(4);
        assert(year =~= seq!['2', '0', '2', '6']);
        assert(year.drop_last() =~= seq!['2', '0', '2']);
        assert(year.drop_last().drop_last() =~= seq!['2', '0']);
        assert(year.drop_last().drop_last().drop_last() =~= seq!['2']);
        assert(year.drop_last().drop_last().drop_last().drop_last() =~= Seq::<char>::empty());
        reveal_with_fuel(crate::text::digits_value, 5);
        assert(crate::text::digits_value(year) == 2026);
    }
    match lexicon_stamp(SAMPLE_AT) {
        Some(t) => Ok(sample_records(t.as_str(), node_uri.as_str(), tass_uri.as_str())),
        None => Err(SampleError::Timestamp),
    }
}

} // verus!
