//! The mage record's data-access rules: pages of stats records summarized by
//! shape, the `milliQuintessenceUpdatedAt` stamp modes a write takes, and the
//! read-modify-write of the mage block of a per-system envelope.

use vstd::prelude::*;
use crate::json::{entry_get, entry_object, keys_of, lemma_member_from, lemma_member_from_update, set_member, JsonValue};
use crate::mage::{is_mage_envelope, mage_envelope};
use crate::quint::{points_of, Quint, SheetPatch, sheet_patch};
use crate::quint_jac::{root_of, QuintError};
use crate::repo::{ListPage, RecordEnvelope};
use crate::stats::{StatsSummary, summarize_record, payload_of, summary_fields_of, names_view};
use crate::text::{after_last, chars_of, digits_value, is_digit, lemma_digits_push};

verus! {

/// One page of `actor.rpg.stats` records, each summarized by shape.
pub struct StatsPage {
    pub cursor: Option<String>,
    pub records: Vec<StatsSummary>,
}

/// `s` summarizes the record `e`.
pub open spec fn summarizes(s: StatsSummary, e: RecordEnvelope) -> bool {
    let rkey = after_last(e.uri@, '/');
    &&& s.uri@ == e.uri@
    &&& (s.cid is Some <==> e.cid is Some)
    &&& (s.cid matches Some(c) ==> c@ == e.cid->0@)
    &&& s.rkey@ == rkey
    &&& s.shape@ == payload_of(e.value, rkey).1
    &&& (s.system is Some <==> payload_of(e.value, rkey).2 is Some)
    &&& (s.system matches Some(x) ==> x@ == payload_of(e.value, rkey).2->0)
    &&& names_view(s.fields@) == summary_fields_of(e.value, rkey)
}

/// Summarize a listed page of stats records by shape, in order, keeping its
/// cursor.
pub fn stats_page(page: ListPage) -> (p: StatsPage)
    ensures
        p.cursor == page.cursor,
        p.records.len() == page.records.len(),
        forall|i: int| 0 <= i < p.records.len() ==> summarizes(#[trigger] p.records@[i], page.records@[i]),
{
    let mut records: Vec<StatsSummary> = Vec::new();
    let mut i: usize = 0;
    while i < page.records.len()
        invariant
            i <= page.records.len(),
            records.len() == i,
            forall|j: int| 0 <= j < i ==> summarizes(#[trigger] records@[j], page.records@[j]),
        decreases page.records.len() - i,
    {
        let env = &page.records[i];
        let cid = match &env.cid {
            Some(c) => Some(c.as_str()),
            None => None,
        };
        let s = summarize_record(env.uri.as_str(), cid, &env.value);
        records.push(s);
        i = i + 1;
    }
    StatsPage { cursor: page.cursor, records }
}

/// How a write stamps `milliQuintessenceUpdatedAt`.
#[derive(Debug, Clone)]
enum Stamp {
    /// The write layer's current time (the default).
    Now,
    /// A caller-supplied ISO-8601 time.
    At(String),
    /// No stamp.
    Unset,
}

/// Options for a balance write: by default the write stamps "now".
#[derive(Debug, Clone)]
pub struct WriteOpts {
    stamp: Stamp,
}

/// The stamp a write with these options puts on the patch, given the write
/// layer's `now`: `now`, the caller's time, or none.
pub closed spec fn stamp_with(opts: WriteOpts, now: Seq<char>) -> Option<Seq<char>> {
    match opts.stamp {
        Stamp::Now => Some(now),
        Stamp::At(ts) => Some(ts@),
        Stamp::Unset => None,
    }
}

/// `t` is the block stamp a write with these options leaves, given the
/// write layer's `now` (a lexicon datetime): `now` itself, or what the
/// caller's time becomes; never, for an unstamped write.
pub closed spec fn stamp_written(opts: WriteOpts, now: Seq<char>, t: Seq<char>) -> bool {
    match opts.stamp {
        Stamp::Now => t == now,
        Stamp::At(ts) => stamp_left(ts@, t),
        Stamp::Unset => false,
    }
}

/// The options whose caller time (if any) can be rounded to microseconds.
pub closed spec fn stamp_roundable(opts: WriteOpts) -> bool {
    match opts.stamp {
        Stamp::At(ts) => datetime_roundable(ts@),
        _ => true,
    }
}

impl Default for WriteOpts {
    fn default() -> (o: Self)
        ensures
            forall|now: Seq<char>| #[trigger] stamp_with(o, now) == Some(now),
            forall|now: Seq<char>, t: Seq<char>| #[trigger] stamp_written(o, now, t) <==> t == now,
            stamp_roundable(o),
    {
        WriteOpts { stamp: Stamp::Now }
    }
}

impl WriteOpts {
    /// Stamp with a caller-supplied ISO-8601 time instead of "now".
    pub fn at(self, ts: &str) -> (o: Self)
        ensures
            forall|now: Seq<char>| #[trigger] stamp_with(o, now) == Some(ts@),
            forall|now: Seq<char>, t: Seq<char>| #[trigger] stamp_written(o, now, t) <==> stamp_left(ts@, t),
            stamp_roundable(o) == datetime_roundable(ts@),
    {
        WriteOpts { stamp: Stamp::At(ts.to_owned()) }
    }

    /// Do not write `milliQuintessenceUpdatedAt` at all.
    pub fn unstamped(self) -> (o: Self)
        ensures
            forall|now: Seq<char>| #[trigger] stamp_with(o, now) is None,
            forall|now: Seq<char>, t: Seq<char>| !#[trigger] stamp_written(o, now, t),
            stamp_roundable(o),
    {
        WriteOpts { stamp: Stamp::Unset }
    }
}

/// Build the patch for `q` under the stamp `opts`, where `now` is the write
/// layer's current time.
pub fn build_patch(q: Quint, opts: &WriteOpts, now: &str) -> (p: SheetPatch)
    ensures
        p.milli_quintessence == q@,
        p.quintessence == points_of(q@),
        p.milli_quintessence_updated_at is Some <==> stamp_with(*opts, now@) is Some,
        p.milli_quintessence_updated_at matches Some(t) ==> t@ == stamp_with(*opts, now@)->0,
{
    match &opts.stamp {
        Stamp::Now => sheet_patch(q).with_updated_at(now),
        Stamp::At(ts) => sheet_patch(q).with_updated_at(ts.as_str()),
        Stamp::Unset => sheet_patch(q),
    }
}

/// The text of the lexicon datetime (jacquard's `Datetime`) of the time
/// chrono parses from the RFC 3339 text `ts`; `None` when chrono does not
/// parse it.
pub uninterp spec fn lexicon_datetime(ts: Seq<char>) -> Option<Seq<char>>;

/// The texts whose time can be rounded to microseconds, as a lexicon
/// datetime is: chrono rounds only times whose nanosecond timestamp fits an
/// `i64`, which a year within `[1678, 2261]` ensures. (A text that does not
/// open with four digits does not parse.)
pub open spec fn datetime_roundable(ts: Seq<char>) -> bool {
    (ts.len() >= 4 && is_digit(ts[0]) && is_digit(ts[1]) && is_digit(ts[2]) && is_digit(ts[3]))
        ==> 1678 <= digits_value(ts.take(4)) <= 2261
}

/// Whether a text's time can be rounded to microseconds (see
/// [`datetime_roundable`]).
pub fn roundable(ts: &str) -> (b: bool)
    ensures
        b == datetime_roundable(ts@),
{
    let v = chars_of(ts);
    if v.len() < 4 {
        return true;
    }
    let mut year: u64 = 0;
    let mut i: usize = 0;
    while i < 4
        invariant
            i <= 4 <= v.len(),
            v@ == ts@,
            forall|k: int| 0 <= k < i ==> is_digit(#[trigger] v@[k]),
            year == digits_value(v@.take(i as int)),
            year < 10000,
            i == 0 ==> year == 0,
            i == 1 ==> year < 10,
            i == 2 ==> year < 100,
            i == 3 ==> year < 1000,
        decreases 4 - i,
    {
        let c = v[i];
        if !(c >= '0' && c <= '9') {
            return true;
        }
        proof {
            lemma_digits_push(v@.take(i as int), c);
            assert(v@.take(i + 1) =~= v@.take(i as int).push(c));
        }
        year = year * 10 + ((c as u32) - ('0' as u32)) as u64;
        i = i + 1;
    }
    1678 <= year && year <= 2261
}

/// chrono's `DateTime::parse_from_rfc3339`, made a lexicon datetime with
/// jacquard's `Datetime::from`, as its text; `None` when chrono rejects the
/// text. `Datetime::from` panics for a time it cannot round to microseconds,
/// which `requires` leaves out.
#[verifier::external_body]
pub(crate) fn lexicon_stamp(ts: &str) -> (r: Option<String>)
    requires
        datetime_roundable(ts@),
    ensures
        match lexicon_datetime(ts@) {
            Some(t) => r matches Some(s) && s@ == t,
            None => r is None,
        },
{
    match chrono::DateTime::parse_from_rfc3339(ts) {
        Ok(dt) => Some(String::from(jacquard_common::types::datetime::Datetime::from(dt))),
        Err(_) => None,
    }
}

/// jacquard's `Datetime::now()`, the current time as a lexicon datetime, as
/// its text. Nothing is claimed of the time.
#[verifier::external_body]
pub(crate) fn lexicon_now() -> (s: String) {
    String::from(jacquard_common::types::datetime::Datetime::now())
}

/// The block stamp a patch's time `ts` leaves: its lexicon datetime when
/// chrono parses it; otherwise the time of the write, which nothing here
/// fixes.
pub open spec fn stamp_left(ts: Seq<char>, t: Seq<char>) -> bool {
    lexicon_datetime(ts) matches Some(x) ==> t == x
}

/// `new` is the block `old` with the balance `millis`, its replicated floor
/// `points` and, when `stamped`, a stamp meeting `stamp_ok` written; every
/// other member reads as before.
pub open spec fn fields_written(
    old: Seq<(String, JsonValue)>,
    new: Seq<(String, JsonValue)>,
    millis: i64,
    points: i64,
    stamped: bool,
    stamp_ok: spec_fn(Seq<char>) -> bool,
) -> bool {
    &&& entry_get(new, "milliQuintessence"@) == Some(JsonValue::Int(millis))
    &&& entry_get(new, "quintessence"@) == Some(JsonValue::Int(points))
    &&& if stamped {
        entry_get(new, "milliQuintessenceUpdatedAt"@) matches Some(JsonValue::Str(t)) && stamp_ok(t@)
    } else {
        entry_get(new, "milliQuintessenceUpdatedAt"@) == entry_get(old, "milliQuintessenceUpdatedAt"@)
    }
    &&& forall|k: Seq<char>|
        k != "milliQuintessence"@ && k != "quintessence"@ && k != "milliQuintessenceUpdatedAt"@
            ==> #[trigger] entry_get(new, k) == entry_get(old, k)
}

/// `new` is the block `old` with a patch applied: the balance, its
/// replicated floor, and (when the patch is stamped) the stamp its time
/// leaves; every other member reads as before.
pub open spec fn patch_applied(
    old: Seq<(String, JsonValue)>,
    new: Seq<(String, JsonValue)>,
    millis: i64,
    points: i64,
    stamp: Option<Seq<char>>,
) -> bool {
    fields_written(old, new, millis, points, stamp is Some, |t: Seq<char>| stamp_left(stamp->0, t))
}

proof fn lemma_field_names_differ()
    ensures
        "milliQuintessence"@ != "quintessence"@,
        "milliQuintessence"@ != "milliQuintessenceUpdatedAt"@,
        "quintessence"@ != "milliQuintessenceUpdatedAt"@,
{
    reveal_strlit("milliQuintessence");
    reveal_strlit("quintessence");
    reveal_strlit("milliQuintessenceUpdatedAt");
    assert("milliQuintessence"@.len() != "quintessence"@.len());
    assert("milliQuintessence"@.len() != "milliQuintessenceUpdatedAt"@.len());
    assert("quintessence"@.len() != "milliQuintessenceUpdatedAt"@.len());
}

/// Write the balance, its floor and an optional stamp text into a block.
fn write_fields(mage: &mut Vec<(String, JsonValue)>, millis: i64, points: i64, stamp: Option<String>)
    ensures
        entry_get(final(mage)@, "milliQuintessence"@) == Some(JsonValue::Int(millis)),
        entry_get(final(mage)@, "quintessence"@) == Some(JsonValue::Int(points)),
        match stamp {
            Some(t) => entry_get(final(mage)@, "milliQuintessenceUpdatedAt"@) == Some(JsonValue::Str(t)),
            None => entry_get(final(mage)@, "milliQuintessenceUpdatedAt"@)
                == entry_get(old(mage)@, "milliQuintessenceUpdatedAt"@),
        },
        forall|k: Seq<char>|
            k != "milliQuintessence"@ && k != "quintessence"@ && k != "milliQuintessenceUpdatedAt"@
                ==> #[trigger] entry_get(final(mage)@, k) == entry_get(old(mage)@, k),
{
    proof { lemma_field_names_differ(); }
    set_member(mage, "milliQuintessence", JsonValue::Int(millis));
    set_member(mage, "quintessence", JsonValue::Int(points));
    match stamp {
        Some(t) => {
            set_member(mage, "milliQuintessenceUpdatedAt", JsonValue::Str(t));
        },
        None => {},
    }
}

/// The stamp text a caller's time `ts` becomes: its lexicon datetime, or the
/// current time when chrono does not parse it.
fn stamp_text(ts: &str) -> (t: String)
    requires
        datetime_roundable(ts@),
    ensures
        stamp_left(ts@, t@),
{
    match lexicon_stamp(ts) {
        Some(t) => t,
        None => lexicon_now(),
    }
}

/// Apply a patch to a mage block: set `milliQuintessence`, the replicated
/// `quintessence` floor, and, when the patch is stamped,
/// `milliQuintessenceUpdatedAt` (the lexicon datetime of its time, or the
/// current time when that does not parse).
pub fn apply_quint(mage: &mut Vec<(String, JsonValue)>, patch: &SheetPatch)
    requires
        patch.milli_quintessence_updated_at matches Some(ts) ==> datetime_roundable(ts@),
    ensures
        patch_applied(old(mage)@, final(mage)@, patch.milli_quintessence, patch.quintessence,
            match patch.milli_quintessence_updated_at { Some(t) => Some(t@), None => None }),
{
    let stamp = match &patch.milli_quintessence_updated_at {
        Some(ts) => Some(stamp_text(ts.as_str())),
        None => None,
    };
    write_fields(mage, patch.milli_quintessence, patch.quintessence, stamp);
}

/// The records a write can patch: per-system mage envelopes whose `data` is
/// an object.
pub open spec fn writable(v: JsonValue) -> bool {
    is_mage_envelope(v) && v is Object && entry_object(root_of(v), "data"@) is Some
}

/// `new` is the record `old` prepared for the write of balance `q` under
/// `opts` at time `now` (a lexicon datetime): its `data` block holds the
/// balance, its floor and the stamp the options leave, its `updatedAt` is
/// `now`, and every other member is as before.
pub open spec fn write_prepared(old: JsonValue, new: JsonValue, q: Quint, opts: WriteOpts, now: Seq<char>) -> bool {
    let root = root_of(new);
    &&& new is Object
    &&& entry_get(root, "updatedAt"@) matches Some(JsonValue::Str(t)) && t@ == now
    &&& entry_object(root, "data"@) matches Some(b)
        && fields_written(entry_object(root_of(old), "data"@)->0, b, q@ as i64,
            points_of(q@) as i64, stamp_with(opts, now) is Some, |t: Seq<char>| stamp_written(opts, now, t))
    &&& forall|k: Seq<char>| k != "data"@ && k != "updatedAt"@
        ==> #[trigger] entry_get(root, k) == entry_get(root_of(old), k)
}

/// The block stamp a write under `opts` leaves at time `now`.
fn write_stamp(opts: &WriteOpts, now: &str) -> (t: Option<String>)
    requires
        stamp_roundable(*opts),
    ensures
        t is Some <==> stamp_with(*opts, now@) is Some,
        t matches Some(x) ==> stamp_written(*opts, now@, x@),
{
    match &opts.stamp {
        Stamp::Now => Some(now.to_owned()),
        Stamp::At(ts) => Some(stamp_text(ts.as_str())),
        Stamp::Unset => None,
    }
}

/// Prepare a stats record for the write of balance `q` under `opts` at time
/// `now`, the write's lexicon datetime: the record must be a mage envelope
/// with a `data` block; the block gets the balance, its floor and the stamp,
/// and the record-level `updatedAt` bumps to `now`. Returns the balance
/// written.
pub fn prepare_write_with(record: &mut JsonValue, q: Quint, opts: &WriteOpts, now: &str) -> (r: Result<Quint, QuintError>)
    requires
        stamp_roundable(*opts),
    ensures
        r is Ok <==> writable(*old(record)),
        r is Err ==> (r matches Err(QuintError::NoMageBlock) && *final(record) == *old(record)),
        r matches Ok(w) ==> w == q,
        r is Ok ==> write_prepared(*old(record), *final(record), q, *opts, now@),
{
    if !mage_envelope(record) {
        return Err(QuintError::NoMageBlock);
    }
    let index = match record.as_object() {
        Some(root) => match crate::json::entry_index(root, "data") {
            Some(i) => {
                proof { lemma_member_from(root@, "data"@, 0); }
                if root[i].1.as_object().is_some() {
                    Some(i)
                } else {
                    None
                }
            },
            None => None,
        },
        None => None,
    };
    let i = match index {
        Some(i) => i,
        None => {
            return Err(QuintError::NoMageBlock);
        },
    };
    let stamp = write_stamp(opts, now);
    proof {
        reveal_strlit("data");
        reveal_strlit("updatedAt");
        assert("data"@.len() != "updatedAt"@.len());
    }
    match record {
        JsonValue::Object(root) => {
            let ghost r1 = root@;
            match &mut root[i].1 {
                JsonValue::Object(block) => {
                    write_fields(block, q.millis(), q.points(), stamp);
                },
                _ => {
                    proof { assert(false); }
                },
            }
            proof {
                let r2 = root@;
                assert(r2[i as int].0 == r1[i as int].0);
                assert(r2 == r1.update(i as int, r2[i as int]));
                assert forall|k: Seq<char>| k != "data"@ implies #[trigger] entry_get(r2, k) == entry_get(r1, k) by {
                    lemma_member_from_update(r1, i as int, r2[i as int], k, 0);
                    lemma_member_from(r1, k, 0);
                }
                lemma_member_from_update(r1, i as int, r2[i as int], "data"@, 0);
            }
            set_member(root, "updatedAt", JsonValue::Str(now.to_owned()));
        },
        _ => {
            proof { assert(false); }
        },
    }
    Ok(q)
}

/// Prepare a stats record for the write of balance `q` under `opts`,
/// stamped with the current time as a lexicon datetime; the time used comes
/// back with the balance.
pub fn prepare_write(record: &mut JsonValue, q: Quint, opts: &WriteOpts) -> (r: Result<(Quint, String), QuintError>)
    requires
        stamp_roundable(*opts),
    ensures
        r is Ok <==> writable(*old(record)),
        r is Err ==> (r matches Err(QuintError::NoMageBlock) && *final(record) == *old(record)),
        r matches Ok((w, now)) ==> w == q && write_prepared(*old(record), *final(record), q, *opts, now@),
{
    let now = lexicon_now();
    match prepare_write_with(record, q, opts, now.as_str()) {
        Ok(w) => Ok((w, now)),
        Err(e) => Err(e),
    }
}

/// A balance written through a prepared write reads back: the record stays a
/// mage envelope and its block holds exactly the balance written.
pub proof fn law_prepared_write_reads_back(old: JsonValue, new: JsonValue, q: Quint, opts: WriteOpts, now: Seq<char>)
    requires
        writable(old),
        write_prepared(old, new, q, opts, now),
    ensures
        crate::mage::mage_block_of(new) matches Some(b) && crate::quint_jac::block_millis(b) == Some(q@),
{
    q.lemma_fits();
    reveal_strlit("system");
    reveal_strlit("data");
    reveal_strlit("updatedAt");
    assert("system"@.len() != "data"@.len());
    assert("system"@.len() != "updatedAt"@.len());
    assert(entry_get(root_of(new), "system"@) == entry_get(root_of(old), "system"@));
    let b = entry_object(root_of(new), "data"@)->0;
    assert(crate::json::entry_int(b, "milliQuintessence"@) == Some(q@ as i64));
}

} // verus!
