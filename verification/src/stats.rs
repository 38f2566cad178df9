//! `actor.rpg.stats` record-family shapes: classify a stats record (per-system
//! envelope, legacy inline system, legacy self-aggregate) and summarize its
//! systems and fields.

use vstd::prelude::*;
use crate::json::{entry_keys, get, get_object, get_str, keys_of, JsonValue};
use crate::repo::rkey_from_uri;
use crate::text::{after_last, lex_lt, lemma_lex_lt_irreflexive, lemma_lex_lt_transitive, str_eq, str_lt};

verus! {

/// A summary of one stats record: its shape, which system it carries, and
/// the field names present.
#[derive(Debug, Clone, PartialEq, Eq)]
pub struct StatsSummary {
    pub uri: String,
    pub cid: Option<String>,
    pub rkey: String,
    pub shape: String,
    pub system: Option<String>,
    pub fields: Vec<String>,
}

/// A summary of one system inside a self-aggregate record.
#[derive(Debug, Clone, PartialEq, Eq)]
pub struct SystemSummary {
    pub key: String,
    pub kind: String,
    pub fields: Vec<String>,
}

/// The classification of a stats record's shape: the located system data (a
/// member of the record), the shape label, and the system name when known.
#[derive(Debug)]
pub struct StatsPayload<'a> {
    pub data: Option<&'a JsonValue>,
    pub shape: String,
    pub system: Option<String>,
}

/// The field names of a value: an object's keys, else none.
pub open spec fn field_names_of(v: JsonValue) -> Seq<Seq<char>> {
    match v {
        JsonValue::Object(es) => keys_of(es@),
        _ => Seq::empty(),
    }
}

/// The views of a list of names.
pub open spec fn names_view(v: Seq<String>) -> Seq<Seq<char>> {
    v.map_values(|s: String| s@)
}

/// The field names of `value`.
pub fn field_names(value: &JsonValue) -> (r: Vec<String>)
    ensures
        names_view(r@) == field_names_of(*value),
{
    match value {
        JsonValue::Object(es) => entry_keys(es),
        _ => {
            let r: Vec<String> = Vec::new();
            assert(names_view(r@) =~= Seq::empty());
            r
        },
    }
}

/// How a stats record is classified: `(data, shape, system)`.
pub open spec fn payload_of(v: JsonValue, rkey: Seq<char>) -> (Option<JsonValue>, Seq<char>, Option<Seq<char>>) {
    if get_str(v, "system"@) is Some && get(v, "data"@) is Some {
        (get(v, "data"@), "per-system-envelope"@, get_str(v, "system"@))
    } else if rkey == "self"@ {
        (None, "legacy-self-aggregate"@, None)
    } else if get_object(v, rkey) is Some {
        (get(v, rkey), "legacy-inline-system"@, Some(rkey))
    } else {
        (None, "unknown"@, None)
    }
}

/// Classify an `actor.rpg.stats` record value: locate its system data and
/// label its shape. `rkey` tells a `self` aggregate from a record whose
/// top-level key names an inline system.
pub fn stats_payload<'a>(value: &'a JsonValue, rkey: &str) -> (p: StatsPayload<'a>)
    ensures
        ({
            let (data, shape, system) = payload_of(*value, rkey@);
            &&& p.data is Some <==> data is Some
            &&& p.data matches Some(d) ==> *d == data->0
            &&& p.shape@ == shape
            &&& p.system is Some <==> system is Some
            &&& p.system matches Some(s) ==> s@ == system->0
        }),
{
    if let Some(system) = value.get_str("system") {
        if let Some(data) = value.get("data") {
            return StatsPayload {
                data: Some(data),
                shape: String::from_str("per-system-envelope"),
                system: Some(system.clone()),
            };
        }
    }
    if str_eq(rkey, "self") {
        return StatsPayload { data: None, shape: String::from_str("legacy-self-aggregate"), system: None };
    }
    if value.get_object(rkey).is_some() {
        return StatsPayload {
            data: value.get(rkey),
            shape: String::from_str("legacy-inline-system"),
            system: Some(rkey.to_owned()),
        };
    }
    StatsPayload { data: None, shape: String::from_str("unknown"), system: None }
}

/// The fields a summary lists: the payload's, else the record's own.
pub open spec fn summary_fields_of(v: JsonValue, rkey: Seq<char>) -> Seq<Seq<char>> {
    match payload_of(v, rkey).0 {
        Some(d) => field_names_of(d),
        None => field_names_of(v),
    }
}

/// Summarize a record by its AT-URI, CID and value: derive the rkey, classify
/// the shape, and list the payload fields (the record's own top-level fields
/// when no system payload is found).
pub fn summarize_record(uri: &str, cid: Option<&str>, value: &JsonValue) -> (s: StatsSummary)
    ensures
        s.uri@ == uri@,
        s.cid is Some <==> cid is Some,
        s.cid matches Some(c) ==> c@ == cid->0@,
        s.rkey@ == after_last(uri@, '/'),
        s.shape@ == payload_of(*value, after_last(uri@, '/')).1,
        s.system is Some <==> payload_of(*value, after_last(uri@, '/')).2 is Some,
        s.system matches Some(x) ==> x@ == payload_of(*value, after_last(uri@, '/')).2->0,
        names_view(s.fields@) == summary_fields_of(*value, after_last(uri@, '/')),
{
    let rkey = rkey_from_uri(uri).to_owned();
    let payload = stats_payload(value, rkey.as_str());
    let fields = match payload.data {
        Some(d) => field_names(d),
        None => field_names(value),
    };
    StatsSummary {
        uri: uri.to_owned(),
        cid: match cid {
            Some(c) => Some(c.to_owned()),
            None => None,
        },
        rkey,
        shape: payload.shape,
        system: payload.system,
        fields,
    }
}

// ---------------------------------------------------------------------------
// Self-aggregate systems.

/// The JSON kind of a value.
pub open spec fn kind_of(v: JsonValue) -> Seq<char> {
    match v {
        JsonValue::Object(_) => "object"@,
        JsonValue::Array(_) => "array"@,
        JsonValue::Str(_) => "string"@,
        JsonValue::Int(_) => "number"@,
        JsonValue::Uint(_) => "number"@,
        JsonValue::Float(_) => "number"@,
        JsonValue::Bool(_) => "bool"@,
        JsonValue::Null => "null"@,
    }
}

/// Keys that are metadata rather than systems: `$`-prefixed ones and the
/// timestamps.
pub open spec fn is_meta_key(k: Seq<char>) -> bool {
    (k.len() > 0 && k[0] == '$') || k == "createdAt"@ || k == "updatedAt"@
}

/// The view of a system summary: key, kind, field names.
pub open spec fn system_view(s: SystemSummary) -> (Seq<char>, Seq<char>, Seq<Seq<char>>) {
    (s.key@, s.kind@, names_view(s.fields@))
}

/// The summary views of the system members among the first `n` members.
pub open spec fn systems_upto(es: Seq<(String, JsonValue)>, n: int) -> Seq<(Seq<char>, Seq<char>, Seq<Seq<char>>)>
    decreases n,
{
    if n <= 0 {
        Seq::empty()
    } else {
        let prev = systems_upto(es, n - 1);
        let (k, v) = es[n - 1];
        if is_meta_key(k@) {
            prev
        } else {
            prev.push((k@, kind_of(v), field_names_of(v)))
        }
    }
}

/// The summary views of a self-aggregate record's systems, in member order.
pub open spec fn systems_of(raw: JsonValue) -> Seq<(Seq<char>, Seq<char>, Seq<Seq<char>>)> {
    match raw {
        JsonValue::Object(es) => systems_upto(es@, es@.len() as int),
        _ => Seq::empty(),
    }
}

proof fn lemma_systems_upto_keys(es: Seq<(String, JsonValue)>, n: int)
    requires
        0 <= n <= es.len(),
    ensures
        forall|i: int| 0 <= i < systems_upto(es, n).len() ==> !((#[trigger] systems_upto(es, n)[i]).0.len() > 0 && systems_upto(es, n)[i].0[0] == '$' || systems_upto(es, n)[i].0 == "createdAt"@ || systems_upto(es, n)[i].0 == "updatedAt"@),
    decreases n,
{
    if n > 0 {
        lemma_systems_upto_keys(es, n - 1);
        let prev = systems_upto(es, n - 1);
        let cur = systems_upto(es, n);
        assert forall|i: int| 0 <= i < cur.len() implies #[trigger] cur[i] == prev[i] || (i == prev.len()
            && cur[i].0 == es[n - 1].0@ && !is_meta_key(es[n - 1].0@)) by {
            if i < prev.len() {
                if !is_meta_key(es[n - 1].0@) {
                    assert(cur[i] == prev[i]);
                }
            }
        }
    }
}

proof fn lemma_systems_upto_has(es: Seq<(String, JsonValue)>, n: int, i: int)
    requires
        0 <= i < n <= es.len(),
        !(es[i].0@.len() > 0 && es[i].0@[0] == '$' || es[i].0@ == "createdAt"@ || es[i].0@ == "updatedAt"@),
    ensures
        systems_upto(es, n).contains((es[i].0@, kind_of(es[i].1), field_names_of(es[i].1))),
    decreases n,
{
    let prev = systems_upto(es, n - 1);
    if i < n - 1 {
        lemma_systems_upto_has(es, n - 1, i);
        let j = choose|j: int| 0 <= j < prev.len() && prev[j] == (es[i].0@, kind_of(es[i].1), field_names_of(es[i].1));
        if !is_meta_key(es[n - 1].0@) {
            assert(systems_upto(es, n)[j] == prev[j]);
        }
    } else {
        assert(systems_upto(es, n)[prev.len() as int] == (es[i].0@, kind_of(es[i].1), field_names_of(es[i].1)));
    }
}

/// A self-aggregate's systems are its top-level members other than its
/// metadata: no summary is keyed by a `$`-prefixed key or a timestamp, and
/// every other member is summarized by its key, kind and field names.
pub proof fn law_systems_skip_only_metadata(raw: JsonValue)
    ensures
        forall|i: int| 0 <= i < systems_of(raw).len() ==> !((#[trigger] systems_of(raw)[i]).0.len() > 0 && systems_of(raw)[i].0[0] == '$' || systems_of(raw)[i].0 == "createdAt"@ || systems_of(raw)[i].0 == "updatedAt"@),
        raw matches JsonValue::Object(es) ==> forall|i: int| 0 <= i < es@.len() && !((#[trigger] es@[i]).0@.len() > 0 && es@[i].0@[0] == '$' || es@[i].0@ == "createdAt"@ || es@[i].0@ == "updatedAt"@)
            ==> systems_of(raw).contains((es@[i].0@, kind_of(es@[i].1), field_names_of(es@[i].1))),
{
    match raw {
        JsonValue::Object(es) => {
            lemma_systems_upto_keys(es@, es@.len() as int);
            assert forall|i: int| 0 <= i < es@.len() && !((#[trigger] es@[i]).0@.len() > 0 && es@[i].0@[0] == '$' || es@[i].0@ == "createdAt"@ || es@[i].0@ == "updatedAt"@)
                implies systems_of(raw).contains((es@[i].0@, kind_of(es@[i].1), field_names_of(es@[i].1))) by {
                lemma_systems_upto_has(es@, es@.len() as int, i);
            }
        },
        _ => {},
    }
}

/// A record that is not a per-system envelope, read under a key other than
/// `self` that names one of its object members, is that system's legacy
/// inline sheet: its data is that member and its system is the key.
pub proof fn law_inline_system_is_named_by_its_key(v: JsonValue, rkey: Seq<char>)
    requires
        !(get_str(v, "system"@) is Some && get(v, "data"@) is Some),
        rkey != "self"@,
        get_object(v, rkey) is Some,
    ensures
        payload_of(v, rkey).2 == Some(rkey),
        payload_of(v, rkey).0 == get(v, rkey),
        payload_of(v, rkey).1 == "legacy-inline-system"@,
{
}

/// The views of a list of system summaries.
pub open spec fn systems_view(v: Seq<SystemSummary>) -> Seq<(Seq<char>, Seq<char>, Seq<Seq<char>>)> {
    v.map_values(|s: SystemSummary| system_view(s))
}

/// Summaries are in non-decreasing key order.
pub open spec fn sorted_by_key(v: Seq<(Seq<char>, Seq<char>, Seq<Seq<char>>)>) -> bool {
    forall|i: int, j: int| 0 <= i < j < v.len() ==> !lex_lt(#[trigger] v[j].0, #[trigger] v[i].0)
}

/// The kind label of a value.
fn kind_name(v: &JsonValue) -> (r: String)
    ensures
        r@ == kind_of(*v),
{
    let k = match v {
        JsonValue::Object(_) => "object",
        JsonValue::Array(_) => "array",
        JsonValue::Str(_) => "string",
        JsonValue::Int(_) => "number",
        JsonValue::Uint(_) => "number",
        JsonValue::Float(_) => "number",
        JsonValue::Bool(_) => "bool",
        JsonValue::Null => "null",
    };
    String::from_str(k)
}

/// Whether `k` is a metadata key.
fn meta_key(k: &str) -> (b: bool)
    ensures
        b == is_meta_key(k@),
{
    let v = crate::text::chars_of(k);
    (v.len() > 0 && v[0] == '$') || str_eq(k, "createdAt") || str_eq(k, "updatedAt")
}

/// Insert `s` into the key-sorted `v`, before the first summary whose key
/// sorts after it.
fn insert_sorted(v: &mut Vec<SystemSummary>, s: SystemSummary)
    requires
        sorted_by_key(systems_view(old(v)@)),
    ensures
        sorted_by_key(systems_view(final(v)@)),
        systems_view(final(v)@).to_multiset() == systems_view(old(v)@).to_multiset().insert(system_view(s)),
{
    let ghost sv = system_view(s);
    let ghost before = systems_view(v@);
    let mut p: usize = 0;
    while p < v.len() && !str_lt(s.key.as_str(), v[p].key.as_str())
        invariant
            p <= v.len(),
            sv == system_view(s),
            before == systems_view(v@),
            forall|j: int| 0 <= j < p ==> !lex_lt(sv.0, #[trigger] before[j].0),
        decreases v.len() - p,
    {
        assert(before[p as int].0 == v@[p as int].key@);
        p = p + 1;
    }
    proof {
        if p < v.len() {
            assert(before[p as int].0 == v@[p as int].key@);
            assert(lex_lt(sv.0, before[p as int].0));
        }
    }
    v.insert(p, s);
    proof {
        let after = systems_view(v@);
        assert(after =~= before.insert(p as int, sv));
        assert forall|i: int, j: int| 0 <= i < j < after.len() implies !lex_lt(#[trigger] after[j].0, #[trigger] after[i].0) by {
            if j < p {
                assert(after[i] == before[i] && after[j] == before[j]);
            } else if j == p {
                assert(after[i] == before[i]);
                assert(after[j] == sv);
            } else if i == p {
                assert(after[i] == sv);
                assert(after[j] == before[j - 1]);
                if lex_lt(before[j - 1].0, sv.0) {
                    lemma_lex_lt_transitive(before[j - 1].0, sv.0, before[p as int].0);
                    if j - 1 == p {
                        lemma_lex_lt_irreflexive(before[p as int].0);
                    } else {
                        assert(!lex_lt(before[j - 1].0, before[p as int].0));
                    }
                }
            } else if i < p {
                assert(after[i] == before[i] && after[j] == before[j - 1]);
            } else {
                assert(after[i] == before[i - 1] && after[j] == before[j - 1]);
            }
        }
        vstd::seq_lib::to_multiset_insert(before, p as int, sv);
    }
}

/// Walk a self-aggregate record's top-level systems, skipping `$`-prefixed
/// and timestamp keys, sorted by system key for stable output.
pub fn summarize_systems(raw: &JsonValue) -> (r: Vec<SystemSummary>)
    ensures
        sorted_by_key(systems_view(r@)),
        systems_view(r@).to_multiset() == systems_of(*raw).to_multiset(),
{
    let es = match raw {
        JsonValue::Object(es) => es,
        _ => {
            let r: Vec<SystemSummary> = Vec::new();
            assert(systems_view(r@) =~= Seq::empty());
            return r;
        },
    };
    let mut r: Vec<SystemSummary> = Vec::new();
    let mut i: usize = 0;
    assert(systems_view(r@) =~= Seq::empty());
    while i < es.len()
        invariant
            i <= es.len(),
            *raw == JsonValue::Object(*es),
            sorted_by_key(systems_view(r@)),
            systems_view(r@).to_multiset() == systems_upto(es@, i as int).to_multiset(),
        decreases es.len() - i,
    {
        let key = &es[i].0;
        let value = &es[i].1;
        if !meta_key(key.as_str()) {
            let s = SystemSummary { key: key.clone(), kind: kind_name(value), fields: field_names(value) };
            insert_sorted(&mut r, s);
            proof {
                vstd::seq_lib::to_multiset_build(systems_upto(es@, i as int), system_view(s));
            }
        }
        i = i + 1;
    }
    r
}

} // verus!
