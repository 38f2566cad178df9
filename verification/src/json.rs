//! A plain model of a JSON value, for the record-inspection logic.
//!
//! Object members keep the order the transport delivered them in. A
//! well-formed value, as a JSON parser's map holds one, has no key twice in
//! any of its objects ([`well_formed`]); a lookup yields the first member
//! with the key, which in a well-formed object is the only one.

use vstd::prelude::*;
use crate::text::str_eq;

verus! {

/// A JSON value. Integers that fit in an `i64` are `Int`; larger unsigned
/// integers are `Uint`; any other number is `Float`, holding the number's
/// JSON text as it was written.
#[derive(Debug, PartialEq)]
pub enum JsonValue {
    Null,
    Bool(bool),
    Int(i64),
    Uint(u64),
    Float(String),
    Str(String),
    Array(Vec<JsonValue>),
    Object(Vec<(String, JsonValue)>),
}

/// The first member of `entries` with key `key`, at or after index `i`.
pub open spec fn member_from(entries: Seq<(String, JsonValue)>, key: Seq<char>, i: nat) -> Option<int>
    decreases entries.len() - i,
{
    if i >= entries.len() {
        None
    } else if entries[i as int].0@ == key {
        Some(i as int)
    } else {
        member_from(entries, key, i + 1)
    }
}

/// The value of the first member of `entries` with key `key`.
pub open spec fn entry_get(entries: Seq<(String, JsonValue)>, key: Seq<char>) -> Option<JsonValue> {
    match member_from(entries, key, 0) {
        Some(i) => Some(entries[i].1),
        None => None,
    }
}

/// `v[key]` for an object `v`; `None` for a missing key or a non-object.
pub open spec fn get(v: JsonValue, key: Seq<char>) -> Option<JsonValue> {
    match v {
        JsonValue::Object(entries) => entry_get(entries@, key),
        _ => None,
    }
}

/// The integer held by `v`, when it is one that fits in an `i64`.
pub open spec fn int_of(v: JsonValue) -> Option<i64> {
    match v {
        JsonValue::Int(i) => Some(i),
        _ => None,
    }
}

/// The text held by `v`, when it is a string.
pub open spec fn str_of(v: JsonValue) -> Option<Seq<char>> {
    match v {
        JsonValue::Str(s) => Some(s@),
        _ => None,
    }
}

/// The members of `v`, when it is an object.
pub open spec fn object_of(v: JsonValue) -> Option<Seq<(String, JsonValue)>> {
    match v {
        JsonValue::Object(entries) => Some(entries@),
        _ => None,
    }
}

/// `v[key]` as an integer.
pub open spec fn get_int(v: JsonValue, key: Seq<char>) -> Option<i64> {
    match get(v, key) {
        Some(x) => int_of(x),
        None => None,
    }
}

/// `v[key]` as a string.
pub open spec fn get_str(v: JsonValue, key: Seq<char>) -> Option<Seq<char>> {
    match get(v, key) {
        Some(x) => str_of(x),
        None => None,
    }
}

/// `v[key]` as an object.
pub open spec fn get_object(v: JsonValue, key: Seq<char>) -> Option<Seq<(String, JsonValue)>> {
    match get(v, key) {
        Some(x) => object_of(x),
        None => None,
    }
}

/// The keys of `entries`, in order.
pub open spec fn keys_of(entries: Seq<(String, JsonValue)>) -> Seq<Seq<char>> {
    entries.map_values(|e: (String, JsonValue)| e.0@)
}

/// No key occurs twice among `entries`.
pub open spec fn keys_distinct(entries: Seq<(String, JsonValue)>) -> bool {
    forall|i: int, j: int| 0 <= i < j < entries.len() ==> #[trigger] entries[i].0@ != #[trigger] entries[j].0@
}

/// A well-formed JSON value: no object in it, at any depth, has a key twice.
pub open spec fn well_formed(v: JsonValue) -> bool
    decreases v,
{
    match v {
        JsonValue::Array(items) => forall|i: int| 0 <= i < items@.len() ==> well_formed(#[trigger] items@[i]),
        JsonValue::Object(entries) => keys_distinct(entries@)
            && forall|i: int| 0 <= i < entries@.len() ==> well_formed(#[trigger] entries@[i].1),
        _ => true,
    }
}

pub proof fn lemma_member_from(entries: Seq<(String, JsonValue)>, key: Seq<char>, i: nat)
    ensures
        member_from(entries, key, i) matches Some(k) ==> i <= k < entries.len() && entries[k].0@ == key
            && forall|j: int| i <= j < k ==> entries[j].0@ != key,
        member_from(entries, key, i) is None ==> forall|j: int| i <= j < entries.len() ==> entries[j].0@ != key,
    decreases entries.len() - i,
{
    if i < entries.len() && entries[i as int].0@ != key {
        lemma_member_from(entries, key, i + 1);
    }
}

/// In an object with distinct keys, the member with a key is the one a
/// lookup of that key yields.
pub proof fn lemma_distinct_lookup(entries: Seq<(String, JsonValue)>, i: int)
    requires
        keys_distinct(entries),
        0 <= i < entries.len(),
    ensures
        entry_get(entries, entries[i].0@) == Some(entries[i].1),
{
    lemma_member_from(entries, entries[i].0@, 0);
    let k = member_from(entries, entries[i].0@, 0)->0;
    if k != i {
        if k < i {
            assert(entries[k].0@ != entries[i].0@);
        }
    }
}

/// The value of the first member of `entries` with key `key`.
pub fn entry_lookup<'a>(entries: &'a Vec<(String, JsonValue)>, key: &str) -> (r: Option<&'a JsonValue>)
    ensures
        r is Some <==> entry_get(entries@, key@) is Some,
        r matches Some(x) ==> *x == entry_get(entries@, key@)->0,
{
    let mut i: usize = 0;
    while i < entries.len()
        invariant
            i <= entries.len(),
            forall|j: int| 0 <= j < i ==> entries@[j].0@ != key@,
        decreases entries.len() - i,
    {
        if str_eq(entries[i].0.as_str(), key) {
            proof { lemma_member_from(entries@, key@, 0); }
            return Some(&entries[i].1);
        }
        i = i + 1;
    }
    proof { lemma_member_from(entries@, key@, 0); }
    None
}

/// The keys of `entries`, in order.
pub fn entry_keys(entries: &Vec<(String, JsonValue)>) -> (r: Vec<String>)
    ensures
        r@.map_values(|s: String| s@) == keys_of(entries@),
{
    let mut r: Vec<String> = Vec::new();
    let mut i: usize = 0;
    while i < entries.len()
        invariant
            i <= entries.len(),
            r@.map_values(|s: String| s@) == keys_of(entries@.take(i as int)),
        decreases entries.len() - i,
    {
        let ghost before = r@;
        r.push(entries[i].0.clone());
        assert(entries@.take(i + 1) =~= entries@.take(i as int).push(entries@[i as int]));
        assert(r@ =~= before.push(entries@[i as int].0));
        assert(r@.map_values(|s: String| s@) =~= before.map_values(|s: String| s@).push(entries@[i as int].0@));
        assert(keys_of(entries@.take(i + 1)) =~= keys_of(entries@.take(i as int)).push(entries@[i as int].0@));
        i = i + 1;
    }
    assert(entries@.take(entries.len() as int) =~= entries@);
    r
}

impl JsonValue {
    /// `self[key]` for an object; `None` for a missing key or a non-object.
    pub fn get(&self, key: &str) -> (r: Option<&JsonValue>)
        ensures
            r is Some <==> get(*self, key@) is Some,
            r matches Some(x) ==> *x == get(*self, key@)->0,
    {
        match self {
            JsonValue::Object(entries) => entry_lookup(entries, key),
            _ => None,
        }
    }

    /// The integer held, when it fits in an `i64`.
    pub fn as_i64(&self) -> (r: Option<i64>)
        ensures
            r == int_of(*self),
    {
        match self {
            JsonValue::Int(i) => Some(*i),
            _ => None,
        }
    }

    /// The text held, when this is a string.
    pub fn as_str(&self) -> (r: Option<&String>)
        ensures
            r is Some <==> str_of(*self) is Some,
            r matches Some(s) ==> s@ == str_of(*self)->0,
    {
        match self {
            JsonValue::Str(s) => Some(s),
            _ => None,
        }
    }

    /// The members, when this is an object.
    pub fn as_object(&self) -> (r: Option<&Vec<(String, JsonValue)>>)
        ensures
            r is Some <==> object_of(*self) is Some,
            r matches Some(e) ==> e@ == object_of(*self)->0,
    {
        match self {
            JsonValue::Object(entries) => Some(entries),
            _ => None,
        }
    }

    /// `self[key]` as an integer.
    pub fn get_i64(&self, key: &str) -> (r: Option<i64>)
        ensures
            r == get_int(*self, key@),
    {
        match self.get(key) {
            Some(x) => x.as_i64(),
            None => None,
        }
    }

    /// `self[key]` as a string.
    pub fn get_str(&self, key: &str) -> (r: Option<&String>)
        ensures
            r is Some <==> get_str(*self, key@) is Some,
            r matches Some(s) ==> s@ == get_str(*self, key@)->0,
    {
        match self.get(key) {
            Some(x) => x.as_str(),
            None => None,
        }
    }

    /// `self[key]` as an object.
    pub fn get_object(&self, key: &str) -> (r: Option<&Vec<(String, JsonValue)>>)
        ensures
            r is Some <==> get_object(*self, key@) is Some,
            r matches Some(e) ==> e@ == get_object(*self, key@)->0,
    {
        match self.get(key) {
            Some(x) => x.as_object(),
            None => None,
        }
    }
}


/// `entries[key]` as an integer.
pub open spec fn entry_int(entries: Seq<(String, JsonValue)>, key: Seq<char>) -> Option<i64> {
    match entry_get(entries, key) {
        Some(x) => int_of(x),
        None => None,
    }
}

/// `entries[key]` as an object.
pub open spec fn entry_object(entries: Seq<(String, JsonValue)>, key: Seq<char>) -> Option<Seq<(String, JsonValue)>> {
    match entry_get(entries, key) {
        Some(x) => object_of(x),
        None => None,
    }
}

/// `new` is `old` with the member `key` set to `v`: every other key reads as
/// before, and `key` reads as `v`.
pub open spec fn member_set(old: Seq<(String, JsonValue)>, new: Seq<(String, JsonValue)>, key: Seq<char>, v: JsonValue) -> bool {
    &&& entry_get(new, key) == Some(v)
    &&& forall|k: Seq<char>| k != key ==> #[trigger] entry_get(new, k) == entry_get(old, k)
}

pub proof fn lemma_member_from_update(s: Seq<(String, JsonValue)>, i: int, e: (String, JsonValue), k: Seq<char>, n: nat)
    requires
        0 <= i < s.len(),
        e.0@ == s[i].0@,
    ensures
        member_from(s.update(i, e), k, n) == member_from(s, k, n),
    decreases s.len() - n,
{
    if n < s.len() {
        lemma_member_from_update(s, i, e, k, n + 1);
    }
}

pub proof fn lemma_member_from_push(s: Seq<(String, JsonValue)>, e: (String, JsonValue), k: Seq<char>, n: nat)
    requires
        n <= s.len(),
    ensures
        member_from(s, k, n) is Some ==> member_from(s.push(e), k, n) == member_from(s, k, n),
        member_from(s, k, n) is None ==> member_from(s.push(e), k, n) == (if e.0@ == k { Some(s.len() as int) } else { None::<int> }),
    decreases s.len() - n,
{
    if n < s.len() {
        lemma_member_from_push(s, e, k, n + 1);
    } else {
        assert(s.push(e)[n as int] == e);
        assert(member_from(s.push(e), k, n + 1) is None);
    }
}

/// The index of the first member of `entries` with key `key`.
pub fn entry_index(entries: &Vec<(String, JsonValue)>, key: &str) -> (r: Option<usize>)
    ensures
        r is Some <==> member_from(entries@, key@, 0) is Some,
        r matches Some(i) ==> i == member_from(entries@, key@, 0)->0 && i < entries.len(),
{
    let mut i: usize = 0;
    while i < entries.len()
        invariant
            i <= entries.len(),
            forall|j: int| 0 <= j < i ==> entries@[j].0@ != key@,
        decreases entries.len() - i,
    {
        if str_eq(entries[i].0.as_str(), key) {
            proof { lemma_member_from(entries@, key@, 0); }
            return Some(i);
        }
        i = i + 1;
    }
    proof { lemma_member_from(entries@, key@, 0); }
    None
}

/// Set member `key` of `entries` to `v`: replace the value of the first
/// member with that key in place, or append a new member when there is none.
pub fn set_member(entries: &mut Vec<(String, JsonValue)>, key: &str, v: JsonValue)
    ensures
        member_set(old(entries)@, final(entries)@, key@, v),
        keys_of(final(entries)@) == (if member_from(old(entries)@, key@, 0) is Some {
            keys_of(old(entries)@)
        } else {
            keys_of(old(entries)@).push(key@)
        }),
        keys_distinct(old(entries)@) ==> keys_distinct(final(entries)@),
        well_formed(JsonValue::Object(*old(entries))) && well_formed(v)
            ==> well_formed(JsonValue::Object(*final(entries))),
{
    match entry_index(entries, key) {
        Some(i) => {
            let ghost before = entries@;
            let k = entries[i].0.clone();
            entries.set(i, (k, v));
            proof {
                let e = entries@[i as int];
                lemma_member_from(before, key@, 0);
                assert forall|kk: Seq<char>| kk != key@ implies #[trigger] entry_get(entries@, kk) == entry_get(before, kk) by {
                    lemma_member_from_update(before, i as int, e, kk, 0);
                    lemma_member_from(before, kk, 0);
                }
                lemma_member_from_update(before, i as int, e, key@, 0);
                assert(keys_of(entries@) =~= keys_of(before));
                assert forall|a: int, b: int| 0 <= a < b < entries@.len() && keys_distinct(before)
                    implies #[trigger] entries@[a].0@ != #[trigger] entries@[b].0@ by {
                    assert(keys_of(entries@)[a] == keys_of(before)[a]);
                    assert(keys_of(entries@)[b] == keys_of(before)[b]);
                    assert(before[a].0@ != before[b].0@);
                }
                assert forall|j: int| 0 <= j < entries@.len() && (forall|m: int| 0 <= m < before.len() ==> well_formed(#[trigger] before[m].1)) && well_formed(v)
                    implies well_formed(#[trigger] entries@[j].1) by {
                    if j != i {
                        assert(entries@[j] == before[j]);
                    }
                }
            }
        },
        None => {
            let ghost before = entries@;
            let k = key.to_owned();
            entries.push((k, v));
            proof {
                let e = entries@[before.len() as int];
                assert(entries@ == before.push(e));
                assert forall|kk: Seq<char>| kk != key@ implies #[trigger] entry_get(entries@, kk) == entry_get(before, kk) by {
                    lemma_member_from_push(before, e, kk, 0);
                    lemma_member_from(before, kk, 0);
                }
                lemma_member_from_push(before, e, key@, 0);
                assert(keys_of(entries@) =~= keys_of(before).push(key@));
                lemma_member_from(before, key@, 0);
                assert forall|a: int, b: int| 0 <= a < b < entries@.len() && keys_distinct(before)
                    implies #[trigger] entries@[a].0@ != #[trigger] entries@[b].0@ by {
                    if b < before.len() {
                        assert(before[a].0@ != before[b].0@);
                    } else {
                        assert(entries@[b] == e);
                        assert(entries@[a] == before[a]);
                    }
                }
                assert forall|j: int| 0 <= j < entries@.len() && (forall|m: int| 0 <= m < before.len() ==> well_formed(#[trigger] before[m].1)) && well_formed(v)
                    implies well_formed(#[trigger] entries@[j].1) by {
                    if j < before.len() {
                        assert(entries@[j] == before[j]);
                    }
                }
            }
        },
    }
}

} // verus!
