//! Pattern-quintessence read and write against the mage block of an
//! `actor.rpg.stats` record held as plain JSON: where the balance is read
//! from, and how a write patches the block and stamps the record.

use vstd::prelude::*;
use crate::json::{
    entry_get, entry_int, entry_object, keys_of, lemma_member_from, lemma_member_from_update, member_from,
    set_member, JsonValue,
};
use crate::mage::{is_mage_envelope, mage_block, mage_block_of, mage_envelope};
use crate::quint::{points_of, resolvable, resolve, resolved_millis, Quint};
use crate::repo::prefixed;

verus! {

/// The collection of the rpg.actor host record.
pub const STATS_COLLECTION: &'static str = "actor.rpg.stats";

/// The record key of the canonical mage record.
pub const DEFAULT_RKEY: &'static str = "mage";

/// Errors from reading and writing the balance.
#[derive(Debug)]
pub enum QuintError {
    /// A DID/rkey/collection string failed syntax validation.
    Ident(String),
    /// A transport or typed XRPC error.
    Xrpc(String),
    /// The record has no mage block to patch.
    NoMageBlock,
    /// (De)serializing the record body failed.
    Serde(String),
}

/// The text a [`QuintError`] reads as.
pub open spec fn quint_error_text(e: QuintError) -> Seq<char> {
    match e {
        QuintError::Ident(m) => "invalid identifier: "@ + m@,
        QuintError::Xrpc(m) => "xrpc error: "@ + m@,
        QuintError::NoMageBlock => "record has no mage block to patch"@,
        QuintError::Serde(m) => "record (de)serialize error: "@ + m@,
    }
}

impl QuintError {
    /// The message this error reads as.
    pub fn message(&self) -> (r: String)
        ensures
            r@ == quint_error_text(*self),
    {
        match self {
            QuintError::Ident(m) => prefixed("invalid identifier: ", m.as_str()),
            QuintError::Xrpc(m) => prefixed("xrpc error: ", m.as_str()),
            QuintError::NoMageBlock => String::from_str("record has no mage block to patch"),
            QuintError::Serde(m) => prefixed("record (de)serialize error: ", m.as_str()),
        }
    }
}

/// What jacquard's `AtIdentifier::new_owned` says of `s`: `None` when it
/// reads as a DID or a handle, else its error's text.
pub uninterp spec fn at_identifier_error(s: Seq<char>) -> Option<Seq<char>>;

/// What jacquard's `RecordKey::any_owned` says of `s`: `None` when it is a
/// record key, else its error's text.
pub uninterp spec fn record_key_error(s: Seq<char>) -> Option<Seq<char>>;

/// jacquard's `AtIdentifier::new_owned`, reduced to its error text, as
/// [`at_identifier_error`] names it.
#[verifier::external_body]
fn check_at_identifier(s: &str) -> (r: Option<String>)
    ensures
        match at_identifier_error(s@) {
            Some(e) => r matches Some(m) && m@ == e,
            None => r is None,
        },
{
    match jacquard_common::types::ident::AtIdentifier::<jacquard_common::DefaultStr>::new_owned(s) {
        Ok(_) => None,
        Err(e) => Some(e.to_string()),
    }
}

/// jacquard's `RecordKey::any_owned`, reduced to its error text, as
/// [`record_key_error`] names it.
#[verifier::external_body]
fn check_record_key(s: &str) -> (r: Option<String>)
    ensures
        match record_key_error(s@) {
            Some(e) => r matches Some(m) && m@ == e,
            None => r is None,
        },
{
    match jacquard_common::types::recordkey::RecordKey::<
        jacquard_common::types::recordkey::Rkey<jacquard_common::DefaultStr>,
    >::any_owned(s) {
        Ok(_) => None,
        Err(e) => Some(e.to_string()),
    }
}

/// The coordinates of a stats-record request, checked as the request is
/// built: the repo must read as a DID or handle, then the rkey as a record
/// key; the first that does not is the error.
pub fn request_coordinates(repo: &str, rkey: &str) -> (r: Result<(), QuintError>)
    ensures
        match at_identifier_error(repo@) {
            Some(e) => r matches Err(QuintError::Ident(m)) && m@ == e,
            None => match record_key_error(rkey@) {
                Some(e) => r matches Err(QuintError::Ident(m)) && m@ == e,
                None => r is Ok,
            },
        },
{
    if let Some(e) = check_at_identifier(repo) {
        return Err(QuintError::Ident(e));
    }
    match check_record_key(rkey) {
        Some(e) => Err(QuintError::Ident(e)),
        None => Ok(()),
    }
}

/// The balance a mage block holds, read from its canonical wire fields.
pub open spec fn block_millis(b: Seq<(String, JsonValue)>) -> Option<int> {
    resolved_millis(entry_int(b, "milliQuintessence"@), entry_int(b, "quintessence"@))
}

/// The blocks whose balance can be read without leaving `i64`.
pub open spec fn block_readable(b: Seq<(String, JsonValue)>) -> bool {
    resolvable(entry_int(b, "milliQuintessence"@), entry_int(b, "quintessence"@))
}

/// The balance a mage block holds: `milliQuintessence`, else the legacy
/// `quintessence` points; the lexicon-canonical lower-case fields only.
pub fn block_quint(b: &Vec<(String, JsonValue)>) -> (r: Option<Quint>)
    requires
        block_readable(b@),
    ensures
        r is Some <==> block_millis(b@) is Some,
        r matches Some(q) ==> q@ == block_millis(b@)->0,
{
    let milli = match crate::json::entry_lookup(b, "milliQuintessence") {
        Some(x) => x.as_i64(),
        None => None,
    };
    let points = match crate::json::entry_lookup(b, "quintessence") {
        Some(x) => x.as_i64(),
        None => None,
    };
    resolve(milli, points)
}

/// The records whose balance can be read without leaving `i64`.
pub open spec fn record_readable(v: JsonValue) -> bool {
    mage_block_of(v) matches Some(b) ==> block_readable(b)
}

/// The balance a stats record holds: its mage block's, `None` without one.
pub fn extract_quint(value: &JsonValue) -> (r: Option<Quint>)
    requires
        record_readable(*value),
    ensures
        r is Some <==> (mage_block_of(*value) matches Some(b) && block_millis(b) is Some),
        r matches Some(q) ==> q@ == block_millis(mage_block_of(*value)->0)->0,
{
    match mage_block(value) {
        Some(b) => block_quint(b),
        None => None,
    }
}

/// `new` is the block `old` with the balance `millis` written: the source of
/// truth and its floor replicated into the legacy field; every other member
/// reads as before.
pub open spec fn quint_applied(old: Seq<(String, JsonValue)>, new: Seq<(String, JsonValue)>, millis: int) -> bool {
    &&& entry_get(new, "milliQuintessence"@) == Some(JsonValue::Int(millis as i64))
    &&& entry_get(new, "quintessence"@) == Some(JsonValue::Int(points_of(millis) as i64))
    &&& forall|k: Seq<char>| k != "milliQuintessence"@ && k != "quintessence"@
        ==> #[trigger] entry_get(new, k) == entry_get(old, k)
}

/// Write the balance `q` into a mage block: `milliQuintessence` holds it and
/// `quintessence` its floor; sibling fields are kept.
pub fn apply_quint(mage: &mut Vec<(String, JsonValue)>, q: Quint)
    ensures
        quint_applied(old(mage)@, final(mage)@, q@),
{
    let patch = crate::quint::sheet_patch(q);
    let ghost first = mage@;
    set_member(mage, "milliQuintessence", JsonValue::Int(patch.milli_quintessence));
    let ghost mid = mage@;
    set_member(mage, "quintessence", JsonValue::Int(patch.quintessence));
    assert("milliQuintessence"@ != "quintessence"@) by {
        reveal_strlit("milliQuintessence");
        reveal_strlit("quintessence");
        assert("milliQuintessence"@.len() != "quintessence"@.len());
    }
    assert(entry_get(mage@, "milliQuintessence"@) == entry_get(mid, "milliQuintessence"@));
}

/// The member of a record that a write patches: `data` in the per-system
/// envelope, else the inline `mage`.
pub open spec fn write_member(v: JsonValue) -> Seq<char> {
    if is_mage_envelope(v) {
        "data"@
    } else {
        "mage"@
    }
}

/// The members of a record, when it is an object.
pub open spec fn root_of(v: JsonValue) -> Seq<(String, JsonValue)> {
    match v {
        JsonValue::Object(es) => es@,
        _ => Seq::empty(),
    }
}

/// The records a write can patch: objects whose write member is an object.
pub open spec fn patchable(v: JsonValue) -> bool {
    v is Object && entry_object(root_of(v), write_member(v)) is Some
}

/// `new` is the record `old` with its mage block patched to balance
/// `millis`: every other member, and the order of members, as before.
pub open spec fn record_patched(old: JsonValue, new: JsonValue, millis: int) -> bool {
    let key = write_member(old);
    &&& new is Object
    &&& keys_of(root_of(new)) == keys_of(root_of(old))
    &&& forall|k: Seq<char>| k != key ==> #[trigger] entry_get(root_of(new), k) == entry_get(root_of(old), k)
    &&& entry_object(root_of(new), key) matches Some(b)
        && quint_applied(entry_object(root_of(old), key)->0, b, millis)
}

/// Patch the mage block of a record in place with balance `q`; `false`, and
/// the record untouched, when it has no block to patch.
pub fn patch_record(value: &mut JsonValue, q: Quint) -> (patched: bool)
    ensures
        patched == patchable(*old(value)),
        patched ==> record_patched(*old(value), *final(value), q@),
        !patched ==> *final(value) == *old(value),
{
    let envelope = mage_envelope(value);
    let key = if envelope { "data" } else { "mage" };
    let index = match value.as_object() {
        Some(root) => match crate::json::entry_index(root, key) {
            Some(i) => {
                proof { lemma_member_from(root@, key@, 0); }
                if root[i].1.as_object().is_some() {
                    Some(i)
                } else {
                    None
                }
            },
            None => None,
        },
        None => None,
    };
    let i = match index {
        Some(i) => i,
        None => {
            return false;
        },
    };
    match value {
        JsonValue::Object(root) => {
            let ghost r1 = root@;
            match &mut root[i].1 {
                JsonValue::Object(block) => {
                    apply_quint(block, q);
                    proof {
                        let r2 = root@;
                        assert(r2[i as int].0 == r1[i as int].0);
                        assert(r2 == r1.update(i as int, r2[i as int]));
                        assert forall|k: Seq<char>| k != key@ implies #[trigger] entry_get(r2, k) == entry_get(r1, k) by {
                            lemma_member_from_update(r1, i as int, r2[i as int], k, 0);
                            lemma_member_from(r1, k, 0);
                        }
                        lemma_member_from_update(r1, i as int, r2[i as int], key@, 0);
                        assert(keys_of(r2) =~= keys_of(r1));
                    }
                    true
                },
                _ => {
                    proof { assert(false); }
                    false
                },
            }
        },
        _ => {
            proof { assert(false); }
            false
        },
    }
}

/// Prepare a record for the write of balance `q` at time `now`: patch its
/// mage block and bump the record-level `updatedAt` to `now`.
pub fn prepare_write(value: &mut JsonValue, q: Quint, now: &str) -> (r: Result<(), QuintError>)
    ensures
        r is Ok <==> patchable(*old(value)),
        r is Err ==> (r matches Err(QuintError::NoMageBlock) && *final(value) == *old(value)),
        r is Ok ==> (*final(value) matches JsonValue::Object(es) && (entry_get(es@, "updatedAt"@)
            matches Some(JsonValue::Str(t)) && t@ == now@)),
        r is Ok ==> (entry_object(root_of(*final(value)), write_member(*old(value)))
            matches Some(b) && quint_applied(entry_object(root_of(*old(value)), write_member(*old(value)))->0, b, q@)),
{
    if !patch_record(value, q) {
        return Err(QuintError::NoMageBlock);
    }
    proof {
        reveal_strlit("data");
        reveal_strlit("mage");
        reveal_strlit("updatedAt");
        assert("data"@.len() != "updatedAt"@.len());
        assert("mage"@.len() != "updatedAt"@.len());
    }
    match value {
        JsonValue::Object(root) => {
            set_member(root, "updatedAt", JsonValue::Str(now.to_owned()));
        },
        _ => {
            proof { assert(false); }
        },
    }
    Ok(())
}


proof fn lemma_member_names_differ()
    ensures
        "system"@ != "data"@,
        "system"@ != "mage"@,
        "system"@ != "updatedAt"@,
{
    reveal_strlit("system");
    reveal_strlit("data");
    reveal_strlit("mage");
    reveal_strlit("updatedAt");
    assert("system"@.len() != "data"@.len());
    assert("system"@[0] != "mage"@[0]);
    assert("system"@.len() != "updatedAt"@.len());
}

/// A balance written into a record reads back: once a patch of balance
/// `millis` succeeded, the record's mage block (found the way a read finds
/// it) holds exactly that balance.
pub proof fn law_written_balance_reads_back(old: JsonValue, new: JsonValue, millis: int)
    requires
        i64::MIN <= millis <= i64::MAX,
        patchable(old),
        record_patched(old, new, millis),
    ensures
        mage_block_of(new) matches Some(b) && block_millis(b) == Some(millis),
{
    lemma_member_names_differ();
    let key = write_member(old);
    assert(entry_get(root_of(new), "system"@) == entry_get(root_of(old), "system"@));
    let b = entry_object(root_of(new), key)->0;
    assert(entry_int(b, "milliQuintessence"@) == Some(millis as i64));
}

} // verus!
