//! Generic record access: the normalized record envelope and page shapes the
//! domain logic reads, the record-key rule, and the error vocabulary.

use vstd::prelude::*;
use vstd::string::StrSliceExecFns;
use crate::json::JsonValue;
use crate::text::{after_last, chars_of, rfind_char, last_index_of};

verus! {

/// Errors from record access; transport and decode errors arrive as text.
#[derive(Debug)]
pub enum RepoError {
    /// A DID/handle/collection/rkey string failed syntax validation.
    Ident(String),
    /// Resolving the identity to a PDS failed.
    Resolve(String),
    /// A resolved PDS endpoint was not a valid URI.
    Uri(String),
    /// A transport or typed XRPC error.
    Xrpc(String),
    /// Decoding a record body to JSON failed.
    Decode(String),
}

/// The text a [`RepoError`] reads as.
pub open spec fn repo_error_text(e: RepoError) -> Seq<char> {
    match e {
        RepoError::Ident(m) => "invalid identifier: "@ + m@,
        RepoError::Resolve(m) => "identity resolution failed: "@ + m@,
        RepoError::Uri(m) => "resolved PDS endpoint is not a valid URI: "@ + m@,
        RepoError::Xrpc(m) => "xrpc error: "@ + m@,
        RepoError::Decode(m) => "record decode error: "@ + m@,
    }
}

/// `prefix` followed by `rest`, as a new string.
pub fn prefixed(prefix: &str, rest: &str) -> (r: String)
    ensures
        r@ == prefix@ + rest@,
{
    let mut s = String::from_str(prefix);
    s.append(rest);
    s
}

impl RepoError {
    /// The message this error reads as.
    pub fn message(&self) -> (r: String)
        ensures
            r@ == repo_error_text(*self),
    {
        match self {
            RepoError::Ident(m) => prefixed("invalid identifier: ", m.as_str()),
            RepoError::Resolve(m) => prefixed("identity resolution failed: ", m.as_str()),
            RepoError::Uri(m) => prefixed("resolved PDS endpoint is not a valid URI: ", m.as_str()),
            RepoError::Xrpc(m) => prefixed("xrpc error: ", m.as_str()),
            RepoError::Decode(m) => prefixed("record decode error: ", m.as_str()),
        }
    }
}

/// A record read back from a repo, its body as plain JSON.
#[derive(Debug)]
pub struct RecordEnvelope {
    pub uri: String,
    pub cid: Option<String>,
    pub rkey: String,
    pub value: JsonValue,
}

/// One page of a `listRecords` response.
#[derive(Debug)]
pub struct ListPage {
    pub cursor: Option<String>,
    pub records: Vec<RecordEnvelope>,
}

/// The last path segment of an AT-URI (its record key): what follows the last
/// `/`, or the whole text when there is none.
pub fn rkey_from_uri(uri: &str) -> (r: &str)
    ensures
        r@ == after_last(uri@, '/'),
{
    let v = chars_of(uri);
    match rfind_char(&v, '/') {
        Some(i) => uri.substring_char(i + 1, v.len()),
        None => uri,
    }
}

/// The envelope for a record read back at `uri`: its record key is the
/// URI's last segment.
pub fn envelope(uri: String, cid: Option<String>, value: JsonValue) -> (e: RecordEnvelope)
    ensures
        e.uri@ == uri@,
        e.cid == cid,
        e.rkey@ == after_last(uri@, '/'),
        e.value == value,
{
    let rkey = rkey_from_uri(uri.as_str()).to_owned();
    RecordEnvelope { uri, cid, rkey, value }
}

/// What jacquard's `Nsid::new_owned` says of `s`: `None` when it is an NSID,
/// else its error's text.
pub uninterp spec fn nsid_error(s: Seq<char>) -> Option<Seq<char>>;

/// jacquard's `Nsid::new_owned`, reduced to its error text, as
/// [`nsid_error`] names it.
#[verifier::external_body]
fn check_nsid(s: &str) -> (r: Option<String>)
    ensures
        match nsid_error(s@) {
            Some(e) => r matches Some(m) && m@ == e,
            None => r is None,
        },
{
    match jacquard_common::types::nsid::Nsid::<jacquard_common::DefaultStr>::new_owned(s) {
        Ok(_) => None,
        Err(e) => Some(e.to_string()),
    }
}

/// A collection named for a listing must be an NSID; the error is the
/// validator's text.
pub fn check_collection(collection: &str) -> (r: Result<(), String>)
    ensures
        match nsid_error(collection@) {
            Some(e) => r matches Err(m) && m@ == e,
            None => r is Ok,
        },
{
    match check_nsid(collection) {
        Some(e) => Err(e),
        None => Ok(()),
    }
}

} // verus!
