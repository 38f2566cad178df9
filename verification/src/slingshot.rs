//! Hydrating records through microcosm's Slingshot record cache: which
//! instance to ask, and which record an AT-URI names.

use vstd::prelude::*;
use crate::engine::{at_uri_parts, parse_at_uri};
use crate::repo::prefixed;

verus! {

/// The public microcosm Slingshot instance.
pub const DEFAULT_BASE: &'static str = "https://slingshot.microcosm.blue";

/// Hydrates records by calling `getRecord` against a Slingshot instance.
#[derive(Debug, Clone)]
pub struct SlingshotHydrator {
    base: String,
}

impl View for SlingshotHydrator {
    type V = Seq<char>;

    closed spec fn view(&self) -> Seq<char> {
        self.base@
    }
}

impl SlingshotHydrator {
    /// Point at a specific Slingshot base URL.
    pub fn new(base: &str) -> (h: Self)
        ensures
            h@ == base@,
    {
        SlingshotHydrator { base: base.to_owned() }
    }

    /// The public microcosm instance.
    pub fn public() -> (h: Self)
        ensures
            h@ == DEFAULT_BASE@,
    {
        Self::new(DEFAULT_BASE)
    }

    /// The base URL asked.
    pub fn base(&self) -> (b: &str)
        ensures
            b@ == self@,
    {
        self.base.as_str()
    }

    /// The record an AT-URI names: `(did, collection, rkey)`, or `BadUri`.
    pub fn target(&self, at_uri: &str) -> (r: Result<(String, String, String), SlingshotError>)
        ensures
            at_uri_parts(at_uri@) matches Some(p) ==> (r matches Ok(t) && (t.0@, t.1@, t.2@) == p),
            at_uri_parts(at_uri@) is None ==> (r matches Err(SlingshotError::BadUri(m)) && m@ == at_uri@),
    {
        match parse_at_uri(at_uri) {
            Some(t) => Ok(t),
            None => Err(SlingshotError::BadUri(at_uri.to_owned())),
        }
    }
}

impl Default for SlingshotHydrator {
    fn default() -> (h: Self)
        ensures
            h@ == DEFAULT_BASE@,
    {
        Self::public()
    }
}

/// Errors hydrating a record via Slingshot.
#[derive(Debug)]
pub enum SlingshotError {
    BadUri(String),
    BadBase(String, String),
    Fetch(String),
    NotFound(String),
}

/// The text a [`SlingshotError`] reads as.
pub open spec fn slingshot_error_text(e: SlingshotError) -> Seq<char> {
    match e {
        SlingshotError::BadUri(m) => "malformed at-uri: "@ + m@,
        SlingshotError::BadBase(b, m) => "invalid Slingshot base URL "@ + b@ + ": "@ + m@,
        SlingshotError::Fetch(m) => "getRecord failed: "@ + m@,
        SlingshotError::NotFound(m) => "record not found: "@ + m@,
    }
}

impl SlingshotError {
    /// The message this error reads as.
    pub fn message(&self) -> (r: String)
        ensures
            r@ == slingshot_error_text(*self),
    {
        match self {
            SlingshotError::BadUri(m) => prefixed("malformed at-uri: ", m.as_str()),
            SlingshotError::BadBase(b, m) => {
                let mut s = prefixed("invalid Slingshot base URL ", b.as_str());
                s.append(": ");
                s.append(m.as_str());
                s
            },
            SlingshotError::Fetch(m) => prefixed("getRecord failed: ", m.as_str()),
            SlingshotError::NotFound(m) => prefixed("record not found: ", m.as_str()),
        }
    }
}

} // verus!
