//! The output layer's rules: which encoding each format uses and how the
//! encoded bytes are framed, the record envelope, and render errors.

use vstd::prelude::*;
use crate::json::JsonValue;
use crate::repo::prefixed;

verus! {

/// The output format.
#[derive(Debug, Clone, Copy, PartialEq, Eq, Structural)]
pub enum Format {
    /// Pretty-printed JSON.
    Json,
    /// DAG-CBOR bytes.
    Cbor,
    /// Human-readable; pretty JSON unless a type renders a real table.
    Table,
}

/// The machine encoding a value is rendered through.
#[derive(Debug, Clone, Copy, PartialEq, Eq, Structural)]
pub enum Encoding {
    /// Pretty-printed JSON text.
    PrettyJson,
    /// DAG-CBOR bytes.
    DagCbor,
}

/// The encoding a format renders a plain value through: JSON (also for
/// `Table`, which has no inherent tabular form for records) or DAG-CBOR.
pub fn encoding(fmt: Format) -> (e: Encoding)
    ensures
        fmt == Format::Cbor ==> e == Encoding::DagCbor,
        fmt != Format::Cbor ==> e == Encoding::PrettyJson,
{
    match fmt {
        Format::Cbor => Encoding::DagCbor,
        _ => Encoding::PrettyJson,
    }
}

/// The bytes written for an encoded value: JSON text gets a trailing
/// newline; DAG-CBOR is a binary wire format and is written as is.
pub open spec fn framed(e: Encoding, encoded: Seq<u8>) -> Seq<u8> {
    match e {
        Encoding::PrettyJson => encoded.push(10u8),
        Encoding::DagCbor => encoded,
    }
}

/// Frame encoded bytes for writing.
pub fn frame(e: Encoding, encoded: Vec<u8>) -> (r: Vec<u8>)
    ensures
        r@ == framed(e, encoded@),
{
    let mut r = encoded;
    match e {
        Encoding::PrettyJson => {
            r.push(10u8);
        },
        Encoding::DagCbor => {},
    }
    r
}

/// Errors from rendering.
#[derive(Debug)]
pub enum RenderError {
    /// Serializing the value failed.
    Encode(String),
    /// Writing to the sink failed.
    Io(String),
}

/// The text a [`RenderError`] reads as.
pub open spec fn render_error_text(e: RenderError) -> Seq<char> {
    match e {
        RenderError::Encode(m) => "encode error: "@ + m@,
        RenderError::Io(m) => "write error: "@ + m@,
    }
}

impl RenderError {
    /// The message this error reads as.
    pub fn message(&self) -> (r: String)
        ensures
            r@ == render_error_text(*self),
    {
        match self {
            RenderError::Encode(m) => prefixed("encode error: ", m.as_str()),
            RenderError::Io(m) => prefixed("write error: ", m.as_str()),
        }
    }
}

/// A record and its coordinates: filled by read commands, left empty for
/// generated records.
#[derive(Debug)]
pub struct Envelope<V> {
    pub uri: Option<String>,
    pub cid: Option<String>,
    pub repo: Option<String>,
    pub collection: Option<String>,
    pub rkey: Option<String>,
    pub value: V,
    pub normalized: Option<JsonValue>,
}

impl<V> Envelope<V> {
    /// A value-only envelope, with no coordinates.
    pub fn value(value: V) -> (e: Self)
        ensures
            e.uri is None,
            e.cid is None,
            e.repo is None,
            e.collection is None,
            e.rkey is None,
            e.value == value,
            e.normalized is None,
    {
        Envelope { uri: None, cid: None, repo: None, collection: None, rkey: None, value, normalized: None }
    }
}

} // verus!
