//! The per-DID ledger log: the stored event envelope, the store interface a
//! backend implements, and its errors.

use vstd::prelude::*;
use crate::json::JsonValue;
use crate::repo::prefixed;

verus! {

/// Source ingestion order (e.g. a Hydrant event id): the primary key of a
/// DID's event log.
pub type Cursor = u64;

/// Errors from a ledger store; backend errors arrive as text.
#[derive(Debug)]
pub enum LedgerError {
    /// Opening a DID's database failed.
    Open { did: String, source: String },
    /// A store operation failed.
    Fjall(String),
    /// (De)serializing a stored event or snapshot failed.
    Serde(String),
    /// A filesystem operation on the data dir failed.
    Io(String),
    /// The open-handle pool failed to produce a handle.
    Pool(String),
}

/// The text a [`LedgerError`] reads as.
pub open spec fn ledger_error_text(e: LedgerError) -> Seq<char> {
    match e {
        LedgerError::Open { did, source } => "opening ledger store for "@ + did@ + ": "@ + source@,
        LedgerError::Fjall(m) => "fjall error: "@ + m@,
        LedgerError::Serde(m) => "serialization error: "@ + m@,
        LedgerError::Io(m) => "ledger store io error: "@ + m@,
        LedgerError::Pool(m) => "ledger store pool error: "@ + m@,
    }
}

impl LedgerError {
    /// The message this error reads as.
    pub fn message(&self) -> (r: String)
        ensures
            r@ == ledger_error_text(*self),
    {
        match self {
            LedgerError::Open { did, source } => {
                let mut s = prefixed("opening ledger store for ", did.as_str());
                s.append(": ");
                s.append(source.as_str());
                s
            },
            LedgerError::Fjall(m) => prefixed("fjall error: ", m.as_str()),
            LedgerError::Serde(m) => prefixed("serialization error: ", m.as_str()),
            LedgerError::Io(m) => prefixed("ledger store io error: ", m.as_str()),
            LedgerError::Pool(m) => prefixed("ledger store pool error: ", m.as_str()),
        }
    }
}

/// One normalized record event in a DID's ledger log; lexicon-agnostic.
#[derive(Debug, PartialEq)]
pub struct StoredEvent {
    /// Source ingestion order; the log's primary key.
    pub cursor: Cursor,
    /// AT-URI of the record.
    pub uri: String,
    /// Record CID, when known.
    pub cid: Option<String>,
    /// Collection NSID.
    pub collection: String,
    /// Record key.
    pub rkey: String,
    /// `create`, `update` or `delete`.
    pub action: String,
    /// Record `createdAt`, when present and parseable.
    pub created_at: Option<String>,
    /// Record body; `None` for deletes.
    pub record: Option<JsonValue>,
}

/// Durable, per-DID storage for the ledger fold: an ordered event log, a
/// materialized balance snapshot (opaque bytes), and the last-folded cursor.
/// Backends share state behind `&self`, so no contract here can speak of
/// what a read returns after a write.
pub trait LedgerStore {
    /// Append events to a DID's log.
    fn append_events(&self, did: &str, events: &[StoredEvent]) -> Result<(), LedgerError>;

    /// A DID's full event log, in cursor order.
    fn read_events(&self, did: &str) -> Result<Vec<StoredEvent>, LedgerError>;

    /// A DID's balance snapshot, if one was written.
    fn snapshot(&self, did: &str) -> Result<Option<Vec<u8>>, LedgerError>;

    /// The last cursor folded into a DID's snapshot.
    fn cursor(&self, did: &str) -> Result<Option<Cursor>, LedgerError>;

    /// Atomically append `events`, replace the snapshot when one is given,
    /// and advance the stored cursor.
    fn commit_fold(&self, did: &str, events: &[StoredEvent], snapshot: Option<&[u8]>, cursor: Cursor) -> Result<(), LedgerError>;

    /// Drop all state for a DID.
    fn forget(&self, did: &str) -> Result<(), LedgerError>;
}

} // verus!
