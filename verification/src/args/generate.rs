//! `gen` arguments.

use vstd::prelude::*;

verus! {

/// `gen node`: a standalone node record.
#[derive(Debug, Clone)]
pub struct NodeArgs {
    pub name: String,
    pub rating: i64,
    pub description: Option<String>,
    pub location: Option<String>,
    pub resonance: Option<String>,
    pub tass_form: Option<String>,
    pub ambient_quintessence: Option<i64>,
    pub no_validate: bool,
}

/// `gen node-item`: a node held as a mage's equipment item.
#[derive(Debug, Clone)]
pub struct NodeItemArgs {
    pub name: String,
    pub mage: String,
    pub rating: i64,
    /// The item's kind of equipment (`node` by default).
    pub item: String,
    pub quintessence: Option<i64>,
    pub milli_quintessence: Option<i64>,
    pub tass_form: Option<String>,
    pub resonance: Option<String>,
    pub description: Option<String>,
    pub no_validate: bool,
}

/// The `gen` subcommands.
#[derive(Debug, Clone)]
pub enum GenerateKind {
    Node(NodeArgs),
    NodeItem(NodeItemArgs),
}

/// `gen` arguments.
#[derive(Debug, Clone)]
pub struct GenerateArgs {
    pub kind: GenerateKind,
}

} // verus!
