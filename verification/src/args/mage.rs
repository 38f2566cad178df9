//! `mage` arguments.

use vstd::prelude::*;

verus! {

/// `mage list`: one record by key (the mage record by default), or a page of
/// all of them.
#[derive(Debug, Clone)]
pub struct ListArgs {
    pub rkey: Option<String>,
    pub actor: Option<String>,
    pub all: bool,
    pub limit: i64,
    pub cursor: Option<String>,
}

/// The `mage` subcommands.
#[derive(Debug, Clone)]
pub enum MageKind {
    List(ListArgs),
}

/// `mage` arguments.
#[derive(Debug, Clone)]
pub struct MageArgs {
    pub kind: MageKind,
}

} // verus!
