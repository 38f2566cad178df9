//! `repo` arguments.

use vstd::prelude::*;

verus! {

/// `repo list`: a page of one collection's records.
#[derive(Debug, Clone)]
pub struct ListArgs {
    pub collection: String,
    pub repo: Option<String>,
    pub limit: i64,
    pub cursor: Option<String>,
    pub reverse: bool,
    pub json: bool,
}

/// The `repo` subcommands.
#[derive(Debug, Clone)]
pub enum RepoKind {
    List(ListArgs),
}

/// `repo` arguments.
#[derive(Debug, Clone)]
pub struct RepoArgs {
    pub kind: RepoKind,
}

} // verus!
