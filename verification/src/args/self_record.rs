//! `self` arguments.

use vstd::prelude::*;

verus! {

/// `self stats`: whose self-aggregate record to read.
#[derive(Debug, Clone)]
pub struct StatsArgs {
    pub actor: Option<String>,
}

/// The `self` subcommands (`list` is `stats` by another name).
#[derive(Debug, Clone)]
pub enum SelfKind {
    Stats(StatsArgs),
    List(StatsArgs),
}

/// `self` arguments.
#[derive(Debug, Clone)]
pub struct SelfArgs {
    pub kind: SelfKind,
}

} // verus!
