//! `config` arguments.

use vstd::prelude::*;

verus! {

/// The `config` subcommands.
#[derive(Debug, Clone)]
pub enum ConfigKind {
    /// Show every loaded config source and the selection log.
    Files,
    /// List the profiles, marking the active one.
    List,
    /// Print the active profile, or one dotted key of it.
    Get { key: Option<String> },
    /// Read, write or (with `unset`) remove a dotted key.
    SetKey { assignment: String, unset: bool },
}

/// `config` arguments.
#[derive(Debug, Clone)]
pub struct ConfigArgs {
    pub kind: ConfigKind,
}

} // verus!
