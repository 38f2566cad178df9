//! `auth` arguments.

use vstd::prelude::*;

verus! {

/// `auth login`: the account to log in as, an optional app password, and
/// whether to use the OAuth flow.
#[derive(Debug, Clone)]
pub struct LoginArgs {
    pub actor: String,
    pub password: Option<String>,
    pub oauth: bool,
}

/// `auth status` takes no arguments.
#[derive(Debug, Clone, Copy)]
pub struct StatusArgs {}

/// `auth switch`: the profile to make active.
#[derive(Debug, Clone)]
pub struct SwitchArgs {
    pub profile: String,
}

/// `auth set`: a dotted key or `key=value`, or `--unset` to remove the key.
#[derive(Debug, Clone)]
pub struct SetArgs {
    pub assignment: String,
    pub unset: bool,
}

/// The `auth` subcommands.
#[derive(Debug, Clone)]
pub enum AuthKind {
    Login(LoginArgs),
    Status(StatusArgs),
    Switch(SwitchArgs),
    SetKey(SetArgs),
}

/// `auth` arguments.
#[derive(Debug, Clone)]
pub struct AuthArgs {
    pub kind: AuthKind,
}

} // verus!
