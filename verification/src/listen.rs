//! The listener daemon's configuration: the `[service.listen]` block, the
//! flags that override it, the subscription and hydrator they resolve to, and
//! the verbs the daemon dispatches.

use vstd::prelude::*;
use crate::chat_enervate::ChatEnervateCommand;
use crate::engine::{Command, Event};
use crate::enervate::{asks_to_burn, burn_tass_request, EnervateCommand};
use crate::slingshot::{SlingshotHydrator, DEFAULT_BASE};
use crate::spacedust::{default_endpoint, SpacedustConfig, DEFAULT_ENDPOINT};
use crate::text::lowercase;

verus! {

/// Flags for the listener, each overriding the config field of its name.
#[derive(Debug, Clone)]
pub struct ListenArgs {
    pub account: Option<String>,
    pub endpoint: Option<String>,
    pub slingshot: Option<String>,
}

/// The `[service.listen]` block.
#[derive(Debug, Clone)]
pub struct ListenConfig {
    /// Spacedust endpoint.
    pub endpoint: String,
    /// The account listened for; required at run time (config or flag).
    pub account: Option<String>,
    /// Slingshot base URL for hydration.
    pub slingshot: String,
    /// Optional `wantedSources` narrowing.
    pub wanted_sources: Vec<String>,
    /// Bypass Spacedust's delay buffer.
    pub instant: bool,
}

/// The default Slingshot base, as an owned string.
pub fn default_slingshot() -> (s: String)
    ensures
        s@ == DEFAULT_BASE@,
{
    String::from_str(DEFAULT_BASE)
}

impl Default for ListenConfig {
    fn default() -> (c: Self)
        ensures
            c.endpoint@ == DEFAULT_ENDPOINT@,
            c.account is None,
            c.slingshot@ == DEFAULT_BASE@,
            c.wanted_sources@.len() == 0,
            !c.instant,
    {
        ListenConfig {
            endpoint: default_endpoint(),
            account: None,
            slingshot: default_slingshot(),
            wanted_sources: Vec::new(),
            instant: false,
        }
    }
}

/// Why the listener cannot start.
#[derive(Debug, Clone, PartialEq, Eq)]
pub enum ListenError {
    /// Neither the config nor the flags name an account.
    NoAccount,
}

impl ListenError {
    /// The message this error reads as.
    pub fn message(&self) -> (r: String)
        ensures
            r@ == "no account to listen for: set [service.listen].account or pass --account"@,
    {
        String::from_str("no account to listen for: set [service.listen].account or pass --account")
    }
}

/// An optional override applied over a value.
pub open spec fn overridden(flag: Option<String>, value: Seq<char>) -> Seq<char> {
    match flag {
        Some(f) => f@,
        None => value,
    }
}

/// Resolve what the listener runs with: flags override the config's account,
/// endpoint and Slingshot base; an account is required.
pub fn resolve_listen(args: ListenArgs, cfg: ListenConfig) -> (r: Result<(SpacedustConfig, SlingshotHydrator), ListenError>)
    ensures
        r is Err <==> (args.account is None && cfg.account is None),
        r is Err ==> r == Err::<(SpacedustConfig, SlingshotHydrator), ListenError>(ListenError::NoAccount),
        r matches Ok((sub, hyd)) ==> {
            &&& sub.account@ == (match args.account {
                Some(a) => a@,
                None => cfg.account->0@,
            })
            &&& sub.endpoint@ == overridden(args.endpoint, cfg.endpoint@)
            &&& sub.wanted_sources == cfg.wanted_sources
            &&& sub.instant == cfg.instant
            &&& hyd@ == overridden(args.slingshot, cfg.slingshot@)
        },
{
    let account = match args.account {
        Some(a) => a,
        None => match cfg.account {
            Some(a) => a,
            None => {
                return Err(ListenError::NoAccount);
            },
        },
    };
    let endpoint = match args.endpoint {
        Some(e) => e,
        None => cfg.endpoint,
    };
    let slingshot = match args.slingshot {
        Some(s) => s,
        None => cfg.slingshot,
    };
    let sub = SpacedustConfig { endpoint, account, wanted_sources: cfg.wanted_sources, instant: cfg.instant };
    Ok((sub, SlingshotHydrator::new(slingshot.as_str())))
}

/// The verbs the listener dispatches.
#[derive(Debug, Clone, Copy, PartialEq, Eq, Structural)]
pub enum Verb {
    /// The enervate verb.
    Enervate,
    /// The chat flight of enervate.
    ChatEnervate,
}

impl Command for Verb {
    open spec fn spec_matches(&self, event: Event) -> bool {
        burn_tass_request(lowercase(event.text@))
    }

    fn name(&self) -> (n: &'static str)
        ensures
            *self == Verb::Enervate ==> n@ == "enervate"@,
            *self == Verb::ChatEnervate ==> n@ == "enervate-chat"@,
    {
        match self {
            Verb::Enervate => EnervateCommand.name(),
            Verb::ChatEnervate => ChatEnervateCommand.name(),
        }
    }

    fn matches(&self, event: &Event) -> (b: bool) {
        asks_to_burn(event)
    }
}

} // verus!
