//! The chat flight of enervate: a user chats "burn my tass" at us; we resolve
//! which tass and mint an act record in the user's own repo, as them. Minting
//! needs the user's delegated write access (an OAuth session); without one the
//! flight nudges the user to authorize and writes nothing.
//!
//! ```text
//! Matched  -> FoundTass  => Resolved              | NoTass       => Skipped
//! Resolved -> Authorized => Minting [MintActRecord] | Unauthorized => NeedsAuth
//! Minting  -> Minted     => Done
//! ```
//!
//! The session lookup is not wired yet: no user is taken to have authorized.

use vstd::prelude::*;
use crate::engine::{Command, Event, Outcome};
use crate::enervate::{amount_for, asks_to_burn, burn_tass_request, parse_amount, pick_tass, picked};
use crate::phase::{Phases, RunError, spec_run};
use crate::repo::{prefixed, RecordEnvelope};
use crate::text::lowercase;

verus! {

/// The collection whose records hold a tass's quintessence.
pub const TASSILIZE: &'static str = "at.telluri.act.tassilize";

/// The phases of a chat-enervate run.
#[derive(Debug, Clone, Copy, PartialEq, Eq, Structural)]
pub enum State {
    Matched,
    Resolved,
    Minting,
    Done,
    Skipped,
    NeedsAuth,
}

/// The events that advance a chat-enervate run.
#[derive(Debug, Clone, Copy, PartialEq, Eq, Structural)]
pub enum Input {
    FoundTass,
    NoTass,
    Authorized,
    Unauthorized,
    Minted,
}

/// The effects a chat-enervate transition emits.
#[derive(Debug, Clone, Copy, PartialEq, Eq, Structural)]
pub enum Output {
    MintActRecord,
}

/// Terminal value of a chat-enervate run.
#[derive(Debug, Clone, Copy, PartialEq, Eq, Structural)]
pub enum ChatOutcome {
    /// Minted the act record (dry-run).
    Minted,
    /// No tass to act on.
    Skipped,
    /// The user has not authorized us: nudge them through the web flow.
    NeedsAuth,
}

/// The chat-enervate phase graph.
pub open spec fn step(s: State, i: Input) -> Option<(State, Option<Output>)> {
    match (s, i) {
        (State::Matched, Input::FoundTass) => Some((State::Resolved, None)),
        (State::Matched, Input::NoTass) => Some((State::Skipped, None)),
        (State::Resolved, Input::Authorized) => Some((State::Minting, Some(Output::MintActRecord))),
        (State::Resolved, Input::Unauthorized) => Some((State::NeedsAuth, None)),
        (State::Minting, Input::Minted) => Some((State::Done, None)),
        _ => None,
    }
}

/// The terminal phases.
pub open spec fn terminal(s: State) -> bool {
    s == State::Done || s == State::Skipped || s == State::NeedsAuth
}

/// The outcome a terminal phase stands for.
pub open spec fn outcome_of(s: State) -> ChatOutcome {
    match s {
        State::Skipped => ChatOutcome::Skipped,
        State::NeedsAuth => ChatOutcome::NeedsAuth,
        _ => ChatOutcome::Minted,
    }
}

/// The chat-enervate machine.
pub struct Impl;

impl Phases for Impl {
    type State = State;
    type Input = Input;
    type Output = Output;
    type Final = ChatOutcome;

    open spec fn spec_initial() -> State {
        State::Matched
    }

    open spec fn spec_transition(state: State, input: Input) -> Option<(State, Option<Output>)> {
        step(state, input)
    }

    open spec fn spec_is_terminal(state: State) -> bool {
        terminal(state)
    }

    open spec fn spec_finish(state: State) -> ChatOutcome {
        outcome_of(state)
    }

    fn initial() -> (s: State) {
        State::Matched
    }

    fn transition(state: State, input: Input) -> (r: Option<(State, Option<Output>)>) {
        match (state, input) {
            (State::Matched, Input::FoundTass) => Some((State::Resolved, None)),
            (State::Matched, Input::NoTass) => Some((State::Skipped, None)),
            (State::Resolved, Input::Authorized) => Some((State::Minting, Some(Output::MintActRecord))),
            (State::Resolved, Input::Unauthorized) => Some((State::NeedsAuth, None)),
            (State::Minting, Input::Minted) => Some((State::Done, None)),
            _ => None,
        }
    }

    fn is_terminal(state: State) -> (b: bool) {
        match state {
            State::Done | State::Skipped | State::NeedsAuth => true,
            _ => false,
        }
    }

    fn finish(state: State) -> (f: ChatOutcome) {
        match state {
            State::Skipped => ChatOutcome::Skipped,
            State::NeedsAuth => ChatOutcome::NeedsAuth,
            _ => ChatOutcome::Minted,
        }
    }
}

/// Errors the driver can hit.
#[derive(Debug)]
pub enum ChatError {
    Read(String),
    Ident(String),
    Unexpected(String),
}

/// The text a [`ChatError`] reads as.
pub open spec fn chat_error_text(e: ChatError) -> Seq<char> {
    match e {
        ChatError::Read(m) => "reading the user's tass failed: "@ + m@,
        ChatError::Ident(m) => "invalid actor DID: "@ + m@,
        ChatError::Unexpected(m) => "driver reached an unexpected phase: "@ + m@,
    }
}

impl ChatError {
    /// The message this error reads as.
    pub fn message(&self) -> (r: String)
        ensures
            r@ == chat_error_text(*self),
    {
        match self {
            ChatError::Read(m) => prefixed("reading the user's tass failed: ", m.as_str()),
            ChatError::Ident(m) => prefixed("invalid actor DID: ", m.as_str()),
            ChatError::Unexpected(m) => prefixed("driver reached an unexpected phase: ", m.as_str()),
        }
    }
}

/// The name a phase is reported under.
pub open spec fn state_label(s: State) -> Seq<char> {
    match s {
        State::Matched => "Matched"@,
        State::Resolved => "Resolved"@,
        State::Minting => "Minting"@,
        State::Done => "Done"@,
        State::Skipped => "Skipped"@,
        State::NeedsAuth => "NeedsAuth"@,
    }
}

/// The name a phase is reported under.
pub fn state_name(s: State) -> (r: String)
    ensures
        r@ == state_label(s),
{
    let name = match s {
        State::Matched => "Matched",
        State::Resolved => "Resolved",
        State::Minting => "Minting",
        State::Done => "Done",
        State::Skipped => "Skipped",
        State::NeedsAuth => "NeedsAuth",
    };
    String::from_str(name)
}

/// What the driver does next in a phase.
#[derive(Debug, Clone, Copy, PartialEq, Eq, Structural)]
pub enum Step {
    /// Report this event to the machine at once.
    Report(Input),
    /// Read the user's tassilize records first, then report what
    /// [`ChatEnervateDriver::tass_read`] makes of them.
    ReadTass,
}

/// The chat-enervate driver's state.
pub struct ChatEnervateDriver {
    pub event: Event,
    pub dry_run: bool,
    pub tass_uri: Option<String>,
    pub quintessence: i64,
    pub amount: i64,
}

impl ChatEnervateDriver {
    /// A dry-run driver (writes off) for a chat `event`.
    pub fn dry_run(event: Event) -> (d: Self)
        ensures
            d.event == event,
            d.dry_run,
            d.tass_uri is None,
            d.quintessence == 0,
            d.amount == 0,
    {
        ChatEnervateDriver { event, dry_run: true, tass_uri: None, quintessence: 0, amount: 0 }
    }

    /// Whether a delegated OAuth session is held for the chatting user. The
    /// session store is not wired yet, so none is.
    pub fn user_has_authorized(&self) -> (b: bool)
        ensures
            !b,
    {
        false
    }

    /// The next thing to do for the machine sitting in `state`.
    pub fn next_event(&self, state: State) -> (r: Result<Step, ChatError>)
        ensures
            state == State::Matched ==> r == Ok::<Step, ChatError>(Step::ReadTass),
            state == State::Resolved ==> r == Ok::<Step, ChatError>(Step::Report(Input::Unauthorized)),
            state == State::Minting ==> r == Ok::<Step, ChatError>(Step::Report(Input::Minted)),
            terminal(state) ==> (r matches Err(ChatError::Unexpected(m)) && m@ == state_label(state)),
    {
        match state {
            State::Matched => Ok(Step::ReadTass),
            State::Resolved => {
                if self.user_has_authorized() {
                    Ok(Step::Report(Input::Authorized))
                } else {
                    Ok(Step::Report(Input::Unauthorized))
                }
            },
            State::Minting => Ok(Step::Report(Input::Minted)),
            _ => Err(ChatError::Unexpected(state_name(state))),
        }
    }

    /// What the read of the user's tassilize records found: the tass the
    /// message picks (remembered with its quintessence and the amount to
    /// burn), or none.
    pub fn tass_read(&mut self, records: &[RecordEnvelope]) -> (i: Input)
        ensures
            match picked(records@, old(self).event.text@) {
                Some(p) => {
                    &&& i == Input::FoundTass
                    &&& final(self).tass_uri matches Some(u) && u@ == p.0
                    &&& final(self).quintessence == p.1
                    &&& final(self).amount == amount_for(old(self).event.text@, p.1)
                },
                None => i == Input::NoTass && final(self).tass_uri == old(self).tass_uri
                    && final(self).quintessence == old(self).quintessence
                    && final(self).amount == old(self).amount,
            },
            final(self).event == old(self).event,
            final(self).dry_run == old(self).dry_run,
    {
        match pick_tass(records, self.event.text.as_str()) {
            Some((uri, quintessence)) => {
                self.tass_uri = Some(uri);
                self.quintessence = quintessence;
                self.amount = match parse_amount(self.event.text.as_str()) {
                    Some(a) => a,
                    None => quintessence,
                };
                Input::FoundTass
            },
            None => Input::NoTass,
        }
    }

    /// Feed `input` to the machine in `state`; minting is logged only, so no
    /// effect fails.
    pub fn consume(&self, state: State, input: Input) -> (r: Result<State, RunError<ChatError>>)
        ensures
            match step(state, input) {
                None => r matches Err(RunError::Stuck),
                Some((next, _)) => r matches Ok(n) && n == next,
            },
    {
        match Impl::transition(state, input) {
            None => Err(RunError::Stuck),
            Some((next, _)) => Ok(next),
        }
    }
}

/// The text a failed run reads as.
pub open spec fn run_error_text(e: RunError<ChatError>) -> Seq<char> {
    match e {
        RunError::Stuck => "no transition for the produced event"@,
        RunError::Driver(d) => "driver error: "@ + chat_error_text(d),
    }
}

/// The message a failed run reads as.
pub fn run_error_message(e: &RunError<ChatError>) -> (r: String)
    ensures
        r@ == run_error_text(*e),
{
    match e {
        RunError::Stuck => String::from_str("no transition for the produced event"),
        RunError::Driver(d) => {
            let m = d.message();
            prefixed("driver error: ", m.as_str())
        },
    }
}

/// What the engine is told of a finished chat run.
pub fn report(r: &Result<ChatOutcome, RunError<ChatError>>) -> (o: Outcome)
    ensures
        r matches Ok(ChatOutcome::Minted) ==> o matches Outcome::DryRun,
        r matches Ok(ChatOutcome::Skipped) ==> (o matches Outcome::Skipped(m) && m@ == "no tass to burn"@),
        r matches Ok(ChatOutcome::NeedsAuth) ==> (o matches Outcome::Skipped(m)
            && m@ == "user has not authorized \u{2014} OAuth web-flow required"@),
        *r matches Err(e) ==> (o matches Outcome::Failed(m) && m@ == run_error_text(e)),
{
    match r {
        Ok(ChatOutcome::Minted) => Outcome::DryRun,
        Ok(ChatOutcome::Skipped) => Outcome::Skipped("no tass to burn"),
        Ok(ChatOutcome::NeedsAuth) => Outcome::Skipped("user has not authorized \u{2014} OAuth web-flow required"),
        Err(e) => Outcome::Failed(run_error_message(e)),
    }
}

/// The chat-enervate command: keyword-spots "burn ... tass".
pub struct ChatEnervateCommand;

impl Command for ChatEnervateCommand {
    open spec fn spec_matches(&self, event: Event) -> bool {
        burn_tass_request(lowercase(event.text@))
    }

    fn name(&self) -> (n: &'static str)
        ensures
            n@ == "enervate-chat"@,
    {
        "enervate-chat"
    }

    fn matches(&self, event: &Event) -> (b: bool) {
        asks_to_burn(event)
    }
}

/// The events still needed from `s` to reach `Done`: minted from `Minting`,
/// authorized then minted from `Resolved`, and found first from `Matched`.
pub open spec fn completes(s: State, events: Seq<Input>) -> bool {
    match s {
        State::Done => true,
        State::Minting => events.len() >= 1 && events[0] == Input::Minted,
        State::Resolved => events.len() >= 2 && events[0] == Input::Authorized && events[1] == Input::Minted,
        State::Matched => events.len() >= 3 && events[0] == Input::FoundTass && events[1] == Input::Authorized
            && events[2] == Input::Minted,
        _ => false,
    }
}

/// The mints a run still emits from `s` on its way to `Done`.
pub open spec fn mints_to_done(s: State) -> Seq<Output> {
    if s == State::Matched || s == State::Resolved {
        seq![Output::MintActRecord]
    } else {
        Seq::empty()
    }
}

proof fn lemma_chat_run(s: State, events: Seq<Input>)
    ensures
        spec_run::<Impl>(s, events).0 == State::Done <==> completes(s, events),
        spec_run::<Impl>(s, events).0 == State::Done ==> spec_run::<Impl>(s, events).2 == mints_to_done(s),
    decreases events.len(),
{
    if !terminal(s) && events.len() > 0 {
        if let Some((next, e)) = step(s, events[0]) {
            lemma_chat_run(next, events.drop_first());
            let rest = spec_run::<Impl>(next, events.drop_first());
            match e {
                Some(x) => {
                    if rest.0 == State::Done {
                        assert(seq![x] + rest.2 =~= mints_to_done(s));
                    }
                },
                None => {
                    assert(Seq::<Output>::empty() + rest.2 =~= rest.2);
                },
            }
        }
    }
}

/// A chat run from the start mints only through the whole chain: it reaches
/// `Done` exactly when its events begin found, authorized, minted, and then it
/// has emitted the one mint.
pub proof fn law_mint_needs_authorization(events: Seq<Input>)
    ensures
        spec_run::<Impl>(State::Matched, events).0 == State::Done <==> (events.len() >= 3
            && events[0] == Input::FoundTass && events[1] == Input::Authorized && events[2] == Input::Minted),
        spec_run::<Impl>(State::Matched, events).0 == State::Done ==> spec_run::<Impl>(State::Matched, events).2
            == seq![Output::MintActRecord],
{
    lemma_chat_run(State::Matched, events);
}

/// Without the user's authorization nothing is minted: a run from the start
/// that is told the user is unauthorized ends needing auth, having emitted
/// nothing.
pub proof fn law_unauthorized_mints_nothing(rest: Seq<Input>)
    ensures
        spec_run::<Impl>(State::Matched, seq![Input::FoundTass, Input::Unauthorized] + rest)
            == (State::NeedsAuth, crate::phase::Stop::Finished, Seq::<Output>::empty()),
{
    let all = seq![Input::FoundTass, Input::Unauthorized] + rest;
    let e1 = all.drop_first();
    let e2 = e1.drop_first();
    assert(all[0] == Input::FoundTass);
    assert(e1[0] == Input::Unauthorized);
    assert(spec_run::<Impl>(State::NeedsAuth, e2) == (State::NeedsAuth, crate::phase::Stop::Finished, Seq::<Output>::empty()));
    assert(Seq::<Output>::empty() + Seq::<Output>::empty() =~= Seq::<Output>::empty());
    assert(spec_run::<Impl>(State::Resolved, e1) == (State::NeedsAuth, crate::phase::Stop::Finished, Seq::<Output>::empty()));
}

} // verus!
