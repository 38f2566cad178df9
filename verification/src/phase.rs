//! Phased work driven by a pure state machine.
//!
//! A machine's phases are its states, the events that advance them are its
//! inputs, and the effects a transition emits are its outputs. This module
//! holds the pure half: the machine interface, the per-event decision the
//! async runner takes, and a runner for an event sequence known in advance
//! (a scripted driver, or a parked job being replayed).

use vstd::prelude::*;

verus! {

/// A state machine whose states are the phases of a unit of work, with a
/// notion of being finished and a typed final value.
pub trait Phases {
    type State: Copy;
    type Input: Copy;
    type Output: Copy;
    type Final;

    /// The phase a fresh job starts in.
    spec fn spec_initial() -> Self::State;

    /// The phase and effect an input leads to, or `None` when the phase has no
    /// transition for it.
    spec fn spec_transition(state: Self::State, input: Self::Input) -> Option<(Self::State, Option<Self::Output>)>;

    /// Whether a phase is terminal.
    spec fn spec_is_terminal(state: Self::State) -> bool;

    /// The final value of a terminal phase.
    spec fn spec_finish(state: Self::State) -> Self::Final;

    /// The phase a fresh job starts in.
    fn initial() -> (s: Self::State)
        ensures
            s == Self::spec_initial(),
    ;

    /// Consume an input in `state`.
    fn transition(state: Self::State, input: Self::Input) -> (r: Option<(Self::State, Option<Self::Output>)>)
        ensures
            r == Self::spec_transition(state, input),
    ;

    /// True when `state` is terminal: no further events are awaited.
    fn is_terminal(state: Self::State) -> (b: bool)
        ensures
            b == Self::spec_is_terminal(state),
    ;

    /// The final value of a terminal `state`.
    fn finish(state: Self::State) -> (f: Self::Final)
        requires
            Self::spec_is_terminal(state),
        ensures
            f == Self::spec_finish(state),
    ;
}

/// Why a run ended without reaching a terminal phase.
#[derive(Debug)]
pub enum RunError<E> {
    /// The driver produced an event for which the current phase has no transition.
    Stuck,
    /// The driver failed awaiting an event or performing an effect.
    Driver(E),
}

/// How a run over a known event sequence stopped.
#[derive(Debug, Clone, Copy, PartialEq, Eq)]
pub enum Stop {
    /// A terminal phase was reached.
    Finished,
    /// The events ran out before a terminal phase (the job is parked).
    Exhausted,
    /// An event had no transition from the current phase.
    Stuck,
}

/// Running `events` from `state`: where it ends, why it stopped, and the
/// effects emitted on the way, in order. Events after a terminal phase are
/// never consumed.
pub open spec fn spec_run<M: Phases>(state: M::State, events: Seq<M::Input>) -> (M::State, Stop, Seq<M::Output>)
    decreases events.len(),
{
    if M::spec_is_terminal(state) {
        (state, Stop::Finished, Seq::empty())
    } else if events.len() == 0 {
        (state, Stop::Exhausted, Seq::empty())
    } else {
        match M::spec_transition(state, events[0]) {
            None => (state, Stop::Stuck, Seq::empty()),
            Some((next, effect)) => {
                let rest = spec_run::<M>(next, events.drop_first());
                let emitted = match effect {
                    Some(e) => seq![e],
                    None => Seq::empty(),
                };
                (rest.0, rest.1, emitted + rest.2)
            },
        }
    }
}

/// The per-event decision the runner takes in a non-terminal phase: the next
/// phase and the effect to perform, or `Stuck` when the phase has no
/// transition for the event.
pub fn advance<M: Phases, E>(state: M::State, event: M::Input) -> (r: Result<(M::State, Option<M::Output>), RunError<E>>)
    ensures
        match M::spec_transition(state, event) {
            Some(t) => (r matches Ok(u) && u == t),
            None => r matches Err(RunError::Stuck),
        },
{
    match M::transition(state, event) {
        Some(t) => Ok(t),
        None => Err(RunError::Stuck),
    }
}

/// Drive a machine from `state` over `events`, as the runner does with a
/// driver whose events are known in advance: stop at a terminal phase, when
/// an event has no transition, or when the events run out. Returns the phase
/// reached, why it stopped, and the effects performed.
pub fn run_events<M: Phases>(state: M::State, events: &Vec<M::Input>) -> (r: (M::State, Stop, Vec<M::Output>))
    ensures
        (r.0, r.1, r.2@) == spec_run::<M>(state, events@),
{
    let mut cur = state;
    let mut effects: Vec<M::Output> = Vec::new();
    let mut i: usize = 0;
    assert(events@.skip(0) =~= events@);
    assert(effects@ + spec_run::<M>(state, events@).2 =~= spec_run::<M>(state, events@).2);
    while i < events.len()
        invariant
            i <= events.len(),
            ({
                let whole = spec_run::<M>(state, events@);
                let rest = spec_run::<M>(cur, events@.skip(i as int));
                whole.0 == rest.0 && whole.1 == rest.1 && whole.2 == effects@ + rest.2
            }),
        decreases events.len() - i,
    {
        if M::is_terminal(cur) {
            return (cur, Stop::Finished, effects);
        }
        let ghost before = effects@;
        let ghost tail = events@.skip(i as int);
        match M::transition(cur, events[i]) {
            None => {
                return (cur, Stop::Stuck, effects);
            },
            Some((next, effect)) => {
                assert(tail[0] == events@[i as int]);
                assert(tail.drop_first() =~= events@.skip(i + 1));
                match effect {
                    Some(e) => {
                        effects.push(e);
                        assert(effects@ + spec_run::<M>(next, events@.skip(i + 1)).2 =~= before + (seq![e] + spec_run::<M>(next, events@.skip(i + 1)).2));
                    },
                    None => {
                        assert(Seq::<M::Output>::empty() + spec_run::<M>(next, events@.skip(i + 1)).2 =~= spec_run::<M>(next, events@.skip(i + 1)).2);
                    },
                }
                cur = next;
            },
        }
        i = i + 1;
    }
    assert(events@.skip(i as int).len() == 0);
    if M::is_terminal(cur) {
        (cur, Stop::Finished, effects)
    } else {
        (cur, Stop::Exhausted, effects)
    }
}

/// The result a run reports: the final value of the terminal phase it
/// reached, `Stuck`, or the driver's error when its events ran out.
pub fn run_result<M: Phases, E>(end: M::State, stop: Stop, exhausted: E) -> (r: Result<M::Final, RunError<E>>)
    requires
        stop == Stop::Finished ==> M::spec_is_terminal(end),
    ensures
        stop == Stop::Finished ==> (r matches Ok(f) && f == M::spec_finish(end)),
        stop == Stop::Stuck ==> r matches Err(RunError::Stuck),
        stop == Stop::Exhausted ==> (r matches Err(RunError::Driver(e)) && e == exhausted),
{
    match stop {
        Stop::Finished => Ok(M::finish(end)),
        Stop::Stuck => Err(RunError::Stuck),
        Stop::Exhausted => Err(RunError::Driver(exhausted)),
    }
}

/// A run that stops at a terminal phase ends in one.
pub proof fn law_finished_is_terminal<M: Phases>(state: M::State, events: Seq<M::Input>)
    ensures
        spec_run::<M>(state, events).1 == Stop::Finished ==> M::spec_is_terminal(spec_run::<M>(state, events).0),
        spec_run::<M>(state, events).1 != Stop::Finished ==> !M::spec_is_terminal(spec_run::<M>(state, events).0),
    decreases events.len(),
{
    if !M::spec_is_terminal(state) && events.len() > 0 {
        if let Some((next, _)) = M::spec_transition(state, events[0]) {
            law_finished_is_terminal::<M>(next, events.drop_first());
        }
    }
}

/// Parking and resuming changes nothing: running `first` until the events run
/// out and then resuming from the parked phase with `second` ends where
/// running `first + second` in one go ends, with the same effects in order.
pub proof fn law_park_and_resume<M: Phases>(state: M::State, first: Seq<M::Input>, second: Seq<M::Input>)
    requires
        spec_run::<M>(state, first).1 == Stop::Exhausted,
    ensures
        ({
            let parked = spec_run::<M>(state, first);
            let resumed = spec_run::<M>(parked.0, second);
            let whole = spec_run::<M>(state, first + second);
            whole.0 == resumed.0 && whole.1 == resumed.1 && whole.2 == parked.2 + resumed.2
        }),
    decreases first.len(),
{
    if first.len() == 0 {
        assert(first + second =~= second);
    } else {
        let (next, effect) = M::spec_transition(state, first[0])->0;
        assert((first + second)[0] == first[0]);
        assert((first + second).drop_first() =~= first.drop_first() + second);
        law_park_and_resume::<M>(next, first.drop_first(), second);
        let parked = spec_run::<M>(next, first.drop_first());
        let resumed = spec_run::<M>(parked.0, second);
        match effect {
            Some(e) => {
                assert(seq![e] + (parked.2 + resumed.2) =~= (seq![e] + parked.2) + resumed.2);
            },
            None => {
                assert(Seq::<M::Output>::empty() + (parked.2 + resumed.2) =~= (Seq::<M::Output>::empty() + parked.2) + resumed.2);
            },
        }
    }
}


/// A unit of phased work: a machine's current phase and the driver that
/// moves it. Start fresh with [`FsmJob::new`], or resume a persisted phase
/// with [`FsmJob::resume`] (how a durable queue rehydrates a parked job).
pub struct FsmJob<M: Phases, D> {
    pub phase: M::State,
    pub driver: D,
}

impl<M: Phases, D> FsmJob<M, D> {
    /// A job that starts at the machine's initial phase.
    pub fn new(driver: D) -> (j: Self)
        ensures
            j.phase == M::spec_initial(),
            j.driver == driver,
    {
        FsmJob { phase: M::initial(), driver }
    }

    /// A job that resumes from a previously persisted `phase`.
    pub fn resume(phase: M::State, driver: D) -> (j: Self)
        ensures
            j.phase == phase,
            j.driver == driver,
    {
        FsmJob { phase, driver }
    }

    /// The current phase: serialize this to park a job durably.
    pub fn phase(&self) -> (p: M::State)
        ensures
            p == self.phase,
    {
        self.phase
    }
}

} // verus!
