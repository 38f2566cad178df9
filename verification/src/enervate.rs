//! The enervate verb: "burn (my) tass".
//!
//! Its phase graph:
//!
//! ```text
//! Matched   -> FoundTass  => Resolved                    | NoTass       => Skipped
//! Resolved  -> Owner      => Authorized [ReadBalance]    | NotOwner     => Denied
//! Authorized-> Sufficient => Enacting   [WriteEnervate]  | Insufficient => Aborted
//! Enacting  -> Wrote      => Attesting  [WriteAttestation]
//! Attesting -> Attested   => Done
//! ```
//!
//! The driver reads the actor's tass for real and dry-runs writes. Here stand
//! the machine, the driver's decisions (which tass, how much, whether there
//! is enough), the outcome reported to the engine, and the keyword matcher;
//! the reads and the run loop's awaiting live with the caller.

use vstd::prelude::*;
use crate::engine::{Command, Event, Outcome};
use crate::json::{get_int, get_str};
use crate::phase::{Phases, RunError, spec_run, Stop};
use crate::repo::{prefixed, RecordEnvelope};
use crate::text::{chars_of, contains_seq, contains_str, digits_value, is_digit, lemma_digits_push, lowercase, to_lowercase};

verus! {

/// The collection whose records hold a tass's quintessence.
pub const TASSILIZE: &'static str = "com.superbfowle.tass.tassilize";

/// The phases of an enervate run.
#[derive(Debug, Clone, Copy, PartialEq, Eq, Structural)]
pub enum State {
    Matched,
    Resolved,
    Authorized,
    Enacting,
    Attesting,
    Done,
    Skipped,
    Denied,
    Aborted,
}

/// The events that advance an enervate run.
#[derive(Debug, Clone, Copy, PartialEq, Eq, Structural)]
pub enum Input {
    FoundTass,
    NoTass,
    Owner,
    NotOwner,
    Sufficient,
    Insufficient,
    Wrote,
    Attested,
}

/// The effects an enervate transition emits.
#[derive(Debug, Clone, Copy, PartialEq, Eq, Structural)]
pub enum Output {
    ReadBalance,
    WriteEnervate,
    WriteAttestation,
}

/// Terminal value of an enervate run.
#[derive(Debug, Clone, Copy, PartialEq, Eq, Structural)]
pub enum EnervateOutcome {
    /// Ran through enact and attest (dry-run).
    Burned,
    /// No tass to act on.
    Skipped,
    /// The actor did not own the tass.
    Denied,
    /// Nothing available to draw.
    Aborted,
}

/// The enervate phase graph.
pub open spec fn step(s: State, i: Input) -> Option<(State, Option<Output>)> {
    match (s, i) {
        (State::Matched, Input::FoundTass) => Some((State::Resolved, None)),
        (State::Matched, Input::NoTass) => Some((State::Skipped, None)),
        (State::Resolved, Input::Owner) => Some((State::Authorized, Some(Output::ReadBalance))),
        (State::Resolved, Input::NotOwner) => Some((State::Denied, None)),
        (State::Authorized, Input::Sufficient) => Some((State::Enacting, Some(Output::WriteEnervate))),
        (State::Authorized, Input::Insufficient) => Some((State::Aborted, None)),
        (State::Enacting, Input::Wrote) => Some((State::Attesting, Some(Output::WriteAttestation))),
        (State::Attesting, Input::Attested) => Some((State::Done, None)),
        _ => None,
    }
}

/// The terminal phases.
pub open spec fn terminal(s: State) -> bool {
    s == State::Done || s == State::Skipped || s == State::Denied || s == State::Aborted
}

/// The outcome a terminal phase stands for.
pub open spec fn outcome_of(s: State) -> EnervateOutcome {
    match s {
        State::Skipped => EnervateOutcome::Skipped,
        State::Denied => EnervateOutcome::Denied,
        State::Aborted => EnervateOutcome::Aborted,
        _ => EnervateOutcome::Burned,
    }
}

/// The enervate machine.
pub struct Impl;

impl Phases for Impl {
    type State = State;
    type Input = Input;
    type Output = Output;
    type Final = EnervateOutcome;

    open spec fn spec_initial() -> State {
        State::Matched
    }

    open spec fn spec_transition(state: State, input: Input) -> Option<(State, Option<Output>)> {
        step(state, input)
    }

    open spec fn spec_is_terminal(state: State) -> bool {
        terminal(state)
    }

    open spec fn spec_finish(state: State) -> EnervateOutcome {
        outcome_of(state)
    }

    fn initial() -> (s: State) {
        State::Matched
    }

    fn transition(state: State, input: Input) -> (r: Option<(State, Option<Output>)>) {
        match (state, input) {
            (State::Matched, Input::FoundTass) => Some((State::Resolved, None)),
            (State::Matched, Input::NoTass) => Some((State::Skipped, None)),
            (State::Resolved, Input::Owner) => Some((State::Authorized, Some(Output::ReadBalance))),
            (State::Resolved, Input::NotOwner) => Some((State::Denied, None)),
            (State::Authorized, Input::Sufficient) => Some((State::Enacting, Some(Output::WriteEnervate))),
            (State::Authorized, Input::Insufficient) => Some((State::Aborted, None)),
            (State::Enacting, Input::Wrote) => Some((State::Attesting, Some(Output::WriteAttestation))),
            (State::Attesting, Input::Attested) => Some((State::Done, None)),
            _ => None,
        }
    }

    fn is_terminal(state: State) -> (b: bool) {
        match state {
            State::Done | State::Skipped | State::Denied | State::Aborted => true,
            _ => false,
        }
    }

    fn finish(state: State) -> (f: EnervateOutcome) {
        match state {
            State::Skipped => EnervateOutcome::Skipped,
            State::Denied => EnervateOutcome::Denied,
            State::Aborted => EnervateOutcome::Aborted,
            _ => EnervateOutcome::Burned,
        }
    }
}

/// Errors the driver can hit awaiting an event or performing an effect.
#[derive(Debug)]
pub enum EnervateError {
    Read(String),
    Ident(String),
    WritesNotWired,
    Unexpected(String),
}

/// The text an [`EnervateError`] reads as.
pub open spec fn enervate_error_text(e: EnervateError) -> Seq<char> {
    match e {
        EnervateError::Read(m) => "reading the actor's tass failed: "@ + m@,
        EnervateError::Ident(m) => "invalid actor DID: "@ + m@,
        EnervateError::WritesNotWired => "real writes are not wired yet (writes=off)"@,
        EnervateError::Unexpected(m) => "driver reached an unexpected phase: "@ + m@,
    }
}

impl EnervateError {
    /// The message this error reads as.
    pub fn message(&self) -> (r: String)
        ensures
            r@ == enervate_error_text(*self),
    {
        match self {
            EnervateError::Read(m) => prefixed("reading the actor's tass failed: ", m.as_str()),
            EnervateError::Ident(m) => prefixed("invalid actor DID: ", m.as_str()),
            EnervateError::WritesNotWired => String::from_str("real writes are not wired yet (writes=off)"),
            EnervateError::Unexpected(m) => prefixed("driver reached an unexpected phase: ", m.as_str()),
        }
    }
}

/// The name a phase is reported under.
pub open spec fn state_label(s: State) -> Seq<char> {
    match s {
        State::Matched => "Matched"@,
        State::Resolved => "Resolved"@,
        State::Authorized => "Authorized"@,
        State::Enacting => "Enacting"@,
        State::Attesting => "Attesting"@,
        State::Done => "Done"@,
        State::Skipped => "Skipped"@,
        State::Denied => "Denied"@,
        State::Aborted => "Aborted"@,
    }
}

/// The name a phase is reported under.
pub fn state_name(s: State) -> (r: String)
    ensures
        r@ == state_label(s),
{
    let name = match s {
        State::Matched => "Matched",
        State::Resolved => "Resolved",
        State::Authorized => "Authorized",
        State::Enacting => "Enacting",
        State::Attesting => "Attesting",
        State::Done => "Done",
        State::Skipped => "Skipped",
        State::Denied => "Denied",
        State::Aborted => "Aborted",
    };
    String::from_str(name)
}

// ---------------------------------------------------------------------------
// Amounts: the first bare integer in the message.

/// The end of the digit run starting at `i`.
pub open spec fn run_end(s: Seq<char>, i: nat) -> nat
    decreases s.len() - i,
{
    if i < s.len() && is_digit(s[i as int]) {
        run_end(s, i + 1)
    } else {
        i
    }
}

/// The first maximal run of digits at or after `i` whose value fits in an
/// `i64`, as that value.
pub open spec fn amount_from(s: Seq<char>, i: nat) -> Option<i64>
    decreases s.len() - i,
{
    if i >= s.len() {
        None
    } else if !is_digit(s[i as int]) {
        amount_from(s, i + 1)
    } else {
        let j = run_end(s, i);
        let v = digits_value(s.subrange(i as int, j as int));
        if v <= i64::MAX {
            Some(v as i64)
        } else {
            proof {
                lemma_run_end(s, i);
            }
            amount_from(s, j)
        }
    }
}

/// The explicit amount a message names: its first bare integer (a maximal
/// run of ASCII digits) that parses as an `i64`.
pub open spec fn amount_in(s: Seq<char>) -> Option<i64> {
    amount_from(s, 0)
}

pub proof fn lemma_run_end(s: Seq<char>, i: nat)
    requires
        i <= s.len(),
    ensures
        i <= run_end(s, i) <= s.len(),
        forall|k: int| i <= k < run_end(s, i) ==> is_digit(#[trigger] s[k]),
        run_end(s, i) < s.len() ==> !is_digit(s[run_end(s, i) as int]),
    decreases s.len() - i,
{
    if i < s.len() && is_digit(s[i as int]) {
        lemma_run_end(s, i + 1);
    }
}

proof fn lemma_run_end_from(s: Seq<char>, i: nat, j: nat)
    requires
        i <= j <= s.len(),
        forall|k: int| i <= k < j ==> is_digit(#[trigger] s[k]),
    ensures
        run_end(s, i) == run_end(s, j),
    decreases j - i,
{
    if i < j {
        lemma_run_end_from(s, i + 1, j);
    }
}

/// The explicit amount in `text`: its first bare integer, or `None` when it
/// names none (which the caller reads as "the whole balance").
pub fn parse_amount(text: &str) -> (r: Option<i64>)
    ensures
        r == amount_in(text@),
{
    let v = chars_of(text);
    let mut i: usize = 0;
    while i < v.len()
        invariant
            i <= v.len(),
            v@ == text@,
            amount_in(v@) == amount_from(v@, i as nat),
        decreases v.len() - i,
    {
        if !(v[i] >= '0' && v[i] <= '9') {
            i = i + 1;
        } else {
            let mut j: usize = i;
            let mut acc: i64 = 0;
            let mut over: bool = false;
            while j < v.len() && v[j] >= '0' && v[j] <= '9'
                invariant
                    i <= j <= v.len(),
                    forall|k: int| i <= k < j ==> is_digit(#[trigger] v@[k]),
                    over ==> digits_value(v@.subrange(i as int, j as int)) > i64::MAX,
                    !over ==> acc == digits_value(v@.subrange(i as int, j as int)),
                    !over ==> 0 <= acc,
                decreases v.len() - j,
            {
                let d: i64 = ((v[j] as u32) - ('0' as u32)) as i64;
                proof {
                    lemma_digits_push(v@.subrange(i as int, j as int), v@[j as int]);
                    assert(v@.subrange(i as int, j + 1) =~= v@.subrange(i as int, j as int).push(v@[j as int]));
                }
                if !over {
                    if acc > 922337203685477580 || (acc == 922337203685477580 && d > 7) {
                        over = true;
                    } else {
                        acc = acc * 10 + d;
                    }
                }
                j = j + 1;
            }
            proof {
                lemma_run_end(v@, i as nat);
                lemma_run_end_from(v@, i as nat, j as nat);
                lemma_run_end(v@, j as nat);
            }
            if !over {
                assert(run_end(v@, i as nat) == j);
                assert(digits_value(v@.subrange(i as int, j as int)) == acc);
                assert(amount_from(v@, i as nat) == Some(acc));
                return Some(acc);
            }
            i = j;
        }
    }
    None
}

// ---------------------------------------------------------------------------
// Picking the tass a message is about.

/// A record's quintessence: its integer `quintessence` member, else 0.
pub open spec fn quint_of(r: RecordEnvelope) -> i64 {
    match get_int(r.value, "quintessence"@) {
        Some(q) => q,
        None => 0,
    }
}

/// A record's non-empty `form`, when it has one.
pub open spec fn form_of(r: RecordEnvelope) -> Option<Seq<char>> {
    match get_str(r.value, "form"@) {
        Some(f) => if f.len() > 0 { Some(f) } else { None },
        None => None,
    }
}

/// The index of the first record at or after `i` whose (lower-cased) form
/// occurs in `haystack`.
pub open spec fn first_form_hit(forms: Seq<Option<Seq<char>>>, haystack: Seq<char>, i: nat) -> Option<int>
    decreases forms.len() - i,
{
    if i >= forms.len() {
        None
    } else if forms[i as int] matches Some(f) && contains_seq(haystack, f) {
        Some(i as int)
    } else {
        first_form_hit(forms, haystack, i + 1)
    }
}

/// The tass picked among `records`, given each record's lower-cased form and
/// the lower-cased message: the first whose form occurs in the message, else
/// the first record; as its URI and quintessence.
pub open spec fn pick_among(records: Seq<RecordEnvelope>, forms: Seq<Option<Seq<char>>>, haystack: Seq<char>) -> Option<(Seq<char>, i64)> {
    match first_form_hit(forms, haystack, 0) {
        Some(k) => Some((records[k].uri@, quint_of(records[k]))),
        None => if records.len() > 0 {
            Some((records[0].uri@, quint_of(records[0])))
        } else {
            None
        },
    }
}

/// Each record's form, lower-cased.
pub open spec fn lowered_forms(records: Seq<RecordEnvelope>) -> Seq<Option<Seq<char>>> {
    records.map_values(|r: RecordEnvelope| match form_of(r) {
        Some(f) => Some(lowercase(f)),
        None => None,
    })
}

/// The tass a message picks among `records`.
pub open spec fn picked(records: Seq<RecordEnvelope>, text: Seq<char>) -> Option<(Seq<char>, i64)> {
    pick_among(records, lowered_forms(records), lowercase(text))
}

/// The views of optional strings.
pub open spec fn opt_views(v: Seq<Option<String>>) -> Seq<Option<Seq<char>>> {
    v.map_values(|o: Option<String>| match o {
        Some(s) => Some(s@),
        None => None,
    })
}

proof fn lemma_first_form_hit(forms: Seq<Option<Seq<char>>>, haystack: Seq<char>, i: nat)
    ensures
        first_form_hit(forms, haystack, i) matches Some(k) ==> i <= k < forms.len(),
    decreases forms.len() - i,
{
    if i < forms.len() && !(forms[i as int] matches Some(f) && contains_seq(haystack, f)) {
        lemma_first_form_hit(forms, haystack, i + 1);
    }
}

/// The record's `quintessence`, else 0.
fn record_quint(r: &RecordEnvelope) -> (q: i64)
    ensures
        q == quint_of(*r),
{
    match r.value.get_i64("quintessence") {
        Some(q) => q,
        None => 0,
    }
}

/// Pick the tass among `records`, given each record's lower-cased form
/// (`None` where it has no non-empty form) and the lower-cased message.
pub fn pick_tass_lowered(records: &[RecordEnvelope], forms: &Vec<Option<String>>, haystack: &str) -> (r: Option<(String, i64)>)
    requires
        forms.len() == records.len(),
    ensures
        r is Some <==> pick_among(records@, opt_views(forms@), haystack@) is Some,
        r matches Some(t) ==> (t.0@, t.1) == pick_among(records@, opt_views(forms@), haystack@)->0,
{
    let ghost fv = opt_views(forms@);
    let mut i: usize = 0;
    while i < records.len()
        invariant
            i <= records.len(),
            forms.len() == records.len(),
            fv == opt_views(forms@),
            first_form_hit(fv, haystack@, 0) == first_form_hit(fv, haystack@, i as nat),
        decreases records.len() - i,
    {
        match &forms[i] {
            Some(f) => {
                if contains_str(haystack, f.as_str()) {
                    proof { lemma_first_form_hit(fv, haystack@, 0); }
                    return Some((records[i].uri.clone(), record_quint(&records[i])));
                }
            },
            None => {},
        }
        i = i + 1;
    }
    if records.len() > 0 {
        Some((records[0].uri.clone(), record_quint(&records[0])))
    } else {
        None
    }
}

/// Pick a tass from `records`: prefer the first whose `form` occurs in the
/// message (both lower-cased), else the first record. Returns its URI and
/// current quintessence.
pub fn pick_tass(records: &[RecordEnvelope], text: &str) -> (r: Option<(String, i64)>)
    ensures
        r is Some <==> picked(records@, text@) is Some,
        r matches Some(t) ==> (t.0@, t.1) == picked(records@, text@)->0,
{
    let haystack = to_lowercase(text);
    let mut forms: Vec<Option<String>> = Vec::new();
    let mut i: usize = 0;
    while i < records.len()
        invariant
            i <= records.len(),
            forms.len() == i,
            opt_views(forms@) =~= lowered_forms(records@).take(i as int),
        decreases records.len() - i,
    {
        let f = match records[i].value.get_str("form") {
            Some(f) => {
                if !f.as_str().is_empty() {
                    Some(to_lowercase(f.as_str()))
                } else {
                    None
                }
            },
            None => None,
        };
        forms.push(f);
        i = i + 1;
    }
    assert(lowered_forms(records@).take(records.len() as int) =~= lowered_forms(records@));
    pick_tass_lowered(records, &forms, haystack.as_str())
}


proof fn lemma_first_hit_is(forms: Seq<Option<Seq<char>>>, haystack: Seq<char>, i: int, n: nat)
    requires
        n <= i < forms.len(),
        forms[i] matches Some(f) && contains_seq(haystack, f),
        forall|j: int| n <= j < i ==> !(#[trigger] forms[j] matches Some(g) && contains_seq(haystack, g)),
    ensures
        first_form_hit(forms, haystack, n) == Some(i),
    decreases i - n,
{
    if n < i {
        lemma_first_hit_is(forms, haystack, i, n + 1);
    }
}

proof fn lemma_no_hit(forms: Seq<Option<Seq<char>>>, haystack: Seq<char>, n: nat)
    requires
        n <= forms.len(),
        forall|j: int| n <= j < forms.len() ==> !(#[trigger] forms[j] matches Some(g) && contains_seq(haystack, g)),
    ensures
        first_form_hit(forms, haystack, n) is None,
    decreases forms.len() - n,
{
    if n < forms.len() {
        lemma_no_hit(forms, haystack, n + 1);
    }
}

/// Whether record `r`'s non-empty form, lower-cased, occurs in the
/// lower-cased message `text`.
pub open spec fn names_form(r: RecordEnvelope, text: Seq<char>) -> bool {
    get_str(r.value, "form"@) matches Some(f) && f.len() > 0 && contains_seq(lowercase(text), lowercase(f))
}

/// A message picks the first tass whose form it names, compared without
/// regard to case: that record's URI and quintessence.
pub proof fn law_pick_first_named_form(records: Seq<RecordEnvelope>, text: Seq<char>, i: int)
    requires
        0 <= i < records.len(),
        names_form(records[i], text),
        forall|j: int| 0 <= j < i ==> !names_form(#[trigger] records[j], text),
    ensures
        picked(records, text) == Some((records[i].uri@, quint_of(records[i]))),
{
    let forms = lowered_forms(records);
    assert forall|j: int| 0 <= j < i implies !(#[trigger] forms[j] matches Some(g) && contains_seq(lowercase(text), g)) by {
        assert(!names_form(records[j], text));
    }
    lemma_first_hit_is(forms, lowercase(text), i, 0);
}

/// A message that names no tass's form picks the first tass (and none when
/// there is none).
pub proof fn law_pick_falls_back_to_first(records: Seq<RecordEnvelope>, text: Seq<char>)
    requires
        forall|j: int| 0 <= j < records.len() ==> !names_form(#[trigger] records[j], text),
    ensures
        records.len() > 0 ==> picked(records, text) == Some((records[0].uri@, quint_of(records[0]))),
        records.len() == 0 ==> picked(records, text) is None,
{
    let forms = lowered_forms(records);
    assert forall|j: int| 0 <= j < forms.len() implies !(#[trigger] forms[j] matches Some(g) && contains_seq(lowercase(text), g)) by {
        assert(!names_form(records[j], text));
    }
    lemma_no_hit(forms, lowercase(text), 0);
}

/// The pick does not depend on the case of the forms: two lists of records
/// with the same URIs and balances whose forms agree once lower-cased pick
/// the same tass.
pub proof fn law_pick_ignores_form_case(a: Seq<RecordEnvelope>, b: Seq<RecordEnvelope>, text: Seq<char>)
    requires
        a.len() == b.len(),
        forall|i: int| 0 <= i < a.len() ==> #[trigger] a[i].uri@ == b[i].uri@ && quint_of(a[i]) == quint_of(b[i])
            && (form_of(a[i]) is Some <==> form_of(b[i]) is Some)
            && (form_of(a[i]) is Some ==> lowercase(form_of(a[i])->0) == lowercase(form_of(b[i])->0)),
    ensures
        picked(a, text) == picked(b, text),
{
    assert(lowered_forms(a) =~= lowered_forms(b)) by {
        assert forall|i: int| 0 <= i < a.len() implies lowered_forms(a)[i] == lowered_forms(b)[i] by {
            assert(a[i].uri@ == b[i].uri@);
        }
    }
    match first_form_hit(lowered_forms(a), lowercase(text), 0) {
        Some(k) => {
            lemma_first_form_hit(lowered_forms(a), lowercase(text), 0);
            assert(a[k].uri@ == b[k].uri@);
        },
        None => {
            if a.len() > 0 {
                assert(a[0].uri@ == b[0].uri@);
            }
        },
    }
}

// ---------------------------------------------------------------------------
// The driver's decisions.

/// What the driver does next in a phase.
#[derive(Debug, Clone, Copy, PartialEq, Eq, Structural)]
pub enum Step {
    /// Report this event to the machine at once.
    Report(Input),
    /// Read the actor's tassilize records first, then report what
    /// [`EnervateDriver::tass_read`] makes of them.
    ReadTass,
}

/// The enervate driver's state: the event it serves, whether writes are
/// dry-run, and what it gathered during the run.
pub struct EnervateDriver {
    pub event: Event,
    pub dry_run: bool,
    pub tass_uri: Option<String>,
    pub quintessence: i64,
    pub amount: i64,
}

/// The amount a run draws: the message's explicit amount, else the whole
/// balance `quintessence`.
pub open spec fn amount_for(text: Seq<char>, quintessence: i64) -> i64 {
    match amount_in(text) {
        Some(a) => a,
        None => quintessence,
    }
}

/// Whether `amount` can be drawn from `quintessence`.
pub open spec fn sufficient(amount: i64, quintessence: i64) -> bool {
    amount > 0 && quintessence >= amount
}

/// A positive amount can be burned exactly when it does not exceed the
/// balance: burning the whole balance is allowed, one more is not.
pub proof fn law_burn_within_balance(a: i64, q: i64)
    requires
        a > 0,
    ensures
        sufficient(a, q) <==> a <= q,
        sufficient(q, q) <==> q > 0,
{
}

/// A message that names no amount burns the whole balance, which is enough
/// whenever the balance is positive.
pub proof fn law_whole_balance_is_sufficient(text: Seq<char>, q: i64)
    requires
        amount_in(text) is None,
        q > 0,
    ensures
        amount_for(text, q) == q,
        sufficient(amount_for(text, q), q),
{
}

impl EnervateDriver {
    /// A dry-run driver (writes off) for `event`.
    pub fn dry_run(event: Event) -> (d: Self)
        ensures
            d.event == event,
            d.dry_run,
            d.tass_uri is None,
            d.quintessence == 0,
            d.amount == 0,
    {
        EnervateDriver { event, dry_run: true, tass_uri: None, quintessence: 0, amount: 0 }
    }

    /// The next thing to do for the machine sitting in `state`: read the
    /// actor's tass (from `Matched`), or report an event. The actor's own repo
    /// is read, so the tass is theirs (`Owner`); sufficiency fixes the amount.
    pub fn next_event(&mut self, state: State) -> (r: Result<Step, EnervateError>)
        ensures
            state == State::Matched ==> r == Ok::<Step, EnervateError>(Step::ReadTass),
            state == State::Resolved ==> r == Ok::<Step, EnervateError>(Step::Report(Input::Owner)),
            state == State::Authorized ==> ({
                let a = amount_for(old(self).event.text@, old(self).quintessence);
                &&& final(self).amount == a
                &&& r == Ok::<Step, EnervateError>(Step::Report(
                    if sufficient(a, old(self).quintessence) { Input::Sufficient } else { Input::Insufficient },
                ))
                &&& (r == Ok::<Step, EnervateError>(Step::Report(Input::Sufficient))
                    <==> 0 < a <= old(self).quintessence)
            }),
            state == State::Enacting ==> r == Ok::<Step, EnervateError>(Step::Report(Input::Wrote)),
            state == State::Attesting ==> r == Ok::<Step, EnervateError>(Step::Report(Input::Attested)),
            terminal(state) ==> (r matches Err(EnervateError::Unexpected(m)) && m@ == state_label(state)),
            state != State::Authorized ==> final(self).amount == old(self).amount,
            final(self).event == old(self).event,
            final(self).dry_run == old(self).dry_run,
            final(self).tass_uri == old(self).tass_uri,
            final(self).quintessence == old(self).quintessence,
    {
        match state {
            State::Matched => Ok(Step::ReadTass),
            State::Resolved => Ok(Step::Report(Input::Owner)),
            State::Authorized => {
                self.amount = match parse_amount(self.event.text.as_str()) {
                    Some(a) => a,
                    None => self.quintessence,
                };
                if self.amount > 0 && self.quintessence >= self.amount {
                    Ok(Step::Report(Input::Sufficient))
                } else {
                    Ok(Step::Report(Input::Insufficient))
                }
            },
            State::Enacting => Ok(Step::Report(Input::Wrote)),
            State::Attesting => Ok(Step::Report(Input::Attested)),
            _ => Err(EnervateError::Unexpected(state_name(state))),
        }
    }

    /// What the read of the actor's tassilize records found: the tass the
    /// message picks (remembered, with its quintessence), or none.
    pub fn tass_read(&mut self, records: &[RecordEnvelope]) -> (i: Input)
        ensures
            match picked(records@, old(self).event.text@) {
                Some(p) => {
                    &&& i == Input::FoundTass
                    &&& final(self).tass_uri matches Some(u) && u@ == p.0
                    &&& final(self).quintessence == p.1
                },
                None => i == Input::NoTass && final(self).tass_uri == old(self).tass_uri
                    && final(self).quintessence == old(self).quintessence,
            },
            final(self).event == old(self).event,
            final(self).dry_run == old(self).dry_run,
            final(self).amount == old(self).amount,
    {
        match pick_tass(records, self.event.text.as_str()) {
            Some((uri, quintessence)) => {
                self.tass_uri = Some(uri);
                self.quintessence = quintessence;
                Input::FoundTass
            },
            None => Input::NoTass,
        }
    }

    /// Perform an effect. Reads and attestations are logged only; the
    /// enervate write is refused unless writes are dry-run.
    pub fn effect(&self, effect: Output) -> (r: Result<(), EnervateError>)
        ensures
            effect == Output::WriteEnervate && !self.dry_run ==> r matches Err(EnervateError::WritesNotWired),
            !(effect == Output::WriteEnervate && !self.dry_run) ==> r is Ok,
    {
        match effect {
            Output::WriteEnervate => {
                if !self.dry_run {
                    return Err(EnervateError::WritesNotWired);
                }
                Ok(())
            },
            _ => Ok(()),
        }
    }

    /// Feed `input` to the machine in `state` and perform the effect the
    /// transition emits: the phase entered, or why the run stops there.
    pub fn consume(&self, state: State, input: Input) -> (r: Result<State, RunError<EnervateError>>)
        ensures
            match step(state, input) {
                None => r matches Err(RunError::Stuck),
                Some((next, effect)) => if effect == Some(Output::WriteEnervate) && !self.dry_run {
                    r matches Err(RunError::Driver(EnervateError::WritesNotWired))
                } else {
                    r matches Ok(n) && n == next
                },
            },
    {
        match Impl::transition(state, input) {
            None => Err(RunError::Stuck),
            Some((next, effect)) => {
                match effect {
                    Some(e) => match self.effect(e) {
                        Ok(()) => Ok(next),
                        Err(err) => Err(RunError::Driver(err)),
                    },
                    None => Ok(next),
                }
            },
        }
    }
}

/// The text a failed run reads as.
pub open spec fn run_error_text(e: RunError<EnervateError>) -> Seq<char> {
    match e {
        RunError::Stuck => "no transition for the produced event"@,
        RunError::Driver(d) => "driver error: "@ + enervate_error_text(d),
    }
}

/// The message a failed run reads as.
pub fn run_error_message(e: &RunError<EnervateError>) -> (r: String)
    ensures
        r@ == run_error_text(*e),
{
    match e {
        RunError::Stuck => String::from_str("no transition for the produced event"),
        RunError::Driver(d) => {
            let m = d.message();
            prefixed("driver error: ", m.as_str())
        },
    }
}

/// What the engine is told of a finished run: a completed chain would have
/// burned (a dry run); the short-circuits are skips or a denial; a failure
/// carries its message.
pub fn report(r: &Result<EnervateOutcome, RunError<EnervateError>>) -> (o: Outcome)
    ensures
        r matches Ok(EnervateOutcome::Burned) ==> o matches Outcome::DryRun,
        r matches Ok(EnervateOutcome::Skipped) ==> (o matches Outcome::Skipped(m) && m@ == "no tass to burn"@),
        r matches Ok(EnervateOutcome::Denied) ==> (o matches Outcome::Denied(m) && m@ == "not the actor's tass"@),
        r matches Ok(EnervateOutcome::Aborted) ==> (o matches Outcome::Skipped(m) && m@ == "no quintessence available"@),
        *r matches Err(e) ==> (o matches Outcome::Failed(m) && m@ == run_error_text(e)),
{
    match r {
        Ok(EnervateOutcome::Burned) => Outcome::DryRun,
        Ok(EnervateOutcome::Skipped) => Outcome::Skipped("no tass to burn"),
        Ok(EnervateOutcome::Denied) => Outcome::Denied("not the actor's tass"),
        Ok(EnervateOutcome::Aborted) => Outcome::Skipped("no quintessence available"),
        Err(e) => Outcome::Failed(run_error_message(e)),
    }
}

// ---------------------------------------------------------------------------
// The command.

/// A lower-cased message asks to burn tass: it mentions both "burn" and
/// "tass".
pub open spec fn burn_tass_request(lowered: Seq<char>) -> bool {
    contains_seq(lowered, "burn"@) && contains_seq(lowered, "tass"@)
}

/// Whether a lower-cased message asks to burn tass.
pub fn mentions_burn_tass(lowered: &str) -> (b: bool)
    ensures
        b == burn_tass_request(lowered@),
{
    contains_str(lowered, "burn") && contains_str(lowered, "tass")
}

/// Keyword spotting shared by the burn verbs: the message, lower-cased,
/// mentions "burn" and "tass".
pub fn asks_to_burn(event: &Event) -> (b: bool)
    ensures
        b == burn_tass_request(lowercase(event.text@)),
{
    let t = to_lowercase(event.text.as_str());
    mentions_burn_tass(t.as_str())
}

/// The enervate command: keyword-spots "burn ... tass".
pub struct EnervateCommand;

impl Command for EnervateCommand {
    open spec fn spec_matches(&self, event: Event) -> bool {
        burn_tass_request(lowercase(event.text@))
    }

    fn name(&self) -> (n: &'static str)
        ensures
            n@ == "enervate"@,
    {
        "enervate"
    }

    fn matches(&self, event: &Event) -> (b: bool) {
        asks_to_burn(event)
    }
}


// ---------------------------------------------------------------------------
// Laws of the phase graph.

/// The effects a run still emits from `s` on its way to `Done`.
pub open spec fn effects_to_done(s: State) -> Seq<Output> {
    match s {
        State::Matched => seq![Output::ReadBalance, Output::WriteEnervate, Output::WriteAttestation],
        State::Resolved => seq![Output::ReadBalance, Output::WriteEnervate, Output::WriteAttestation],
        State::Authorized => seq![Output::WriteEnervate, Output::WriteAttestation],
        State::Enacting => seq![Output::WriteAttestation],
        _ => Seq::empty(),
    }
}

/// The short-circuit phases: nothing to burn, not the actor's, nothing to draw.
pub open spec fn short_circuit(s: State) -> bool {
    s == State::Skipped || s == State::Denied || s == State::Aborted
}

/// The phases before the enervate write.
pub open spec fn before_enacting(s: State) -> bool {
    s == State::Matched || s == State::Resolved || s == State::Authorized
}

proof fn lemma_run_effects(s: State, events: Seq<Input>)
    ensures
        spec_run::<Impl>(s, events).0 == State::Done ==> spec_run::<Impl>(s, events).2 == effects_to_done(s),
        short_circuit(spec_run::<Impl>(s, events).0) ==> (before_enacting(s) || short_circuit(s))
            && !spec_run::<Impl>(s, events).2.contains(Output::WriteEnervate),
    decreases events.len(),
{
    if !terminal(s) && events.len() > 0 {
        if let Some((next, e)) = step(s, events[0]) {
            lemma_run_effects(next, events.drop_first());
            let rest = spec_run::<Impl>(next, events.drop_first());
            match e {
                Some(x) => {
                    if short_circuit(rest.0) {
                        assert(x != Output::WriteEnervate);
                        assert forall|k: int| 0 <= k < (seq![x] + rest.2).len() implies (seq![x] + rest.2)[k] != Output::WriteEnervate by {
                            if k > 0 {
                                assert((seq![x] + rest.2)[k] == rest.2[k - 1]);
                            }
                        }
                    }
                    if rest.0 == State::Done {
                        assert(seq![x] + rest.2 =~= effects_to_done(s));
                    }
                },
                None => {
                    assert(Seq::<Output>::empty() + rest.2 =~= rest.2);
                },
            }
        }
    }
}

/// A run from the start reaches `Done` only by going through the whole chain:
/// it emits exactly a balance read, the enervate write and the attestation,
/// in that order.
pub proof fn law_burn_emits_the_chain(events: Seq<Input>)
    ensures
        spec_run::<Impl>(State::Matched, events).0 == State::Done ==> spec_run::<Impl>(State::Matched, events).2
            == seq![Output::ReadBalance, Output::WriteEnervate, Output::WriteAttestation],
{
    lemma_run_effects(State::Matched, events);
}

/// A short-circuited run writes nothing: a run from the start that ends
/// skipped, denied or aborted never emitted the enervate write.
pub proof fn law_short_circuit_writes_nothing(events: Seq<Input>)
    ensures
        short_circuit(spec_run::<Impl>(State::Matched, events).0)
            ==> !spec_run::<Impl>(State::Matched, events).2.contains(Output::WriteEnervate),
{
    lemma_run_effects(State::Matched, events);
}

/// Terminal phases take no further events.
pub proof fn law_terminal_phases_are_final(s: State, i: Input)
    requires
        terminal(s),
    ensures
        step(s, i) is None,
{
}

/// Once the enervate write is behind a run, it can no longer short-circuit:
/// from `Enacting` on, a run ends only in `Done` or waits.
pub proof fn law_no_short_circuit_after_write(s: State, events: Seq<Input>)
    requires
        s == State::Enacting || s == State::Attesting,
    ensures
        !short_circuit(spec_run::<Impl>(s, events).0),
{
    lemma_run_effects(s, events);
}

} // verus!
