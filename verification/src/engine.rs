//! The listener's dispatch mechanism: hydrated events, the effect vocabulary
//! verbs compose from, and the dispatcher that routes each event to the first
//! command whose keyword matcher fires.

use vstd::prelude::*;
use crate::text::{chars_of, find_char, sub_string, starts_with_seq, index_of, occurs_at_exec};

verus! {

/// A hydrated inbound message the engine dispatches on.
#[derive(Debug, Clone)]
pub struct Event {
    /// DID of the account that authored the referring record.
    pub actor_did: String,
    /// AT-URI of the referring record.
    pub source_record: String,
    /// The referring record's rev.
    pub source_rev: String,
    /// The link target (carries the account being watched).
    pub subject: String,
    /// Collection of the referring record.
    pub collection: String,
    /// Hydrated human text, what keyword spotting reads.
    pub text: String,
}

/// The reusable effect vocabulary a verb's state machine composes from.
#[derive(Debug, Clone, Copy, PartialEq, Eq)]
pub enum Effect {
    Gather,
    ResolveTarget,
    Authorize,
    ReadState,
    WriteEffect,
    Attest,
    Reply,
}

/// What handling a command reported.
#[derive(Debug, Clone)]
pub enum Outcome {
    /// Effects were performed.
    Acted,
    /// Matched and resolved, but writes were off.
    DryRun,
    /// Nothing to act on.
    Skipped(&'static str),
    /// The actor was not authorized.
    Denied(&'static str),
    /// Something went wrong.
    Failed(String),
}

/// A verb the engine can dispatch.
pub trait Command {
    /// Whether this verb's keyword matcher fires on `event`.
    spec fn spec_matches(&self, event: Event) -> bool;

    /// Stable short name for config keys and the wide event.
    fn name(&self) -> (n: &'static str);

    /// Keyword spotting: does this event look like this verb's command?
    fn matches(&self, event: &Event) -> (b: bool)
        ensures
            b == self.spec_matches(*event),
    ;
}

/// The index of the first command in `cs` that matches `event`, at or after `i`.
pub open spec fn first_match_from<C: Command>(cs: Seq<C>, event: Event, i: nat) -> Option<int>
    decreases cs.len() - i,
{
    if i >= cs.len() {
        None
    } else if cs[i as int].spec_matches(event) {
        Some(i as int)
    } else {
        first_match_from(cs, event, i + 1)
    }
}

/// The index of the first command in `cs` that matches `event`.
pub open spec fn first_match<C: Command>(cs: Seq<C>, event: Event) -> Option<int> {
    first_match_from(cs, event, 0)
}

proof fn lemma_first_match_from<C: Command>(cs: Seq<C>, event: Event, i: nat)
    ensures
        first_match_from(cs, event, i) matches Some(k) ==> i <= k < cs.len() && cs[k].spec_matches(event)
            && forall|j: int| i <= j < k ==> !cs[j].spec_matches(event),
        first_match_from(cs, event, i) is None ==> forall|j: int| i <= j < cs.len() ==> !cs[j].spec_matches(event),
    decreases cs.len() - i,
{
    if i < cs.len() && !cs[i as int].spec_matches(event) {
        lemma_first_match_from(cs, event, i + 1);
    }
}

/// Registering a command changes routing only where no earlier command
/// matched: an event an earlier command routes still goes to that command,
/// and an event none of them matched now goes to the new command exactly
/// when it matches.
pub proof fn law_register_routes_unmatched<C: Command>(cs: Seq<C>, c: C, event: Event)
    ensures
        first_match(cs, event) matches Some(k) ==> first_match(cs.push(c), event) == Some(k),
        first_match(cs, event) is None ==> (first_match(cs.push(c), event) == if c.spec_matches(event) {
            Some(cs.len() as int)
        } else {
            None::<int>
        }),
{
    let all = cs.push(c);
    lemma_first_match_from(cs, event, 0);
    lemma_first_match_from(all, event, 0);
    assert(all[cs.len() as int] == c);
    if let Some(k) = first_match(cs, event) {
        assert(all[k] == cs[k]);
        if let Some(m) = first_match(all, event) {
            if m < k {
                assert(all[m] == cs[m]);
            }
        }
    } else {
        if let Some(m) = first_match(all, event) {
            if m < cs.len() {
                assert(all[m] == cs[m]);
            }
        }
    }
}

/// Routes events to the first matching command; the first registered wins.
pub struct Dispatcher<C> {
    commands: Vec<C>,
}

impl<C> View for Dispatcher<C> {
    type V = Seq<C>;

    closed spec fn view(&self) -> Seq<C> {
        self.commands@
    }
}

impl<C: Command> Dispatcher<C> {
    /// An empty dispatcher.
    pub fn new() -> (d: Self)
        ensures
            d@ == Seq::<C>::empty(),
    {
        Dispatcher { commands: Vec::new() }
    }

    /// Register a command after the ones already registered.
    pub fn register(&mut self, command: C) -> (ret: &mut Self)
        ensures
            ret@ == old(self)@.push(command),
            final(self)@ == final(ret)@,
    {
        self.commands.push(command);
        self
    }

    /// The first registered command whose matcher fires for `event`, if any.
    pub fn route(&self, event: &Event) -> (r: Option<&C>)
        ensures
            r is Some <==> first_match(self@, *event) is Some,
            r matches Some(c) ==> *c == self@[first_match(self@, *event)->0],
    {
        let mut i: usize = 0;
        while i < self.commands.len()
            invariant
                i <= self.commands.len(),
                forall|j: int| 0 <= j < i ==> !self.commands@[j].spec_matches(*event),
            decreases self.commands.len() - i,
        {
            if self.commands[i].matches(event) {
                proof { lemma_first_match_from(self.commands@, *event, 0); }
                return Some(&self.commands[i]);
            }
            i = i + 1;
        }
        proof { lemma_first_match_from(self.commands@, *event, 0); }
        None
    }
}

/// `at://`
pub open spec fn at_scheme() -> Seq<char> {
    seq!['a', 't', ':', '/', '/']
}

/// The `(did, collection, rkey)` split of `at://<did>/<collection>/<rkey>`:
/// the rkey is everything after the second `/`, and every part must be
/// non-empty.
pub open spec fn at_uri_parts(s: Seq<char>) -> Option<(Seq<char>, Seq<char>, Seq<char>)> {
    if !starts_with_seq(s, at_scheme()) {
        None
    } else {
        let rest = s.skip(5);
        match index_of(rest, '/') {
            None => None,
            Some(a) => {
                let did = rest.take(a);
                let tail = rest.skip(a + 1);
                match index_of(tail, '/') {
                    None => None,
                    Some(b) => {
                        let collection = tail.take(b);
                        let rkey = tail.skip(b + 1);
                        if did.len() == 0 || collection.len() == 0 || rkey.len() == 0 {
                            None
                        } else {
                            Some((did, collection, rkey))
                        }
                    },
                }
            },
        }
    }
}

/// Split `at://<did>/<collection>/<rkey>` into its three parts; `None` if the
/// scheme is wrong or any part is missing or empty.
pub fn parse_at_uri(at_uri: &str) -> (r: Option<(String, String, String)>)
    ensures
        r is Some <==> at_uri_parts(at_uri@) is Some,
        r matches Some(t) ==> (t.0@, t.1@, t.2@) == at_uri_parts(at_uri@)->0,
{
    let v = chars_of(at_uri);
    let scheme = chars_of("at://");
    proof { reveal_strlit("at://"); }
    assert(scheme@ == at_scheme());
    if !occurs_at_exec(&v, &scheme, 0) {
        return None;
    }
    let ghost rest = v@.skip(5);
    let a = match find_char(&v, '/', 5) {
        Some(a) => a,
        None => {
            proof { lemma_shifted_index(v@, '/', 5); }
            return None;
        },
    };
    proof { lemma_shifted_index(v@, '/', 5); }
    let b = match find_char(&v, '/', a + 1) {
        Some(b) => b,
        None => {
            proof { lemma_shifted_index(v@, '/', (a + 1) as nat); }
            assert(rest.skip(a - 5 + 1) =~= v@.skip(a + 1));
            return None;
        },
    };
    proof { lemma_shifted_index(v@, '/', (a + 1) as nat); }
    assert(rest.skip(a - 5 + 1) =~= v@.skip(a + 1));
    assert(rest.take(a - 5) =~= v@.subrange(5, a as int));
    assert(v@.skip(a + 1).take(b - (a + 1)) =~= v@.subrange(a + 1, b as int));
    assert(v@.skip(a + 1).skip(b - (a + 1) + 1) =~= v@.subrange(b + 1, v@.len() as int));
    if a == 5 || b == a + 1 || b + 1 == v.len() {
        return None;
    }
    let did = sub_string(&v, 5, a);
    let collection = sub_string(&v, a + 1, b);
    let rkey = sub_string(&v, b + 1, v.len());
    Some((did, collection, rkey))
}

/// Searching from `k` in `s` is searching from `0` in `s.skip(k)`, shifted by `k`.
pub proof fn lemma_shifted_index(s: Seq<char>, c: char, k: nat)
    requires
        k <= s.len(),
    ensures
        match index_of(s.skip(k as int), c) {
            Some(i) => crate::text::index_of_from(s, c, k) == Some(i + k),
            None => crate::text::index_of_from(s, c, k) is None,
        },
{
    lemma_shifted_index_from(s, c, k, 0);
}

proof fn lemma_shifted_index_from(s: Seq<char>, c: char, k: nat, i: nat)
    requires
        k <= s.len(),
    ensures
        match crate::text::index_of_from(s.skip(k as int), c, i) {
            Some(j) => crate::text::index_of_from(s, c, k + i) == Some(j + k),
            None => crate::text::index_of_from(s, c, k + i) is None,
        },
    decreases s.len() - k - i,
{
    if k + i < s.len() {
        if s[(k + i) as int] != c {
            lemma_shifted_index_from(s, c, k, i + 1);
            assert(k + (i + 1) == (k + i) + 1);
        }
    }
}

} // verus!
