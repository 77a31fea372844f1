//! The race over candidate connection attempts.
//!
//! Direct-outgoing attempts, the direct-incoming stream and the single
//! relay-assisted attempt all run concurrently and each eventually produces a
//! `SingleAttemptOutcome`. The race takes the first outcome that is a success;
//! failures do not short-circuit it — only exhaustion does, and then every
//! per-attempt failure is reported, in the order the attempts completed.
//!
//! `RaceState` is the incremental form the event loop drives, one completed
//! attempt at a time; `run_race` folds a whole completion sequence through it
//! and carries the exact race semantics in its contract.

use vstd::prelude::*;
use crate::Uid;
use crate::errors::{ConnectError, SingleConnectionError};

verus! {

/// The result of one racing path: a validated raw connection together with
/// the confirmed remote identity, or the failure that ended the attempt. The
/// raw connection itself is owned by the unverified transport layer; it is
/// designated here by the token under which that layer holds it.
#[derive(Debug, PartialEq, Eq)]
pub enum SingleAttemptOutcome {
    /// A candidate connection that passed handshake validation: the token of
    /// the raw connection, and the confirmed remote identity.
    Success(usize, Uid),
    /// This attempt failed; the race keeps going on the others.
    Failure(SingleConnectionError),
}

/// Every outcome in `s` is a failure.
pub open spec fn all_failed(s: Seq<SingleAttemptOutcome>) -> bool {
    forall|j: int| 0 <= j < s.len() ==> s[j] is Failure
}

/// The outcome at `i` is the first success of `s`.
pub open spec fn wins_at(s: Seq<SingleAttemptOutcome>, i: int) -> bool {
    &&& 0 <= i < s.len()
    &&& s[i] is Success
    &&& forall|j: int| 0 <= j < i ==> s[j] is Failure
}

/// The failures among `s`, in order.
pub open spec fn failure_list(s: Seq<SingleAttemptOutcome>) -> Seq<SingleConnectionError>
    decreases s.len(),
{
    if s.len() == 0 {
        Seq::empty()
    } else {
        match s.last() {
            SingleAttemptOutcome::Failure(e) => failure_list(s.drop_last()).push(e),
            SingleAttemptOutcome::Success(_, _) => failure_list(s.drop_last()),
        }
    }
}

/// The state of one connect operation's race: the failures collected so far,
/// in completion order.
pub struct RaceState {
    pub failures: Vec<SingleConnectionError>,
}

impl RaceState {
    /// A race in which no attempt has completed yet.
    pub fn new() -> (s: RaceState)
        ensures
            s.failures@ == Seq::<SingleConnectionError>::empty(),
    {
        RaceState { failures: Vec::new() }
    }

    /// Folds in one completed attempt. A success wins the race at once and is
    /// returned; a failure is recorded, in completion order, and the race
    /// goes on.
    pub fn on_outcome(&mut self, outcome: SingleAttemptOutcome) -> (winner: Option<(usize, Uid)>)
        ensures
            outcome matches SingleAttemptOutcome::Success(token, uid) ==> winner == Some(
                (token, uid),
            ) && final(self).failures@ == old(self).failures@,
            outcome matches SingleAttemptOutcome::Failure(e) ==> winner is None
                && final(self).failures@ == old(self).failures@.push(e),
    {
        match outcome {
            SingleAttemptOutcome::Success(token, uid) => Some((token, uid)),
            SingleAttemptOutcome::Failure(e) => {
                self.failures.push(e);
                None
            },
        }
    }

    /// Every attempt has completed and none won: the operation fails with the
    /// full ordered list of per-attempt failures.
    pub fn exhausted(self) -> (e: ConnectError)
        ensures
            e matches ConnectError::AllConnectionsFailed(v) && v@ == self.failures@,
    {
        ConnectError::AllConnectionsFailed(self.failures)
    }

    /// The whole-operation time ceiling fired before any attempt won: the
    /// operation fails with a timeout, and the failures collected so far are
    /// discarded.
    pub fn timed_out(self) -> (e: ConnectError)
        ensures
            e == ConnectError::TimedOut,
    {
        ConnectError::TimedOut
    }
}

/// Races a whole completion sequence: `outcomes` holds each attempt's result
/// in the order the attempts completed. The first success wins and no later
/// outcome is consulted; if every attempt failed, all failures are reported
/// in completion order.
#[verifier::loop_isolation(false)]
pub fn run_race(outcomes: Vec<SingleAttemptOutcome>) -> (r: Result<(usize, Uid), ConnectError>)
    ensures
        r is Ok <==> !all_failed(outcomes@),
        r matches Ok((token, uid)) ==> exists|i: int|
            #[trigger] wins_at(outcomes@, i) && outcomes@[i] == SingleAttemptOutcome::Success(
                token,
                uid,
            ),
        r matches Err(e) ==> all_failed(outcomes@) && (e matches ConnectError::AllConnectionsFailed(
            v,
        ) && v@ == failure_list(outcomes@)),
{
    let ghost all = outcomes@;
    let mut remaining = outcomes;
    let mut state = RaceState::new();
    let ghost mut n: int = 0;
    while remaining.len() > 0
        invariant
            0 <= n <= all.len(),
            remaining@ =~= all.skip(n),
            forall|j: int| 0 <= j < n ==> all[j] is Failure,
            state.failures@ == failure_list(all.take(n)),
        decreases remaining@.len(),
    {
        let outcome = remaining.remove(0);
        proof {
            assert(outcome == all[n]);
            assert(all.take(n + 1).drop_last() =~= all.take(n));
        }
        match state.on_outcome(outcome) {
            Some((token, uid)) => {
                proof {
                    assert(all[n] == SingleAttemptOutcome::Success(token, uid));
                    assert(wins_at(all, n));
                }
                return Ok((token, uid));
            },
            None => {
                proof {
                    n = n + 1;
                }
            },
        }
    }
    proof {
        assert(all.take(n) =~= all);
    }
    Err(state.exhausted())
}

/// Race correctness: when exactly one outcome of a completion sequence is a
/// success, that outcome is the sequence's unique winner — whatever the
/// interleaving put around it, the race's result is that single success.
pub proof fn lemma_race_single_success(s: Seq<SingleAttemptOutcome>, i: int)
    requires
        0 <= i < s.len(),
        s[i] is Success,
        forall|j: int| 0 <= j < s.len() && j != i ==> s[j] is Failure,
    ensures
        wins_at(s, i),
        forall|k: int| #[trigger] wins_at(s, k) ==> k == i,
{
}

/// Exhaustion: when every one of the `n` attempts failed, the reported list
/// holds exactly `n` entries, the `j`-th being the failure of the `j`-th
/// attempt to complete.
pub proof fn lemma_exhaustion_exact(s: Seq<SingleAttemptOutcome>)
    requires
        all_failed(s),
    ensures
        failure_list(s).len() == s.len(),
        forall|j: int|
            0 <= j < s.len() ==> s[j] == SingleAttemptOutcome::Failure(#[trigger] failure_list(s)[j]),
    decreases s.len(),
{
    if s.len() > 0 {
        lemma_exhaustion_exact(s.drop_last());
    }
}

} // verus!
