//! The shared completion state machine: the single source of truth for one
//! completion event, together with the two transitions that producer and
//! consumer perform on it and the laws those transitions obey.
//!
//! The transitions here are pure: they take the current state by value and
//! return the next state plus everything the caller must act on (a wakeup
//! capability to invoke, the poll outcome to report). The lock discipline
//! that serializes them lives one level up, in `continuation`.

use std::task::Waker;
use vstd::prelude::*;

verus! {

/// Relies on `std::task::Waker`: declared opaque so that the wakeup
/// capability a scheduler supplies at each poll can be stored inside the
/// state machine. Nothing is assumed about a waker's behaviour.
#[verifier::external_type_specification]
#[verifier::external_body]
pub struct ExWaker(Waker);

/// Relies on `std::task::Waker::wake`: consumes the waker and signals the
/// scheduler that supplied it to poll again. The side effect is the
/// scheduler's business; nothing is promised of it.
#[verifier::external_body]
pub(crate) fn waker_wake(w: Waker) {
    w.wake()
}

/// Where one completion event stands. Exactly one variant holds at any
/// observation point; the variant is the single authority for whether a
/// result has not yet arrived, is stored, or was already taken.
pub enum CompletionState<R> {
    /// Nobody has polled yet and no result has arrived.
    NotPolled,
    /// At least one poll observed no result; the most recent wakeup
    /// capability is stored so the producer can signal the scheduler.
    Pending(Waker),
    /// The producer delivered a result that no poll has taken yet.
    Done(R),
    /// A poll already moved the result out; the machine is terminal and
    /// polling again is a protocol violation.
    Gone,
}

/// What a poll reports to the scheduler driving it.
pub enum PollOutcome<R> {
    /// The result arrived and is handed over, exactly once.
    Ready(R),
    /// No result yet; the supplied wakeup capability was stored and will be
    /// invoked when the producer completes.
    NotReady,
    /// Fatal protocol violation: the result was already taken by an earlier
    /// poll. A caller must treat this as an irrecoverable error, never as a
    /// value.
    AlreadyConsumed,
}

/// Everything a completion transition decides: the state to store back and
/// the actions the caller owes.
pub struct CompleteStep<R> {
    /// The state to leave behind.
    pub next: CompletionState<R>,
    /// The wakeup capability to invoke, surrendered by the machine exactly
    /// when a poll had registered one.
    pub wake: Option<Waker>,
    /// True exactly when the completion arrived after a result was already
    /// stored or taken: a fatal protocol violation. The stored result is
    /// left untouched in that case.
    pub violation: bool,
}

/// Everything a poll transition decides.
pub struct PollStep<R> {
    /// The state to leave behind.
    pub next: CompletionState<R>,
    /// What to report to the scheduler.
    pub outcome: PollOutcome<R>,
}

/// The completion transition: what delivering `result` does to state `s`.
pub open spec fn spec_complete<R>(s: CompletionState<R>, result: R) -> CompleteStep<R> {
    match s {
        CompletionState::NotPolled => CompleteStep {
            next: CompletionState::Done(result),
            wake: None,
            violation: false,
        },
        CompletionState::Pending(w) => CompleteStep {
            next: CompletionState::Done(result),
            wake: Some(w),
            violation: false,
        },
        CompletionState::Done(prior) => CompleteStep {
            next: CompletionState::Done(prior),
            wake: None,
            violation: true,
        },
        CompletionState::Gone => CompleteStep {
            next: CompletionState::Gone,
            wake: None,
            violation: true,
        },
    }
}

/// The poll transition: what polling with wakeup capability `w` does to
/// state `s`.
pub open spec fn spec_poll<R>(s: CompletionState<R>, w: Waker) -> PollStep<R> {
    match s {
        CompletionState::NotPolled => PollStep {
            next: CompletionState::Pending(w),
            outcome: PollOutcome::NotReady,
        },
        CompletionState::Pending(_) => PollStep {
            next: CompletionState::Pending(w),
            outcome: PollOutcome::NotReady,
        },
        CompletionState::Done(result) => PollStep {
            next: CompletionState::Gone,
            outcome: PollOutcome::Ready(result),
        },
        CompletionState::Gone => PollStep {
            next: CompletionState::Gone,
            outcome: PollOutcome::AlreadyConsumed,
        },
    }
}

impl<R> CompletionState<R> {
    /// Deliver `result` into this state: the producer's half of the
    /// protocol. Completing before any poll stores the result directly (no
    /// one is listening yet); completing after a poll surrenders the stored
    /// wakeup capability for the caller to invoke. Completing when a result
    /// is already stored or taken is flagged as a violation and changes
    /// nothing.
    pub fn complete(self, result: R) -> (step: CompleteStep<R>)
        ensures
            step == spec_complete(self, result),
    {
        match self {
            CompletionState::NotPolled => CompleteStep {
                next: CompletionState::Done(result),
                wake: None,
                violation: false,
            },
            CompletionState::Pending(w) => CompleteStep {
                next: CompletionState::Done(result),
                wake: Some(w),
                violation: false,
            },
            CompletionState::Done(prior) => CompleteStep {
                next: CompletionState::Done(prior),
                wake: None,
                violation: true,
            },
            CompletionState::Gone => CompleteStep {
                next: CompletionState::Gone,
                wake: None,
                violation: true,
            },
        }
    }

    /// Poll this state with a fresh wakeup capability: the consumer's half
    /// of the protocol. A stored result is moved out exactly once; while no
    /// result is stored, the most recent wakeup capability replaces any
    /// earlier one; polling after the result was taken is the fatal
    /// [`PollOutcome::AlreadyConsumed`].
    pub fn poll(self, waker: Waker) -> (step: PollStep<R>)
        ensures
            step == spec_poll(self, waker),
    {
        match self {
            CompletionState::NotPolled => PollStep {
                next: CompletionState::Pending(waker),
                outcome: PollOutcome::NotReady,
            },
            CompletionState::Pending(_) => PollStep {
                next: CompletionState::Pending(waker),
                outcome: PollOutcome::NotReady,
            },
            CompletionState::Done(result) => PollStep {
                next: CompletionState::Gone,
                outcome: PollOutcome::Ready(result),
            },
            CompletionState::Gone => PollStep {
                next: CompletionState::Gone,
                outcome: PollOutcome::AlreadyConsumed,
            },
        }
    }
}

/// One recorded transition of a shared completion state: used (in ghost
/// code only) to keep the history that the lock invariant in `continuation`
/// replays.
pub enum Event<R> {
    /// The producer delivered this result (or tried to, after one was
    /// already stored: the transition then changed nothing).
    Completed(R),
    /// The consumer polled with this wakeup capability.
    Polled(Waker),
}

/// The state an event leaves behind.
pub open spec fn step<R>(s: CompletionState<R>, e: Event<R>) -> CompletionState<R> {
    match e {
        Event::Completed(r) => spec_complete(s, r).next,
        Event::Polled(w) => spec_poll(s, w).next,
    }
}

/// The state reached by replaying a history of events from the initial
/// state. A state is *reachable* when some history runs to it.
pub open spec fn run<R>(h: Seq<Event<R>>) -> CompletionState<R>
    decreases h.len(),
{
    if h.len() == 0 {
        CompletionState::NotPolled
    } else {
        step(run(h.drop_last()), h.last())
    }
}

/// Replaying one more event is one more step.
pub proof fn lemma_run_push<R>(h: Seq<Event<R>>, e: Event<R>)
    ensures
        run(h.push(e)) == step(run(h), e),
{
    assert(h.push(e).drop_last() =~= h);
}

/// A result can only be waiting where a completion delivered exactly that
/// result: whatever a poll hands out was put there by the one producer
/// wired to this state, never by anyone else.
pub proof fn lemma_done_implies_completed<R>(h: Seq<Event<R>>, result: R)
    requires
        run(h) == CompletionState::<R>::Done(result),
    ensures
        exists|i: int| 0 <= i < h.len() && h[i] == Event::Completed(result),
    decreases h.len(),
{
    let prev = run(h.drop_last());
    match h.last() {
        Event::Completed(r) => {
            if spec_complete(prev, r).violation {
                lemma_done_implies_completed(h.drop_last(), result);
                let i = choose|i: int|
                    0 <= i < h.drop_last().len() && h.drop_last()[i] == Event::Completed(result);
                assert(h[i] == Event::Completed(result));
            } else {
                assert(h[h.len() - 1] == Event::Completed(result));
            }
        },
        Event::Polled(_) => {},
    }
}

/// The terminal state is absorbing: once the result has been taken, no
/// later transition, by either side, ever leaves it.
pub proof fn lemma_gone_is_absorbing<R>(h: Seq<Event<R>>, i: int, j: int)
    requires
        0 <= i <= j <= h.len(),
        run(h.take(i)) is Gone,
    ensures
        run(h.take(j)) is Gone,
    decreases j - i,
{
    if i < j {
        assert(h.take(i + 1).drop_last() =~= h.take(i));
        assert(h.take(i + 1).last() == h[i]);
        lemma_gone_is_absorbing(h, i + 1, j);
    } else {
        assert(h.take(i) =~= h.take(j));
    }
}

/// The result is handed out at most once per cell: after a poll has
/// observed a stored result (and so returned it), every later point of the
/// history is terminal, whatever the producer and consumer do in between.
/// In particular no second poll ever observes a stored result again.
pub proof fn lemma_ready_at_most_once<R>(h: Seq<Event<R>>, i: int, j: int)
    requires
        0 <= i < j <= h.len(),
        h[i] is Polled,
        run(h.take(i)) is Done,
    ensures
        run(h.take(j)) is Gone,
{
    assert(h.take(i + 1).drop_last() =~= h.take(i));
    assert(h.take(i + 1).last() == h[i]);
    assert(run(h.take(i + 1)) is Gone);
    lemma_gone_is_absorbing(h, i + 1, j);
}

/// Completing before the consumer ever polls is not an error: the result is
/// stored with no wakeup owed, and the first poll hands it out.
pub proof fn lemma_complete_before_poll<R>(result: R, w: Waker)
    ensures
        ({
            let c = spec_complete(CompletionState::<R>::NotPolled, result);
            let p = spec_poll(c.next, w);
            &&& !c.violation
            &&& c.wake is None
            &&& p.outcome == PollOutcome::Ready(result)
            &&& p.next is Gone
        }),
{
}

/// Completing after a poll observed not-ready surrenders exactly the wakeup
/// capability that poll supplied (the most recent one wins), and the next
/// poll yields exactly the delivered result.
pub proof fn lemma_complete_after_poll<R>(s: CompletionState<R>, w0: Waker, result: R, w1: Waker)
    requires
        spec_poll(s, w0).outcome is NotReady,
    ensures
        ({
            let p0 = spec_poll(s, w0);
            let c = spec_complete(p0.next, result);
            let p1 = spec_poll(c.next, w1);
            &&& c.wake == Some(w0)
            &&& !c.violation
            &&& p1.outcome == PollOutcome::Ready(result)
        }),
{
}

/// Once a poll has yielded the result, every later poll is the fatal
/// [`PollOutcome::AlreadyConsumed`], never a value.
pub proof fn lemma_poll_after_consumed<R>(s: CompletionState<R>, w0: Waker, w1: Waker)
    requires
        spec_poll(s, w0).outcome is Ready,
    ensures
        spec_poll(spec_poll(s, w0).next, w1).outcome is AlreadyConsumed,
{
}

/// A second completion after a legitimate one is flagged as a fatal
/// violation, leaves the legitimately stored result untouched, and fires no
/// second wakeup.
pub proof fn lemma_double_complete<R>(s: CompletionState<R>, first: R, second: R)
    requires
        !spec_complete(s, first).violation,
    ensures
        ({
            let c1 = spec_complete(s, first);
            let c2 = spec_complete(c1.next, second);
            &&& c2.violation
            &&& c2.next == c1.next
            &&& c2.wake is None
        }),
{
}

/// A wakeup capability is surrendered at most once: after any completion,
/// no further transition ever surrenders one again.
pub proof fn lemma_wake_at_most_once<R>(s: CompletionState<R>, first: R, second: R)
    ensures
        spec_complete(spec_complete(s, first).next, second).wake is None,
{
}

} // verus!
