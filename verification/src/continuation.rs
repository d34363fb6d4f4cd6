//! The thread-safe shell around the state machine: one lock-guarded cell
//! shared between exactly one producer-side [`Completer`] and one
//! consumer-side [`Continuation`].
//!
//! The cell is a verified reader-writer lock whose invariant says that the
//! stored state is always one reachable by a legal transition history (the
//! history itself is ghost data riding along in the cell). Every critical
//! section must therefore perform a legal transition, and the transient
//! in-between of a transition is never observable: whoever takes the lock
//! next sees a fully rebuilt, reachable state.
//!
//! The cell lives on the heap behind a reference-counted handle, so its
//! address never changes once a [`Completer`] has escaped into foreign
//! code, no matter how often the owning task is moved.

use crate::state::{
    waker_wake, CompleteStep, CompletionState, Event, PollOutcome, PollStep,
};
use crate::state::{lemma_done_implies_completed, lemma_run_push, run, spec_complete, spec_poll};
use std::sync::Arc;
use std::task::Waker;
use vstd::prelude::*;
use vstd::rwlock::{RwLock, RwLockPredicate};

verus! {

/// Relies on `std::sync::Arc::clone`: the clone is a second handle to the
/// very same heap allocation, so both handles stand for the same shared
/// value and that value's address is pinned for as long as either lives.
#[verifier::external_body]
pub(crate) fn arc_clone<T>(v: &Arc<T>) -> (r: Arc<T>)
    ensures
        r == *v,
{
    Arc::clone(v)
}

/// What the lock guards: the machine state, together with the (ghost)
/// history of transitions that produced it.
pub struct LockedState<R> {
    /// Where the completion event stands right now.
    pub state: CompletionState<R>,
    /// Every transition performed on this cell so far, oldest first.
    pub history: Ghost<Seq<Event<R>>>,
}

impl<R> LockedState<R> {
    /// The stored state is exactly the one reached by replaying the
    /// recorded history from the initial state.
    pub open spec fn wf(self) -> bool {
        self.state == run(self.history@)
    }
}

/// The lock invariant: at rest, the cell always holds a reachable state.
/// Producer and consumer arrive unordered, so any reachable state may be
/// the one observed by whichever side takes the lock next.
pub struct Reachable;

impl<R> RwLockPredicate<LockedState<R>> for Reachable {
    open spec fn inv(self, v: LockedState<R>) -> bool {
        v.wf()
    }
}

/// One observed critical section: the state found under the lock and the
/// state written back. Returned as ghost data so callers can reason about
/// which transition their call performed.
pub struct Transition<R> {
    /// The cell as acquired.
    pub pre: LockedState<R>,
    /// The cell as released.
    pub post: LockedState<R>,
}

/// The shared part of a completion event: the state machine under its
/// lock. Exactly one [`Completer`] and one [`Continuation`] (or one
/// deferred-start task) hold handles to each instance.
pub struct ThreadsafeCompleter<R> {
    lock: RwLock<LockedState<R>, Reachable>,
}

impl<R> ThreadsafeCompleter<R> {
    /// A fresh cell holding the initial state with an empty history.
    pub(crate) fn new() -> Self {
        let history: Ghost<Seq<Event<R>>> = Ghost(Seq::empty());
        ThreadsafeCompleter {
            lock: RwLock::new(
                LockedState { state: CompletionState::NotPolled, history },
                Ghost(Reachable),
            ),
        }
    }

    /// Deliver `result`, under the lock, by one [`spec_complete`]
    /// transition on whatever state is found there; then invoke the wakeup
    /// capability that transition surrendered, if any. Safe to call from
    /// any thread.
    pub fn complete(&self, result: R) -> (g: Ghost<Transition<R>>)
        ensures
            g@.pre.wf(),
            g@.post.wf(),
            g@.post.history@ == g@.pre.history@.push(Event::Completed(result)),
            g@.post.state == spec_complete(g@.pre.state, result).next,
    {
        let ghost delivered = result;
        let (prev, write_handle) = self.lock.acquire_write();
        let ghost pre = prev;
        let LockedState { state, history: Ghost(h) } = prev;
        let step_taken = state.complete(result);
        let CompleteStep { next, wake, violation: _ } = step_taken;
        let ghost h_post = h.push(Event::Completed(delivered));
        proof {
            lemma_run_push(h, Event::Completed(delivered));
        }
        let post = LockedState { state: next, history: Ghost(h_post) };
        let ghost released = post;
        write_handle.release_write(post);
        if let Some(w) = wake {
            waker_wake(w);
        }
        Ghost(Transition { pre, post: released })
    }

    /// Poll, under the lock, by one [`spec_poll`] transition on whatever
    /// state is found there, and report that transition's outcome. A
    /// [`PollOutcome::Ready`] result is always one that some completion on
    /// this very cell delivered.
    pub fn poll(&self, waker: Waker) -> (r: (PollOutcome<R>, Ghost<Transition<R>>))
        ensures
            r.1@.pre.wf(),
            r.1@.post.wf(),
            r.1@.post.history@ == r.1@.pre.history@.push(Event::Polled(waker)),
            r.1@.post.state == spec_poll(r.1@.pre.state, waker).next,
            r.0 == spec_poll(r.1@.pre.state, waker).outcome,
            forall|v: R|
                r.0 == PollOutcome::Ready(v) ==> exists|i: int|
                    0 <= i < r.1@.pre.history@.len() && r.1@.pre.history@[i] == Event::Completed(v),
    {
        let ghost supplied = waker;
        let (prev, write_handle) = self.lock.acquire_write();
        let ghost pre = prev;
        let LockedState { state, history: Ghost(h) } = prev;
        let step_taken = state.poll(waker);
        let PollStep { next, outcome } = step_taken;
        let ghost h_post = h.push(Event::Polled(supplied));
        proof {
            lemma_run_push(h, Event::Polled(supplied));
            if pre.state is Done {
                let v = pre.state->Done_0;
                lemma_done_implies_completed(h, v);
            }
        }
        let post = LockedState { state: next, history: Ghost(h_post) };
        let ghost released = post;
        write_handle.release_write(post);
        (outcome, Ghost(Transition { pre, post: released }))
    }
}

/// The producer's one-shot capability: call [`Completer::complete`] exactly
/// once to deliver the result of the continuation. The call consumes the
/// handle, so a second delivery through the same handle is a compile-time
/// error. To obtain one, call [`Continuation::new`].
pub struct Completer<R> {
    pub(crate) shared: Arc<ThreadsafeCompleter<R>>,
}

impl<R> Completer<R> {
    /// The shared cell this handle delivers into.
    pub closed spec fn shared(self) -> ThreadsafeCompleter<R> {
        *self.shared
    }

    /// Complete the continuation with the given result. Safe to call from
    /// any thread, including before the continuation was ever polled; if a
    /// poll is pending, its wakeup capability is invoked.
    pub fn complete(self, result: R) -> (g: Ghost<Transition<R>>)
        ensures
            g@.pre.wf(),
            g@.post.wf(),
            g@.post.history@ == g@.pre.history@.push(Event::Completed(result)),
            g@.post.state == spec_complete(g@.pre.state, result).next,
    {
        self.shared.complete(result)
    }
}

/// The consumer's pollable unit: a suspendable computation that yields the
/// producer's result exactly once. Constructed already started; for the
/// flavor whose underlying operation begins on first poll, see
/// `DeferredContinuation`.
pub struct Continuation<A, R> {
    completer: Completer<R>,
    accepted: Option<A>,
}

impl<A, R> Continuation<A, R> {
    /// The shared cell the continuation polls.
    pub closed spec fn shared(self) -> ThreadsafeCompleter<R> {
        self.completer.shared()
    }

    /// The value attached by [`Continuation::accept`], if any.
    pub closed spec fn spec_accepted(self) -> Option<A> {
        self.accepted
    }

    /// Create a continuation and the completer wired to the same shared
    /// cell, which starts out holding [`CompletionState::NotPolled`] with
    /// an empty history. The two may be used in any order from different
    /// threads: the one result flows from the completer to the
    /// continuation and to nothing else.
    pub fn new() -> (r: (Self, Completer<R>))
        ensures
            r.0.shared() == r.1.shared(),
            r.0.spec_accepted() is None,
    {
        let shared = Arc::new(ThreadsafeCompleter::new());
        let continuation = Continuation {
            completer: Completer { shared: arc_clone(&shared) },
            accepted: None,
        };
        let completer = Completer { shared };
        (continuation, completer)
    }

    /// Move `value` inside the task, to be dropped together with it. This
    /// is the hook for implicit cancellation: give the value a teardown
    /// behaviour that signals the producer, and dropping the still-pending
    /// task delivers that signal.
    pub fn accept(&mut self, value: A)
        ensures
            final(self).spec_accepted() == Some(value),
            final(self).shared() == old(self).shared(),
    {
        self.accepted = Some(value);
    }

    /// Poll the shared cell with a fresh wakeup capability: one
    /// [`spec_poll`] transition on whatever state the producer's progress
    /// has left there. Not-ready means the supplied capability is now the
    /// one that a later completion will invoke; ready hands out the result
    /// exactly once; a ready result is always one that some completion on
    /// the continuation's own cell delivered.
    pub fn poll(&self, waker: Waker) -> (r: (PollOutcome<R>, Ghost<Transition<R>>))
        ensures
            r.1@.pre.wf(),
            r.1@.post.wf(),
            r.1@.post.history@ == r.1@.pre.history@.push(Event::Polled(waker)),
            r.1@.post.state == spec_poll(r.1@.pre.state, waker).next,
            r.0 == spec_poll(r.1@.pre.state, waker).outcome,
            forall|v: R|
                r.0 == PollOutcome::Ready(v) ==> exists|i: int|
                    0 <= i < r.1@.pre.history@.len() && r.1@.pre.history@[i] == Event::Completed(v),
    {
        self.completer.shared.poll(waker)
    }
}

} // verus!
