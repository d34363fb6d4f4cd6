//! The deferred-start flavor of the suspendable task: its underlying
//! operation begins on the first poll, never at construction.
//!
//! Construction takes a start routine. The first poll allocates the shared
//! cell at its pinned heap address, hands a completer wired to it to the
//! start routine (which typically forwards it into foreign callback-based
//! code), keeps whatever value the routine returns alive until the task is
//! dropped, and then polls the cell like any other poll. Later polls only
//! poll. The start routine therefore runs exactly once, however often the
//! task is polled.

use crate::continuation::{arc_clone, Completer, ThreadsafeCompleter, Transition};
use crate::state::{spec_poll, Event, PollOutcome};
use std::sync::Arc;
use std::task::Waker;
use vstd::prelude::*;

verus! {

/// A suspendable task whose operation starts on first poll. `Begin` is the
/// start routine, a single-invocation function from a completer to an
/// opaque begun value; `Begun` is that value, kept alive until the task is
/// dropped (typically a cancellation or cleanup handle); `A` is the type of
/// the optionally attached value; `R` is the result.
pub struct DeferredContinuation<Begin, Begun, A, R> {
    begin: Option<Begin>,
    begun: Option<Begun>,
    shared: Option<Arc<ThreadsafeCompleter<R>>>,
    accepted: Option<A>,
}

impl<Begin, Begun, A, R> DeferredContinuation<Begin, Begun, A, R> where
    Begin: FnOnce(Completer<R>) -> Begun,
 {
    /// Either the task has not begun (it still holds the start routine, and
    /// no cell exists yet) or it has (the routine is gone, its output and
    /// the cell are held). A held start routine accepts any completer.
    pub closed spec fn wf(self) -> bool {
        &&& self.begin is Some <==> self.shared is None
        &&& self.begin is Some <==> self.begun is None
        &&& self.begin matches Some(f) ==> forall|c: Completer<R>| call_requires(f, (c,))
    }

    /// Whether the start routine has already run.
    pub closed spec fn has_begun(self) -> bool {
        self.begin is None
    }

    /// The start routine still waiting to run, if any.
    pub closed spec fn spec_begin(self) -> Option<Begin> {
        self.begin
    }

    /// The start routine's output, kept alive until the task is dropped.
    pub closed spec fn spec_begun(self) -> Option<Begun> {
        self.begun
    }

    /// The value attached by [`DeferredContinuation::accept`], if any.
    pub closed spec fn spec_accepted(self) -> Option<A> {
        self.accepted
    }

    /// The task's own shared cell, once the first poll has allocated it.
    pub closed spec fn shared_cell(self) -> Option<ThreadsafeCompleter<R>> {
        match self.shared {
            Some(cell) => Some(*cell),
            None => None,
        }
    }

    /// Create a task that will invoke `begin` synchronously on its first
    /// poll. Nothing runs now: no cell is allocated and no completer
    /// exists, so the producer side cannot be reached before the first
    /// poll.
    pub fn new(begin: Begin) -> (r: Self)
        requires
            forall|c: Completer<R>| call_requires(begin, (c,)),
        ensures
            r.wf(),
            !r.has_begun(),
            r.spec_begin() == Some(begin),
            r.spec_accepted() is None,
    {
        DeferredContinuation { begin: Some(begin), begun: None, shared: None, accepted: None }
    }

    /// Move `value` inside the task, to be dropped together with it: the
    /// hook for implicit cancellation, exactly as on
    /// [`crate::continuation::Continuation::accept`].
    pub fn accept(&mut self, value: A)
        ensures
            final(self).spec_accepted() == Some(value),
            final(self).spec_begin() == old(self).spec_begin(),
            final(self).spec_begun() == old(self).spec_begun(),
            final(self).shared_cell() == old(self).shared_cell(),
            old(self).wf() ==> final(self).wf(),
    {
        self.accepted = Some(value);
    }

    /// Poll the task. On the first poll this allocates the shared cell at
    /// its pinned address, hands a completer for it to the start routine,
    /// stores the routine's output, and only then polls the cell; on every
    /// later poll the routine and its output are left untouched and the
    /// cell is polled directly. Either way the outcome is one
    /// [`spec_poll`] transition on the cell the deferred continuation owns.
    pub fn poll(&mut self, waker: Waker) -> (r: (PollOutcome<R>, Ghost<Transition<R>>))
        requires
            old(self).wf(),
        ensures
            final(self).wf(),
            final(self).has_begun(),
            final(self).spec_accepted() == old(self).spec_accepted(),
            old(self).has_begun() ==> final(self).spec_begun() == old(self).spec_begun()
                && final(self).shared_cell() == old(self).shared_cell(),
            !old(self).has_begun() ==> (exists|c: Completer<R>|
                call_ensures(
                    old(self).spec_begin()->Some_0,
                    (c,),
                    final(self).spec_begun()->Some_0,
                )),
            r.1@.pre.wf(),
            r.1@.post.wf(),
            r.1@.post.history@ == r.1@.pre.history@.push(Event::Polled(waker)),
            r.1@.post.state == spec_poll(r.1@.pre.state, waker).next,
            r.0 == spec_poll(r.1@.pre.state, waker).outcome,
            forall|v: R|
                r.0 == PollOutcome::Ready(v) ==> exists|i: int|
                    0 <= i < r.1@.pre.history@.len() && r.1@.pre.history@[i] == Event::Completed(v),
    {
        match self.begin.take() {
            Some(begin) => {
                let shared = Arc::new(ThreadsafeCompleter::new());
                let completer = Completer { shared: arc_clone(&shared) };
                let ghost handed = completer;
                let begun = begin(completer);
                let ghost produced = begun;
                self.begun = Some(begun);
                let out = shared.poll(waker);
                self.shared = Some(shared);
                proof {
                    assert(self.spec_begun() == Some(produced));
                    assert(call_ensures(
                        old(self).spec_begin()->Some_0,
                        (handed,),
                        self.spec_begun()->Some_0,
                    ));
                }
                out
            },
            None => {
                let cell = self.shared.as_ref().unwrap();
                cell.poll(waker)
            },
        }
    }
}

} // verus!
