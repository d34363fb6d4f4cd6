use blocksr::continuation::Completer;
use blocksr::deferred::DeferredContinuation;
use blocksr::state::PollOutcome;
use std::cell::{Cell, RefCell};
use std::rc::Rc;
use std::sync::atomic::{AtomicUsize, Ordering};
use std::sync::Arc;
use std::task::{Wake, Waker};

struct SilentWake;

impl Wake for SilentWake {
    fn wake(self: Arc<Self>) {}
}

fn quiet_waker() -> Waker {
    Waker::from(Arc::new(SilentWake))
}

#[test]
fn deferred_completing_inline_is_ready_on_first_poll() {
    let mut task = DeferredContinuation::<_, (), (), i32>::new(|completer: Completer<i32>| {
        completer.complete(23);
    });
    let (outcome, _) = task.poll(quiet_waker());
    assert!(matches!(outcome, PollOutcome::Ready(23)));
}

#[test]
fn begin_runs_exactly_once() {
    let runs = Rc::new(Cell::new(0usize));
    let counter = runs.clone();
    let mut task = DeferredContinuation::<_, (), (), u64>::new(move |_completer: Completer<u64>| {
        counter.set(counter.get() + 1);
    });
    assert_eq!(runs.get(), 0);
    let (outcome, _) = task.poll(quiet_waker());
    assert!(matches!(outcome, PollOutcome::NotReady));
    assert_eq!(runs.get(), 1);
    let (outcome, _) = task.poll(quiet_waker());
    assert!(matches!(outcome, PollOutcome::NotReady));
    let (outcome, _) = task.poll(quiet_waker());
    assert!(matches!(outcome, PollOutcome::NotReady));
    assert_eq!(runs.get(), 1);
}

#[test]
fn escaped_completer_delivers_after_first_poll() {
    let parked: Rc<RefCell<Option<Completer<u64>>>> = Rc::new(RefCell::new(None));
    let stash = parked.clone();
    let mut task = DeferredContinuation::<_, (), (), u64>::new(move |completer: Completer<u64>| {
        *stash.borrow_mut() = Some(completer);
    });
    let (outcome, _) = task.poll(quiet_waker());
    assert!(matches!(outcome, PollOutcome::NotReady));
    let completer = parked.borrow_mut().take().expect("begin stashed the handle");
    completer.complete(7);
    let (outcome, _) = task.poll(quiet_waker());
    assert!(matches!(outcome, PollOutcome::Ready(7)));
}

#[test]
fn make_escape() {
    // The one-shot capability escapes its construction site and fires later.
    let parked: Rc<RefCell<Option<Completer<u8>>>> = Rc::new(RefCell::new(None));
    let stash = parked.clone();
    let mut task = DeferredContinuation::<_, (), (), u8>::new(move |completer: Completer<u8>| {
        *stash.borrow_mut() = Some(completer);
    });
    let _ = task.poll(quiet_waker());
    let completer = parked.borrow_mut().take().unwrap();
    completer.complete(3);
}

#[test]
fn make_noescape() {
    // The one-shot capability is used inline and never escapes.
    let mut task = DeferredContinuation::<_, (), (), u8>::new(|completer: Completer<u8>| {
        completer.complete(3);
    });
    let _ = task.poll(quiet_waker());
}

struct CancelFlag(Arc<AtomicUsize>);

impl Drop for CancelFlag {
    fn drop(&mut self) {
        self.0.fetch_add(1, Ordering::SeqCst);
    }
}

#[test]
fn dropping_deferred_task_cancels_exactly_once() {
    let cancelled = Arc::new(AtomicUsize::new(0));
    let mut task = DeferredContinuation::<_, (), CancelFlag, u64>::new(
        |_completer: Completer<u64>| {},
    );
    task.accept(CancelFlag(cancelled.clone()));
    let (outcome, _) = task.poll(quiet_waker());
    assert!(matches!(outcome, PollOutcome::NotReady));
    assert_eq!(cancelled.load(Ordering::SeqCst), 0);
    drop(task);
    assert_eq!(cancelled.load(Ordering::SeqCst), 1);
}
