use blocksr::continuation::Continuation;
use blocksr::state::{CompletionState, PollOutcome};
use std::sync::atomic::{AtomicUsize, Ordering};
use std::sync::Arc;
use std::task::{Wake, Waker};

struct CountingWake {
    count: AtomicUsize,
}

impl Wake for CountingWake {
    fn wake(self: Arc<Self>) {
        self.count.fetch_add(1, Ordering::SeqCst);
    }
}

fn counting_waker() -> (Arc<CountingWake>, Waker) {
    let wake = Arc::new(CountingWake { count: AtomicUsize::new(0) });
    let waker = Waker::from(wake.clone());
    (wake, waker)
}

fn plain_waker() -> Waker {
    counting_waker().1
}

#[test]
fn test_task() {
    let (mut continuation, completer) = Continuation::<(), i32>::new();
    continuation.accept(());
    completer.complete(23);
    let (outcome, _) = continuation.poll(plain_waker());
    let r = match outcome {
        PollOutcome::Ready(v) => v,
        _ => panic!("expected the completed result"),
    };
    assert_eq!(r, 23);
}

#[test]
fn complete_before_poll_yields_result() {
    let (continuation, completer) = Continuation::<(), u64>::new();
    completer.complete(5);
    let (outcome, _) = continuation.poll(plain_waker());
    assert!(matches!(outcome, PollOutcome::Ready(5)));
}

#[test]
fn complete_after_poll_wakes_exactly_once() {
    let (continuation, completer) = Continuation::<(), u64>::new();
    let (wake, waker) = counting_waker();
    let (outcome, _) = continuation.poll(waker);
    assert!(matches!(outcome, PollOutcome::NotReady));
    assert_eq!(wake.count.load(Ordering::SeqCst), 0);
    completer.complete(7);
    assert_eq!(wake.count.load(Ordering::SeqCst), 1);
    let (outcome, _) = continuation.poll(plain_waker());
    assert!(matches!(outcome, PollOutcome::Ready(7)));
    assert_eq!(wake.count.load(Ordering::SeqCst), 1);
}

#[test]
fn poll_after_consumed_fails_loudly() {
    let (continuation, completer) = Continuation::<(), u64>::new();
    completer.complete(9);
    let (outcome, _) = continuation.poll(plain_waker());
    assert!(matches!(outcome, PollOutcome::Ready(9)));
    let (outcome, _) = continuation.poll(plain_waker());
    assert!(matches!(outcome, PollOutcome::AlreadyConsumed));
}

#[test]
fn latest_wakeup_wins() {
    let (continuation, completer) = Continuation::<(), u64>::new();
    let (first_wake, first_waker) = counting_waker();
    let (outcome, _) = continuation.poll(first_waker);
    assert!(matches!(outcome, PollOutcome::NotReady));
    let (second_wake, second_waker) = counting_waker();
    let (outcome, _) = continuation.poll(second_waker);
    assert!(matches!(outcome, PollOutcome::NotReady));
    completer.complete(1);
    assert_eq!(first_wake.count.load(Ordering::SeqCst), 0);
    assert_eq!(second_wake.count.load(Ordering::SeqCst), 1);
}

#[test]
fn independent_tasks_no_cross_talk() {
    let mut consumers = Vec::new();
    let mut producers = Vec::new();
    for _ in 0..8 {
        let (continuation, completer) = Continuation::<(), usize>::new();
        consumers.push(continuation);
        producers.push(completer);
    }
    // Deliver in an order unrelated to the polling order.
    for (i, completer) in producers.into_iter().enumerate().rev() {
        completer.complete(10 * i + 3);
    }
    for (i, continuation) in consumers.iter().enumerate() {
        let (outcome, _) = continuation.poll(plain_waker());
        match outcome {
            PollOutcome::Ready(v) => assert_eq!(v, 10 * i + 3),
            _ => panic!("every task must see its own result"),
        }
    }
}

#[test]
fn dropped_completer_leaves_task_pending() {
    let (continuation, completer) = Continuation::<(), u64>::new();
    drop(completer);
    let (outcome, _) = continuation.poll(plain_waker());
    assert!(matches!(outcome, PollOutcome::NotReady));
    let (outcome, _) = continuation.poll(plain_waker());
    assert!(matches!(outcome, PollOutcome::NotReady));
}

#[test]
fn double_complete_is_flagged_and_harmless() {
    // The handle itself is one-shot by move semantics, so a second delivery
    // is exercised on the state machine directly.
    let first = CompletionState::<u64>::NotPolled.complete(5);
    assert!(!first.violation);
    assert!(first.wake.is_none());
    let second = first.next.complete(7);
    assert!(second.violation);
    assert!(second.wake.is_none());
    match second.next {
        CompletionState::Done(v) => assert_eq!(v, 5),
        _ => panic!("the legitimately stored result must survive"),
    }
}

#[test]
fn state_machine_poll_transitions() {
    let step = CompletionState::<u64>::NotPolled.poll(plain_waker());
    assert!(matches!(step.outcome, PollOutcome::NotReady));
    assert!(matches!(step.next, CompletionState::Pending(_)));

    let step = CompletionState::Done(4u64).poll(plain_waker());
    assert!(matches!(step.outcome, PollOutcome::Ready(4)));
    assert!(matches!(step.next, CompletionState::Gone));

    let step = CompletionState::<u64>::Gone.poll(plain_waker());
    assert!(matches!(step.outcome, PollOutcome::AlreadyConsumed));
    assert!(matches!(step.next, CompletionState::Gone));
}

struct Guard(Arc<AtomicUsize>);

impl Drop for Guard {
    fn drop(&mut self) {
        self.0.fetch_add(1, Ordering::SeqCst);
    }
}

#[test]
fn dropping_pending_task_drops_accepted_value() {
    let flag = Arc::new(AtomicUsize::new(0));
    let (mut continuation, completer) = Continuation::<Guard, u64>::new();
    continuation.accept(Guard(flag.clone()));
    assert_eq!(flag.load(Ordering::SeqCst), 0);
    drop(continuation);
    assert_eq!(flag.load(Ordering::SeqCst), 1);
    // The abandoned producer may still deliver; nothing is listening and
    // nothing goes wrong.
    completer.complete(2);
    assert_eq!(flag.load(Ordering::SeqCst), 1);
}
