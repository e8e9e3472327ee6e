use completion::{CompleteHandle, Completion};
use std::future::Future;
use std::pin::Pin;
use std::sync::atomic::{AtomicUsize, Ordering};
use std::sync::Arc;
use std::task::{Context, Poll, Wake, Waker};

/// A waker that counts how often it is woken.
struct Counter {
    wakes: AtomicUsize,
}

impl Wake for Counter {
    fn wake(self: Arc<Self>) {
        self.wakes.fetch_add(1, Ordering::SeqCst);
    }
}

fn counting_waker() -> (Arc<Counter>, Waker) {
    let counter = Arc::new(Counter { wakes: AtomicUsize::new(0) });
    (counter.clone(), Waker::from(counter))
}

fn wakes(counter: &Counter) -> usize {
    counter.wakes.load(Ordering::SeqCst)
}

fn poll_once(completion: &mut Completion, waker: &Waker) -> Poll<()> {
    let mut cx = Context::from_waker(waker);
    Pin::new(completion).poll(&mut cx)
}

#[test]
fn resolve_before_poll_is_ready_at_once() {
    let (handle, mut completion) = CompleteHandle::new_pair();
    handle.resolve();
    let (counter, waker) = counting_waker();
    assert_eq!(poll_once(&mut completion, &waker), Poll::Ready(()));
    assert_eq!(wakes(&counter), 0);
}

#[test]
fn poll_is_pending_until_resolved() {
    let (handle, mut completion) = CompleteHandle::new_pair();
    let (counter, waker) = counting_waker();
    assert_eq!(poll_once(&mut completion, &waker), Poll::Pending);
    assert_eq!(wakes(&counter), 0);
    handle.resolve();
    assert_eq!(wakes(&counter), 1);
    assert_eq!(poll_once(&mut completion, &waker), Poll::Ready(()));
}

#[test]
fn resolve_three_times_then_poll_is_ready() {
    let (handle, mut completion) = CompleteHandle::new_pair();
    handle.resolve();
    handle.resolve();
    handle.resolve();
    let (_counter, waker) = counting_waker();
    assert_eq!(poll_once(&mut completion, &waker), Poll::Ready(()));
}

#[test]
fn resolve_after_completion_dropped_does_nothing() {
    let (handle, completion) = CompleteHandle::new_pair();
    drop(completion);
    handle.resolve();
    handle.resolve();
    assert_eq!(format!("{:?}", handle), "CompleteHandle completed=true");
}

#[test]
fn dropping_the_handle_does_not_resolve() {
    let (handle, mut completion) = CompleteHandle::new_pair();
    drop(handle);
    let (counter, waker) = counting_waker();
    for _ in 0..5 {
        assert_eq!(poll_once(&mut completion, &waker), Poll::Pending);
    }
    assert_eq!(wakes(&counter), 0);
}

#[test]
fn new_pair_starts_pending() {
    let (handle, mut completion) = CompleteHandle::new_pair();
    assert_eq!(format!("{:?}", handle), "CompleteHandle completed=false");
    assert_eq!(poll_once(&mut completion, Waker::noop()), Poll::Pending);
}

#[test]
fn ready_stays_ready() {
    let (handle, mut completion) = CompleteHandle::new_pair();
    let (counter, waker) = counting_waker();
    assert_eq!(poll_once(&mut completion, &waker), Poll::Pending);
    handle.resolve();
    for _ in 0..10 {
        assert_eq!(poll_once(&mut completion, &waker), Poll::Ready(()));
    }
    drop(handle);
    assert_eq!(poll_once(&mut completion, &waker), Poll::Ready(()));
    assert_eq!(wakes(&counter), 1);
}

#[test]
fn repeated_resolve_wakes_once() {
    let (handle, mut completion) = CompleteHandle::new_pair();
    let (counter, waker) = counting_waker();
    assert_eq!(poll_once(&mut completion, &waker), Poll::Pending);
    for _ in 0..4 {
        handle.resolve();
    }
    assert_eq!(wakes(&counter), 1);
    assert_eq!(poll_once(&mut completion, &waker), Poll::Ready(()));
    assert_eq!(format!("{:?}", handle), "CompleteHandle completed=true");
}

#[test]
fn ready_poll_does_not_register() {
    let (handle, mut completion) = CompleteHandle::new_pair();
    handle.resolve();
    let (counter, waker) = counting_waker();
    assert_eq!(poll_once(&mut completion, &waker), Poll::Ready(()));
    handle.resolve();
    assert_eq!(wakes(&counter), 0);
}

#[test]
fn last_registration_wins() {
    let (handle, mut completion) = CompleteHandle::new_pair();
    let (first, first_waker) = counting_waker();
    let (second, second_waker) = counting_waker();
    assert_eq!(poll_once(&mut completion, &first_waker), Poll::Pending);
    assert_eq!(poll_once(&mut completion, &second_waker), Poll::Pending);
    handle.resolve();
    assert_eq!(wakes(&first), 0);
    assert_eq!(wakes(&second), 1);
}

#[test]
fn pairs_are_independent() {
    let (first_handle, mut first) = CompleteHandle::new_pair();
    let (_second_handle, mut second) = CompleteHandle::new_pair();
    first_handle.resolve();
    assert_eq!(poll_once(&mut first, Waker::noop()), Poll::Ready(()));
    assert_eq!(poll_once(&mut second, Waker::noop()), Poll::Pending);
}

#[test]
fn debug_text_names_the_flag() {
    assert_eq!(CompleteHandle::debug_text(false), "CompleteHandle completed=false");
    assert_eq!(CompleteHandle::debug_text(true), "CompleteHandle completed=true");
}

#[test]
fn completion_has_debug() {
    let (_handle, completion) = CompleteHandle::new_pair();
    let text = format!("{:?}", completion);
    assert!(text.starts_with("Completion"));
    assert!(text.contains("completed: false"));
}

#[test]
fn readiness_follows_the_flag() {
    assert_eq!(completion::readiness(true), Poll::Ready(()));
    assert_eq!(completion::readiness(false), Poll::Pending);
}

fn assert_send_sync<T: Send + Sync>() {}

#[test]
fn both_halves_cross_threads() {
    assert_send_sync::<CompleteHandle>();
    assert_send_sync::<Completion>();
}
