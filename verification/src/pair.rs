// The executable pair: a handle that marks an event as done and a future
// that waits for it. Both sides hold the same shared state, a flag and a
// one-slot waiter record, and touch it only through atomic operations.
// `protocol` follows the same operations step by step over plain values.
use vstd::prelude::*;
use std::fmt::Debug;
use std::fmt::Formatter;
use std::future::Future;
use std::pin::Pin;
use std::sync::atomic::AtomicBool;
use std::sync::atomic::Ordering;
use std::sync::Arc;
use std::task::Context;
use std::task::Poll;
use std::task::Waker;
use futures_util::task::AtomicWaker;
use crate::protocol::readiness;

verus! {

/// The state that the two sides share: the waker to wake and a flag that says
/// whether the event has happened.
#[derive(Debug)]
struct CompleteInner {
    waker: AtomicWaker,
    completed: AtomicBool,
}

impl CompleteInner {
    /// Reads the flag. The acquire load pairs with the release store in
    /// `mark_complete`: who sees the flag set also sees what the resolver
    /// wrote before it set the flag.
    fn is_complete(&self) -> bool {
        self.completed.load(Ordering::Acquire)
    }

    /// Puts `waker` in the slot, in place of any waker registered before.
    fn register_waiter(&self, waker: &Waker) {
        self.waker.register(waker);
    }

    /// Sets the flag, then wakes the registered waker, if there is one. The
    /// flag comes first, so that the woken task finds it set.
    fn mark_complete(&self) {
        self.completed.store(true, Ordering::Release);
        self.waker.wake();
    }
}

/// A future that becomes ready once the paired `CompleteHandle` has resolved.
/// It yields no value.
#[derive(Debug)]
pub struct Completion {
    inner: Arc<CompleteInner>,
}

/// The resolving side of a pair.
pub struct CompleteHandle {
    inner: Arc<CompleteInner>,
}

impl Completion {
    fn is_completed(&self) -> bool {
        self.inner.is_complete()
    }
}

impl CompleteHandle {
    /// Whether `completion` waits on the state that this handle resolves.
    pub closed spec fn resolves(&self, completion: &Completion) -> bool {
        self.inner == completion.inner
    }

    /// The text that `Debug` prints for a handle whose flag reads `completed`.
    pub open spec fn spec_debug_text(completed: bool) -> Seq<char> {
        if completed {
            "CompleteHandle completed=true"@
        } else {
            "CompleteHandle completed=false"@
        }
    }

    /// The text that `Debug` prints for a handle whose flag reads `completed`.
    pub fn debug_text(completed: bool) -> (text: &'static str)
        ensures
            text@ == Self::spec_debug_text(completed),
    {
        if completed {
            "CompleteHandle completed=true"
        } else {
            "CompleteHandle completed=false"
        }
    }

    /// Creates a handle and the completion that it resolves. The two share one
    /// new state, which lives until both are dropped. The state starts
    /// unresolved with no waker registered, which no clause can say: it sits
    /// in atomics.
    pub fn new_pair() -> (pair: (Self, Completion))
        ensures
            pair.0.resolves(&pair.1),
    {
        let inner = Arc::new(
            CompleteInner { waker: AtomicWaker::new(), completed: AtomicBool::new(false) },
        );
        (Self { inner: inner.clone() }, Completion { inner })
    }

    /// Marks the event as done and wakes the task that waits for it, if one
    /// has registered. It never blocks and may be called from any thread, any
    /// number of times; the flag stays set. In `protocol` this is `Step::Mark`
    /// followed by `Step::Wake`.
    pub fn resolve(&self) {
        self.inner.mark_complete();
    }
}

impl Debug for CompleteHandle {
    /// Writes `debug_text` of the flag as it reads right now.
    fn fmt(&self, f: &mut Formatter<'_>) -> std::fmt::Result {
        f.write_str(Self::debug_text(self.inner.completed.load(Ordering::Relaxed)))
    }
}

impl Future for Completion {
    type Output = ();

    /// Reports ready if the flag is set. If it is not, registers the task's
    /// waker and reads the flag once more, so that a `resolve` that ran
    /// between the first read and the registration is not missed. Each read is
    /// turned into the result by `readiness`. In `protocol` this is
    /// `Step::Check`, then `Step::Register` and `Step::Recheck` where the
    /// first read found the flag unset.
    fn poll(self: Pin<&mut Self>, cx: &mut Context<'_>) -> Poll<()> {
        if let Poll::Ready(()) = readiness(self.is_completed()) {
            return Poll::Ready(());
        }
        self.inner.register_waiter(cx.waker());
        readiness(self.is_completed())
    }
}

} // verus!
