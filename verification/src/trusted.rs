use vstd::prelude::*;

verus! {

/// `futures_util::task::AtomicWaker`: a slot for at most one registered waker,
/// safe to use from several threads at once. Nothing inside it is visible here.
#[verifier::external_type_specification]
#[verifier::external_body]
pub struct ExAtomicWaker(futures_util::task::AtomicWaker);

/// `std::task::Waker`: the handle by which a suspended task is scheduled again.
#[verifier::external_type_specification]
#[verifier::external_body]
pub struct ExWaker(std::task::Waker);

/// `std::task::Context`: what a poll is given; it carries the task's waker.
#[verifier::external_type_specification]
#[verifier::external_body]
pub struct ExContext<'a>(std::task::Context<'a>);

/// `std::pin::Pin`: the pinned pointer through which a future is polled.
#[verifier::external_type_specification]
#[verifier::external_body]
#[verifier::reject_recursive_types(Ptr)]
pub struct ExPin<Ptr>(std::pin::Pin<Ptr>);

/// `std::task::Poll`, with its two variants `Ready` and `Pending` in view.
#[verifier::external_type_specification]
pub struct ExPoll<T>(std::task::Poll<T>);

/// `std::fmt::Formatter`: the sink that a `Debug` impl writes to.
#[verifier::external_type_specification]
#[verifier::external_body]
pub struct ExFormatter<'a>(std::fmt::Formatter<'a>);

/// `std::fmt::Error`: the error of a failed write to a formatter.
#[verifier::external_type_specification]
#[verifier::external_body]
pub struct ExFmtError(std::fmt::Error);

/// `AtomicWaker::new` makes a slot with no waker registered. The slot is
/// opaque, so nothing is claimed of the result.
pub assume_specification[ futures_util::task::AtomicWaker::new ]() -> (slot:
    futures_util::task::AtomicWaker);

/// `AtomicWaker::register` stores a clone of `waker` in the slot, in place of
/// the waker registered before; where a `wake` is under way on another thread
/// it wakes `waker` at once instead. It changes the slot behind a shared
/// reference, so no clause can speak of the effect; none is claimed. It runs
/// the waker's own clone and wake code and panics only where that does.
pub assume_specification[ futures_util::task::AtomicWaker::register ](
    slot: &futures_util::task::AtomicWaker,
    waker: &std::task::Waker,
);

/// `AtomicWaker::wake` takes the registered waker out of the slot, if there is
/// one, and wakes it; on an empty slot it does nothing. As for `register`, no
/// effect is claimed.
pub assume_specification[ futures_util::task::AtomicWaker::wake ](
    slot: &futures_util::task::AtomicWaker,
);

/// `Context::waker` hands out the waker of the task being polled. Both types
/// are opaque, so nothing is claimed of the result.
pub assume_specification<'a>[ std::task::Context::<'a>::waker ](
    cx: &std::task::Context<'a>,
) -> (waker: &'a std::task::Waker);

/// `Pin`'s `Deref::deref` gives shared access to the pinned value. `Pin` is
/// opaque, so nothing is claimed of the result.
pub assume_specification<Ptr: std::ops::Deref>[ <std::pin::Pin<Ptr> as std::ops::Deref>::deref ](
    pin: &std::pin::Pin<Ptr>,
) -> (target: &<Ptr as std::ops::Deref>::Target);

/// `Formatter::write_str` appends `data` to the formatter's output and
/// reports whether the underlying writer took it. Nothing is claimed of the
/// result.
pub assume_specification<'a>[ std::fmt::Formatter::<'a>::write_str ](
    f: &mut std::fmt::Formatter<'a>,
    data: &str,
) -> (written: Result<(), std::fmt::Error>);

} // verus!
