// The completion protocol as a transition system.
//
// The executable pair keeps its state in two atomics behind shared
// references, which no contract can look into. This module describes the
// same protocol over plain values: the shared state, the atomic steps that
// `resolve` and a poll are made of, and the runs in which those steps
// interleave. Each step stands for one atomic operation of the pair:
//
//   Mark      the release store that sets the flag            (resolve)
//   Wake      `AtomicWaker::wake`                              (resolve)
//   Check     the acquire load at the start of a poll          (poll)
//   Register  `AtomicWaker::register`                          (poll)
//   Recheck   the acquire load after registering               (poll)
//
// A run takes the steps one at a time, in one order for all threads. That
// the pair's atomics can be read this way is assumed here, not proved: the
// flag is stored with release and loaded with acquire ordering, and the slot
// orders every `register` and `wake` on it.
use vstd::prelude::*;
use std::task::Poll;

verus! {

/// What a poll reports on reading the flag as `completed`.
pub open spec fn spec_readiness(completed: bool) -> Poll<()> {
    if completed {
        Poll::Ready(())
    } else {
        Poll::Pending
    }
}

/// Turns one read of the flag into a poll result: ready exactly when the flag
/// was set.
pub fn readiness(completed: bool) -> (r: Poll<()>)
    ensures
        r == spec_readiness(completed),
{
    if completed {
        Poll::Ready(())
    } else {
        Poll::Pending
    }
}

/// The state that a handle and its completion share. Waiters are told apart
/// by a number.
pub struct SharedState {
    /// Whether the event has been marked as done.
    pub completed: bool,
    /// The waiter registered last and not woken since, if there is one.
    pub waiter: Option<nat>,
}

impl SharedState {
    /// The state of a new pair: not completed, nobody waiting.
    pub open spec fn new() -> SharedState {
        SharedState { completed: false, waiter: None }
    }

    /// The state after the flag has been set. The waiter is left alone.
    pub open spec fn set_complete(self) -> SharedState {
        SharedState { completed: true, ..self }
    }

    /// The state after the slot has been emptied to wake whoever was in it.
    pub open spec fn take_waiter(self) -> SharedState {
        SharedState { waiter: None, ..self }
    }

    /// The state after `waiter` has registered: it takes the place of any
    /// earlier registration.
    pub open spec fn register_waiter(self, waiter: nat) -> SharedState {
        SharedState { waiter: Some(waiter), ..self }
    }

    /// The state after a whole `resolve`: the flag is set first, then the
    /// registered waiter is woken.
    pub open spec fn mark_complete(self) -> SharedState {
        self.set_complete().take_waiter()
    }
}

/// Where the consuming side stands.
pub enum Consumer {
    /// The completion has not been polled yet.
    Fresh,
    /// A poll has read the flag as unset and is about to register the waiter.
    Registering(nat),
    /// A poll has registered the waiter and is about to read the flag again.
    Rechecking(nat),
    /// The last poll reported pending: the waiter is suspended.
    Parked(nat),
    /// A poll has reported ready.
    Done,
}

impl Consumer {
    /// Whether no poll is under way, so that one may start.
    pub open spec fn between_polls(self) -> bool {
        self is Fresh || self is Parked || self is Done
    }

    /// What the poll that ended last reported, if one has ended and none has
    /// started since.
    pub open spec fn reported(self) -> Option<Poll<()>> {
        match self {
            Consumer::Done => Some(Poll::Ready(())),
            Consumer::Parked(_) => Some(Poll::Pending),
            _ => None,
        }
    }
}

/// One atomic step of the protocol.
pub enum Step {
    /// `resolve` sets the flag.
    Mark,
    /// `resolve` wakes the registered waiter.
    Wake,
    /// A poll by the given waiter starts and reads the flag.
    Check(nat),
    /// The poll under way registers its waiter.
    Register,
    /// The poll under way reads the flag again.
    Recheck,
}

/// The shared state together with everybody who acts on it: one consumer,
/// which polls from one context at a time, and any number of `resolve` calls
/// under way.
pub struct System {
    pub shared: SharedState,
    pub consumer: Consumer,
    /// How many calls of `resolve` have set the flag and not woken yet.
    pub waking: nat,
    /// Whether the waiter of the latest registration has been woken since it
    /// registered.
    pub notified: bool,
}

impl System {
    /// A new pair that nobody has touched.
    pub open spec fn new() -> System {
        System { shared: SharedState::new(), consumer: Consumer::Fresh, waking: 0, notified: false }
    }

    /// Whether `step` can be taken next. The two halves of `resolve` are in
    /// program order, and so are the steps of a poll; a poll starts only when
    /// none is under way.
    pub open spec fn enabled(self, step: Step) -> bool {
        match step {
            Step::Mark => true,
            Step::Wake => self.waking > 0,
            Step::Check(_) => self.consumer.between_polls(),
            Step::Register => self.consumer is Registering,
            Step::Recheck => self.consumer is Rechecking,
        }
    }

    /// The state after `step`.
    pub open spec fn next(self, step: Step) -> System {
        match step {
            Step::Mark => System {
                shared: self.shared.set_complete(),
                waking: self.waking + 1,
                ..self
            },
            Step::Wake => System {
                shared: self.shared.take_waiter(),
                waking: (self.waking - 1) as nat,
                notified: self.notified || self.shared.waiter is Some,
                ..self
            },
            Step::Check(waiter) => System {
                consumer: match spec_readiness(self.shared.completed) {
                    Poll::Ready(_) => Consumer::Done,
                    Poll::Pending => Consumer::Registering(waiter),
                },
                ..self
            },
            Step::Register => match self.consumer {
                Consumer::Registering(waiter) => System {
                    shared: self.shared.register_waiter(waiter),
                    consumer: Consumer::Rechecking(waiter),
                    notified: false,
                    ..self
                },
                _ => self,
            },
            Step::Recheck => match self.consumer {
                Consumer::Rechecking(waiter) => System {
                    consumer: match spec_readiness(self.shared.completed) {
                        Poll::Ready(_) => Consumer::Done,
                        Poll::Pending => Consumer::Parked(waiter),
                    },
                    ..self
                },
                _ => self,
            },
        }
    }

    /// Whether the steps can be taken from here in the order given.
    pub open spec fn admits(self, steps: Seq<Step>) -> bool
        decreases steps.len(),
    {
        steps.len() > 0 ==> self.enabled(steps.first()) && self.next(steps.first()).admits(
            steps.drop_first(),
        )
    }

    /// The state after the steps have been taken in the order given.
    pub open spec fn run(self, steps: Seq<Step>) -> System
        decreases steps.len(),
    {
        if steps.len() == 0 {
            self
        } else {
            self.next(steps.first()).run(steps.drop_first())
        }
    }

    /// The state after one call of `resolve` that nothing interrupts.
    pub open spec fn resolve(self) -> System {
        self.next(Step::Mark).next(Step::Wake)
    }

    /// The state after `n` calls of `resolve`, one after the other.
    pub open spec fn resolve_times(self, n: nat) -> System
        decreases n,
    {
        if n == 0 {
            self
        } else {
            self.resolve().resolve_times((n - 1) as nat)
        }
    }

    /// The state after one poll by `waiter` that nothing interrupts: it
    /// stops after the first read of the flag where that found the flag set.
    pub open spec fn poll(self, waiter: nat) -> System {
        let checked = self.next(Step::Check(waiter));
        if checked.consumer is Done {
            checked
        } else {
            checked.next(Step::Register).next(Step::Recheck)
        }
    }

    /// What holds of every state that a run from a new pair can reach. A
    /// `resolve` that is half done has set the flag; a consumer that is done
    /// has seen the flag set; and a waiter that has registered and not been
    /// woken is still in the slot, where, once it is suspended, a `resolve`
    /// that is yet to come or yet to wake will find it.
    pub open spec fn inv(self) -> bool {
        &&& self.waking > 0 ==> self.shared.completed
        &&& self.consumer is Done ==> self.shared.completed
        &&& match self.consumer {
            Consumer::Rechecking(waiter) => self.notified || self.shared.waiter == Some(waiter),
            Consumer::Parked(waiter) => {
                ||| self.notified
                ||| {
                    &&& self.shared.waiter == Some(waiter)
                    &&& !self.shared.completed || self.waking > 0
                }
            },
            _ => true,
        }
    }
}

} // verus!
