// What the completion protocol guarantees, proved of every run of the
// transition system in `protocol`.
use vstd::prelude::*;
use std::task::Poll;
use crate::protocol::Consumer;
use crate::protocol::Step;
use crate::protocol::System;

verus! {

/// A step that can be taken keeps the invariant.
pub proof fn lemma_step_keeps_inv(s: System, step: Step)
    requires
        s.inv(),
        s.enabled(step),
    ensures
        s.next(step).inv(),
{
}

/// A step never clears the flag, and never takes the consumer out of `Done`
/// once the invariant holds.
pub proof fn lemma_step_keeps_done(s: System, step: Step)
    requires
        s.inv(),
        s.enabled(step),
    ensures
        s.shared.completed ==> s.next(step).shared.completed,
        s.consumer is Done ==> s.next(step).consumer is Done,
{
}

/// Taking `a` and then `b` is taking `a + b`.
pub proof fn lemma_run_append(s: System, a: Seq<Step>, b: Seq<Step>)
    ensures
        s.admits(a + b) == (s.admits(a) && s.run(a).admits(b)),
        s.run(a + b) == s.run(a).run(b),
    decreases a.len(),
{
    if a.len() == 0 {
        assert(a + b =~= b);
    } else {
        assert((a + b).first() == a.first());
        assert((a + b).drop_first() =~= a.drop_first() + b);
        lemma_run_append(s.next(a.first()), a.drop_first(), b);
    }
}

/// A run keeps the invariant, the flag once it is set, and `Done` once it is
/// reached.
pub proof fn lemma_run_keeps_inv(s: System, steps: Seq<Step>)
    requires
        s.inv(),
        s.admits(steps),
    ensures
        s.run(steps).inv(),
        s.shared.completed ==> s.run(steps).shared.completed,
        s.consumer is Done ==> s.run(steps).consumer is Done,
    decreases steps.len(),
{
    if steps.len() > 0 {
        lemma_step_keeps_inv(s, steps.first());
        lemma_step_keeps_done(s, steps.first());
        lemma_run_keeps_inv(s.next(steps.first()), steps.drop_first());
    }
}

/// Every state that a run from a new pair reaches satisfies the invariant.
pub proof fn lemma_reachable_inv(steps: Seq<Step>)
    requires
        System::new().admits(steps),
    ensures
        System::new().run(steps).inv(),
{
    lemma_run_keeps_inv(System::new(), steps);
}

/// The flag is monotonic: in every run from a new pair, once the flag is set
/// it stays set, whatever steps follow.
pub proof fn law_completed_is_final(before: Seq<Step>, after: Seq<Step>)
    requires
        System::new().admits(before + after),
        System::new().run(before).shared.completed,
    ensures
        System::new().run(before + after).shared.completed,
{
    lemma_run_append(System::new(), before, after);
    lemma_reachable_inv(before);
    lemma_run_keeps_inv(System::new().run(before), after);
}

/// Readiness is monotonic: in every run from a new pair, once a poll has
/// reported ready the consumer never leaves `Done`, whatever steps follow. So
/// no later poll registers or reports pending: each reports ready at its first
/// read of the flag.
pub proof fn law_ready_is_final(before: Seq<Step>, after: Seq<Step>)
    requires
        System::new().admits(before + after),
        System::new().run(before).consumer is Done,
    ensures
        System::new().run(before + after).consumer is Done,
        System::new().run(before + after).consumer.reported() == Some(Poll::Ready(())),
{
    lemma_run_append(System::new(), before, after);
    lemma_reachable_inv(before);
    lemma_run_keeps_inv(System::new().run(before), after);
}

/// No wake-up is lost: however the steps of polls and of `resolve` calls
/// interleave, if the run ends with the consumer suspended on `waiter` while
/// some `resolve` has set the flag and every `resolve` that set it has also
/// woken, then `waiter` has been woken since it registered. The poll that its
/// task makes on waking reports ready.
pub proof fn law_no_lost_wakeup(steps: Seq<Step>, waiter: nat, again: nat)
    requires
        System::new().admits(steps),
        System::new().run(steps).consumer == Consumer::Parked(waiter),
        System::new().run(steps).shared.completed,
        System::new().run(steps).waking == 0,
    ensures
        System::new().run(steps).notified,
        System::new().run(steps).poll(again).consumer.reported() == Some(Poll::Ready(())),
{
    lemma_reachable_inv(steps);
}

/// A poll that races with `resolve` never parks unnoticed: whenever a run ends
/// with the consumer suspended on `waiter` and not woken since it registered,
/// `waiter` is still in the slot, and either no `resolve` has set the flag yet
/// or one that did has still to wake.
pub proof fn law_parked_waiter_is_reachable(steps: Seq<Step>, waiter: nat)
    requires
        System::new().admits(steps),
        System::new().run(steps).consumer == Consumer::Parked(waiter),
        !System::new().run(steps).notified,
    ensures
        System::new().run(steps).shared.waiter == Some(waiter),
        !System::new().run(steps).shared.completed || System::new().run(steps).waking > 0,
{
    lemma_reachable_inv(steps);
}

/// A run in which no `resolve` takes part leaves the flag unset and never
/// brings the consumer to `Done`.
proof fn lemma_unresolved_run(s: System, steps: Seq<Step>)
    requires
        s.admits(steps),
        !steps.contains(Step::Mark),
        !s.shared.completed,
        s.waking == 0,
        !(s.consumer is Done),
    ensures
        !s.run(steps).shared.completed,
        s.run(steps).waking == 0,
        !(s.run(steps).consumer is Done),
    decreases steps.len(),
{
    if steps.len() > 0 {
        assert(steps.contains(steps[0]));
        assert forall|step: Step| steps.drop_first().contains(step) implies steps.contains(
            step,
        ) by {
            let i = choose|i: int| 0 <= i < steps.drop_first().len() && steps.drop_first()[i] == step;
            assert(steps[i + 1] == step);
        }
        lemma_unresolved_run(s.next(steps.first()), steps.drop_first());
    }
}

/// Only `resolve` makes the completion ready: in a run from a new pair in
/// which no `resolve` sets the flag, the flag stays unset and no poll reports
/// ready, however long the run. Dropping the handle is no step, so it
/// resolves nothing.
pub proof fn law_ready_needs_resolve(steps: Seq<Step>)
    requires
        System::new().admits(steps),
        !steps.contains(Step::Mark),
    ensures
        !System::new().run(steps).shared.completed,
        System::new().run(steps).consumer.reported() != Some(Poll::Ready(())),
{
    lemma_unresolved_run(System::new(), steps);
}

/// The last registration wins: of two polls that both report pending, the
/// second takes the slot, and the `resolve` that follows wakes its waiter.
pub proof fn law_last_registration_wins(s: System, first: nat, second: nat)
    requires
        s.consumer.between_polls(),
        !s.shared.completed,
    ensures
        s.poll(first).poll(second).consumer == Consumer::Parked(second),
        s.poll(first).poll(second).shared.waiter == Some(second),
        s.poll(first).poll(second).resolve().notified,
{
}

/// `resolve` is idempotent: called `n` times in a row, with `n` at least 1, it
/// leaves the state that one call leaves, in which the flag is set and the
/// slot is empty. The later calls wake nobody.
pub proof fn law_resolve_is_idempotent(s: System, n: nat)
    requires
        n >= 1,
    ensures
        s.resolve_times(n) == s.resolve(),
        s.resolve().shared == s.shared.mark_complete(),
        s.resolve().shared.completed && s.resolve().shared.waiter is None,
    decreases n,
{
    if n > 1 {
        law_resolve_is_idempotent(s.resolve(), (n - 1) as nat);
    } else {
        assert(s.resolve().resolve_times(0) == s.resolve());
    }
}

/// Immediate readiness: a poll that starts after `resolve` has returned
/// reports ready at its first read of the flag. It does not register, so the
/// shared state is as `resolve` left it.
pub proof fn law_poll_after_resolve(s: System, waiter: nat)
    requires
        s.consumer.between_polls(),
    ensures
        s.resolve().enabled(Step::Check(waiter)),
        s.resolve().poll(waiter) == s.resolve().next(Step::Check(waiter)),
        s.resolve().poll(waiter).consumer.reported() == Some(Poll::Ready(())),
        s.resolve().poll(waiter).shared == s.resolve().shared,
{
}

/// Pending, then ready: a poll that runs while the flag is unset registers its
/// waiter and reports pending. A `resolve` after it wakes that waiter, and the
/// poll after that reports ready.
pub proof fn law_pending_then_ready(s: System, waiter: nat, again: nat)
    requires
        s.consumer.between_polls(),
        !s.shared.completed,
    ensures
        s.poll(waiter).consumer == Consumer::Parked(waiter),
        s.poll(waiter).consumer.reported() == Some(Poll::<()>::Pending),
        s.poll(waiter).shared.waiter == Some(waiter),
        s.poll(waiter).resolve().notified,
        s.poll(waiter).resolve().poll(again).consumer.reported() == Some(Poll::Ready(())),
{
}

} // verus!
