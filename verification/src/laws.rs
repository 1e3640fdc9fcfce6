//! The supervisor's guarantees, stated and proved over the model
//! transitions of [`ResourceModel`].
//!
//! Every mutating operation of [`crate::resource::Resource`] ensures that
//! its result is well-formed and equals a model transition applied to its
//! argument, so each property proved here of the transitions holds of every
//! reachable resource, after any sequence of operations.

use vstd::prelude::*;

use crate::resource::ResourceModel;
use crate::state::UseResourceState;

verus! {

/// An element of the right part of a concatenation is an element of the
/// concatenation.
proof fn lemma_concat_contains_right<A>(s: Seq<A>, t: Seq<A>, x: A)
    requires
        t.contains(x),
    ensures
        (s + t).contains(x),
{
    let i = choose|i: int| 0 <= i < t.len() && t[i] == x;
    assert((s + t)[s.len() + i] == x);
}

/// An element of the left part of a concatenation is an element of the
/// concatenation.
proof fn lemma_concat_contains_left<A>(s: Seq<A>, t: Seq<A>, x: A)
    requires
        s.contains(x),
    ensures
        (s + t).contains(x),
{
    let i = choose|i: int| 0 <= i < s.len() && s[i] == x;
    assert((s + t)[i] == x);
}

/// Single active run: a well-formed resource references exactly one
/// current task — the most recently spawned one — and every task spawned
/// before it has received a cancel request. Every operation of the library
/// ensures well-formedness of its result, so after any sequence of
/// mutations, wakes and controls this holds of the resource as it stands.
pub proof fn lemma_single_active_run<T>(m: ResourceModel<T>)
    requires
        m.wf(),
    ensures
        m.sched.len() >= 1,
        m.task == m.sched.len() - 1,
        forall|i: int| 0 <= i < m.sched.len() && i != m.task ==> m.sched[i].cancel_requested,
{
}

/// Completion write-once: the poll step that completes a run publishes
/// exactly the produced value and flips the state to `Ready`, and leaves a
/// resource that no further poll step may touch — the wrapper task has
/// ended — so the value slot is written exactly once per run. A poll step
/// that does not complete the run writes neither slot.
pub proof fn lemma_completion_write_once<T>(m: ResourceModel<T>, reads: Seq<u64>, v: T)
    requires
        m.wf(),
        m.poll_allowed(),
    ensures
        m.after_poll(reads, Some(v)).value == Some(v),
        m.after_poll(reads, Some(v)).state == UseResourceState::Ready,
        m.after_poll(reads, Some(v)).run_completed,
        !m.after_poll(reads, Some(v)).poll_allowed(),
        m.after_poll(reads, None).value == m.value,
        m.after_poll(reads, None).state == m.state,
{
}

/// A cancelled run never writes: once the current task has received a
/// cancel request — in particular right after `cancel` — no poll step of
/// it is possible any more, so it can never reach the value slot; `cancel`
/// itself keeps the latest value and only moves the state to `Stopped`.
pub proof fn lemma_cancelled_run_never_writes<T>(m: ResourceModel<T>)
    requires
        m.wf(),
    ensures
        m.current_cancel_requested() ==> !m.poll_allowed(),
        !m.after_cancel().poll_allowed(),
        m.after_cancel().value == m.value,
        m.after_cancel().state == UseResourceState::Stopped,
{
}

/// Restart preserves the stale value: restarting a `Ready` resource leaves
/// the value and the `Ready` state untouched; every poll step of the new
/// run that does not complete it still leaves them untouched; and the step
/// that completes the new run with `v2` updates both together, to `Some(v2)`
/// and `Ready`.
pub proof fn lemma_restart_preserves_stale_value<T>(m: ResourceModel<T>, reads: Seq<u64>, v2: T)
    requires
        m.wf(),
        m.state == UseResourceState::Ready,
    ensures
        m.after_restart().value == m.value,
        m.after_restart().state == UseResourceState::Ready,
        m.after_restart().after_poll(reads, None).value == m.value,
        m.after_restart().after_poll(reads, None).state == UseResourceState::Ready,
        m.after_restart().after_poll(reads, Some(v2)).value == Some(v2),
        m.after_restart().after_poll(reads, Some(v2)).state == UseResourceState::Ready,
{
}

/// Pause and resume: pausing records the pause on the current task, moves
/// the state to `Paused` and stops the run's progress; resuming the paused
/// resource lifts the pause and returns the state to `Pending`; resuming a
/// finished resource (`Ready` or `Stopped`) changes nothing at all — no
/// request reaches the scheduler.
pub proof fn lemma_pause_resume<T>(m: ResourceModel<T>)
    requires
        m.wf(),
    ensures
        m.after_pause().state == UseResourceState::Paused,
        m.after_pause().sched[m.task].paused,
        !m.after_pause().poll_allowed(),
        m.after_pause().after_resume().state == UseResourceState::Pending,
        !m.after_pause().after_resume().sched[m.task].paused,
        m.state.spec_is_finished() ==> m.after_resume() == m,
{
}

/// Dependency re-tracking across polls: a run that reads cell `a` on one
/// poll step and cell `b` on a later one is subscribed to both for the
/// rest of the run — a mutation of either cell raises the wake flag, even
/// when the cell is no longer read by the latest step.
pub proof fn lemma_dependency_retracking<T>(
    m: ResourceModel<T>,
    reads1: Seq<u64>,
    reads2: Seq<u64>,
    a: u64,
    b: u64,
)
    requires
        reads1.contains(a),
        reads2.contains(b),
    ensures
        m.after_poll(reads1, None).after_poll(reads2, None).scope.is_dependency(a),
        m.after_poll(reads1, None).after_poll(reads2, None).scope.is_dependency(b),
        m.after_poll(reads1, None).after_poll(reads2, None).after_mutation(a).scope.pending_wake,
        m.after_poll(reads1, None).after_poll(reads2, None).after_mutation(b).scope.pending_wake,
{
    let deps0 = m.scope.run_deps;
    lemma_concat_contains_right(deps0, reads1, a);
    lemma_concat_contains_left(deps0 + reads1, reads2, a);
    lemma_concat_contains_right(deps0 + reads1, reads2, b);
}

/// The wake guarantee: a mutation of a cell the current run read raises
/// the wake flag; the flag stays up through any further mutations until
/// the restart loop consumes it (coalescing); the iteration that consumes
/// it cancels the run that recorded the dependency and spawns a
/// replacement, leaving no wake pending.
pub proof fn lemma_wake_on_dependency_mutation<T>(m: ResourceModel<T>, cell: u64, other: u64)
    requires
        m.wf(),
        m.scope.is_dependency(cell),
    ensures
        m.after_mutation(cell).scope.pending_wake,
        m.after_mutation(cell).after_mutation(other).scope.pending_wake,
        m.after_mutation(cell).after_wake().sched[m.task].cancel_requested,
        m.after_mutation(cell).after_wake().task == m.sched.len(),
        !m.after_mutation(cell).after_wake().scope.pending_wake,
        m.after_mutation(cell).after_wake().value == m.value,
        m.after_mutation(cell).after_wake().state == m.state,
{
}

/// Tracking is per run: a restart drops the superseded run's recorded
/// dependencies, so a mutation of a cell only the old run read raises no
/// new wake — the flag afterwards is exactly what it was before.
pub proof fn lemma_restart_clears_tracking<T>(m: ResourceModel<T>, cell: u64)
    ensures
        !m.after_restart().scope.is_dependency(cell),
        m.after_restart().after_mutation(cell).scope.pending_wake == m.scope.pending_wake,
{
}

} // verus!
