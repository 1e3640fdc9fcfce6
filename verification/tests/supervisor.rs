//! End-to-end scenarios driving a supervised resource through its events.

use use_resource::resource::use_resource;
use use_resource::resource::Resource;
use use_resource::state::UseResourceState;

#[test]
fn initial_state_is_pending_with_no_value() {
    let r: Resource<u64> = use_resource();
    assert_eq!(r.state(), UseResourceState::Pending);
    assert!(r.value().is_none());
    assert!(!r.finished());
    assert_eq!(r.task(), 0);
    assert_eq!(r.sched.num_tasks(), 1);
    assert!(!r.sched.cancel_requested(0));
}

#[test]
fn immediate_completion_yields_ready_and_value() {
    // A computation that immediately yields 42: one poll step completes it.
    let mut r: Resource<u64> = use_resource();
    assert_eq!(r.state(), UseResourceState::Pending);
    let reads: Vec<u64> = Vec::new();
    r.poll_step(&reads, Some(42));
    assert_eq!(r.state(), UseResourceState::Ready);
    assert_eq!(*r.value(), Some(42));
    assert!(r.finished());
}

#[test]
fn pending_poll_writes_nothing() {
    let mut r: Resource<u64> = use_resource();
    let reads: Vec<u64> = vec![3];
    r.poll_step(&reads, None);
    assert_eq!(r.state(), UseResourceState::Pending);
    assert!(r.value().is_none());
    r.poll_step(&reads, Some(5));
    assert_eq!(*r.value(), Some(5));
    assert_eq!(r.state(), UseResourceState::Ready);
    assert!(r.run_completed);
}

#[test]
fn cancelled_run_never_writes_the_value() {
    let mut r: Resource<u64> = use_resource();
    r.cancel();
    assert_eq!(r.state(), UseResourceState::Stopped);
    assert!(r.value().is_none());
    assert!(r.sched.cancel_requested(r.task()));
    assert!(r.finished());
}

#[test]
fn dependency_change_replaces_the_run() {
    // A resource depending on cell 1 completes with "X=1"; the cell is then
    // mutated, the restart loop replaces the run, and the new run completes
    // with "X=2".
    let mut r: Resource<String> = use_resource();
    let reads: Vec<u64> = vec![1];
    r.poll_step(&reads, Some(String::from("X=1")));
    assert_eq!(r.value().as_deref(), Some("X=1"));

    let old_task = r.task();
    assert!(r.notify_mutation(1));
    assert!(r.process_wake());
    assert!(r.sched.cancel_requested(old_task));
    assert_ne!(r.task(), old_task);
    // Stale value and state persist while the new run is in flight.
    assert_eq!(r.value().as_deref(), Some("X=1"));
    assert_eq!(r.state(), UseResourceState::Ready);

    r.poll_step(&reads, Some(String::from("X=2")));
    assert_eq!(r.value().as_deref(), Some("X=2"));
    assert_eq!(r.state(), UseResourceState::Ready);
}

#[test]
fn restart_preserves_stale_value_until_new_completion() {
    let mut r: Resource<u64> = use_resource();
    let reads: Vec<u64> = Vec::new();
    r.poll_step(&reads, Some(1));
    assert_eq!(*r.value(), Some(1));
    assert_eq!(r.state(), UseResourceState::Ready);

    r.restart();
    // The state is deliberately not reset: still Ready, showing value 1.
    assert_eq!(*r.value(), Some(1));
    assert_eq!(r.state(), UseResourceState::Ready);

    r.poll_step(&reads, None);
    assert_eq!(*r.value(), Some(1));
    assert_eq!(r.state(), UseResourceState::Ready);

    r.poll_step(&reads, Some(2));
    assert_eq!(*r.value(), Some(2));
    assert_eq!(r.state(), UseResourceState::Ready);
}

#[test]
fn restart_cancels_the_old_task() {
    let mut r: Resource<u64> = use_resource();
    let old_task = r.task();
    r.restart();
    assert!(r.sched.cancel_requested(old_task));
    assert!(!r.sched.cancel_requested(r.task()));
    assert_eq!(r.state(), UseResourceState::Pending);
}

#[test]
fn pause_then_resume_returns_to_pending() {
    let mut r: Resource<u64> = use_resource();
    r.pause();
    assert_eq!(r.state(), UseResourceState::Paused);
    assert!(r.sched.paused(r.task()));
    r.resume();
    assert_eq!(r.state(), UseResourceState::Pending);
    assert!(!r.sched.paused(r.task()));
    assert!(r.sched.resume_requested(r.task()));
}

#[test]
fn resume_after_cancel_is_a_no_op() {
    // Cancel while Pending, then resume: the state stays Stopped and no
    // resume request reaches the scheduler.
    let mut r: Resource<u64> = use_resource();
    r.cancel();
    assert_eq!(r.state(), UseResourceState::Stopped);
    r.resume();
    assert_eq!(r.state(), UseResourceState::Stopped);
    assert!(!r.sched.resume_requested(r.task()));
}

#[test]
fn resume_when_ready_is_a_no_op() {
    let mut r: Resource<u64> = use_resource();
    let reads: Vec<u64> = Vec::new();
    r.poll_step(&reads, Some(9));
    r.resume();
    assert_eq!(r.state(), UseResourceState::Ready);
    assert!(!r.sched.resume_requested(r.task()));
}

#[test]
fn pause_is_recorded_whatever_the_state() {
    // The control surface moves any state to Paused, even Ready.
    let mut r: Resource<u64> = use_resource();
    let reads: Vec<u64> = Vec::new();
    r.poll_step(&reads, Some(7));
    r.pause();
    assert_eq!(r.state(), UseResourceState::Paused);
    assert!(r.sched.paused(r.task()));
}

#[test]
fn dependencies_accumulate_across_poll_steps() {
    // First poll reads cell 1, a later poll reads cell 2: the run stays
    // subscribed to both, so mutating the cell read only earlier still wakes.
    let mut r: Resource<u64> = use_resource();
    let first: Vec<u64> = vec![1];
    let second: Vec<u64> = vec![2];
    r.poll_step(&first, None);
    r.poll_step(&second, None);
    assert!(r.scope.is_dependency(1));
    assert!(r.scope.is_dependency(2));
    assert!(r.notify_mutation(1));
    assert!(r.process_wake());
}

#[test]
fn mutations_are_coalesced_into_one_wake() {
    let mut r: Resource<u64> = use_resource();
    let reads: Vec<u64> = vec![1, 2];
    r.poll_step(&reads, None);
    assert!(r.notify_mutation(1));
    assert!(r.notify_mutation(2));
    assert!(r.process_wake());
    // Both mutations were served by the one wake.
    assert!(!r.process_wake());
}

#[test]
fn unread_cell_mutation_raises_no_wake() {
    let mut r: Resource<u64> = use_resource();
    let reads: Vec<u64> = vec![1];
    r.poll_step(&reads, None);
    assert!(!r.notify_mutation(2));
    assert!(!r.process_wake());
    assert_eq!(r.task(), 0);
}

#[test]
fn one_task_is_current_and_all_prior_ones_cancelled() {
    // After several wakes, exactly one task is referenced and every prior
    // one has received a cancel request.
    let mut r: Resource<u64> = use_resource();
    let reads: Vec<u64> = vec![1];
    for _ in 0..4 {
        r.poll_step(&reads, None);
        assert!(r.notify_mutation(1));
        assert!(r.process_wake());
    }
    let n = r.sched.num_tasks();
    assert_eq!(n, 5);
    assert_eq!(r.task(), n - 1);
    for id in 0..n - 1 {
        assert!(r.sched.cancel_requested(id));
    }
    assert!(!r.sched.cancel_requested(r.task()));
}

#[test]
fn restart_drops_the_old_runs_dependencies() {
    let mut r: Resource<u64> = use_resource();
    let reads: Vec<u64> = vec![1];
    r.poll_step(&reads, None);
    r.restart();
    assert!(!r.scope.is_dependency(1));
    assert!(!r.notify_mutation(1));
    assert!(!r.process_wake());
}
