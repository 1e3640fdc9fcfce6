//! Unit tests of the reactive scope and the scheduler records.

use use_resource::sched::Scheduler;
use use_resource::scope::ReactiveScope;

#[test]
fn scope_records_last_entry_and_accumulates_run_deps() {
    let mut s = ReactiveScope::new();
    let first: Vec<u64> = vec![1, 2];
    let second: Vec<u64> = vec![3];
    s.record_entry(&first);
    s.record_entry(&second);
    // The last-entry set reflects only the most recent entry ...
    assert_eq!(s.last_deps, vec![3]);
    // ... while the run's cumulative set keeps every read of the run.
    assert!(s.is_dependency(1));
    assert!(s.is_dependency(2));
    assert!(s.is_dependency(3));
    assert!(!s.is_dependency(4));
}

#[test]
fn scope_wakes_on_recorded_dependency_only() {
    let mut s = ReactiveScope::new();
    let reads: Vec<u64> = vec![5];
    s.record_entry(&reads);
    assert!(!s.on_mutation(6));
    assert!(!s.take_wake());
    assert!(s.on_mutation(5));
    assert!(s.take_wake());
    // The wake was consumed; no second one is owed.
    assert!(!s.take_wake());
}

#[test]
fn scope_coalesces_mutations_into_one_wake() {
    let mut s = ReactiveScope::new();
    let reads: Vec<u64> = vec![1, 2];
    s.record_entry(&reads);
    assert!(s.on_mutation(1));
    assert!(s.on_mutation(2));
    assert!(s.on_mutation(1));
    assert!(s.take_wake());
    assert!(!s.take_wake());
}

#[test]
fn scope_begin_run_clears_tracking_but_keeps_a_pending_wake() {
    let mut s = ReactiveScope::new();
    let reads: Vec<u64> = vec![1];
    s.record_entry(&reads);
    assert!(s.on_mutation(1));
    s.begin_run();
    assert!(!s.is_dependency(1));
    assert!(s.last_deps.is_empty());
    // An unconsumed wake survives the run boundary.
    assert!(s.take_wake());
}

#[test]
fn scheduler_spawns_sequential_identities() {
    let mut sched = Scheduler::new();
    assert_eq!(sched.num_tasks(), 0);
    assert_eq!(sched.spawn(), 0);
    assert_eq!(sched.spawn(), 1);
    assert_eq!(sched.spawn(), 2);
    assert_eq!(sched.num_tasks(), 3);
}

#[test]
fn scheduler_records_requests_per_task() {
    let mut sched = Scheduler::new();
    let a = sched.spawn();
    let b = sched.spawn();
    sched.cancel(a);
    assert!(sched.cancel_requested(a));
    assert!(!sched.cancel_requested(b));
    // Repeating the request is safe: the record simply stays set.
    sched.cancel(a);
    assert!(sched.cancel_requested(a));
    sched.pause(b);
    assert!(sched.paused(b));
    assert!(!sched.resume_requested(b));
    sched.resume(b);
    assert!(!sched.paused(b));
    assert!(sched.resume_requested(b));
}
