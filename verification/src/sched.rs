//! A model of the external cooperative scheduler's control surface.
//!
//! The real scheduler is an external collaborator: it accepts a unit of
//! asynchronous work and hands back an opaque task identity supporting
//! best-effort `cancel`, `pause` and `resume` requests. The supervisor never
//! inspects a task; it only refers to it by identity and issues requests.
//! This module keeps the scheduler-visible bookkeeping: one record per
//! spawned task holding exactly the requests that task has received, so that
//! contracts and tests can observe them.

use vstd::prelude::*;

verus! {

/// The control requests one spawned task has received.
#[derive(Clone, Copy, PartialEq, Eq, Structural, Debug)]
pub struct TaskRecord {
    /// Whether the task has received a cancel request. Cancellation is
    /// best-effort and cooperative, so the request is recorded rather than
    /// an instantaneous teardown.
    pub cancel_requested: bool,
    /// Whether polling of the task is currently suspended.
    pub paused: bool,
    /// Whether the task has ever received a resume request.
    pub resume_requested: bool,
}

/// The record a freshly spawned task starts with: no request received yet.
pub open spec fn fresh_task_record() -> TaskRecord {
    TaskRecord { cancel_requested: false, paused: false, resume_requested: false }
}

/// The scheduler model: one record per spawned task. A task's identity is
/// its index in spawn order.
pub struct Scheduler {
    /// The per-task records, indexed by task identity.
    pub tasks: Vec<TaskRecord>,
}

impl View for Scheduler {
    type V = Seq<TaskRecord>;

    open spec fn view(&self) -> Seq<TaskRecord> {
        self.tasks@
    }
}

impl Scheduler {
    /// Whether `id` identifies a task this scheduler has spawned.
    pub open spec fn valid_task(self, id: int) -> bool {
        0 <= id < self@.len()
    }

    /// Whether task `id` has received a cancel request.
    pub open spec fn spec_cancel_requested(self, id: int) -> bool
        recommends
            self.valid_task(id),
    {
        self@[id].cancel_requested
    }

    /// Whether polling of task `id` is currently suspended.
    pub open spec fn spec_paused(self, id: int) -> bool
        recommends
            self.valid_task(id),
    {
        self@[id].paused
    }

    /// Whether task `id` has ever received a resume request.
    pub open spec fn spec_resume_requested(self, id: int) -> bool
        recommends
            self.valid_task(id),
    {
        self@[id].resume_requested
    }

    /// A scheduler with no task spawned yet.
    pub fn new() -> (s: Scheduler)
        ensures
            s@ == Seq::<TaskRecord>::empty(),
    {
        Scheduler { tasks: Vec::new() }
    }

    /// How many tasks have been spawned.
    pub fn num_tasks(&self) -> (n: usize)
        ensures
            n == self@.len(),
    {
        self.tasks.len()
    }

    /// Schedules a new unit of work and returns its fresh task identity.
    pub fn spawn(&mut self) -> (id: usize)
        ensures
            id == old(self)@.len(),
            final(self)@ == old(self)@.push(fresh_task_record()),
    {
        let id = self.tasks.len();
        self.tasks.push(TaskRecord { cancel_requested: false, paused: false, resume_requested: false });
        id
    }

    /// Records a cancel request on task `id`. Safe to repeat: the request
    /// flag simply stays set.
    pub fn cancel(&mut self, id: usize)
        requires
            old(self).valid_task(id as int),
        ensures
            final(self)@ == old(self)@.update(id as int,
                (TaskRecord { cancel_requested: true, ..old(self)@[id as int] })),
    {
        self.tasks[id].cancel_requested = true;
    }

    /// Suspends polling of task `id`.
    pub fn pause(&mut self, id: usize)
        requires
            old(self).valid_task(id as int),
        ensures
            final(self)@ == old(self)@.update(id as int,
                (TaskRecord { paused: true, ..old(self)@[id as int] })),
    {
        self.tasks[id].paused = true;
    }

    /// Resumes polling of task `id` and records that a resume was issued.
    pub fn resume(&mut self, id: usize)
        requires
            old(self).valid_task(id as int),
        ensures
            final(self)@ == old(self)@.update(id as int,
                (TaskRecord { paused: false, resume_requested: true, ..old(self)@[id as int] })),
    {
        self.tasks[id].paused = false;
        self.tasks[id].resume_requested = true;
    }

    /// Whether task `id` has received a cancel request.
    pub fn cancel_requested(&self, id: usize) -> (r: bool)
        requires
            self.valid_task(id as int),
        ensures
            r == self.spec_cancel_requested(id as int),
    {
        self.tasks[id].cancel_requested
    }

    /// Whether polling of task `id` is currently suspended.
    pub fn paused(&self, id: usize) -> (r: bool)
        requires
            self.valid_task(id as int),
        ensures
            r == self.spec_paused(id as int),
    {
        self.tasks[id].paused
    }

    /// Whether task `id` has ever received a resume request.
    pub fn resume_requested(&self, id: usize) -> (r: bool)
        requires
            self.valid_task(id as int),
        ensures
            r == self.spec_resume_requested(id as int),
    {
        self.tasks[id].resume_requested
    }
}

} // verus!
