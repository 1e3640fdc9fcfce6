//! The resource supervisor and its public handle.
//!
//! A `Resource` combines the shared slots of one supervised computation —
//! the latest produced value, the lifecycle state, and the identity of the
//! current scheduled run — with the supervisor's own bookkeeping: the
//! reactive scope tracking the run's dependencies and the scheduler records
//! of every run spawned so far.
//!
//! The asynchronous parts of the system (polling the computation, a cell
//! mutation arriving, the restart loop being scheduled) are events reported
//! by the surrounding runtime; every decision taken on such an event is a
//! verified transition here. The contract of each transition ties the new
//! concrete value to a transition function on the mathematical model
//! [`ResourceModel`], and every transition preserves the well-formedness
//! invariant [`ResourceModel::wf`]: the most recently spawned task is the
//! one current task, and every superseded task has received a cancel
//! request.

use vstd::prelude::*;

use crate::sched::fresh_task_record;
use crate::sched::Scheduler;
use crate::sched::TaskRecord;
use crate::scope::ReactiveScope;
use crate::scope::ScopeModel;
use crate::state::UseResourceState;

verus! {

/// The mathematical model of a [`Resource`].
#[verifier::ext_equal]
pub ghost struct ResourceModel<T> {
    /// The latest value a completed run produced; `None` until the first
    /// run completes, retained across restarts until overwritten.
    pub value: Option<T>,
    /// The lifecycle state of the current run.
    pub state: UseResourceState,
    /// The identity of the current run's task.
    pub task: int,
    /// The scheduler's per-task records, indexed by task identity.
    pub sched: Seq<TaskRecord>,
    /// The dependency-tracking scope of the current run.
    pub scope: ScopeModel,
    /// Whether the current run has already completed and written the value
    /// slot; its wrapper task ends then and is never polled again.
    pub run_completed: bool,
}

impl<T> ResourceModel<T> {
    /// Well-formedness: at least one run was spawned, the current task is
    /// the most recently spawned one, and every task spawned before it has
    /// received a cancel request — no superseded run is left running
    /// unrequested.
    pub open spec fn wf(self) -> bool {
        &&& self.sched.len() >= 1
        &&& self.task == self.sched.len() - 1
        &&& forall|i: int|
            0 <= i < self.sched.len() && i != self.task ==> self.sched[i].cancel_requested
    }

    /// Whether the current task has received a cancel request.
    pub open spec fn current_cancel_requested(self) -> bool {
        self.sched[self.task].cancel_requested
    }

    /// Whether the current task is paused.
    pub open spec fn current_paused(self) -> bool {
        self.sched[self.task].paused
    }

    /// Whether the cooperative scheduler may poll the current run's wrapper
    /// task at all: the run has not completed (its wrapper ended then), has
    /// not been asked to cancel, and is not paused. A run outside this
    /// condition makes no progress — in particular it can never write the
    /// value slot.
    pub open spec fn poll_allowed(self) -> bool {
        &&& !self.run_completed
        &&& !self.current_cancel_requested()
        &&& !self.current_paused()
    }

    /// The model of a freshly created resource: no value yet, state
    /// `Pending`, exactly one task spawned, nothing tracked.
    pub open spec fn init() -> ResourceModel<T> {
        ResourceModel {
            value: None,
            state: UseResourceState::Pending,
            task: 0,
            sched: Seq::empty().push(fresh_task_record()),
            scope: ScopeModel::init(),
            run_completed: false,
        }
    }

    /// Replacing the current run: the current task receives a cancel
    /// request, a fresh task is spawned and becomes current, dependency
    /// tracking restarts. The value and state slots are deliberately left
    /// untouched: a resource that was `Ready` keeps showing the previous
    /// value until the new run completes and overwrites both.
    pub open spec fn after_restart(self) -> ResourceModel<T> {
        ResourceModel {
            value: self.value,
            state: self.state,
            task: self.sched.len() as int,
            sched: self.sched.update(self.task,
                (TaskRecord { cancel_requested: true, ..self.sched[self.task] })).push(
                fresh_task_record()),
            scope: self.scope.begin_run(),
            run_completed: false,
        }
    }

    /// One poll step of the current run's wrapper task. The scope records
    /// this step's reads; if the step yields the computation's final value,
    /// that value is published and the state flips to `Ready`, otherwise
    /// the slots are untouched.
    pub open spec fn after_poll(self, reads: Seq<u64>, outcome: Option<T>) -> ResourceModel<T> {
        match outcome {
            Option::None => ResourceModel { scope: self.scope.record_entry(reads), ..self },
            Option::Some(v) => ResourceModel {
                scope: self.scope.record_entry(reads),
                value: Some(v),
                state: UseResourceState::Ready,
                run_completed: true,
                ..self
            },
        }
    }

    /// A forceful cancel: the state becomes `Stopped` and the current task
    /// receives a cancel request. The value slot keeps the latest value.
    pub open spec fn after_cancel(self) -> ResourceModel<T> {
        ResourceModel {
            state: UseResourceState::Stopped,
            sched: self.sched.update(self.task,
                (TaskRecord { cancel_requested: true, ..self.sched[self.task] })),
            ..self
        }
    }

    /// A pause: the state becomes `Paused` and the current task is paused.
    pub open spec fn after_pause(self) -> ResourceModel<T> {
        ResourceModel {
            state: UseResourceState::Paused,
            sched: self.sched.update(self.task,
                (TaskRecord { paused: true, ..self.sched[self.task] })),
            ..self
        }
    }

    /// A resume: from a finished state (`Ready` or `Stopped`) it is a
    /// complete no-op — no request reaches the scheduler. Otherwise the
    /// state returns to `Pending` and the current task is resumed.
    pub open spec fn after_resume(self) -> ResourceModel<T> {
        if self.state.spec_is_finished() {
            self
        } else {
            ResourceModel {
                state: UseResourceState::Pending,
                sched: self.sched.update(self.task,
                    (TaskRecord {
                        paused: false,
                        resume_requested: true,
                        ..self.sched[self.task]
                    })),
                ..self
            }
        }
    }

    /// A mutation of reactive cell `cell` reaching the scope.
    pub open spec fn after_mutation(self, cell: u64) -> ResourceModel<T> {
        ResourceModel { scope: self.scope.notify(cell), ..self }
    }

    /// One iteration of the restart loop: if a wake is pending it is
    /// consumed and the current run is replaced as in [`Self::after_restart`];
    /// with no wake pending the loop stays suspended and nothing changes.
    pub open spec fn after_wake(self) -> ResourceModel<T> {
        if self.scope.pending_wake {
            (ResourceModel { scope: self.scope.clear_wake(), ..self }).after_restart()
        } else {
            self
        }
    }
}

/// The public handle of one supervised asynchronous computation.
pub struct Resource<T> {
    /// The latest value a completed run produced.
    pub value: Option<T>,
    /// The lifecycle state of the current run.
    pub state: UseResourceState,
    /// The identity of the current run's task.
    pub task: usize,
    /// The scheduler records of every task spawned for this resource.
    pub sched: Scheduler,
    /// The dependency-tracking scope of the current run.
    pub scope: ReactiveScope,
    /// Whether the current run has already completed.
    pub run_completed: bool,
}

impl<T> View for Resource<T> {
    type V = ResourceModel<T>;

    open spec fn view(&self) -> ResourceModel<T> {
        ResourceModel {
            value: self.value,
            state: self.state,
            task: self.task as int,
            sched: self.sched@,
            scope: self.scope@,
            run_completed: self.run_completed,
        }
    }
}

/// Creates the supervisor for one asynchronous computation: the shared
/// value and state slots, the reactive scope, and the first spawned run.
/// All of it is created exactly once per logical resource; the returned
/// handle is then driven by the runtime's events.
pub fn use_resource<T>() -> (r: Resource<T>)
    ensures
        r@ == ResourceModel::<T>::init(),
        r@.wf(),
{
    let mut sched = Scheduler::new();
    let task = sched.spawn();
    let r = Resource {
        value: None,
        state: UseResourceState::Pending,
        task,
        sched,
        scope: ReactiveScope::new(),
        run_completed: false,
    };
    proof {
        assert(r@ =~= ResourceModel::<T>::init());
    }
    r
}

impl<T> Resource<T> {
    /// Well-formedness of the handle, stated on its model.
    pub open spec fn wf(self) -> bool {
        self@.wf()
    }

    /// Restarts the computation: cancels the current run's task, spawns a
    /// fresh run and makes it current. The state is deliberately not reset —
    /// a resource that was `Ready` keeps showing the previous value and
    /// state until the new run completes; callers rely on this for
    /// non-flickering output.
    pub fn restart(&mut self)
        requires
            old(self).wf(),
        ensures
            final(self)@ == old(self)@.after_restart(),
            final(self).wf(),
    {
        self.sched.cancel(self.task);
        self.task = self.sched.spawn();
        self.scope.begin_run();
        self.run_completed = false;
        proof {
            assert(self@ =~= old(self)@.after_restart());
        }
    }

    /// Forcefully cancels the current run: the state becomes `Stopped` and
    /// the task receives a cancel request. The latest value is kept.
    pub fn cancel(&mut self)
        requires
            old(self).wf(),
        ensures
            final(self)@ == old(self)@.after_cancel(),
            final(self).wf(),
            !final(self)@.poll_allowed(),
    {
        self.state = UseResourceState::Stopped;
        self.sched.cancel(self.task);
        proof {
            assert(self@ =~= old(self)@.after_cancel());
        }
    }

    /// Pauses the current run: the state becomes `Paused` and the task is
    /// paused, which stops its progress until a resume.
    pub fn pause(&mut self)
        requires
            old(self).wf(),
        ensures
            final(self)@ == old(self)@.after_pause(),
            final(self).wf(),
            !final(self)@.poll_allowed(),
    {
        self.state = UseResourceState::Paused;
        self.sched.pause(self.task);
        proof {
            assert(self@ =~= old(self)@.after_pause());
        }
    }

    /// Resumes the current run. On a finished resource (`Ready` or
    /// `Stopped`) this is a complete no-op: the state is unchanged and no
    /// resume request reaches the scheduler. Otherwise the state returns to
    /// `Pending` and the task is resumed.
    pub fn resume(&mut self)
        requires
            old(self).wf(),
        ensures
            final(self)@ == old(self)@.after_resume(),
            final(self).wf(),
    {
        if self.finished() {
            return;
        }
        self.state = UseResourceState::Pending;
        self.sched.resume(self.task);
        proof {
            assert(self@ =~= old(self)@.after_resume());
        }
    }

    /// One poll step of the current run, reported by the runtime: `reads`
    /// are the reactive cells the computation read during this step, and
    /// `outcome` is its final value if this step completed it. The scope is
    /// re-entered around every step, so tracking stays current with what
    /// the computation actually reads. On completion the value is written —
    /// the single write of this run — and the state flips to `Ready`; the
    /// wrapper task ends, so no further poll of this run is possible.
    pub fn poll_step(&mut self, reads: &Vec<u64>, outcome: Option<T>)
        requires
            old(self).wf(),
            old(self)@.poll_allowed(),
        ensures
            final(self)@ == old(self)@.after_poll(reads@, outcome),
            final(self).wf(),
    {
        self.scope.record_entry(reads);
        match outcome {
            None => {
                proof {
                    assert(self@ =~= old(self)@.after_poll(reads@, None));
                }
            },
            Some(v) => {
                self.state = UseResourceState::Ready;
                self.value = Some(v);
                self.run_completed = true;
                proof {
                    assert(self@.scope == old(self)@.scope.record_entry(reads@));
                }
            },
        }
    }

    /// Delivers a mutation of reactive cell `cell`: if the current run read
    /// that cell, the scope's wake flag rises and the restart loop will
    /// replace the run on its next iteration. Returns whether the mutation
    /// hit a recorded dependency.
    pub fn notify_mutation(&mut self, cell: u64) -> (hit: bool)
        requires
            old(self).wf(),
        ensures
            hit == old(self)@.scope.is_dependency(cell),
            final(self)@ == old(self)@.after_mutation(cell),
            final(self).wf(),
    {
        let hit = self.scope.on_mutation(cell);
        proof {
            assert(self@ =~= old(self)@.after_mutation(cell));
        }
        hit
    }

    /// One iteration of the restart loop, run when the runtime schedules
    /// it: consumes the pending wake, if any, and then replaces the current
    /// run exactly as [`Self::restart`] does. Wakes are processed strictly
    /// one at a time — any number of mutations since the last iteration is
    /// coalesced into the one consumed wake, so one wake replaces one run.
    /// Returns whether a wake was pending and the run was replaced.
    pub fn process_wake(&mut self) -> (restarted: bool)
        requires
            old(self).wf(),
        ensures
            restarted == old(self)@.scope.pending_wake,
            final(self)@ == old(self)@.after_wake(),
            final(self).wf(),
    {
        let woke = self.scope.take_wake();
        if woke {
            self.restart();
            proof {
                assert(self@ =~= old(self)@.after_wake());
            }
        } else {
            proof {
                assert(self@ =~= old(self)@.after_wake());
            }
        }
        woke
    }

    /// The latest value produced by a completed run: `None` until the
    /// first run completes, then the most recently published value,
    /// retained across restarts until overwritten.
    pub fn value(&self) -> (r: &Option<T>)
        ensures
            *r == self@.value,
    {
        &self.value
    }

    /// The current lifecycle state.
    pub fn state(&self) -> (r: UseResourceState)
        ensures
            r == self@.state,
    {
        self.state
    }

    /// The identity of the task backing the current run, for external
    /// control. Driving the scheduler through this identity directly,
    /// behind the supervisor's back, desynchronizes its bookkeeping and is
    /// unsupported.
    pub fn task(&self) -> (r: usize)
        ensures
            r as int == self@.task,
    {
        self.task
    }

    /// Whether the current run is finished (`Ready` or `Stopped`). A peek:
    /// unlike reading the state slot itself, asking this subscribes nothing
    /// to the state, so status polling creates no reactive dependency.
    pub fn finished(&self) -> (r: bool)
        ensures
            r == self@.state.spec_is_finished(),
    {
        self.state.is_finished()
    }
}

} // verus!
