//! The command layer the UI talks to: the core state machine plus the
//! monotonic clock that stamps its transitions. Each operation takes one
//! fresh reading and hands it to the corresponding core operation, so each
//! contract here is the core's contract at that reading.

use vstd::prelude::*;
use crate::clock::MonotonicClock;
use crate::model::{
    core_wf, now_ok, query_spec, start_spec, stop_result_spec, stop_spec, sync_spec, CoreModel,
    StateModel,
};
use crate::store::empty_entries;
use crate::task::Task;
use crate::timer::{opt_pair_model, opt_task_model, TimerCore, TimerState};

verus! {

/// The process-wide timer: registry, state and clock, mutated together.
/// Constructed once at startup and driven by commands; a well-formedness
/// invariant ties any running segment's start to a clock reading already
/// handed out, so a fresh reading is always admissible.
pub struct TimerController {
    core: TimerCore,
    clock: MonotonicClock,
}

impl TimerController {
    /// The abstract registry and timer state.
    pub closed spec fn model(self) -> CoreModel {
        self.core@
    }

    /// The highest clock reading seen so far.
    pub closed spec fn clock_ms(self) -> u64 {
        self.clock.last()
    }

    /// A running segment never begins after the clock's latest reading.
    pub open spec fn wf(self) -> bool {
        now_ok(self.model().state, self.clock_ms())
    }

    pub fn new() -> (c: TimerController)
        ensures
            c.model().tasks == empty_entries(),
            c.model().state == StateModel::Idle,
            core_wf(c.model()),
            c.wf(),
    {
        TimerController { core: TimerCore::new(), clock: MonotonicClock::new() }
    }

    /// An executable check of the invariant, for callers outside the
    /// verified world that must test before they trust.
    pub fn is_consistent(&self) -> (b: bool)
        ensures
            b == self.wf(),
    {
        match &self.core.state {
            TimerState::Running { task_id: _, segment_start_ms } => {
                *segment_start_ms <= self.clock.last_reading()
            },
            _ => true,
        }
    }

    /// Stops any running timer first, then installs the caller's record as
    /// the new baseline and starts timing it at the clock's fresh reading.
    pub fn start_timer(&mut self, task_to_start: Task) -> (r: Task)
        requires
            old(self).wf(),
        ensures
            final(self).wf(),
            final(self).clock_ms() >= old(self).clock_ms(),
            final(self).model() == start_spec(
                old(self).model(),
                task_to_start@,
                final(self).clock_ms(),
            ),
            r@ == task_to_start@,
    {
        let now_ms = self.clock.now_ms();
        self.core.start_timer(task_to_start, now_ms)
    }

    /// Flushes the running segment, if any, and goes idle; otherwise a
    /// no-op returning absence.
    pub fn pause_timer(&mut self) -> (r: Option<Task>)
        requires
            old(self).wf(),
        ensures
            final(self).wf(),
            final(self).clock_ms() >= old(self).clock_ms(),
            final(self).model() == stop_spec(old(self).model(), final(self).clock_ms()),
            opt_task_model(r) == stop_result_spec(old(self).model(), final(self).clock_ms()),
    {
        let now_ms = self.clock.now_ms();
        self.core.pause_timer(now_ms)
    }

    /// The selected task and its total at the clock's fresh reading. Reads
    /// the clock, but is still a projection: the registry and timer state
    /// are untouched.
    pub fn get_current_task_time(&mut self) -> (r: Option<(String, u64)>)
        requires
            old(self).wf(),
        ensures
            final(self).wf(),
            final(self).model() == old(self).model(),
            final(self).clock_ms() >= old(self).clock_ms(),
            opt_pair_model(r) == query_spec(old(self).model(), final(self).clock_ms()),
    {
        let now_ms = self.clock.now_ms();
        self.core.get_current_task_time(now_ms)
    }

    /// Allocates a fresh identifier and inserts a zero-duration record.
    pub fn create_task_in_rust_db(&mut self, content: String) -> (r: Task)
        ensures
            final(self).wf() == old(self).wf(),
            final(self).clock_ms() == old(self).clock_ms(),
            r@.time_spent_ms == 0,
            r@.content == content@,
            r@.id.len() == 36,
            final(self).model() == sync_spec(old(self).model(), r@),
    {
        self.core.create_task_in_rust_db(content)
    }

    /// Reconciles an externally edited record into the live registry.
    pub fn sync_task_to_rust_db(&mut self, task: Task)
        ensures
            final(self).wf() == old(self).wf(),
            final(self).clock_ms() == old(self).clock_ms(),
            final(self).model() == sync_spec(old(self).model(), task@),
    {
        self.core.sync_task_to_rust_db(task);
    }

    /// A point-in-time sequence of all records, in no particular order.
    pub fn get_all_tasks_from_rust_db(&self) -> (r: Vec<Task>)
        ensures
            r@.len() == self.model().tasks.dom().len(),
            forall|i: int|
                #![trigger r@[i]]
                0 <= i < r@.len() ==> self.model().tasks.contains_key(r@[i]@.id)
                    && self.model().tasks[r@[i]@.id] == (r@[i]@.content, r@[i]@.time_spent_ms),
            forall|k: Seq<char>|
                #![trigger self.model().tasks.contains_key(k)]
                self.model().tasks.contains_key(k) ==> exists|i: int|
                    0 <= i < r@.len() && #[trigger] r@[i]@.id == k,
            forall|i: int, j: int|
                #![trigger r@[i], r@[j]]
                0 <= i < r@.len() && 0 <= j < r@.len() && i != j ==> r@[i]@.id != r@[j]@.id,
    {
        self.core.get_all_tasks_from_rust_db()
    }
}

} // verus!
