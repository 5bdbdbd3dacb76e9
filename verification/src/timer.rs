//! The single-active-timer state machine over the task registry. Every
//! operation takes the current reading of a monotonic millisecond clock as
//! an argument and is specified, exactly, by the transition functions of
//! `crate::model`.

use vstd::prelude::*;
use crate::idgen::fresh_uuid_string;
use crate::model::{
    core_wf, now_ok, query_spec, start_spec, stop_result_spec, stop_spec, sync_spec, CoreModel,
    StateModel,
};
use crate::store::{empty_entries, TaskStore};
use crate::task::{Task, TaskModel};

verus! {

/// Which task, if any, the timer is attached to. At most one task can be
/// running because there is exactly one of these values per core.
///
/// `Paused` keeps a task selected without accruing time. Stopping never
/// produces it — a stop always goes to `Idle`, so a pause does not keep the
/// selection — but a core constructed in `Paused` gets the documented
/// meaning throughout: a query reports the stored duration with no live
/// contribution, a stop is a no-op, and a start replaces the selection
/// without flushing it.
pub enum TimerState {
    Idle,
    Paused { task_id: String },
    Running { task_id: String, segment_start_ms: u64 },
}

impl View for TimerState {
    type V = StateModel;

    open spec fn view(&self) -> StateModel {
        match self {
            TimerState::Idle => StateModel::Idle,
            TimerState::Paused { task_id } => StateModel::Paused { id: task_id@ },
            TimerState::Running { task_id, segment_start_ms } => StateModel::Running {
                id: task_id@,
                start_ms: *segment_start_ms,
            },
        }
    }
}

/// The task registry and the timer state, mutated together: the whole core
/// of the application, minus the clock.
pub struct TimerCore {
    pub store: TaskStore,
    pub state: TimerState,
}

impl View for TimerCore {
    type V = CoreModel;

    open spec fn view(&self) -> CoreModel {
        CoreModel { tasks: self.store@, state: self.state@ }
    }
}

pub open spec fn opt_task_model(r: Option<Task>) -> Option<TaskModel> {
    match r {
        Some(t) => Some(t@),
        None => None,
    }
}

pub open spec fn opt_pair_model(r: Option<(String, u64)>) -> Option<(Seq<char>, u64)> {
    match r {
        Some(p) => Some((p.0@, p.1)),
        None => None,
    }
}

impl TimerCore {
    pub fn new() -> (c: TimerCore)
        ensures
            c@.tasks == empty_entries(),
            c@.state == StateModel::Idle,
            core_wf(c@),
    {
        let c = TimerCore { store: TaskStore::new(), state: TimerState::Idle };
        proof {
            assert(c@.tasks.dom() =~= Set::<Seq<char>>::empty());
        }
        c
    }

    /// Closes out a running segment: flushes its elapsed time into the
    /// stored duration, resets the state to `Idle`, and returns the updated
    /// record. When nothing is running this is a no-op returning absence.
    /// When the running identifier has no record — an internal inconsistency
    /// that correct use cannot reach — the state is still reset and absence
    /// is returned rather than crashing.
    pub fn stop_timer_internal(&mut self, now_ms: u64) -> (r: Option<Task>)
        requires
            now_ok(old(self)@.state, now_ms),
        ensures
            final(self)@ == stop_spec(old(self)@, now_ms),
            opt_task_model(r) == stop_result_spec(old(self)@, now_ms),
    {
        let active: Option<(String, u64)> = match &self.state {
            TimerState::Running { task_id, segment_start_ms } => Some(
                (task_id.clone(), *segment_start_ms),
            ),
            _ => None,
        };
        match active {
            Some((task_id, segment_start_ms)) => {
                let elapsed_ms: u64 = now_ms - segment_start_ms;
                self.state = TimerState::Idle;
                match self.store.update_duration(&task_id, elapsed_ms) {
                    Ok(task) => Some(task),
                    Err(_) => None,
                }
            },
            None => None,
        }
    }

    /// Stops any running timer first, closing out its segment, then
    /// overwrites the task's record in full with the caller's values — the
    /// supplied duration is the new baseline, not merged — and starts a new
    /// running segment for it at `now_ms`. Returns the task as stored.
    ///
    /// The caller's duration is taken as ground truth even when it is lower
    /// than the stored one, so the timer stays consistent with persistence
    /// that may have been edited out-of-band; keeping stale caller values
    /// away is the caller's concern.
    pub fn start_timer(&mut self, task_to_start: Task, now_ms: u64) -> (r: Task)
        requires
            now_ok(old(self)@.state, now_ms),
        ensures
            final(self)@ == start_spec(old(self)@, task_to_start@, now_ms),
            r@ == task_to_start@,
    {
        let _ = self.stop_timer_internal(now_ms);
        self.store.insert_or_replace(
            Task {
                id: task_to_start.id.clone(),
                content: task_to_start.content.clone(),
                time_spent_ms: task_to_start.time_spent_ms,
            },
        );
        self.state = TimerState::Running {
            task_id: task_to_start.id.clone(),
            segment_start_ms: now_ms,
        };
        task_to_start
    }

    /// Stops the running timer, if any; pausing twice is safe and the second
    /// call returns absence without touching anything.
    pub fn pause_timer(&mut self, now_ms: u64) -> (r: Option<Task>)
        requires
            now_ok(old(self)@.state, now_ms),
        ensures
            final(self)@ == stop_spec(old(self)@, now_ms),
            opt_task_model(r) == stop_result_spec(old(self)@, now_ms),
    {
        self.stop_timer_internal(now_ms)
    }

    /// A pure projection: while running, the stored duration plus the live
    /// elapsed time of the current segment; while paused, the stored
    /// duration; when idle, absence. Never writes to the store.
    pub fn get_current_task_time(&self, now_ms: u64) -> (r: Option<(String, u64)>)
        requires
            now_ok(self@.state, now_ms),
        ensures
            opt_pair_model(r) == query_spec(self@, now_ms),
    {
        match &self.state {
            TimerState::Running { task_id, segment_start_ms } => {
                match self.store.get(task_id) {
                    Some(task) => {
                        let elapsed_ms: u64 = now_ms - *segment_start_ms;
                        Some((task.id, task.time_spent_ms.saturating_add(elapsed_ms)))
                    },
                    None => None,
                }
            },
            TimerState::Paused { task_id } => {
                match self.store.get(task_id) {
                    Some(task) => Some((task.id, task.time_spent_ms)),
                    None => None,
                }
            },
            TimerState::Idle => None,
        }
    }

    /// Allocates a fresh identifier, inserts a record with zero duration,
    /// and returns it. The timer state is untouched.
    pub fn create_task_in_rust_db(&mut self, content: String) -> (r: Task)
        ensures
            r@.time_spent_ms == 0,
            r@.content == content@,
            r@.id.len() == 36,
            final(self)@ == sync_spec(old(self)@, r@),
    {
        let id = fresh_uuid_string();
        self.store.insert_or_replace(
            Task { id: id.clone(), content: content.clone(), time_spent_ms: 0 },
        );
        Task { id, content, time_spent_ms: 0 }
    }

    /// Unconditional overwrite of the record for `task.id` with the
    /// caller-supplied record, reconciling an external edit into the live
    /// cache. Never touches the timer state.
    pub fn sync_task_to_rust_db(&mut self, task: Task)
        ensures
            final(self)@ == sync_spec(old(self)@, task@),
    {
        self.store.insert_or_replace(task);
    }

    /// A point-in-time sequence of all records, in no particular order.
    pub fn get_all_tasks_from_rust_db(&self) -> (r: Vec<Task>)
        ensures
            r@.len() == self@.tasks.dom().len(),
            forall|i: int|
                #![trigger r@[i]]
                0 <= i < r@.len() ==> self@.tasks.contains_key(r@[i]@.id)
                    && self@.tasks[r@[i]@.id] == (r@[i]@.content, r@[i]@.time_spent_ms),
            forall|k: Seq<char>|
                #![trigger self@.tasks.contains_key(k)]
                self@.tasks.contains_key(k) ==> exists|i: int|
                    0 <= i < r@.len() && #[trigger] r@[i]@.id == k,
            forall|i: int, j: int|
                #![trigger r@[i], r@[j]]
                0 <= i < r@.len() && 0 <= j < r@.len() && i != j ==> r@[i]@.id != r@[j]@.id,
    {
        self.store.list_all()
    }
}

} // verus!
