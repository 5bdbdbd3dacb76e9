//! The mathematical model of the timer: the store as a map from identifier
//! to (content, accumulated milliseconds), the three-valued timer state, and
//! the transition functions that every executable operation is specified by.

use vstd::prelude::*;
use crate::task::TaskModel;

verus! {

/// The timer is in exactly one of these states. A non-`Idle` state names the
/// selected task; `Running` also records when its current segment began.
pub enum StateModel {
    Idle,
    Paused { id: Seq<char> },
    Running { id: Seq<char>, start_ms: u64 },
}

/// The whole core at the spec level: the task registry and the timer state.
pub struct CoreModel {
    pub tasks: Map<Seq<char>, (Seq<char>, u64)>,
    pub state: StateModel,
}

/// Millisecond totals saturate at `u64::MAX` instead of wrapping, so an
/// accumulated duration never decreases through an update.
pub open spec fn sat_add64(a: u64, b: u64) -> u64 {
    if a + b > u64::MAX {
        u64::MAX
    } else {
        (a + b) as u64
    }
}

/// Elapsed milliseconds of a segment begun at `start_ms`, read at `now_ms`.
/// A monotonic clock never reads below the start; the spec is still total.
pub open spec fn segment_elapsed(start_ms: u64, now_ms: u64) -> u64 {
    if now_ms >= start_ms {
        (now_ms - start_ms) as u64
    } else {
        0
    }
}

/// A clock reading is admissible when it does not precede the running
/// segment's start. Non-running states constrain nothing.
pub open spec fn now_ok(state: StateModel, now_ms: u64) -> bool {
    match state {
        StateModel::Running { id, start_ms } => now_ms >= start_ms,
        _ => true,
    }
}

/// `id` is the task accruing time right now.
pub open spec fn running_for(c: CoreModel, id: Seq<char>) -> bool {
    match c.state {
        StateModel::Running { id: running_id, start_ms } => running_id == id,
        _ => false,
    }
}

pub open spec fn is_running(c: CoreModel) -> bool {
    c.state is Running
}

/// Well-formedness: the registry is finite and any selected task exists in it.
pub open spec fn core_wf(c: CoreModel) -> bool {
    &&& c.tasks.dom().finite()
    &&& match c.state {
        StateModel::Idle => true,
        StateModel::Paused { id } => c.tasks.contains_key(id),
        StateModel::Running { id, start_ms } => c.tasks.contains_key(id),
    }
}

/// Stopping at `now_ms`: a running segment's elapsed time is flushed into the
/// stored duration and the state becomes `Idle`. If the running identifier has
/// no record (an internal inconsistency), the store is left alone and the
/// state is still reset to `Idle`. In any other state nothing changes.
pub open spec fn stop_spec(c: CoreModel, now_ms: u64) -> CoreModel {
    match c.state {
        StateModel::Running { id, start_ms } => {
            if c.tasks.contains_key(id) {
                let entry = c.tasks[id];
                let total = sat_add64(entry.1, segment_elapsed(start_ms, now_ms));
                CoreModel { tasks: c.tasks.insert(id, (entry.0, total)), state: StateModel::Idle }
            } else {
                CoreModel { tasks: c.tasks, state: StateModel::Idle }
            }
        },
        _ => c,
    }
}

/// What stopping returns: the updated record when a running segment was
/// flushed, absence otherwise.
pub open spec fn stop_result_spec(c: CoreModel, now_ms: u64) -> Option<TaskModel> {
    match c.state {
        StateModel::Running { id, start_ms } => {
            if c.tasks.contains_key(id) {
                Some(
                    TaskModel {
                        id: id,
                        content: c.tasks[id].0,
                        time_spent_ms: sat_add64(c.tasks[id].1, segment_elapsed(start_ms, now_ms)),
                    },
                )
            } else {
                None
            }
        },
        _ => None,
    }
}

/// Starting `t` at `now_ms`: any running segment is stopped first, then `t`'s
/// record is overwritten in full with the caller's values (the caller's
/// duration is the new baseline, not merged), and a new segment begins.
pub open spec fn start_spec(c: CoreModel, t: TaskModel, now_ms: u64) -> CoreModel {
    let stopped = stop_spec(c, now_ms);
    CoreModel {
        tasks: stopped.tasks.insert(t.id, (t.content, t.time_spent_ms)),
        state: StateModel::Running { id: t.id, start_ms: now_ms },
    }
}

/// Querying at `now_ms`: while running, the stored duration plus the live
/// segment; while paused, the stored duration alone; when idle, absence.
/// A missing record for a selected task yields absence.
pub open spec fn query_spec(c: CoreModel, now_ms: u64) -> Option<(Seq<char>, u64)> {
    match c.state {
        StateModel::Running { id, start_ms } => {
            if c.tasks.contains_key(id) {
                Some((id, sat_add64(c.tasks[id].1, segment_elapsed(start_ms, now_ms))))
            } else {
                None
            }
        },
        StateModel::Paused { id } => {
            if c.tasks.contains_key(id) {
                Some((id, c.tasks[id].1))
            } else {
                None
            }
        },
        StateModel::Idle => None,
    }
}

/// Reconciling a record pushed by the persistence layer: an unconditional
/// full overwrite of the store entry; the timer state is untouched.
pub open spec fn sync_spec(c: CoreModel, t: TaskModel) -> CoreModel {
    CoreModel { tasks: c.tasks.insert(t.id, (t.content, t.time_spent_ms)), state: c.state }
}

// ---------------------------------------------------------------------------
// Laws of the state machine.
// ---------------------------------------------------------------------------

/// At any instant at most one task has a running segment.
pub proof fn lemma_single_active_task(c: CoreModel, a: Seq<char>, b: Seq<char>)
    requires
        running_for(c, a),
        running_for(c, b),
    ensures
        a == b,
{
}

/// Switching tasks flushes the previous segment first: starting `t` while
/// `prev` is running adds exactly the elapsed time of `prev`'s open segment
/// to `prev`'s stored duration, and afterwards only `t` is running.
pub proof fn lemma_start_flushes_previous(
    c: CoreModel,
    t: TaskModel,
    prev: Seq<char>,
    start_ms: u64,
    now_ms: u64,
)
    requires
        c.state == (StateModel::Running { id: prev, start_ms }),
        c.tasks.contains_key(prev),
        prev != t.id,
        now_ms >= start_ms,
    ensures
        start_spec(c, t, now_ms).tasks.contains_key(prev),
        start_spec(c, t, now_ms).tasks[prev].1 == sat_add64(
            c.tasks[prev].1,
            (now_ms - start_ms) as u64,
        ),
        running_for(start_spec(c, t, now_ms), t.id),
        forall|other: Seq<char>| running_for(start_spec(c, t, now_ms), other) ==> other == t.id,
{
}

/// Stopping is idempotent: after one stop, a second stop (at any later or
/// earlier reading) changes nothing and returns absence, so a segment is
/// flushed exactly once.
pub proof fn lemma_stop_idempotent(c: CoreModel, n1: u64, n2: u64)
    ensures
        stop_spec(stop_spec(c, n1), n2) == stop_spec(c, n1),
        stop_result_spec(stop_spec(c, n1), n2) == None::<TaskModel>,
{
}

/// Stopping when nothing is running is a no-op that returns absence.
pub proof fn lemma_stop_noop_when_not_running(c: CoreModel, now_ms: u64)
    requires
        !is_running(c),
    ensures
        stop_spec(c, now_ms) == c,
        stop_result_spec(c, now_ms) == None::<TaskModel>,
{
}

/// While the clock only moves forward, the queried total never decreases,
/// and the reported task does not change.
pub proof fn lemma_query_monotone(c: CoreModel, n1: u64, n2: u64)
    requires
        n1 <= n2,
    ensures
        match (query_spec(c, n1), query_spec(c, n2)) {
            (Some(r1), Some(r2)) => r1.0 == r2.0 && r1.1 <= r2.1,
            (None, None) => true,
            _ => false,
        },
{
}

/// Starting and stopping at the same instant is a round trip: the task comes
/// back with exactly the baseline duration it was started with.
pub proof fn lemma_start_then_stop_immediate(c: CoreModel, t: TaskModel, now_ms: u64)
    ensures
        stop_result_spec(start_spec(c, t, now_ms), now_ms) == Some(t),
        stop_spec(start_spec(c, t, now_ms), now_ms).tasks[t.id] == (t.content, t.time_spent_ms),
{
}

/// Syncing a record never disturbs the timer state.
pub proof fn lemma_sync_preserves_state(c: CoreModel, t: TaskModel)
    ensures
        sync_spec(c, t).state == c.state,
{
}

/// A stop after a sync of the running task adds the new elapsed segment on
/// top of the just-synced baseline.
pub proof fn lemma_stop_after_sync(c: CoreModel, t: TaskModel, start_ms: u64, now_ms: u64)
    requires
        c.state == (StateModel::Running { id: t.id, start_ms }),
        now_ms >= start_ms,
    ensures
        stop_spec(sync_spec(c, t), now_ms).tasks.contains_key(t.id),
        stop_spec(sync_spec(c, t), now_ms).tasks[t.id].1 == sat_add64(
            t.time_spent_ms,
            (now_ms - start_ms) as u64,
        ),
{
}

/// Stopping never decreases any stored duration, and touches no record but
/// the running task's. A stored total can only go down through the explicit
/// overwrites — a start's or a sync's caller-supplied baseline.
pub proof fn lemma_stop_never_decreases_durations(c: CoreModel, now_ms: u64, k: Seq<char>)
    requires
        c.tasks.contains_key(k),
    ensures
        stop_spec(c, now_ms).tasks.contains_key(k),
        stop_spec(c, now_ms).tasks[k].1 >= c.tasks[k].1,
        !running_for(c, k) ==> stop_spec(c, now_ms).tasks[k] == c.tasks[k],
{
}

/// Every transition preserves well-formedness.
pub proof fn lemma_transitions_preserve_wf(c: CoreModel, t: TaskModel, now_ms: u64)
    requires
        core_wf(c),
    ensures
        core_wf(stop_spec(c, now_ms)),
        core_wf(start_spec(c, t, now_ms)),
        core_wf(sync_spec(c, t)),
{
}

} // verus!
