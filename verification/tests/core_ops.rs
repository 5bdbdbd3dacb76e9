//! Scenario tests for the timer core, driven with an explicit simulated
//! clock so elapsed times are exact.

use taskt_core::task::Task;
use taskt_core::timer::TimerCore;

fn task(id: &str, content: &str, ms: u64) -> Task {
    Task { id: id.to_owned(), content: content.to_owned(), time_spent_ms: ms }
}

#[test]
fn create_then_start_wait_pause() {
    let mut core = TimerCore::new();
    let created = core.create_task_in_rust_db("write spec".to_owned());
    assert_eq!(created.content, "write spec");
    assert_eq!(created.time_spent_ms, 0);
    assert_eq!(created.id.len(), 36);

    let started = core.start_timer(created.clone(), 0);
    assert_eq!(started, created);

    let q = core.get_current_task_time(500).expect("a task is running");
    assert_eq!(q.0, created.id);
    assert_eq!(q.1, 500);

    let paused = core.pause_timer(500).expect("pause flushes the running task");
    assert_eq!(paused.id, created.id);
    assert_eq!(paused.time_spent_ms, 500);

    assert!(core.get_current_task_time(600).is_none());
}

#[test]
fn switch_running_task_flushes_previous() {
    let mut core = TimerCore::new();
    let b = task("task-b", "already running", 1000);
    core.start_timer(b, 0);

    let a = task("task-a", "takes over", 42);
    core.start_timer(a, 300);

    // B's open 300 ms segment was flushed onto its 1000 ms baseline.
    let all = core.get_all_tasks_from_rust_db();
    let stored_b = all.iter().find(|t| t.id == "task-b").expect("b is still stored");
    assert_eq!(stored_b.time_spent_ms, 1300);

    // Only A is running now, with its own baseline.
    let q = core.get_current_task_time(300).expect("a is running");
    assert_eq!(q.0, "task-a");
    assert_eq!(q.1, 42);
}

#[test]
fn sync_during_running_rebases_the_baseline() {
    let mut core = TimerCore::new();
    let y = task("task-y", "tracked", 5);
    core.start_timer(y, 0);

    // An external edit lands while the task is running: the timer state is
    // untouched, but the stored baseline is replaced.
    core.sync_task_to_rust_db(task("task-y", "tracked", 9999));
    let q = core.get_current_task_time(200).expect("y is still running");
    assert_eq!(q.0, "task-y");
    assert_eq!(q.1, 9999 + 200);

    let paused = core.pause_timer(500).expect("y was running");
    assert_eq!(paused.time_spent_ms, 9999 + 500);
}

#[test]
fn start_then_immediate_pause_keeps_baseline() {
    let mut core = TimerCore::new();
    core.start_timer(task("task-r", "round trip", 123), 5);
    let paused = core.pause_timer(5).expect("the task was running");
    assert_eq!(paused.time_spent_ms, 123);
}

#[test]
fn pause_is_idempotent() {
    let mut core = TimerCore::new();
    assert!(core.pause_timer(0).is_none());

    core.start_timer(task("task-p", "paused twice", 10), 100);
    let first = core.pause_timer(350).expect("first pause flushes");
    assert_eq!(first.time_spent_ms, 260);

    // The second pause returns absence and does not double-count.
    assert!(core.pause_timer(900).is_none());
    let all = core.get_all_tasks_from_rust_db();
    assert_eq!(all.len(), 1);
    assert_eq!(all[0].time_spent_ms, 260);
}

#[test]
fn query_is_monotone_while_running() {
    let mut core = TimerCore::new();
    core.start_timer(task("task-m", "watched", 7), 50);
    let q1 = core.get_current_task_time(150).expect("running");
    let q2 = core.get_current_task_time(151).expect("running");
    let q3 = core.get_current_task_time(500).expect("running");
    assert!(q1.1 <= q2.1);
    assert!(q2.1 <= q3.1);
    assert_eq!(q1.1, 107);
    assert_eq!(q3.1, 457);
}

#[test]
fn at_most_one_task_runs() {
    let mut core = TimerCore::new();
    core.start_timer(task("one", "first", 0), 0);
    core.start_timer(task("two", "second", 0), 10);
    let q = core.get_current_task_time(10).expect("something is running");
    assert_eq!(q.0, "two");
}

#[test]
fn create_allocates_distinct_ids() {
    let mut core = TimerCore::new();
    let a = core.create_task_in_rust_db("one".to_owned());
    let b = core.create_task_in_rust_db("two".to_owned());
    assert_eq!(a.id.len(), 36);
    assert_eq!(b.id.len(), 36);
    assert_ne!(a.id, b.id);
    assert_eq!(core.get_all_tasks_from_rust_db().len(), 2);
}
