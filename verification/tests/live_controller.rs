//! Smoke tests of the controller against the real monotonic clock. Elapsed
//! times are nondeterministic here, so the assertions are bounds, not exact
//! values; the exact behaviour is covered by the simulated-clock tests.

use std::time::Instant;
use taskt_core::controller::TimerController;
use taskt_core::task::Task;

#[test]
fn whole_lifecycle_with_the_real_clock() {
    let mut timer = TimerController::new();
    assert!(timer.is_consistent());
    assert!(timer.get_current_task_time().is_none());
    assert!(timer.pause_timer().is_none());

    let created = timer.create_task_in_rust_db("live task".to_owned());
    assert_eq!(created.time_spent_ms, 0);
    assert_eq!(created.id.len(), 36);

    let started = timer.start_timer(Task {
        id: created.id.clone(),
        content: created.content.clone(),
        time_spent_ms: 250,
    });
    assert_eq!(started.time_spent_ms, 250);
    assert!(timer.is_consistent());

    let wait_from = Instant::now();
    while wait_from.elapsed().as_millis() < 31 {}
    let q = timer.get_current_task_time().expect("running");
    assert_eq!(q.0, created.id);
    assert!(q.1 >= 250 + 30);

    let paused = timer.pause_timer().expect("running");
    assert!(paused.time_spent_ms >= 250 + 30);
    assert!(timer.get_current_task_time().is_none());
    assert!(timer.is_consistent());

    let all = timer.get_all_tasks_from_rust_db();
    assert_eq!(all.len(), 1);
    assert_eq!(all[0].id, created.id);
}

#[test]
fn sync_overwrites_without_touching_the_timer() {
    let mut timer = TimerController::new();
    let t = timer.create_task_in_rust_db("edited outside".to_owned());
    timer.start_timer(t.clone());
    timer.sync_task_to_rust_db(Task {
        id: t.id.clone(),
        content: "renamed outside".to_owned(),
        time_spent_ms: 9999,
    });
    let q = timer.get_current_task_time().expect("still running");
    assert_eq!(q.0, t.id);
    assert!(q.1 >= 9999);
    let paused = timer.pause_timer().expect("still running");
    assert_eq!(paused.content, "renamed outside");
    assert!(paused.time_spent_ms >= 9999);
}
