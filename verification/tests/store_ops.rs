//! Tests of the task registry on its own: snapshots, overwrites, duration
//! updates and the one internal failure.

use taskt_core::task::{StoreError, Task};
use taskt_core::store::TaskStore;

fn task(id: &str, content: &str, ms: u64) -> Task {
    Task { id: id.to_owned(), content: content.to_owned(), time_spent_ms: ms }
}

#[test]
fn get_returns_what_was_inserted() {
    let mut store = TaskStore::new();
    assert!(store.get(&"missing".to_owned()).is_none());

    store.insert_or_replace(task("k1", "first form", 11));
    let got = store.get(&"k1".to_owned()).expect("k1 is present");
    assert_eq!(got, task("k1", "first form", 11));
}

#[test]
fn insert_is_a_full_overwrite() {
    let mut store = TaskStore::new();
    store.insert_or_replace(task("k1", "old words", 500));
    store.insert_or_replace(task("k1", "new words", 3));
    let got = store.get(&"k1".to_owned()).expect("k1 is present");
    assert_eq!(got.content, "new words");
    assert_eq!(got.time_spent_ms, 3);
}

#[test]
fn update_duration_adds_and_returns_the_record() {
    let mut store = TaskStore::new();
    store.insert_or_replace(task("k2", "added to", 40));
    let updated = store.update_duration(&"k2".to_owned(), 2).expect("k2 is present");
    assert_eq!(updated.time_spent_ms, 42);
    assert_eq!(store.get(&"k2".to_owned()).unwrap().time_spent_ms, 42);
}

#[test]
fn update_duration_of_missing_id_fails() {
    let mut store = TaskStore::new();
    store.insert_or_replace(task("k3", "bystander", 1));
    let err = store.update_duration(&"absent".to_owned(), 5).unwrap_err();
    assert_eq!(err, StoreError::UnknownTask);
    // Nothing changed.
    assert_eq!(store.get(&"k3".to_owned()).unwrap().time_spent_ms, 1);
    assert_eq!(store.list_all().len(), 1);
}

#[test]
fn update_duration_saturates_at_the_top() {
    let mut store = TaskStore::new();
    store.insert_or_replace(task("k4", "almost full", u64::MAX - 10));
    let updated = store.update_duration(&"k4".to_owned(), 100).expect("k4 is present");
    assert_eq!(updated.time_spent_ms, u64::MAX);
}

#[test]
fn list_all_snapshots_every_record_once() {
    let mut store = TaskStore::new();
    assert!(store.list_all().is_empty());
    store.insert_or_replace(task("k5", "one", 1));
    store.insert_or_replace(task("k6", "two", 2));
    let mut all = store.list_all();
    all.sort_by(|a, b| a.id.cmp(&b.id));
    assert_eq!(all.len(), 2);
    assert_eq!(all[0], task("k5", "one", 1));
    assert_eq!(all[1], task("k6", "two", 2));
}
