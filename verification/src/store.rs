//! The task registry: a concurrent map from task identifier to record,
//! held in a `dashmap::DashMap` so that readers and writers of distinct
//! keys do not block one another. The map itself is outside code; its
//! contents are named by `dash_entries` and every method the store uses
//! is reached through a trusted wrapper whose contract speaks over that
//! name. Everything above the wrappers is verified.

use vstd::prelude::*;
use crate::model::sat_add64;
use crate::task::{StoreError, Task, TaskModel};

verus! {

#[verifier::external_type_specification]
#[verifier::external_body]
#[verifier::reject_recursive_types(K)]
#[verifier::reject_recursive_types(V)]
#[verifier::reject_recursive_types(S)]
pub struct ExDashMap<K, V, S = std::collections::hash_map::RandomState>(
    dashmap::DashMap<K, V, S>,
);

/// The concrete map type the registry is held in: identifier to
/// (content, accumulated milliseconds).
pub type TaskMap = dashmap::DashMap<String, (String, u64)>;

/// What the map holds: each present identifier mapped to the record's
/// (content, accumulated milliseconds).
pub uninterp spec fn dash_entries(m: TaskMap) -> Map<Seq<char>, (Seq<char>, u64)>;

/// The abstract value of a registry with no entries.
pub open spec fn empty_entries() -> Map<Seq<char>, (Seq<char>, u64)> {
    Map::empty()
}

/// Relies on `dashmap::DashMap::new`: a freshly created map holds no entries.
#[verifier::external_body]
fn dash_new() -> (m: TaskMap)
    ensures
        dash_entries(m) == empty_entries(),
{
    dashmap::DashMap::new()
}

/// Relies on `dashmap::DashMap::insert`: afterwards the key maps to the given
/// value, replacing any previous entry in full; no other key is touched.
#[verifier::external_body]
fn dash_insert(m: &mut TaskMap, id: String, content: String, ms: u64)
    ensures
        dash_entries(*final(m)) == dash_entries(*old(m)).insert(id@, (content@, ms)),
{
    m.insert(id, (content, ms));
}

/// Relies on `dashmap::DashMap::get`: returns the key's entry exactly when
/// the key is present; the wrapper copies the entry out of the guard.
#[verifier::external_body]
fn dash_get(m: &TaskMap, id: &String) -> (r: Option<(String, u64)>)
    ensures
        match r {
            Some(v) => dash_entries(*m).contains_key(id@) && dash_entries(*m)[id@] == (v.0@, v.1),
            None => !dash_entries(*m).contains_key(id@),
        },
{
    m.get(id).map(|entry| entry.value().clone())
}

/// Relies on `dashmap::DashMap::iter`: the iterator yields every entry of the
/// map exactly once, in no particular order. The wrapper copies each entry
/// out as (identifier, content, milliseconds).
#[verifier::external_body]
fn dash_list(m: &TaskMap) -> (r: Vec<(String, String, u64)>)
    ensures
        r@.len() == dash_entries(*m).dom().len(),
        forall|i: int|
            #![trigger r@[i]]
            0 <= i < r@.len() ==> dash_entries(*m).contains_key(r@[i].0@)
                && dash_entries(*m)[r@[i].0@] == (r@[i].1@, r@[i].2),
        forall|k: Seq<char>|
            #![trigger dash_entries(*m).contains_key(k)]
            dash_entries(*m).contains_key(k) ==> exists|i: int|
                0 <= i < r@.len() && #[trigger] r@[i].0@ == k,
        forall|i: int, j: int|
            #![trigger r@[i], r@[j]]
            0 <= i < r@.len() && 0 <= j < r@.len() && i != j ==> r@[i].0@ != r@[j].0@,
{
    m.iter().map(|entry| (entry.key().clone(), entry.value().0.clone(), entry.value().1)).collect()
}

/// The authoritative in-process registry of tasks. Its abstract value is a
/// map from identifier to (content, accumulated milliseconds).
pub struct TaskStore {
    map: TaskMap,
}

impl View for TaskStore {
    type V = Map<Seq<char>, (Seq<char>, u64)>;

    closed spec fn view(&self) -> Map<Seq<char>, (Seq<char>, u64)> {
        dash_entries(self.map)
    }
}

impl TaskStore {
    pub fn new() -> (s: TaskStore)
        ensures
            s@ == empty_entries(),
    {
        TaskStore { map: dash_new() }
    }

    /// Inserts a new record or overwrites the existing record for that
    /// identifier in full; never fails, idempotent.
    pub fn insert_or_replace(&mut self, task: Task)
        ensures
            final(self)@ == old(self)@.insert(task.id@, (task.content@, task.time_spent_ms)),
    {
        dash_insert(&mut self.map, task.id, task.content, task.time_spent_ms);
    }

    /// A snapshot copy of the record for `id`, or absence if unknown.
    pub fn get(&self, id: &String) -> (r: Option<Task>)
        ensures
            match r {
                Some(t) => self@.contains_key(id@) && t@ == (TaskModel {
                    id: id@,
                    content: self@[id@].0,
                    time_spent_ms: self@[id@].1,
                }),
                None => !self@.contains_key(id@),
            },
    {
        match dash_get(&self.map, id) {
            Some(entry) => Some(
                Task { id: id.clone(), content: entry.0, time_spent_ms: entry.1 },
            ),
            None => None,
        }
    }

    /// Adds `delta_ms` (saturating at `u64::MAX`) to the stored duration for
    /// `id` and returns the post-update record; fails with `UnknownTask`, and
    /// changes nothing, exactly when `id` has no record.
    pub fn update_duration(&mut self, id: &String, delta_ms: u64) -> (r: Result<Task, StoreError>)
        ensures
            final(self)@ == (if old(self)@.contains_key(id@) {
                old(self)@.insert(
                    id@,
                    (old(self)@[id@].0, sat_add64(old(self)@[id@].1, delta_ms)),
                )
            } else {
                old(self)@
            }),
            match r {
                Ok(t) => old(self)@.contains_key(id@) && t@ == (TaskModel {
                    id: id@,
                    content: old(self)@[id@].0,
                    time_spent_ms: sat_add64(old(self)@[id@].1, delta_ms),
                }),
                Err(e) => !old(self)@.contains_key(id@) && e == StoreError::UnknownTask,
            },
    {
        match dash_get(&self.map, id) {
            Some(entry) => {
                let new_ms = entry.1.saturating_add(delta_ms);
                let content = entry.0;
                dash_insert(&mut self.map, id.clone(), content.clone(), new_ms);
                Ok(Task { id: id.clone(), content, time_spent_ms: new_ms })
            },
            None => Err(StoreError::UnknownTask),
        }
    }

    /// A point-in-time sequence of all records, in no particular order: one
    /// element per stored identifier, each a faithful copy of its entry.
    pub fn list_all(&self) -> (r: Vec<Task>)
        ensures
            r@.len() == self@.dom().len(),
            forall|i: int|
                #![trigger r@[i]]
                0 <= i < r@.len() ==> self@.contains_key(r@[i]@.id)
                    && self@[r@[i]@.id] == (r@[i]@.content, r@[i]@.time_spent_ms),
            forall|k: Seq<char>|
                #![trigger self@.contains_key(k)]
                self@.contains_key(k) ==> exists|i: int|
                    0 <= i < r@.len() && #[trigger] r@[i]@.id == k,
            forall|i: int, j: int|
                #![trigger r@[i], r@[j]]
                0 <= i < r@.len() && 0 <= j < r@.len() && i != j ==> r@[i]@.id != r@[j]@.id,
    {
        let entries = dash_list(&self.map);
        let mut out: Vec<Task> = Vec::new();
        let mut i: usize = 0;
        while i < entries.len()
            invariant
                i <= entries@.len(),
                out@.len() == i,
                forall|j: int|
                    #![trigger out@[j]]
                    0 <= j < i ==> out@[j]@.id == entries@[j].0@
                        && out@[j]@.content == entries@[j].1@
                        && out@[j]@.time_spent_ms == entries@[j].2,
            decreases entries@.len() - i,
        {
            let entry = &entries[i];
            let t = Task { id: entry.0.clone(), content: entry.1.clone(), time_spent_ms: entry.2 };
            out.push(t);
            i += 1;
        }
        proof {
            assert forall|idx: int|
                0 <= idx < out@.len() implies self@.contains_key(#[trigger] out@[idx]@.id)
                && self@[out@[idx]@.id] == (out@[idx]@.content, out@[idx]@.time_spent_ms) by {
                assert(dash_entries(self.map).contains_key(entries@[idx].0@));
            }
            assert forall|k: Seq<char>|
                #[trigger] self@.contains_key(k) implies exists|idx: int|
                0 <= idx < out@.len() && #[trigger] out@[idx]@.id == k by {
                let w = choose|idx: int| 0 <= idx < entries@.len() && #[trigger] entries@[idx].0@ == k;
                assert(out@[w]@.id == k);
            }
        }
        out
    }
}

} // verus!
