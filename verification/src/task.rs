use vstd::prelude::*;

verus! {

/// A trackable unit of work: an opaque identifier, free-form display text,
/// and the total milliseconds accumulated over all closed timing segments.
#[derive(Clone, Debug, PartialEq)]
pub struct Task {
    pub id: String,
    pub content: String,
    pub time_spent_ms: u64,
}

/// The mathematical image of a `Task`: both strings as character sequences.
pub struct TaskModel {
    pub id: Seq<char>,
    pub content: Seq<char>,
    pub time_spent_ms: u64,
}

impl View for Task {
    type V = TaskModel;

    open spec fn view(&self) -> TaskModel {
        TaskModel { id: self.id@, content: self.content@, time_spent_ms: self.time_spent_ms }
    }
}

/// The one internal-consistency failure of the store: a duration update was
/// asked for an identifier that has no record.
#[derive(Clone, Copy, Debug, PartialEq, Eq, Structural)]
pub enum StoreError {
    UnknownTask,
}

} // verus!
