//! An example domain schema satisfying the [`Record`] contract: a task with
//! a caller-supplied title and completion flag, a generated vote counter,
//! and a schema-specific primary-key wrapper.

use vstd::prelude::*;

use crate::Record;
use crate::field::Field;
use crate::field::FieldAccess;

verus! {

/// The primary key of a [`Task`]: an opaque wrapper around the raw counter
/// value its table issued.
#[derive(Clone, Copy, PartialEq, Eq, Hash, Debug)]
pub struct TaskId(pub usize);

/// A stored task record.
#[derive(PartialEq, Debug)]
pub struct Task {
    pub id: TaskId,
    pub title: String,
    pub completed: bool,
    pub votes: usize,
}

/// The caller-supplied part of a task: everything but the generated fields
/// (the primary key and the vote counter).
#[derive(PartialEq, Debug)]
pub struct InsertTask {
    pub title: String,
    pub completed: bool,
}

impl FieldAccess<0> for Task {
    type FieldType = bool;

    open spec fn spec_get(self) -> bool {
        self.completed
    }

    open spec fn spec_set(self, v: bool) -> Self {
        Task { completed: v, ..self }
    }

    proof fn lemma_set_get(self, v: bool) {
    }

    fn get(&self) -> (r: &bool) {
        &self.completed
    }

    fn get_mut(&mut self) -> (r: &mut bool) {
        &mut self.completed
    }

    fn set(&mut self, field_value: bool) {
        self.completed = field_value;
    }
}

impl FieldAccess<1> for Task {
    type FieldType = usize;

    open spec fn spec_get(self) -> usize {
        self.votes
    }

    open spec fn spec_set(self, v: usize) -> Self {
        Task { votes: v, ..self }
    }

    proof fn lemma_set_get(self, v: usize) {
    }

    fn get(&self) -> (r: &usize) {
        &self.votes
    }

    fn get_mut(&mut self) -> (r: &mut usize) {
        &mut self.votes
    }

    fn set(&mut self, field_value: usize) {
        self.votes = field_value;
    }
}

/// The bundle of one capability per accessible field of [`Task`].
/// `ARG_INDEX` names the context slot every capability of the bundle binds.
pub struct TaskFields<const ARG_INDEX: usize> {
    pub completed: Field<Task, 0, ARG_INDEX>,
    pub votes: Field<Task, 1, ARG_INDEX>,
}

impl<const ARG_INDEX: usize> TaskFields<ARG_INDEX> {
    /// The one value of the bundle: capabilities carry no data.
    pub open spec fn spec_default() -> Self {
        TaskFields { completed: Field::spec_token(), votes: Field::spec_token() }
    }
}

impl<const ARG_INDEX: usize> Default for TaskFields<ARG_INDEX> {
    fn default() -> (r: Self)
        ensures
            r == TaskFields::<ARG_INDEX>::spec_default(),
    {
        TaskFields { completed: Field::default(), votes: Field::default() }
    }
}

/// Law: writing one field of a [`Task`] record leaves the value of every
/// other field — the primary key among them — unchanged.
pub proof fn lemma_task_set_preserves_other_fields(t: Task, completed: bool, votes: usize)
    ensures
        <Task as FieldAccess<1>>::spec_get(<Task as FieldAccess<0>>::spec_set(t, completed))
            == <Task as FieldAccess<1>>::spec_get(t),
        <Task as FieldAccess<0>>::spec_set(t, completed).id == t.id,
        <Task as FieldAccess<0>>::spec_set(t, completed).title == t.title,
        <Task as FieldAccess<0>>::spec_get(<Task as FieldAccess<1>>::spec_set(t, votes))
            == <Task as FieldAccess<0>>::spec_get(t),
        <Task as FieldAccess<1>>::spec_set(t, votes).id == t.id,
        <Task as FieldAccess<1>>::spec_set(t, votes).title == t.title,
{
}

impl Record for Task {
    type PrimaryKey = TaskId;

    type Fields = TaskFields<0>;

    type Insert = InsertTask;

    open spec fn spec_primary_key(key: usize) -> TaskId {
        TaskId(key)
    }

    open spec fn spec_from_insert(record: InsertTask, primary_key: TaskId) -> Task {
        Task { id: primary_key, title: record.title, completed: record.completed, votes: 0 }
    }

    open spec fn spec_key(self) -> TaskId {
        self.id
    }

    proof fn lemma_from_insert_key(record: InsertTask, primary_key: TaskId) {
    }

    fn create_primary_key(key: usize) -> (pk: TaskId) {
        TaskId(key)
    }

    fn from_insert(record: InsertTask, primary_key: TaskId) -> (r: Task) {
        Task { id: primary_key, title: record.title, completed: record.completed, votes: 0 }
    }

    fn fields() -> (f: TaskFields<0>) {
        TaskFields::default()
    }
}

} // verus!
