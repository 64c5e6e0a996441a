use vstd::prelude::*;

use crate::models::{CreateTodo, Label, Todo, UpdateTodo};
use crate::label_repository::{delete_label_result, delete_label_store, label_name_position};
use crate::todo_repository::{
    delete_todo_result, delete_todo_store, find_todo_result, update_todo_result,
    update_todo_store,
};

verus! {

/// Failures that a repository reports.
#[derive(Debug, PartialEq, Eq)]
pub enum RepositoryError {
    /// Anything outside the repository contract, such as a lost connection.
    Unexpected(String),
    /// No record has this id.
    NotFound(i32),
    /// A record with the same unique key already exists; it has this id.
    Duplicate(i32),
}


/// The capability set of a todo store. Handlers are written against it
/// alone, so any store that keeps these contracts can serve them.
pub trait TodoRepository {
    /// The store's own consistency condition.
    spec fn repository_inv(&self) -> bool;

    /// The stored todos, in ascending id order.
    spec fn todos(&self) -> Seq<Todo>;

    /// The id that the next `create` issues, where `can_create` holds.
    spec fn next_id(&self) -> i32;

    /// Whether an id is left for another `create`.
    spec fn can_create(&self) -> bool;

    /// Stores a new, not completed todo with the payload's text under
    /// `next_id` and returns it; with no id left it fails with `Unexpected`
    /// and stores nothing.
    fn create(&mut self, payload: CreateTodo) -> (r: Result<Todo, RepositoryError>)
        requires
            old(self).repository_inv(),
        ensures
            final(self).repository_inv(),
            old(self).can_create() ==> {
                let t = Todo { id: old(self).next_id(), text: payload.text, completed: false };
                &&& r == Ok::<Todo, RepositoryError>(t)
                &&& final(self).todos() == old(self).todos().push(t)
            },
            !old(self).can_create() ==> {
                &&& r is Err
                &&& r->Err_0 is Unexpected
                &&& final(self).todos() == old(self).todos()
            },
    ;

    /// The todo with id `id`; `NotFound(id)` where there is none.
    fn find(&self, id: i32) -> (r: Result<Todo, RepositoryError>)
        requires
            self.repository_inv(),
        ensures
            r == find_todo_result(self.todos(), id),
    ;

    /// Every todo, in ascending id order.
    fn all(&self) -> (r: Result<Vec<Todo>, RepositoryError>)
        requires
            self.repository_inv(),
        ensures
            r matches Ok(v) && v@ == self.todos(),
    ;

    /// Replaces text and completion of the todo with id `id`; `NotFound(id)`
    /// where there is none.
    fn update(&mut self, id: i32, payload: UpdateTodo) -> (r: Result<Todo, RepositoryError>)
        requires
            old(self).repository_inv(),
        ensures
            final(self).repository_inv(),
            r == update_todo_result(old(self).todos(), id, payload),
            final(self).todos() == update_todo_store(old(self).todos(), id, payload),
    ;

    /// Removes the todo with id `id`; `NotFound(id)` where there is none.
    fn delete(&mut self, id: i32) -> (r: Result<(), RepositoryError>)
        requires
            old(self).repository_inv(),
        ensures
            final(self).repository_inv(),
            r == delete_todo_result(old(self).todos(), id),
            final(self).todos() == delete_todo_store(old(self).todos(), id),
    ;
}

/// The capability set of a label store.
pub trait LabelRepository {
    /// The store's own consistency condition.
    spec fn repository_inv(&self) -> bool;

    /// The stored labels, in ascending id order.
    spec fn labels(&self) -> Seq<Label>;

    /// The id that the next new label gets, where `can_create` holds.
    spec fn next_id(&self) -> i32;

    /// Whether an id is left for another new label.
    spec fn can_create(&self) -> bool;

    /// Where no label is named `name`, stores a new one under `next_id` and
    /// returns it (`Unexpected` with no id left). Where one is, stores
    /// nothing and either returns it or fails with `Duplicate` of its id, as
    /// the store chooses.
    fn create(&mut self, name: String) -> (r: Result<Label, RepositoryError>)
        requires
            old(self).repository_inv(),
        ensures
            final(self).repository_inv(),
            ({
                let s = old(self).labels();
                let p = label_name_position(s, name@);
                &&& p >= 0 ==> final(self).labels() == s && (r == Ok::<Label, RepositoryError>(s[p])
                    || r == Err::<Label, RepositoryError>(RepositoryError::Duplicate(s[p].id)))
                &&& p < 0 && old(self).can_create() ==> {
                    let l = Label { id: old(self).next_id(), name };
                    &&& r == Ok::<Label, RepositoryError>(l)
                    &&& final(self).labels() == s.push(l)
                }
                &&& p < 0 && !old(self).can_create() ==> {
                    &&& r is Err
                    &&& r->Err_0 is Unexpected
                    &&& final(self).labels() == s
                }
            }),
    ;

    /// Every label, in ascending id order.
    fn all(&self) -> (r: Result<Vec<Label>, RepositoryError>)
        requires
            self.repository_inv(),
        ensures
            r matches Ok(v) && v@ == self.labels(),
    ;

    /// Removes the label with id `id`; `NotFound(id)` where there is none.
    fn delete(&mut self, id: i32) -> (r: Result<(), RepositoryError>)
        requires
            old(self).repository_inv(),
        ensures
            final(self).repository_inv(),
            r == delete_label_result(old(self).labels(), id),
            final(self).labels() == delete_label_store(old(self).labels(), id),
    ;
}

/// Database label creation: given the row already stored under the new
/// label's name, if any, decides whether the insert may go ahead.
pub fn check_label_name_free(existing: &Option<Label>) -> (r: Result<(), RepositoryError>)
    ensures
        r == match existing {
            Some(l) => Err(RepositoryError::Duplicate(l.id)),
            None => Ok::<(), RepositoryError>(()),
        },
{
    match existing {
        Some(l) => Err(RepositoryError::Duplicate(l.id)),
        None => Ok(()),
    }
}

/// Database update or delete: maps the number of rows that the statement
/// touched to the outcome for id `id`.
pub fn rows_affected_outcome(id: i32, rows_affected: u64) -> (r: Result<(), RepositoryError>)
    ensures
        r == if rows_affected == 0 {
            Err(RepositoryError::NotFound(id))
        } else {
            Ok::<(), RepositoryError>(())
        },
{
    if rows_affected == 0 {
        Err(RepositoryError::NotFound(id))
    } else {
        Ok(())
    }
}

} // verus!
