use vstd::prelude::*;

use crate::models::{CreateLabel, CreateTodo, Label, Todo, UpdateTodo};
use crate::repositories::{LabelRepository, TodoRepository};
use crate::label_repository::{delete_label_result, delete_label_store, label_name_position};
use crate::todo_repository::{
    delete_todo_result, delete_todo_store, find_todo_result, update_todo_result,
    update_todo_store,
};
use crate::validation::ValidatedJson;

verus! {

/// The response statuses that handlers give.
#[derive(Debug, Clone, Copy, PartialEq, Eq, Structural)]
pub enum StatusCode {
    Success,
    Created,
    Accepted,
    NoContent,
    BadRequest,
    NotFound,
    InternalServerError,
}

pub open spec fn status_number(s: StatusCode) -> u16 {
    match s {
        StatusCode::Success => 200,
        StatusCode::Created => 201,
        StatusCode::Accepted => 202,
        StatusCode::NoContent => 204,
        StatusCode::BadRequest => 400,
        StatusCode::NotFound => 404,
        StatusCode::InternalServerError => 500,
    }
}

impl StatusCode {
    /// The numeric HTTP status.
    pub fn as_u16(&self) -> (r: u16)
        ensures
            r == status_number(*self),
    {
        match self {
            StatusCode::Success => 200,
            StatusCode::Created => 201,
            StatusCode::Accepted => 202,
            StatusCode::NoContent => 204,
            StatusCode::BadRequest => 400,
            StatusCode::NotFound => 404,
            StatusCode::InternalServerError => 500,
        }
    }
}

/// `POST /todos`: a stored todo is `Created`; any repository failure is an
/// `InternalServerError`.
pub fn create_todo<T: TodoRepository>(payload: ValidatedJson<CreateTodo>, repository: &mut T) -> (r:
    Result<(StatusCode, Todo), StatusCode>)
    requires
        old(repository).repository_inv(),
    ensures
        final(repository).repository_inv(),
        old(repository).can_create() ==> {
            let t = Todo { id: old(repository).next_id(), text: payload.0.text, completed: false };
            &&& r == Ok::<(StatusCode, Todo), StatusCode>((StatusCode::Created, t))
            &&& final(repository).todos() == old(repository).todos().push(t)
        },
        !old(repository).can_create() ==> r == Err::<(StatusCode, Todo), StatusCode>(
            StatusCode::InternalServerError,
        ) && final(repository).todos() == old(repository).todos(),
{
    let ValidatedJson(payload) = payload;
    match repository.create(payload) {
        Ok(todo) => Ok((StatusCode::Created, todo)),
        Err(_) => Err(StatusCode::InternalServerError),
    }
}

/// `GET /todos/:id`: the todo is `Ok`; a failure is `NotFound`.
pub fn find_todo<T: TodoRepository>(id: i32, repository: &T) -> (r: Result<(StatusCode, Todo), StatusCode>)
    requires
        repository.repository_inv(),
    ensures
        r == match find_todo_result(repository.todos(), id) {
            Ok(t) => Ok::<(StatusCode, Todo), StatusCode>((StatusCode::Success, t)),
            Err(_) => Err(StatusCode::NotFound),
        },
{
    match repository.find(id) {
        Ok(todo) => Ok((StatusCode::Success, todo)),
        Err(_) => Err(StatusCode::NotFound),
    }
}

/// `GET /todos`: every todo, `Ok`, an empty list where there is none; a
/// repository failure is an `InternalServerError`.
pub fn all_todo<T: TodoRepository>(repository: &T) -> (r: Result<(StatusCode, Vec<Todo>), StatusCode>)
    requires
        repository.repository_inv(),
    ensures
        r matches Ok((s, v)) && s == StatusCode::Success && v@ == repository.todos(),
{
    match repository.all() {
        Ok(todos) => Ok((StatusCode::Success, todos)),
        Err(_) => Err(StatusCode::InternalServerError),
    }
}

/// `PATCH /todos/:id`: the replaced todo is `Accepted`; a failure is
/// `NotFound`. The id in the path is the one used.
pub fn update_todo<T: TodoRepository>(id: i32, payload: ValidatedJson<UpdateTodo>, repository: &mut T) -> (r:
    Result<(StatusCode, Todo), StatusCode>)
    requires
        old(repository).repository_inv(),
    ensures
        final(repository).repository_inv(),
        r == match update_todo_result(old(repository).todos(), id, payload.0) {
            Ok(t) => Ok::<(StatusCode, Todo), StatusCode>((StatusCode::Accepted, t)),
            Err(_) => Err(StatusCode::NotFound),
        },
        final(repository).todos() == update_todo_store(old(repository).todos(), id, payload.0),
{
    let ValidatedJson(payload) = payload;
    match repository.update(id, payload) {
        Ok(todo) => Ok((StatusCode::Accepted, todo)),
        Err(_) => Err(StatusCode::NotFound),
    }
}

/// `DELETE /todos/:id`: `NoContent` once removed; a failure is `NotFound`.
pub fn delete_todo<T: TodoRepository>(id: i32, repository: &mut T) -> (r: StatusCode)
    requires
        old(repository).repository_inv(),
    ensures
        final(repository).repository_inv(),
        r == if delete_todo_result(old(repository).todos(), id) is Ok {
            StatusCode::NoContent
        } else {
            StatusCode::NotFound
        },
        final(repository).todos() == delete_todo_store(old(repository).todos(), id),
{
    match repository.delete(id) {
        Ok(()) => StatusCode::NoContent,
        Err(_) => StatusCode::NotFound,
    }
}

/// `POST /labels`: the label is `Created`; any repository failure, a
/// duplicate name included, is an `InternalServerError`.
pub fn create_label<T: LabelRepository>(payload: ValidatedJson<CreateLabel>, repository: &mut T) -> (r:
    Result<(StatusCode, Label), StatusCode>)
    requires
        old(repository).repository_inv(),
    ensures
        final(repository).repository_inv(),
        ({
            let s = old(repository).labels();
            let p = label_name_position(s, payload.0.name@);
            &&& p >= 0 ==> final(repository).labels() == s && (r == Ok::<
                (StatusCode, Label),
                StatusCode,
            >((StatusCode::Created, s[p])) || r == Err::<(StatusCode, Label), StatusCode>(
                StatusCode::InternalServerError,
            ))
            &&& p < 0 && old(repository).can_create() ==> {
                let l = Label { id: old(repository).next_id(), name: payload.0.name };
                &&& r == Ok::<(StatusCode, Label), StatusCode>((StatusCode::Created, l))
                &&& final(repository).labels() == s.push(l)
            }
            &&& p < 0 && !old(repository).can_create() ==> r == Err::<
                (StatusCode, Label),
                StatusCode,
            >(StatusCode::InternalServerError) && final(repository).labels() == s
        }),
{
    let ValidatedJson(payload) = payload;
    match repository.create(payload.name) {
        Ok(label) => Ok((StatusCode::Created, label)),
        Err(_) => Err(StatusCode::InternalServerError),
    }
}

/// `GET /labels`: every label, `Ok`; a repository failure is an
/// `InternalServerError`.
pub fn all_label<T: LabelRepository>(repository: &T) -> (r: Result<(StatusCode, Vec<Label>), StatusCode>)
    requires
        repository.repository_inv(),
    ensures
        r matches Ok((s, v)) && s == StatusCode::Success && v@ == repository.labels(),
{
    match repository.all() {
        Ok(labels) => Ok((StatusCode::Success, labels)),
        Err(_) => Err(StatusCode::InternalServerError),
    }
}

/// `DELETE /labels/:id`: `NoContent` once removed; a failure is `NotFound`.
pub fn delete_label<T: LabelRepository>(id: i32, repository: &mut T) -> (r: StatusCode)
    requires
        old(repository).repository_inv(),
    ensures
        final(repository).repository_inv(),
        r == if delete_label_result(old(repository).labels(), id) is Ok {
            StatusCode::NoContent
        } else {
            StatusCode::NotFound
        },
        final(repository).labels() == delete_label_store(old(repository).labels(), id),
{
    match repository.delete(id) {
        Ok(()) => StatusCode::NoContent,
        Err(_) => StatusCode::NotFound,
    }
}

} // verus!
