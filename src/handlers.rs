use vstd::prelude::*;

use crate::ids::{holds_id, position_of};
use crate::label_store::{label_ids, LabelRepositoryForMemory};
use crate::model::{fresh_label, fresh_todo, CreateLabel, CreateTodo, Label, RepositoryError, Todo, UpdateTodo};
use crate::todo_store::{lookup_todo, todo_ids, updated_todo, TodoRepositoryForMemory};

verus! {

pub const OK: u16 = 200;

pub const CREATED: u16 = 201;

pub const NO_CONTENT: u16 = 204;

pub const NOT_FOUND: u16 = 404;

/// A repository outcome as a response: the value under the success status,
/// or 404 for any repository failure, whatever its cause.
pub open spec fn reply_with<T>(status: u16, outcome: Result<T, RepositoryError>) -> Result<(u16, T), u16> {
    match outcome {
        Ok(v) => Ok((status, v)),
        Err(_) => Err(NOT_FOUND),
    }
}

/// A repository outcome without a value as a status: 204, or 404 for any
/// repository failure.
pub open spec fn empty_reply(outcome: Result<(), RepositoryError>) -> u16 {
    match outcome {
        Ok(_) => NO_CONTENT,
        Err(_) => NOT_FOUND,
    }
}

/// Maps a repository outcome that carries a value to a response.
pub fn respond<T>(status: u16, outcome: Result<T, RepositoryError>) -> (r: Result<(u16, T), u16>)
    ensures
        r == reply_with(status, outcome),
{
    match outcome {
        Ok(v) => Ok((status, v)),
        Err(_) => Err(NOT_FOUND),
    }
}

/// Maps a repository outcome without a value to a status.
pub fn respond_empty(outcome: Result<(), RepositoryError>) -> (r: u16)
    ensures
        r == empty_reply(outcome),
{
    match outcome {
        Ok(_) => NO_CONTENT,
        Err(_) => NOT_FOUND,
    }
}

/// `POST /todos`: 201 with the new todo, or 404 when the store cannot take it.
pub fn create_todo(repo: &mut TodoRepositoryForMemory, payload: CreateTodo) -> (r: Result<(u16, Todo), u16>)
    requires
        old(repo).wf(),
    ensures
        final(repo).wf(),
        old(repo).next_id() < i32::MAX ==> {
            &&& r == Ok::<(u16, Todo), u16>(
                (CREATED, fresh_todo(old(repo).next_id() as i32, payload.text)),
            )
            &&& final(repo)@ == old(repo)@.push(
                fresh_todo(old(repo).next_id() as i32, payload.text),
            )
            &&& final(repo).next_id() == old(repo).next_id() + 1
        },
        old(repo).next_id() == i32::MAX ==> {
            &&& r == Err::<(u16, Todo), u16>(NOT_FOUND)
            &&& final(repo)@ == old(repo)@
            &&& final(repo).next_id() == old(repo).next_id()
        },
{
    respond(CREATED, repo.create(payload))
}

/// `GET /todos/:id`: 200 with the todo, or 404 when no todo has the id.
pub fn find_todo(repo: &TodoRepositoryForMemory, id: i32) -> (r: Result<(u16, Todo), u16>)
    requires
        repo.wf(),
    ensures
        r == reply_with(OK, lookup_todo(repo@, id)),
{
    respond(OK, repo.find(id))
}

/// `GET /todos`: 200 with every todo by ascending id.
pub fn all_todo(repo: &TodoRepositoryForMemory) -> (r: Result<(u16, Vec<Todo>), u16>)
    requires
        repo.wf(),
    ensures
        r matches Ok((status, v)) && status == OK && v@ == repo@,
{
    respond(OK, repo.all())
}

/// `PATCH /todos/:id`: 200 with the updated todo, or 404 when no todo has
/// the id. The id in the path decides which todo changes.
pub fn update_todo(repo: &mut TodoRepositoryForMemory, id: i32, payload: UpdateTodo) -> (r: Result<(u16, Todo), u16>)
    requires
        old(repo).wf(),
    ensures
        final(repo).wf(),
        final(repo).next_id() == old(repo).next_id(),
        holds_id(todo_ids(old(repo)@), id) ==> {
            &&& r == Ok::<(u16, Todo), u16>((OK, updated_todo(id, payload)))
            &&& final(repo)@ == old(repo)@.update(
                position_of(todo_ids(old(repo)@), id),
                updated_todo(id, payload),
            )
        },
        !holds_id(todo_ids(old(repo)@), id) ==> {
            &&& r == Err::<(u16, Todo), u16>(NOT_FOUND)
            &&& final(repo)@ == old(repo)@
        },
{
    respond(OK, repo.update(id, payload))
}

/// `DELETE /todos/:id`: 204, or 404 when no todo has the id.
pub fn delete_todo(repo: &mut TodoRepositoryForMemory, id: i32) -> (r: u16)
    requires
        old(repo).wf(),
    ensures
        final(repo).wf(),
        final(repo).next_id() == old(repo).next_id(),
        holds_id(todo_ids(old(repo)@), id) ==> {
            &&& r == NO_CONTENT
            &&& final(repo)@ == old(repo)@.remove(position_of(todo_ids(old(repo)@), id))
        },
        !holds_id(todo_ids(old(repo)@), id) ==> {
            &&& r == NOT_FOUND
            &&& final(repo)@ == old(repo)@
        },
{
    respond_empty(repo.delete(id))
}

/// `POST /labels`: 201 with the new label, or 404 when the store cannot
/// take it.
pub fn create_label(repo: &mut LabelRepositoryForMemory, payload: CreateLabel) -> (r: Result<(u16, Label), u16>)
    requires
        old(repo).wf(),
    ensures
        final(repo).wf(),
        old(repo).next_id() < i32::MAX ==> {
            &&& r == Ok::<(u16, Label), u16>(
                (CREATED, fresh_label(old(repo).next_id() as i32, payload.name)),
            )
            &&& final(repo)@ == old(repo)@.push(
                fresh_label(old(repo).next_id() as i32, payload.name),
            )
            &&& final(repo).next_id() == old(repo).next_id() + 1
        },
        old(repo).next_id() == i32::MAX ==> {
            &&& r == Err::<(u16, Label), u16>(NOT_FOUND)
            &&& final(repo)@ == old(repo)@
            &&& final(repo).next_id() == old(repo).next_id()
        },
{
    respond(CREATED, repo.create(payload))
}

/// `GET /labels`: 200 with every label by ascending id.
pub fn all_label(repo: &LabelRepositoryForMemory) -> (r: Result<(u16, Vec<Label>), u16>)
    requires
        repo.wf(),
    ensures
        r matches Ok((status, v)) && status == OK && v@ == repo@,
{
    respond(OK, repo.all())
}

/// `DELETE /labels/:id`: 204, or 404 when no label has the id.
pub fn delete_label(repo: &mut LabelRepositoryForMemory, id: i32) -> (r: u16)
    requires
        old(repo).wf(),
    ensures
        final(repo).wf(),
        final(repo).next_id() == old(repo).next_id(),
        holds_id(label_ids(old(repo)@), id) ==> {
            &&& r == NO_CONTENT
            &&& final(repo)@ == old(repo)@.remove(position_of(label_ids(old(repo)@), id))
        },
        !holds_id(label_ids(old(repo)@), id) ==> {
            &&& r == NOT_FOUND
            &&& final(repo)@ == old(repo)@
        },
{
    respond_empty(repo.delete(id))
}

} // verus!
