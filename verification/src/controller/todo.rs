use crate::db::{reply_slot, Cmd, ResponseMessage};
use crate::model::todo::{views, CreateTodo, DeleteTodo, Todo, UpdateTodo};
use crate::semantics::Request;
use crate::util::body::DeserializeError;
use crate::util::http_response::{
    empty_response, json_response, response_builder_as_json, response_builder_fail, HttpResponse,
    HttpResponseView, Status,
};
use crate::util::json::{render_todo, render_todos, todo_json, todos_json};
use tokio::sync::oneshot;
use vstd::prelude::*;

verus! {

/// Why a submitted command brought no reply.
#[derive(Debug, Clone, Copy, PartialEq, Eq, Structural)]
pub enum ExchangeError {
    /// The queue no longer takes commands: the store task has ended.
    StoreUnavailable,
    /// The reply slot was dropped before it was filled.
    NoAnswer,
}

/// The response to the reply of a creation.
pub open spec fn create_todo_response(reply: ResponseMessage<Todo>) -> HttpResponseView {
    match reply {
        ResponseMessage::Contents(todo) => json_response(todo_json(todo@)),
        _ => empty_response(Status::InternalServerError),
    }
}

/// The response to the reply of a listing.
pub open spec fn get_todo_response(reply: ResponseMessage<Vec<Todo>>) -> HttpResponseView {
    match reply {
        ResponseMessage::Contents(todos) => json_response(todos_json(views(todos@))),
        _ => empty_response(Status::InternalServerError),
    }
}

/// The response to the reply of an update.
pub open spec fn update_todo_response(reply: ResponseMessage<Todo>) -> HttpResponseView {
    match reply {
        ResponseMessage::Contents(todo) => json_response(todo_json(todo@)),
        ResponseMessage::NotFound => empty_response(Status::NotFound),
        ResponseMessage::NoContents => empty_response(Status::InternalServerError),
    }
}

/// The response to the reply of a deletion.
pub open spec fn delete_todo_response(reply: ResponseMessage<Todo>) -> HttpResponseView {
    match reply {
        ResponseMessage::NoContents => empty_response(Status::NoContent),
        ResponseMessage::NotFound => empty_response(Status::NotFound),
        ResponseMessage::Contents(_) => empty_response(Status::InternalServerError),
    }
}

/// The first half of `POST /todo`: a creation command with a fresh reply
/// slot and the receiver to await, or the 400 response if the body gave no
/// payload.
pub fn create_todo_command(payload: Result<CreateTodo, DeserializeError>) -> (res: Result<
    (Cmd, oneshot::Receiver<ResponseMessage<Todo>>),
    HttpResponse,
>)
    ensures
        match payload {
            Ok(create) => res matches Ok(pair) && pair.0@ == Request::Create(create@),
            Err(_) => res matches Err(response) && response@ == empty_response(Status::BadRequest),
        },
{
    match payload {
        Ok(create) => {
            let (sender, receiver) = reply_slot();
            Ok((Cmd::Create(create, sender), receiver))
        },
        Err(_) => Err(response_builder_fail(Status::BadRequest)),
    }
}

/// The second half of `POST /todo`: 200 with the created item, 500 for any
/// other reply. A failed exchange is handed on.
pub fn create_todo_handle(answer: Result<ResponseMessage<Todo>, ExchangeError>) -> (res: Result<
    HttpResponse,
    ExchangeError,
>)
    ensures
        match answer {
            Ok(reply) => res matches Ok(response) && response@ == create_todo_response(reply),
            Err(e) => res == Err::<HttpResponse, ExchangeError>(e),
        },
{
    match answer {
        Ok(ResponseMessage::Contents(todo)) => Ok(response_builder_as_json(render_todo(&todo))),
        Ok(_) => Ok(response_builder_fail(Status::InternalServerError)),
        Err(e) => Err(e),
    }
}

/// The first half of `GET /todo`: a read command with a fresh reply slot
/// and the receiver to await.
pub fn get_todo_command() -> (res: (Cmd, oneshot::Receiver<ResponseMessage<Vec<Todo>>>))
    ensures
        res.0@ == Request::Read,
{
    let (sender, receiver) = reply_slot();
    (Cmd::Read(sender), receiver)
}

/// The second half of `GET /todo`: 200 with the array of all items, 500 for
/// any other reply. A failed exchange is handed on.
pub fn get_todo_handle(answer: Result<ResponseMessage<Vec<Todo>>, ExchangeError>) -> (res: Result<
    HttpResponse,
    ExchangeError,
>)
    ensures
        match answer {
            Ok(reply) => res matches Ok(response) && response@ == get_todo_response(reply),
            Err(e) => res == Err::<HttpResponse, ExchangeError>(e),
        },
{
    match answer {
        Ok(ResponseMessage::Contents(todos)) => Ok(response_builder_as_json(render_todos(&todos))),
        Ok(_) => Ok(response_builder_fail(Status::InternalServerError)),
        Err(e) => Err(e),
    }
}

/// The first half of `PUT /todo`: an update command for the payload's
/// target with a fresh reply slot and the receiver to await, or the 400
/// response if the body gave no payload.
pub fn update_todo_command(payload: Result<UpdateTodo, DeserializeError>) -> (res: Result<
    (Cmd, oneshot::Receiver<ResponseMessage<Todo>>),
    HttpResponse,
>)
    ensures
        match payload {
            Ok(update) => res matches Ok(pair) && pair.0@ == Request::Update(
                update@.target_id,
                update@,
            ),
            Err(_) => res matches Err(response) && response@ == empty_response(Status::BadRequest),
        },
{
    match payload {
        Ok(update) => {
            let (sender, receiver) = reply_slot();
            let id = update.get_target_id().to_owned();
            Ok((Cmd::Update(id, update, sender), receiver))
        },
        Err(_) => Err(response_builder_fail(Status::BadRequest)),
    }
}

/// The second half of `PUT /todo`: 200 with the item's new state, 404 if
/// the target is unknown, 500 for any other reply. A failed exchange is
/// handed on.
pub fn update_todo_handle(answer: Result<ResponseMessage<Todo>, ExchangeError>) -> (res: Result<
    HttpResponse,
    ExchangeError,
>)
    ensures
        match answer {
            Ok(reply) => res matches Ok(response) && response@ == update_todo_response(reply),
            Err(e) => res == Err::<HttpResponse, ExchangeError>(e),
        },
{
    match answer {
        Ok(ResponseMessage::Contents(todo)) => Ok(response_builder_as_json(render_todo(&todo))),
        Ok(ResponseMessage::NotFound) => Ok(response_builder_fail(Status::NotFound)),
        Ok(ResponseMessage::NoContents) => Ok(response_builder_fail(Status::InternalServerError)),
        Err(e) => Err(e),
    }
}

/// The first half of `DELETE /todo`: a deletion command for the payload's
/// target with a fresh reply slot and the receiver to await, or the 400
/// response if the body gave no payload.
pub fn delete_todo_command(payload: Result<DeleteTodo, DeserializeError>) -> (res: Result<
    (Cmd, oneshot::Receiver<ResponseMessage<Todo>>),
    HttpResponse,
>)
    ensures
        match payload {
            Ok(delete) => res matches Ok(pair) && pair.0@ == Request::Delete(delete@),
            Err(_) => res matches Err(response) && response@ == empty_response(Status::BadRequest),
        },
{
    match payload {
        Ok(delete) => {
            let (sender, receiver) = reply_slot();
            let id = delete.get_target_id().to_owned();
            Ok((Cmd::Delete(id, sender), receiver))
        },
        Err(_) => Err(response_builder_fail(Status::BadRequest)),
    }
}

/// The second half of `DELETE /todo`: 204 with an empty body, 404 if the
/// target is unknown, 500 for any other reply. A failed exchange is handed
/// on.
pub fn delete_todo_handle(answer: Result<ResponseMessage<Todo>, ExchangeError>) -> (res: Result<
    HttpResponse,
    ExchangeError,
>)
    ensures
        match answer {
            Ok(reply) => res matches Ok(response) && response@ == delete_todo_response(reply),
            Err(e) => res == Err::<HttpResponse, ExchangeError>(e),
        },
{
    match answer {
        Ok(ResponseMessage::NoContents) => Ok(response_builder_fail(Status::NoContent)),
        Ok(ResponseMessage::NotFound) => Ok(response_builder_fail(Status::NotFound)),
        Ok(ResponseMessage::Contents(_)) => Ok(response_builder_fail(Status::InternalServerError)),
        Err(e) => Err(e),
    }
}

} // verus!
