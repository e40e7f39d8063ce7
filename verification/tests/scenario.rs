use serde_json::Value;
use todo_server::controller::todo::{
    create_todo_command, create_todo_handle, delete_todo_command, delete_todo_handle,
    get_todo_command, get_todo_handle, update_todo_command, update_todo_handle, ExchangeError,
};
use todo_server::controller::util::not_found;
use todo_server::db::{db_step, Cmd, ResponseMessage, TodoDb};
use todo_server::model::todo::{CreateTodo, DeleteTodo, UpdateTodo};
use todo_server::router::{or_server_error, router, Route};
use todo_server::util::body::{decode_body, DeserializeError};
use todo_server::util::http_response::{HttpResponse, Status};
use tokio::sync::oneshot::Receiver;

fn field<'a>(value: &'a Value, name: &str) -> &'a str {
    value.get(name).and_then(Value::as_str).unwrap()
}

fn text_of(body: &[u8]) -> Result<Value, DeserializeError> {
    let text = decode_body(Some(body.to_vec()))?;
    serde_json::from_str::<Value>(&text).map_err(|_| DeserializeError::ParseError)
}

fn required(value: &Value, name: &str) -> Result<String, DeserializeError> {
    value
        .get(name)
        .and_then(Value::as_str)
        .map(str::to_string)
        .ok_or(DeserializeError::ParseError)
}

fn create_payload(body: &[u8]) -> Result<CreateTodo, DeserializeError> {
    let value = text_of(body)?;
    Ok(CreateTodo::new(&required(&value, "todo_text")?))
}

fn update_payload(body: &[u8]) -> Result<UpdateTodo, DeserializeError> {
    let value = text_of(body)?;
    let mut update = UpdateTodo::new(required(&value, "target_id")?);
    if let Some(text) = value.get("todo_text").and_then(Value::as_str) {
        update.set_text(text);
    }
    if let Some(completed) = value.get("completed").and_then(Value::as_bool) {
        update.set_completed(completed);
    }
    Ok(update)
}

fn delete_payload(body: &[u8]) -> Result<DeleteTodo, DeserializeError> {
    let value = text_of(body)?;
    Ok(DeleteTodo::new(required(&value, "target_id")?))
}

fn exchange<T>(
    db: &mut TodoDb,
    cmd: Cmd,
    mut receiver: Receiver<ResponseMessage<T>>,
) -> Result<ResponseMessage<T>, ExchangeError> {
    db_step(db, cmd);
    receiver.try_recv().map_err(|_| ExchangeError::NoAnswer)
}

fn serve(db: &mut TodoDb, method: &str, path: &str, body: &[u8]) -> HttpResponse {
    match router(method, path) {
        Route::CreateTodo => match create_todo_command(create_payload(body)) {
            Ok((cmd, receiver)) => {
                or_server_error(create_todo_handle(exchange(db, cmd, receiver)))
            }
            Err(response) => response,
        },
        Route::GetTodo => {
            let (cmd, receiver) = get_todo_command();
            or_server_error(get_todo_handle(exchange(db, cmd, receiver)))
        }
        Route::UpdateTodo => match update_todo_command(update_payload(body)) {
            Ok((cmd, receiver)) => {
                or_server_error(update_todo_handle(exchange(db, cmd, receiver)))
            }
            Err(response) => response,
        },
        Route::DeleteTodo => match delete_todo_command(delete_payload(body)) {
            Ok((cmd, receiver)) => {
                or_server_error(delete_todo_handle(exchange(db, cmd, receiver)))
            }
            Err(response) => response,
        },
        Route::NotFound => not_found(),
    }
}

#[test]
fn end_to_end_create_list_update_delete() {
    let mut db = TodoDb::new();

    let created = serve(&mut db, "POST", "/todo", b"{\"todo_text\":\"buy milk\"}");
    assert_eq!(created.status.code(), 200);
    assert_eq!(created.content_type.as_deref(), Some("application/json"));
    assert!(created.body.contains("\"completed\":false"));
    let item: Value = serde_json::from_str(&created.body).unwrap();
    let id = field(&item, "id").to_string();
    assert_eq!(id.len(), 36);
    assert!(created.body.contains(&id));
    assert_eq!(field(&item, "todo_text"), "buy milk");
    assert_eq!(item.get("completed").and_then(Value::as_bool), Some(false));

    let listed = serve(&mut db, "GET", "/todo", b"");
    assert_eq!(listed.status.code(), 200);
    assert_eq!(listed.body, format!("[{}]", created.body));

    let put = format!("{{\"target_id\":\"{}\",\"completed\":true}}", id);
    let updated = serve(&mut db, "PUT", "/todo", put.as_bytes());
    assert_eq!(updated.status.code(), 200);
    assert_eq!(
        updated.body,
        format!("{{\"id\":\"{}\",\"todo_text\":\"buy milk\",\"completed\":true}}", id)
    );

    let delete = format!("{{\"target_id\":\"{}\"}}", id);
    let deleted = serve(&mut db, "DELETE", "/todo", delete.as_bytes());
    assert_eq!(deleted.status.code(), 204);
    assert_eq!(deleted.content_type, None);
    assert_eq!(deleted.body, "");

    let listed = serve(&mut db, "GET", "/todo", b"");
    assert_eq!(listed.status.code(), 200);
    assert_eq!(listed.body, "[]");
}

#[test]
fn unknown_targets_answer_404() {
    let mut db = TodoDb::new();
    serve(&mut db, "POST", "/todo", b"{\"todo_text\":\"x\"}");
    let put = serve(&mut db, "PUT", "/todo", b"{\"target_id\":\"nobody\",\"todo_text\":\"y\"}");
    assert_eq!(put.status, Status::NotFound);
    assert_eq!(put.body, "");
    let delete = serve(&mut db, "DELETE", "/todo", b"{\"target_id\":\"nobody\"}");
    assert_eq!(delete.status, Status::NotFound);
    assert_eq!(delete.body, "");
}

#[test]
fn second_delete_of_the_same_target_answers_404() {
    let mut db = TodoDb::new();
    let created = serve(&mut db, "POST", "/todo", b"{\"todo_text\":\"x\"}");
    let item: Value = serde_json::from_str(&created.body).unwrap();
    let delete = format!("{{\"target_id\":\"{}\"}}", field(&item, "id"));
    assert_eq!(serve(&mut db, "DELETE", "/todo", delete.as_bytes()).status.code(), 204);
    assert_eq!(serve(&mut db, "DELETE", "/todo", delete.as_bytes()).status.code(), 404);
}

#[test]
fn malformed_bodies_answer_400_and_reach_no_store() {
    let mut db = TodoDb::new();
    assert_eq!(serve(&mut db, "POST", "/todo", b"").status, Status::BadRequest);
    assert_eq!(serve(&mut db, "POST", "/todo", b"{\"todo_text\":1}").status, Status::BadRequest);
    assert_eq!(serve(&mut db, "POST", "/todo", &[0xff, 0xfe]).status, Status::BadRequest);
    assert_eq!(serve(&mut db, "PUT", "/todo", b"{\"todo_text\":\"x\"}").status, Status::BadRequest);
    assert_eq!(serve(&mut db, "DELETE", "/todo", b"{}").status, Status::BadRequest);
    assert_eq!(serve(&mut db, "GET", "/todo", b"").body, "[]");
}

#[test]
fn other_methods_and_paths_answer_404() {
    let mut db = TodoDb::new();
    for (method, path) in [("PATCH", "/todo"), ("GET", "/"), ("POST", "/todos"), ("GET", "/todo/")]
    {
        let response = serve(&mut db, method, path, b"{\"todo_text\":\"x\"}");
        assert_eq!(response.status.code(), 404);
        assert_eq!(response.body, "");
    }
    assert_eq!(serve(&mut db, "GET", "/todo", b"").body, "[]");
}
