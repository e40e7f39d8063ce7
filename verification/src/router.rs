use crate::controller::todo::ExchangeError;
use crate::util::http_response::{empty_response, response_builder_fail, HttpResponse, Status};
use crate::util::text::str_eq;
use vstd::prelude::*;

verus! {

/// Where a request goes.
#[derive(Debug, Clone, Copy, PartialEq, Eq, Structural)]
pub enum Route {
    /// `POST /todo`
    CreateTodo,
    /// `GET /todo`
    GetTodo,
    /// `PUT /todo`
    UpdateTodo,
    /// `DELETE /todo`
    DeleteTodo,
    /// Anything else.
    NotFound,
}

/// The route of a request with method `method` and path `path`. Method
/// names are matched as they are, in upper case.
pub open spec fn route_of(method: Seq<char>, path: Seq<char>) -> Route {
    if path != "/todo"@ {
        Route::NotFound
    } else if method == "POST"@ {
        Route::CreateTodo
    } else if method == "GET"@ {
        Route::GetTodo
    } else if method == "PUT"@ {
        Route::UpdateTodo
    } else if method == "DELETE"@ {
        Route::DeleteTodo
    } else {
        Route::NotFound
    }
}

/// Picks the route of a request by its method and path.
pub fn router(method: &str, path: &str) -> (route: Route)
    ensures
        route == route_of(method@, path@),
{
    if !str_eq(path, "/todo") {
        Route::NotFound
    } else if str_eq(method, "POST") {
        Route::CreateTodo
    } else if str_eq(method, "GET") {
        Route::GetTodo
    } else if str_eq(method, "PUT") {
        Route::UpdateTodo
    } else if str_eq(method, "DELETE") {
        Route::DeleteTodo
    } else {
        Route::NotFound
    }
}

/// The response that leaves the router: the handler's own, or 500 with an
/// empty body if the exchange with the store failed.
pub fn or_server_error(handled: Result<HttpResponse, ExchangeError>) -> (res: HttpResponse)
    ensures
        match handled {
            Ok(response) => res == response,
            Err(_) => res@ == empty_response(Status::InternalServerError),
        },
{
    match handled {
        Ok(response) => response,
        Err(_) => response_builder_fail(Status::InternalServerError),
    }
}

} // verus!
