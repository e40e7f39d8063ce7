use crate::util::http_response::{empty_response, response_builder_fail, HttpResponse, Status};
use vstd::prelude::*;

verus! {

/// The response to a request that no route takes: 404 with an empty body.
pub fn not_found() -> (res: HttpResponse)
    ensures
        res@ == empty_response(Status::NotFound),
{
    response_builder_fail(Status::NotFound)
}

} // verus!
