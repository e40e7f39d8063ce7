use crate::model::todo::opt_text;
use vstd::prelude::*;

verus! {

/// The status codes that the service answers with.
#[derive(Debug, Clone, Copy, PartialEq, Eq, Structural)]
pub enum Status {
    /// 200
    Success,
    /// 204
    NoContent,
    /// 400
    BadRequest,
    /// 404
    NotFound,
    /// 500
    InternalServerError,
}

impl Status {
    /// The number of the status.
    pub open spec fn spec_code(self) -> u16 {
        match self {
            Status::Success => 200,
            Status::NoContent => 204,
            Status::BadRequest => 400,
            Status::NotFound => 404,
            Status::InternalServerError => 500,
        }
    }

    /// The number of the status.
    #[verifier::when_used_as_spec(spec_code)]
    pub fn code(self) -> (code: u16)
        ensures
            code == self.spec_code(),
    {
        match self {
            Status::Success => 200,
            Status::NoContent => 204,
            Status::BadRequest => 400,
            Status::NotFound => 404,
            Status::InternalServerError => 500,
        }
    }
}

/// A response as plain values: what the transport needs to build its own.
#[derive(Debug)]
pub struct HttpResponse {
    pub status: Status,
    /// The value of the `Content-Type` header, if the response has one.
    pub content_type: Option<String>,
    pub body: String,
}

/// The mathematical value of a response.
pub ghost struct HttpResponseView {
    pub status: Status,
    pub content_type: Option<Seq<char>>,
    pub body: Seq<char>,
}

impl View for HttpResponse {
    type V = HttpResponseView;

    open spec fn view(&self) -> HttpResponseView {
        HttpResponseView {
            status: self.status,
            content_type: opt_text(self.content_type),
            body: self.body@,
        }
    }
}

/// The successful response that carries `body` as JSON.
pub open spec fn json_response(body: Seq<char>) -> HttpResponseView {
    HttpResponseView {
        status: Status::Success,
        content_type: Some("application/json"@),
        body,
    }
}

/// The response that carries `status` and nothing else.
pub open spec fn empty_response(status: Status) -> HttpResponseView {
    HttpResponseView { status, content_type: None, body: Seq::empty() }
}

/// Renders the constant `mime::APPLICATION_JSON` with its `Display` impl.
/// Trusted: the text is `application/json`, the string the constant is
/// declared with.
#[verifier::external_body]
fn json_mime() -> (name: String)
    ensures
        name@ == "application/json"@,
{
    mime::APPLICATION_JSON.to_string()
}

/// A 200 response with `res_body` as its JSON body.
pub fn response_builder_as_json(res_body: String) -> (res: HttpResponse)
    ensures
        res@ == json_response(res_body@),
{
    HttpResponse { status: Status::Success, content_type: Some(json_mime()), body: res_body }
}

/// A response with `status`, no headers and an empty body.
pub fn response_builder_fail(status: Status) -> (res: HttpResponse)
    ensures
        res@ == empty_response(status),
{
    HttpResponse { status, content_type: None, body: String::new() }
}

} // verus!
