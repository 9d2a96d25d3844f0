//! The sample guest handlers the workload images serve. Each handler is
//! the decision core of one image endpoint: it maps a request — and,
//! where the endpoint consults the key-value capability, the result of
//! that lookup — to the response to send. The capability calls themselves
//! and the generated server glue stay in the embedding process, which
//! hands the handler plain values.

use vstd::prelude::*;
use vstd::string::StringSliceAdditionalSpecFns;
use vstd::string::StrSliceExecFns;

verus! {

/// The request methods the sample endpoints distinguish.
#[derive(Clone, Copy, PartialEq, Eq, Structural, Debug)]
pub enum Method {
    Get,
    Put,
    Post,
    Delete,
}

/// A guest request, reduced to what the handlers read.
pub struct Request {
    pub method: Method,
    pub uri: String,
    pub headers: Vec<(String, String)>,
    pub body: Option<Vec<u8>>,
}

/// A guest response.
#[derive(Debug, PartialEq, Eq)]
pub struct Response {
    pub status: u16,
    pub headers: Option<Vec<(String, String)>>,
    pub body: Option<Vec<u8>>,
}

/// A handler failure surfaced to the server.
#[derive(Debug, PartialEq, Eq)]
pub struct HttpError {
    pub message: String,
}

/// What a key-value lookup reported.
pub enum KvResult {
    Found { value: Vec<u8> },
    Missing,
    Failed { message: String },
}

/// The root greeting of the submillisecond image.
pub fn index() -> (r: &'static str)
    ensures
        r@ == "Hello :)"@,
{
    "Hello :)"
}

/// Greets with a fixed body and echoes the request headers.
pub fn handle_hello(req: Request) -> (r: Result<Response, HttpError>)
    ensures
        r matches Ok(resp) && resp.status == 200 && (resp.headers matches Some(h) && h@
            == req.headers@) && (resp.body matches Some(b) && b@
            == "hello world!".spec_bytes()),
{
    let body = "hello world!".as_bytes_vec();
    Ok(Response { status: 200, headers: Some(req.headers), body: Some(body) })
}

/// Serves a key-value lookup: the stored bytes with 200, a not-found body
/// with 404 when the key is absent, and the failure message as an error
/// otherwise.
pub fn handle_get(req: Request, lookup: KvResult) -> (r: Result<Response, HttpError>)
    ensures
        lookup matches KvResult::Found { value } ==> (r matches Ok(resp) && resp.status == 200
            && (resp.body matches Some(b) && b@ == value@) && (resp.headers matches Some(h) && h@
            == req.headers@)),
        lookup is Missing ==> (r matches Ok(resp) && resp.status == 404 && (resp.body matches Some(
            b,
        ) && b@ == "Key not found".spec_bytes()) && (resp.headers matches Some(h) && h@
            == req.headers@)),
        lookup matches KvResult::Failed { message } ==> (r matches Err(e) && e.message@
            == message@),
{
    match lookup {
        KvResult::Found { value } => Ok(
            Response { status: 200, headers: Some(req.headers), body: Some(value) },
        ),
        KvResult::Missing => Ok(
            Response {
                status: 404,
                headers: Some(req.headers),
                body: Some("Key not found".as_bytes_vec()),
            },
        ),
        KvResult::Failed { message } => Err(HttpError { message }),
    }
}

/// The `/foo` endpoint: the same lookup service as `handle_get`.
pub fn handle_foo(req: Request, lookup: KvResult) -> (r: Result<Response, HttpError>)
    ensures
        lookup matches KvResult::Found { value } ==> (r matches Ok(resp) && resp.status == 200
            && (resp.body matches Some(b) && b@ == value@) && (resp.headers matches Some(h) && h@
            == req.headers@)),
        lookup is Missing ==> (r matches Ok(resp) && resp.status == 404 && (resp.body matches Some(
            b,
        ) && b@ == "Key not found".spec_bytes()) && (resp.headers matches Some(h) && h@
            == req.headers@)),
        lookup matches KvResult::Failed { message } ==> (r matches Err(e) && e.message@
            == message@),
{
    handle_get(req, lookup)
}

/// Decides a store request: a present request body is the value to store
/// under the fixed key; the response is an empty 204 either way.
pub fn handle_set(req: Request) -> (r: (Option<Vec<u8>>, Response))
    requires
        req.method is Put,
    ensures
        r.0 == req.body,
        r.1.status == 204,
        r.1.body is None,
        r.1.headers matches Some(h) && h@ == req.headers@,
{
    let Request { headers, body, .. } = req;
    (body, Response { status: 204, headers: Some(headers), body: None })
}

/// The `/bar` endpoint: the same store decision as `handle_set`.
pub fn handle_bar(req: Request) -> (r: (Option<Vec<u8>>, Response))
    requires
        req.method is Put,
    ensures
        r.0 == req.body,
        r.1.status == 204,
        r.1.body is None,
        r.1.headers matches Some(h) && h@ == req.headers@,
{
    handle_set(req)
}

/// Echoes an upload back with 200.
pub fn upload(req: Request) -> (r: Result<Response, HttpError>)
    requires
        req.method is Post,
    ensures
        r matches Ok(resp) && resp.status == 200 && resp.body == req.body
            && (resp.headers matches Some(h) && h@ == req.headers@),
{
    let Request { headers, body, .. } = req;
    Ok(Response { status: 200, headers: Some(headers), body })
}

/// Echoes a delete request back with 200.
pub fn delete_file_handler(req: Request) -> (r: Result<Response, HttpError>)
    requires
        req.method is Delete,
    ensures
        r matches Ok(resp) && resp.status == 200 && resp.body == req.body
            && (resp.headers matches Some(h) && h@ == req.headers@),
{
    let Request { headers, body, .. } = req;
    Ok(Response { status: 200, headers: Some(headers), body })
}

/// Serves whatever the fixed key holds after the store round-trip, with
/// 200 and no headers.
pub fn handle_kv(value: Option<Vec<u8>>) -> (r: Response)
    ensures
        r.status == 200,
        r.body == value,
        r.headers is None,
{
    Response { status: 200, headers: None, body: value }
}

/// The greeting of the plain spin image.
pub fn hello_world() -> (r: Result<Response, HttpError>)
    ensures
        r matches Ok(resp) && resp.status == 200 && resp.headers is None && (resp.body matches Some(
            b,
        ) && b@ == "Hello world from Spin!".spec_bytes()),
{
    Ok(
        Response {
            status: 200,
            headers: None,
            body: Some("Hello world from Spin!".as_bytes_vec()),
        },
    )
}

/// Answers for the publishing image: 200 when the publish went through,
/// an internal server error otherwise.
pub fn publish_response(publish_ok: bool) -> (r: Response)
    ensures
        publish_ok ==> r.status == 200,
        !publish_ok ==> r.status == 500,
        r.body is None,
        r.headers is None,
{
    if publish_ok {
        Response { status: 200, headers: None, body: None }
    } else {
        Response { status: 500, headers: None, body: None }
    }
}

/// Whether the event endpoint stores the request body: only the events
/// route does.
pub fn dapr_should_store(req: &Request) -> (r: bool)
    ensures
        r == crate::text::ends_with_seq(req.uri@, "kevents"@),
{
    crate::text::str_ends_with(req.uri.as_str(), "kevents")
}

/// The event endpoint's answer: the stored value with 200 and the fixed
/// marker header.
pub fn handle_spin_dapr(stored: Vec<u8>) -> (r: Result<Response, HttpError>)
    ensures
        r matches Ok(resp) && resp.status == 200 && (resp.body matches Some(b) && b@ == stored@)
            && (resp.headers matches Some(h) && h@.len() == 1 && h@[0].0@ == "foo"@ && h@[0].1@
            == "bar"@),
{
    let mut headers: Vec<(String, String)> = Vec::new();
    headers.push((String::from_str("foo"), String::from_str("bar")));
    Ok(Response { status: 200, headers: Some(headers), body: Some(stored) })
}

} // verus!
