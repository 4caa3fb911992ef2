//! HTTP responses as plain values: a status, a fixed set of headers and a body.
use vstd::prelude::*;
use crate::json::{json_quoted, quote};

verus! {

/// The body of a response.
pub enum ResponseBody {
    /// No body at all.
    Empty,
    /// JSON text.
    Json(String),
    /// The bytes of a PNG image.
    Png(Vec<u8>),
}

/// A response ready to be written to the client.
pub struct HttpResponse {
    pub status: u16,
    /// Header names and values, in the order they are sent.
    pub headers: Vec<(String, String)>,
    pub body: ResponseBody,
}

/// The body of a response, as a mathematical value.
pub enum BodyView {
    Empty,
    Json(Seq<char>),
    Png(Seq<u8>),
}

/// A response, as a mathematical value.
pub struct ResponseView {
    pub status: u16,
    pub headers: Seq<(Seq<char>, Seq<char>)>,
    pub body: BodyView,
}

impl View for ResponseBody {
    type V = BodyView;

    open spec fn view(&self) -> BodyView {
        match self {
            ResponseBody::Empty => BodyView::Empty,
            ResponseBody::Json(t) => BodyView::Json(t@),
            ResponseBody::Png(b) => BodyView::Png(b@),
        }
    }
}

impl View for HttpResponse {
    type V = ResponseView;

    open spec fn view(&self) -> ResponseView {
        ResponseView {
            status: self.status,
            headers: self.headers@.map_values(|h: (String, String)| (h.0@, h.1@)),
            body: self.body@,
        }
    }
}

pub const CONTENT_TYPE: &'static str = "Content-Type";

pub const ALLOW_ORIGIN: &'static str = "Access-Control-Allow-Origin";

pub const ALLOW_METHODS: &'static str = "Access-Control-Allow-Methods";

pub const ALLOW_HEADERS: &'static str = "Access-Control-Allow-Headers";

pub const JSON_TYPE: &'static str = "application/json";

pub const PNG_TYPE: &'static str = "image/png";

pub const ANY_ORIGIN: &'static str = "*";

pub const ALLOWED_METHODS: &'static str = "GET, POST, OPTIONS";

/// The three headers that let a page on any origin call the service.
pub open spec fn cors_headers() -> Seq<(Seq<char>, Seq<char>)> {
    seq![
        (ALLOW_ORIGIN@, ANY_ORIGIN@),
        (ALLOW_METHODS@, ALLOWED_METHODS@),
        (ALLOW_HEADERS@, CONTENT_TYPE@),
    ]
}

/// The headers of a JSON response: its content type, then the CORS headers.
pub open spec fn json_headers() -> Seq<(Seq<char>, Seq<char>)> {
    seq![(CONTENT_TYPE@, JSON_TYPE@)] + cors_headers()
}

/// The headers of a PNG response: its content type and the allowed origin.
pub open spec fn png_headers() -> Seq<(Seq<char>, Seq<char>)> {
    seq![(CONTENT_TYPE@, PNG_TYPE@), (ALLOW_ORIGIN@, ANY_ORIGIN@)]
}

/// A JSON response with the given status and text.
pub open spec fn json_view(status: u16, text: Seq<char>) -> ResponseView {
    ResponseView { status, headers: json_headers(), body: BodyView::Json(text) }
}

/// The JSON object `{"error": message}`.
pub open spec fn error_json(message: Seq<char>) -> Seq<char> {
    "{\"error\":"@ + json_quoted(message) + "}"@
}

/// A JSON error response with the given status.
pub open spec fn error_view(status: u16, message: Seq<char>) -> ResponseView {
    json_view(status, error_json(message))
}

fn header(name: &str, value: &str) -> (r: (String, String))
    ensures
        r.0@ == name@,
        r.1@ == value@,
{
    (String::from_str(name), String::from_str(value))
}

fn push_cors(headers: &mut Vec<(String, String)>)
    ensures
        final(headers)@.map_values(|h: (String, String)| (h.0@, h.1@)) == old(headers)@.map_values(
            |h: (String, String)| (h.0@, h.1@),
        ) + cors_headers(),
{
    let ghost before = headers@;
    headers.push(header(ALLOW_ORIGIN, ANY_ORIGIN));
    headers.push(header(ALLOW_METHODS, ALLOWED_METHODS));
    headers.push(header(ALLOW_HEADERS, CONTENT_TYPE));
    assert(headers@.map_values(|h: (String, String)| (h.0@, h.1@)) =~= before.map_values(
        |h: (String, String)| (h.0@, h.1@),
    ) + cors_headers());
}

/// A response carrying the JSON text `body` with the given status.
pub fn json_response_with_status(body: String, status: u16) -> (r: HttpResponse)
    ensures
        r@ == json_view(status, body@),
{
    let mut headers: Vec<(String, String)> = Vec::new();
    headers.push(header(CONTENT_TYPE, JSON_TYPE));
    push_cors(&mut headers);
    assert(headers@.map_values(|h: (String, String)| (h.0@, h.1@)) =~= json_headers());
    HttpResponse { status, headers, body: ResponseBody::Json(body) }
}

/// A 200 response carrying the JSON text `body`.
pub fn json_response(body: String) -> (r: HttpResponse)
    ensures
        r@ == json_view(200, body@),
{
    json_response_with_status(body, 200)
}

/// The text of `{"error": message}`.
pub fn error_body(message: &str) -> (r: String)
    ensures
        r@ == error_json(message@),
{
    let mut t = String::from_str("{\"error\":");
    t.append(quote(message).as_str());
    t.append("}");
    t
}

/// A JSON error response `{"error": message}` with the given status.
pub fn error_response(message: &str, status: u16) -> (r: HttpResponse)
    ensures
        r@ == error_view(status, message@),
{
    json_response_with_status(error_body(message), status)
}

/// A 200 response carrying PNG bytes.
pub fn png_response(data: Vec<u8>) -> (r: HttpResponse)
    ensures
        r@ == (ResponseView { status: 200, headers: png_headers(), body: BodyView::Png(data@) }),
{
    let mut headers: Vec<(String, String)> = Vec::new();
    headers.push(header(CONTENT_TYPE, PNG_TYPE));
    headers.push(header(ALLOW_ORIGIN, ANY_ORIGIN));
    assert(headers@.map_values(|h: (String, String)| (h.0@, h.1@)) =~= png_headers());
    HttpResponse { status: 200, headers, body: ResponseBody::Png(data) }
}

/// The answer to a CORS preflight: 204, the CORS headers and no body.
pub fn cors_response() -> (r: HttpResponse)
    ensures
        r@ == (ResponseView { status: 204, headers: cors_headers(), body: BodyView::Empty }),
{
    let mut headers: Vec<(String, String)> = Vec::new();
    push_cors(&mut headers);
    assert(headers@.map_values(|h: (String, String)| (h.0@, h.1@)) =~= cors_headers());
    HttpResponse { status: 204, headers, body: ResponseBody::Empty }
}

} // verus!
