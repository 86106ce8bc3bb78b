//! The responses a handler returns, and builders for the usual ones.

use vstd::prelude::*;
use crate::json::JsonValue;

verus! {

pub const OK: u16 = 200;

pub const FOUND: u16 = 302;

pub const BAD_REQUEST: u16 = 400;

pub const INTERNAL_SERVER_ERROR: u16 = 500;

/// What a response carries; the kind fixes its content type (none, `text/html`
/// or `application/json`).
#[derive(Debug, PartialEq)]
pub enum Body {
    Text(String),
    Html(String),
    Json(JsonValue),
}

/// A response as the framework sends it: a status, an optional `Location`
/// header, and a body.
#[derive(Debug, PartialEq)]
pub struct Response {
    pub status: u16,
    pub location: Option<String>,
    pub body: Body,
}

pub enum BodyView {
    Text(Seq<char>),
    Html(Seq<char>),
    Json(JsonValue),
}

pub struct ResponseView {
    pub status: u16,
    pub location: Option<Seq<char>>,
    pub body: BodyView,
}

impl View for Response {
    type V = ResponseView;

    open spec fn view(&self) -> ResponseView {
        ResponseView {
            status: self.status,
            location: match self.location {
                Some(l) => Some(l@),
                None => None,
            },
            body: match self.body {
                Body::Text(t) => BodyView::Text(t@),
                Body::Html(h) => BodyView::Html(h@),
                Body::Json(v) => BodyView::Json(v),
            },
        }
    }
}

/// A response with status `status` whose body is the plain text `message`.
pub open spec fn text_response(status: u16, message: Seq<char>) -> ResponseView {
    ResponseView { status, location: None, body: BodyView::Text(message) }
}

/// The JSON object `{"success": success, "info": info}`, members in that order.
pub open spec fn is_envelope(v: JsonValue, success: bool, info: JsonValue) -> bool {
    match v {
        JsonValue::Object(m) => {
            &&& m@.len() == 2
            &&& m@[0].0@ == "success"@
            &&& m@[0].1 == JsonValue::Bool(success)
            &&& m@[1].0@ == "info"@
            &&& m@[1].1 == info
        },
        _ => false,
    }
}

/// Redirects to `uri` with `302 Found`; `uri` is passed on as it is.
pub fn res_redirect(uri: &str) -> (r: Response)
    ensures
        r@ == (ResponseView {
            status: FOUND,
            location: Some(uri@),
            body: BodyView::Text("redirect to "@ + uri@),
        }),
{
    let mut notice = "redirect to ".to_owned();
    notice.append(uri);
    Response { status: FOUND, location: Some(uri.to_owned()), body: Body::Text(notice) }
}

/// `400 Bad Request` with `info` as its body.
pub fn res_400(info: &str) -> (r: Response)
    ensures
        r@ == text_response(BAD_REQUEST, info@),
{
    Response { status: BAD_REQUEST, location: None, body: Body::Text(info.to_owned()) }
}

/// `500 Internal Server Error` with `info` as its body.
pub fn res_500(info: &str) -> (r: Response)
    ensures
        r@ == text_response(INTERNAL_SERVER_ERROR, info@),
{
    Response { status: INTERNAL_SERVER_ERROR, location: None, body: Body::Text(info.to_owned()) }
}

/// `200 OK` with `value` as an `application/json` body.
pub fn res_json(value: JsonValue) -> (r: Response)
    ensures
        r@ == (ResponseView { status: OK, location: None, body: BodyView::Json(value) }),
{
    Response { status: OK, location: None, body: Body::Json(value) }
}

fn envelope(success: bool, info: JsonValue) -> (r: JsonValue)
    ensures
        is_envelope(r, success, info),
{
    let mut members: Vec<(String, JsonValue)> = Vec::new();
    members.push(("success".to_owned(), JsonValue::Bool(success)));
    members.push(("info".to_owned(), info));
    JsonValue::Object(members)
}

/// `200 OK` with the JSON body `{"success": true, "info": info}`.
pub fn res_json_ok(info: JsonValue) -> (r: Response)
    ensures
        r.status == OK,
        r.location is None,
        r.body matches Body::Json(v) && is_envelope(v, true, info),
{
    res_json(envelope(true, info))
}

/// `200 OK` with the JSON body `{"success": false, "info": info}`.
pub fn res_json_error(info: JsonValue) -> (r: Response)
    ensures
        r.status == OK,
        r.location is None,
        r.body matches Body::Json(v) && is_envelope(v, false, info),
{
    res_json(envelope(false, info))
}

/// `200 OK` with the rendered page `page` as a `text/html` body.
pub fn res_html(page: String) -> (r: Response)
    ensures
        r@ == (ResponseView { status: OK, location: None, body: BodyView::Html(page@) }),
{
    Response { status: OK, location: None, body: Body::Html(page) }
}

} // verus!
