//! What a command asks the server: method, path, JSON body and the message shown while waiting.
use vstd::prelude::*;

verus! {

/// The HTTP method of a request.
#[derive(Clone, Copy, Debug, PartialEq, Eq, Structural)]
pub enum Method {
    Get,
    Post,
    Delete,
}

/// A JSON value in a request body.
#[derive(Debug, PartialEq, Eq)]
pub enum Value {
    Str(String),
    Int(i64),
    Null,
}

/// What a JSON value holds.
pub enum ValueView {
    Str(Seq<char>),
    Int(int),
    Null,
}

impl View for Value {
    type V = ValueView;

    open spec fn view(&self) -> ValueView {
        match self {
            Value::Str(s) => ValueView::Str(s@),
            Value::Int(n) => ValueView::Int(*n as int),
            Value::Null => ValueView::Null,
        }
    }
}

/// The body of a request: none, the JSON `null`, or a JSON object with the given fields.
#[derive(Debug, PartialEq, Eq)]
pub enum Body {
    Empty,
    Null,
    Object(Vec<(String, Value)>),
}

/// What a request body holds.
pub enum BodyView {
    Empty,
    Null,
    Object(Seq<(Seq<char>, ValueView)>),
}

/// The fields of a JSON object.
pub open spec fn fields_view(fields: Seq<(String, Value)>) -> Seq<(Seq<char>, ValueView)> {
    fields.map_values(|f: (String, Value)| (f.0@, f.1@))
}

/// Whether an object's fields send `value` under `key`: some field has that key, and every
/// field with that key carries that value.
pub open spec fn sends(fields: Seq<(Seq<char>, ValueView)>, key: Seq<char>, value: ValueView) -> bool {
    &&& exists|i: int| 0 <= i < fields.len() && #[trigger] fields[i].0 == key && fields[i].1 == value
    &&& forall|i: int| 0 <= i < fields.len() && #[trigger] fields[i].0 == key ==> fields[i].1 == value
}

/// Whether no field of an object has key `key`.
pub open spec fn sends_nothing_under(fields: Seq<(Seq<char>, ValueView)>, key: Seq<char>) -> bool {
    forall|i: int| 0 <= i < fields.len() ==> #[trigger] fields[i].0 != key
}

impl View for Body {
    type V = BodyView;

    open spec fn view(&self) -> BodyView {
        match self {
            Body::Empty => BodyView::Empty,
            Body::Null => BodyView::Null,
            Body::Object(fields) => BodyView::Object(fields_view(fields@)),
        }
    }
}

/// A request to the server. The path follows the server's API base address;
/// the spinner text, if any, is shown while the answer is awaited.
#[derive(Debug, PartialEq, Eq)]
pub struct ApiRequest {
    pub method: Method,
    pub path: String,
    pub body: Body,
    pub spinner: Option<String>,
}

/// What a request asks.
pub struct ApiRequestView {
    pub method: Method,
    pub path: Seq<char>,
    pub body: BodyView,
    pub spinner: Option<Seq<char>>,
}

impl View for ApiRequest {
    type V = ApiRequestView;

    open spec fn view(&self) -> ApiRequestView {
        ApiRequestView {
            method: self.method,
            path: self.path@,
            body: self.body@,
            spinner: match self.spinner {
                Some(s) => Some(s@),
                None => None,
            },
        }
    }
}

/// A `GET` of `path`.
pub fn get(path: String, spinner: &str) -> (r: ApiRequest)
    ensures
        r@ == (ApiRequestView { method: Method::Get, path: path@, body: BodyView::Empty, spinner: Some(spinner@) }),
{
    ApiRequest { method: Method::Get, path, body: Body::Empty, spinner: Some(spinner.to_owned()) }
}

/// A `DELETE` of `path`.
pub fn delete(path: String, spinner: &str) -> (r: ApiRequest)
    ensures
        r@ == (ApiRequestView { method: Method::Delete, path: path@, body: BodyView::Empty, spinner: Some(spinner@) }),
{
    ApiRequest { method: Method::Delete, path, body: Body::Empty, spinner: Some(spinner.to_owned()) }
}

/// A `POST` of `body` to `path`.
pub fn post(path: String, body: Body, spinner: &str) -> (r: ApiRequest)
    ensures
        r@ == (ApiRequestView { method: Method::Post, path: path@, body: body@, spinner: Some(spinner@) }),
{
    ApiRequest { method: Method::Post, path, body, spinner: Some(spinner.to_owned()) }
}

/// A `GET` of `path` with no spinner.
pub fn get_quietly(path: String) -> (r: ApiRequest)
    ensures
        r@ == (ApiRequestView { method: Method::Get, path: path@, body: BodyView::Empty, spinner: None }),
{
    ApiRequest { method: Method::Get, path, body: Body::Empty, spinner: None }
}

/// A `POST` of `body` to `path` with no spinner.
pub fn post_quietly(path: String, body: Body) -> (r: ApiRequest)
    ensures
        r@ == (ApiRequestView { method: Method::Post, path: path@, body: body@, spinner: None }),
{
    ApiRequest { method: Method::Post, path, body, spinner: None }
}

/// A field with a string value.
pub fn str_field(key: &str, value: &str) -> (f: (String, Value))
    ensures
        f.0@ == key@,
        f.1@ == ValueView::Str(value@),
{
    (key.to_owned(), Value::Str(value.to_owned()))
}

/// A field with a number value.
pub fn int_field(key: &str, value: i64) -> (f: (String, Value))
    ensures
        f.0@ == key@,
        f.1@ == ValueView::Int(value as int),
{
    (key.to_owned(), Value::Int(value))
}

/// The JSON value of an optional string: the string, or `null`.
pub open spec fn opt_str_value(o: Option<String>) -> ValueView {
    match o {
        Some(s) => ValueView::Str(s@),
        None => ValueView::Null,
    }
}

/// A field whose value is an optional string, `null` when absent.
pub fn opt_str_field(key: &str, value: &Option<String>) -> (f: (String, Value))
    ensures
        f.0@ == key@,
        f.1@ == opt_str_value(*value),
{
    match value {
        Some(s) => (key.to_owned(), Value::Str(s.clone())),
        None => (key.to_owned(), Value::Null),
    }
}

/// The JSON value of an optional number: the number, or `null`.
pub open spec fn opt_int_value(o: Option<i64>) -> ValueView {
    match o {
        Some(n) => ValueView::Int(n as int),
        None => ValueView::Null,
    }
}

/// A field whose value is an optional number, `null` when absent.
pub fn opt_int_field(key: &str, value: Option<i64>) -> (f: (String, Value))
    ensures
        f.0@ == key@,
        f.1@ == opt_int_value(value),
{
    match value {
        Some(n) => (key.to_owned(), Value::Int(n)),
        None => (key.to_owned(), Value::Null),
    }
}

} // verus!
