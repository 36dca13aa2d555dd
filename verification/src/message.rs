//! The closed sum of message categories, and the pure wrapping of a category
//! value into a `Message`.

use vstd::prelude::*;

use crate::model::JsonModel;
use crate::value::jmodel;
use vstd::std_specs::convert::FromSpec;

verus! {

/// A correlation token: JSON-RPC allows an integer or a string.
#[derive(Debug, PartialEq)]
pub enum Id {
    Num(i64),
    Text(String),
}

/// The one payload a response carries: a success value or an error value,
/// never both.
#[derive(Debug, PartialEq)]
pub enum Outcome {
    Success(serde_json::Value),
    Failure(serde_json::Value),
}

/// A call that expects a reply, correlated by `id`.
#[derive(Debug, PartialEq)]
pub struct Request {
    pub id: Id,
    pub method: String,
    pub params: Option<serde_json::Value>,
}

/// A call with no `id`; no reply is ever produced for it.
#[derive(Debug, PartialEq)]
pub struct Notification {
    pub method: String,
    pub params: Option<serde_json::Value>,
}

/// A reply correlated to a prior request's `id`.
#[derive(Debug, PartialEq)]
pub struct Response {
    pub id: Id,
    pub outcome: Outcome,
}

/// The catch-all: any JSON value that does not validate fully against the
/// other three categories, kept opaquely for forwarding or logging.
#[derive(Debug, PartialEq)]
pub struct Unknown {
    pub value: serde_json::Value,
}

/// A classified message: exactly one of the four categories.
#[derive(Debug, PartialEq)]
pub enum Message {
    Request(Request),
    Notification(Notification),
    Response(Response),
    Unknown(Unknown),
}

/// The mathematical shape of an `Id`.
pub enum IdModel {
    Num(i64),
    Text(Seq<char>),
}

/// The mathematical shape of an `Outcome`.
pub enum OutcomeModel {
    Success(JsonModel),
    Failure(JsonModel),
}

/// The mathematical shape of a `Message`: what every contract of this crate
/// speaks of.
pub enum MessageModel {
    Request { id: IdModel, method: Seq<char>, params: Option<JsonModel> },
    Notification { method: Seq<char>, params: Option<JsonModel> },
    Response { id: IdModel, outcome: OutcomeModel },
    Unknown(JsonModel),
}

/// The shape of an optional payload value.
pub open spec fn opt_model(o: Option<serde_json::Value>) -> Option<JsonModel> {
    match o {
        Some(v) => Some(jmodel(v)),
        None => None,
    }
}

impl View for Id {
    type V = IdModel;

    open spec fn view(&self) -> IdModel {
        match self {
            Id::Num(n) => IdModel::Num(*n),
            Id::Text(s) => IdModel::Text(s@),
        }
    }
}

impl View for Outcome {
    type V = OutcomeModel;

    open spec fn view(&self) -> OutcomeModel {
        match self {
            Outcome::Success(v) => OutcomeModel::Success(jmodel(*v)),
            Outcome::Failure(v) => OutcomeModel::Failure(jmodel(*v)),
        }
    }
}

impl View for Message {
    type V = MessageModel;

    open spec fn view(&self) -> MessageModel {
        match self {
            Message::Request(r) => MessageModel::Request {
                id: r.id@,
                method: r.method@,
                params: opt_model(r.params),
            },
            Message::Notification(n) => MessageModel::Notification {
                method: n.method@,
                params: opt_model(n.params),
            },
            Message::Response(r) => MessageModel::Response { id: r.id@, outcome: r.outcome@ },
            Message::Unknown(u) => MessageModel::Unknown(jmodel(u.value)),
        }
    }
}

impl From<Request> for Message {
    /// Pure wrapping: no validation, no change to the value.
    fn from(request: Request) -> (m: Message)
        ensures
            m == Message::Request(request),
    {
        Message::Request(request)
    }
}

impl vstd::std_specs::convert::FromSpecImpl<Request> for Message {
    open spec fn obeys_from_spec() -> bool {
        true
    }

    open spec fn from_spec(request: Request) -> Message {
        Message::Request(request)
    }
}

impl From<Notification> for Message {
    /// Pure wrapping: no validation, no change to the value.
    fn from(notification: Notification) -> (m: Message)
        ensures
            m == Message::Notification(notification),
    {
        Message::Notification(notification)
    }
}

impl vstd::std_specs::convert::FromSpecImpl<Notification> for Message {
    open spec fn obeys_from_spec() -> bool {
        true
    }

    open spec fn from_spec(notification: Notification) -> Message {
        Message::Notification(notification)
    }
}

impl From<Response> for Message {
    /// Pure wrapping: no validation, no change to the value.
    fn from(response: Response) -> (m: Message)
        ensures
            m == Message::Response(response),
    {
        Message::Response(response)
    }
}

impl vstd::std_specs::convert::FromSpecImpl<Response> for Message {
    open spec fn obeys_from_spec() -> bool {
        true
    }

    open spec fn from_spec(response: Response) -> Message {
        Message::Response(response)
    }
}

impl From<Unknown> for Message {
    /// Pure wrapping: no validation, no change to the value.
    fn from(unknown: Unknown) -> (m: Message)
        ensures
            m == Message::Unknown(unknown),
    {
        Message::Unknown(unknown)
    }
}

impl vstd::std_specs::convert::FromSpecImpl<Unknown> for Message {
    open spec fn obeys_from_spec() -> bool {
        true
    }

    open spec fn from_spec(unknown: Unknown) -> Message {
        Message::Unknown(unknown)
    }
}

/// Law: wrapping a request into a `Message` and matching it back yields the
/// original value, unchanged.
pub proof fn lemma_wrap_request_pure(r: Request)
    ensures
        Message::from_spec(r) matches Message::Request(inner) && inner == r,
{
}

/// Law: wrapping a notification into a `Message` and matching it back yields
/// the original value, unchanged.
pub proof fn lemma_wrap_notification_pure(n: Notification)
    ensures
        Message::from_spec(n) matches Message::Notification(inner) && inner == n,
{
}

/// Law: wrapping a response into a `Message` and matching it back yields the
/// original value, unchanged.
pub proof fn lemma_wrap_response_pure(r: Response)
    ensures
        Message::from_spec(r) matches Message::Response(inner) && inner == r,
{
}

/// Law: wrapping an unknown payload into a `Message` and matching it back
/// yields the original value, unchanged.
pub proof fn lemma_wrap_unknown_pure(u: Unknown)
    ensures
        Message::from_spec(u) matches Message::Unknown(inner) && inner == u,
{
}

} // verus!
