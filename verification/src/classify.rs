//! The classifier: given raw text or a parsed JSON value, select exactly one
//! category, trying request, then notification, then response, with the
//! unknown catch-all last. A payload that looks like a category but fails
//! that category's own validation (an unrecognized method name, a bad `id`)
//! falls through rather than being forced in.

use vstd::prelude::*;

use crate::error::ParseError;
use crate::message::Id;
use crate::message::IdModel;
use crate::message::Message;
use crate::message::MessageModel;
use crate::message::Notification;
use crate::message::Outcome;
use crate::message::OutcomeModel;
use crate::message::Request;
use crate::message::Response;
use crate::message::Unknown;
use crate::model::JsonModel;
use crate::model::lookup;
use crate::value::get_field;
use crate::value::clone_value;
use crate::value::jmodel;
use crate::value::parse_model;
use crate::value::parse_value;
use crate::value::str_eq;
use crate::value::value_as_i64;
use crate::value::value_as_string;

verus! {

/// The method names the request schema validates against.
pub open spec fn spec_request_method(m: Seq<char>) -> bool {
    m == "initialize"@ || m == "shutdown"@
}

/// The method names the notification schema validates against.
pub open spec fn spec_notification_method(m: Seq<char>) -> bool {
    m == "initialized"@ || m == "exit"@
}

fn is_request_method(m: &str) -> (r: bool)
    ensures
        r == spec_request_method(m@),
{
    str_eq(m, "initialize") || str_eq(m, "shutdown")
}

fn is_notification_method(m: &str) -> (r: bool)
    ensures
        r == spec_notification_method(m@),
{
    str_eq(m, "initialized") || str_eq(m, "exit")
}

/// A valid correlation token: an integer that fits `i64`, or a string.
pub open spec fn id_model_of(j: JsonModel) -> Option<IdModel> {
    match j {
        JsonModel::Int(n) => if i64::MIN <= n <= i64::MAX {
            Some(IdModel::Num(n as i64))
        } else {
            None
        },
        JsonModel::Str(s) => Some(IdModel::Text(s)),
        _ => None,
    }
}

/// The valid `id` of an object's fields, if any.
pub open spec fn id_of(fs: Seq<(Seq<char>, JsonModel)>) -> Option<IdModel> {
    match lookup(fs, "id"@) {
        Some(j) => id_model_of(j),
        None => None,
    }
}

/// The method name of an object's fields, if it is a string.
pub open spec fn method_of(fs: Seq<(Seq<char>, JsonModel)>) -> Option<Seq<char>> {
    match lookup(fs, "method"@) {
        Some(JsonModel::Str(s)) => Some(s),
        _ => None,
    }
}

/// The request schema: a recognized request method and a valid `id`.
pub open spec fn request_shape(fs: Seq<(Seq<char>, JsonModel)>) -> bool {
    &&& method_of(fs) matches Some(m) && spec_request_method(m)
    &&& id_of(fs) is Some
}

/// The notification schema: a recognized notification method.
pub open spec fn notification_shape(fs: Seq<(Seq<char>, JsonModel)>) -> bool {
    method_of(fs) matches Some(m) && spec_notification_method(m)
}

/// The response schema: a valid `id` and exactly one of `result` or `error`.
pub open spec fn response_shape(fs: Seq<(Seq<char>, JsonModel)>) -> bool {
    &&& id_of(fs) is Some
    &&& (lookup(fs, "result"@) is Some <==> lookup(fs, "error"@) is None)
}

/// Classification itself: the schemas are tried in declared order — request,
/// then notification, then response — and the first that validates in full is
/// selected; everything else, object or not, is unknown. Total over every
/// JSON value.
pub open spec fn classify_model(j: JsonModel) -> MessageModel {
    match j {
        JsonModel::Obj(fs) => if request_shape(fs) {
            MessageModel::Request {
                id: id_of(fs)->0,
                method: method_of(fs)->0,
                params: lookup(fs, "params"@),
            }
        } else if notification_shape(fs) {
            MessageModel::Notification { method: method_of(fs)->0, params: lookup(fs, "params"@) }
        } else if response_shape(fs) {
            MessageModel::Response {
                id: id_of(fs)->0,
                outcome: match lookup(fs, "result"@) {
                    Some(payload) => OutcomeModel::Success(payload),
                    None => OutcomeModel::Failure(lookup(fs, "error"@)->0),
                },
            }
        } else {
            MessageModel::Unknown(j)
        },
        _ => MessageModel::Unknown(j),
    }
}

/// What classifying a whole text yields: `None` exactly on malformed JSON.
pub open spec fn classify_text_model(s: Seq<char>) -> Option<MessageModel> {
    match parse_model(s) {
        Some(j) => Some(classify_model(j)),
        None => None,
    }
}

spec fn opt_id_view(r: Option<Id>) -> Option<IdModel> {
    match r {
        Some(id) => Some(id@),
        None => None,
    }
}

spec fn opt_string_view(r: Option<String>) -> Option<Seq<char>> {
    match r {
        Some(s) => Some(s@),
        None => None,
    }
}

spec fn opt_value_view(r: Option<serde_json::Value>) -> Option<JsonModel> {
    match r {
        Some(v) => Some(jmodel(v)),
        None => None,
    }
}

fn read_id(v: &serde_json::Value) -> (r: Option<Id>)
    ensures
        jmodel(*v) matches JsonModel::Obj(fs) ==> opt_id_view(r) == id_of(fs),
        !(jmodel(*v) is Obj) ==> r is None,
{
    match get_field(v, "id") {
        None => None,
        Some(idv) => match value_as_i64(idv) {
            Some(n) => Some(Id::Num(n)),
            None => match value_as_string(idv) {
                Some(s) => Some(Id::Text(s)),
                None => None,
            },
        },
    }
}

fn read_method(v: &serde_json::Value) -> (r: Option<String>)
    ensures
        jmodel(*v) matches JsonModel::Obj(fs) ==> opt_string_view(r) == method_of(fs),
        !(jmodel(*v) is Obj) ==> r is None,
{
    match get_field(v, "method") {
        None => None,
        Some(mv) => value_as_string(mv),
    }
}

fn read_value(v: &serde_json::Value, key: &str) -> (r: Option<serde_json::Value>)
    ensures
        jmodel(*v) matches JsonModel::Obj(fs) ==> opt_value_view(r) == lookup(fs, key@),
        !(jmodel(*v) is Obj) ==> r is None,
{
    match get_field(v, key) {
        None => None,
        Some(x) => Some(clone_value(x)),
    }
}

impl Message {
    /// Classify an already-parsed JSON value. Total: every value lands in
    /// exactly one category, with unknown as the unconditional backstop.
    pub fn from_value(v: serde_json::Value) -> (m: Message)
        ensures
            m@ == classify_model(jmodel(v)),
    {
        let name = read_method(&v);
        let id = read_id(&v);
        let known_request = (match &name {
            Some(n) => is_request_method(n.as_str()),
            None => false,
        });
        let known_notification = (match &name {
            Some(n) => is_notification_method(n.as_str()),
            None => false,
        });
        if known_request && id.is_some() {
            let params = read_value(&v, "params");
            Message::Request(Request { id: id.unwrap(), method: name.unwrap(), params })
        } else if known_notification {
            let params = read_value(&v, "params");
            Message::Notification(Notification { method: name.unwrap(), params })
        } else if id.is_some() {
            let result = read_value(&v, "result");
            let error = read_value(&v, "error");
            match (result, error) {
                (Some(r), None) => Message::Response(
                    Response { id: id.unwrap(), outcome: Outcome::Success(r) },
                ),
                (None, Some(e)) => Message::Response(
                    Response { id: id.unwrap(), outcome: Outcome::Failure(e) },
                ),
                _ => Message::Unknown(Unknown { value: v }),
            }
        } else {
            Message::Unknown(Unknown { value: v })
        }
    }

    /// Classify a raw text. Fails, with the syntax error, exactly when the
    /// text is not well-formed JSON; a well-formed text is classified as its
    /// parsed value would be.
    pub fn from_str(s: &str) -> (r: Result<Message, ParseError>)
        ensures
            r is Ok <==> parse_model(s@) is Some,
            r is Ok ==> Some((r->Ok_0)@) == classify_text_model(s@),
            r is Err ==> r->Err_0 == ParseError::Syntax,
    {
        match parse_value(s) {
            Ok(v) => Ok(Message::from_value(v)),
            Err(e) => Err(e),
        }
    }
}

/// Law: classification is total — every JSON value falls in exactly one of
/// the four categories.
pub proof fn lemma_classification_total(j: JsonModel)
    ensures
        classify_model(j) is Request || classify_model(j) is Notification || classify_model(j)
            is Response || classify_model(j) is Unknown,
{
}

/// Law: classifying a text and classifying its parsed value agree — the two
/// entry points are equivalent on every well-formed JSON text.
pub proof fn lemma_text_value_parity(s: Seq<char>)
    requires
        parse_model(s) is Some,
    ensures
        classify_text_model(s) == Some(classify_model(parse_model(s)->0)),
{
}

} // verus!
