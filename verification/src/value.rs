//! The trusted boundary to `serde_json`: the opaque JSON value type, a ghost
//! model of what such a value holds, and thin wrappers around the calls the
//! library makes. Everything else in the crate is verified against the
//! contracts stated here.

use vstd::prelude::*;

use crate::error::ParseError;
use crate::model::JsonModel;
use crate::model::keys_distinct;
use crate::model::lookup;

verus! {

#[verifier::external_type_specification]
#[verifier::external_body]
pub struct ExValue(serde_json::Value);

/// The shape of a `serde_json::Value`: which JSON value it holds, with object
/// fields in their stored order.
pub uninterp spec fn jmodel(v: serde_json::Value) -> JsonModel;

/// What `serde_json::from_str` yields on a text: `Some` exactly on well-formed
/// JSON. Parsing is a function of the text alone.
pub uninterp spec fn parse_model(s: Seq<char>) -> Option<JsonModel>;

/// What `serde_json::to_string` prints for a value of a given shape. The text
/// is a function of the shape alone.
pub uninterp spec fn text_model(j: JsonModel) -> Seq<char>;

/// Relies on `serde_json::from_str`: returns `Ok` exactly on well-formed JSON
/// text, and the parsed value is determined by the text.
#[verifier::external_body]
pub(crate) fn parse_value(s: &str) -> (r: Result<serde_json::Value, ParseError>)
    ensures
        r is Ok <==> parse_model(s@) is Some,
        r is Ok ==> jmodel(r->Ok_0) == parse_model(s@)->0,
        r is Err ==> r->Err_0 == ParseError::Syntax,
{
    match serde_json::from_str::<serde_json::Value>(s) {
        Ok(v) => Ok(v),
        Err(_) => Err(ParseError::Syntax),
    }
}

/// Relies on `serde_json::to_string`: printing a `Value` cannot fail, and the
/// text depends only on the value.
#[verifier::external_body]
pub(crate) fn value_text(v: &serde_json::Value) -> (r: String)
    ensures
        r@ == text_model(jmodel(*v)),
{
    match serde_json::to_string(v) {
        Ok(s) => s,
        Err(_) => String::new(),
    }
}

/// Relies on `serde_json::Value::get`: on an object it looks the key up in
/// the object's map; on any other value it returns `None`.
#[verifier::external_body]
pub(crate) fn get_field<'a>(v: &'a serde_json::Value, key: &str) -> (r: Option<
    &'a serde_json::Value,
>)
    ensures
        jmodel(*v) matches JsonModel::Obj(fs) ==> {
            &&& (r is Some <==> lookup(fs, key@) is Some)
            &&& (r is Some ==> jmodel(*r->0) == lookup(fs, key@)->0)
        },
        !(jmodel(*v) is Obj) ==> r is None,
{
    v.get(key)
}

/// Relies on `serde_json::Value::as_str`: `Some` exactly on a JSON string,
/// with its characters.
#[verifier::external_body]
pub(crate) fn value_as_string(v: &serde_json::Value) -> (r: Option<String>)
    ensures
        r is Some <==> jmodel(*v) is Str,
        r is Some ==> r->0@ == jmodel(*v)->Str_0,
{
    v.as_str().map(|s| s.to_string())
}

/// Relies on `serde_json::Value::as_i64`: `Some` exactly on an integer JSON
/// number that fits in an `i64`.
#[verifier::external_body]
pub(crate) fn value_as_i64(v: &serde_json::Value) -> (r: Option<i64>)
    ensures
        r is Some <==> (jmodel(*v) matches JsonModel::Int(n) && i64::MIN <= n <= i64::MAX),
        r is Some ==> r->0 as int == jmodel(*v)->Int_0,
{
    v.as_i64()
}

/// The shape of one named field held as a pair of exec values.
pub open spec fn field_model(p: (String, serde_json::Value)) -> (Seq<char>, JsonModel) {
    (p.0@, jmodel(p.1))
}

/// The shape of a whole field list held as exec values.
pub open spec fn fields_model(fs: Seq<(String, serde_json::Value)>) -> Seq<
    (Seq<char>, JsonModel),
> {
    fs.map_values(|p: (String, serde_json::Value)| field_model(p))
}

/// Relies on `serde_json::Value::clone`: a deep copy has the same shape.
#[verifier::external_body]
pub(crate) fn clone_value(v: &serde_json::Value) -> (r: serde_json::Value)
    ensures
        jmodel(r) == jmodel(*v),
{
    v.clone()
}

/// Relies on `serde_json::Value::Object` and `Map::into_iter`: an object
/// comes apart into its fields, in stored order and with distinct names;
/// any other value comes back unchanged.
#[verifier::external_body]
pub(crate) fn value_fields(v: serde_json::Value) -> (r: Result<
    Vec<(String, serde_json::Value)>,
    serde_json::Value,
>)
    ensures
        r is Ok <==> jmodel(v) is Obj,
        r is Ok ==> fields_model(r->Ok_0@) == jmodel(v)->Obj_0,
        r is Ok ==> keys_distinct(jmodel(v)->Obj_0),
        r is Err ==> r->Err_0 == v,
{
    match v {
        serde_json::Value::Object(m) => Ok(m.into_iter().collect()),
        other => Err(other),
    }
}

/// Relies on `serde_json::Value::String`: wrapping a string.
#[verifier::external_body]
pub(crate) fn value_of_string(s: String) -> (r: serde_json::Value)
    ensures
        jmodel(r) == JsonModel::Str(s@),
{
    serde_json::Value::String(s)
}

/// Relies on `serde_json::Number::from`: an `i64` makes an integer number.
#[verifier::external_body]
pub(crate) fn value_of_i64(n: i64) -> (r: serde_json::Value)
    ensures
        jmodel(r) == JsonModel::Int(n as int),
{
    serde_json::Value::Number(serde_json::Number::from(n))
}

/// Relies on `serde_json::Map`'s `FromIterator`: with the `preserve_order`
/// feature the map keeps insertion order, so distinct names make an object
/// with exactly the given fields, in order.
#[verifier::external_body]
pub(crate) fn value_of_fields(fields: Vec<(String, serde_json::Value)>) -> (r:
    serde_json::Value)
    requires
        keys_distinct(fields_model(fields@)),
    ensures
        jmodel(r) == JsonModel::Obj(fields_model(fields@)),
{
    serde_json::Value::Object(fields.into_iter().collect())
}

/// Relies on `str`'s `PartialEq`: equality of the character sequences.
#[verifier::external_body]
pub(crate) fn str_eq(a: &str, b: &str) -> (r: bool)
    ensures
        r == (a@ == b@),
{
    a == b
}

} // verus!
