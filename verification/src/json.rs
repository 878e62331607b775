//! JSON documents as the host sees them.
//!
//! Payloads travel through the host as `serde_json::Value`. Verified code never
//! looks inside one directly: it builds and reads documents through the small
//! functions of this module, whose contracts speak of [`JsonModel`], the
//! mathematical content of a document. Everything in this module that carries
//! `external_body` is believed, not proved.
use vstd::prelude::*;

verus! {

/// The mathematical content of a JSON document.
pub enum JsonModel {
    Null,
    Bool(bool),
    /// A number that is held as an integer: what a text such as `15` or `-3`
    /// is read as, up to 64 bits.
    Int(int),
    /// A number that is held as a binary fraction, by its 64-bit pattern: what
    /// a text such as `1.5`, `1.0` or `1e3` is read as.
    Real(u64),
    Str(Seq<char>),
    Array(Seq<JsonModel>),
    /// An object: a finite map from member names to documents.
    Object(Map<Seq<char>, JsonModel>),
}

/// `serde_json::Value`, carried through verified code as an opaque document.
#[verifier::external_type_specification]
#[verifier::external_body]
pub struct ExValue(serde_json::Value);

/// What a `serde_json::Value` holds.
pub uninterp spec fn json_model(v: serde_json::Value) -> JsonModel;

/// What `serde_json::from_str` makes of a text: the document it reads, or the
/// message of the error it reports.
pub uninterp spec fn json_parse(text: Seq<char>) -> Result<JsonModel, Seq<char>>;

/// The compact text that `serde_json` writes for a document.
pub uninterp spec fn json_text(m: JsonModel) -> Seq<char>;

/// The contents of a list of documents.
pub open spec fn models_of(vs: Seq<serde_json::Value>) -> Seq<JsonModel> {
    vs.map_values(|v: serde_json::Value| json_model(v))
}

/// The member `key` of a document, where the document is an object that has it.
pub open spec fn member(m: JsonModel, key: Seq<char>) -> Option<JsonModel> {
    match m {
        JsonModel::Object(fields) => if fields.contains_key(key) {
            Some(fields[key])
        } else {
            None
        },
        _ => None,
    }
}

/// The member `key` of a document, with an absent member and a `null` one both
/// read as nothing. This is how an optional field of an envelope is read.
pub open spec fn optional_member(m: JsonModel, key: Seq<char>) -> Option<JsonModel> {
    match member(m, key) {
        Some(JsonModel::Null) => None,
        other => other,
    }
}

/// The string member `key` of a document, if it has one.
pub open spec fn string_member(m: JsonModel, key: Seq<char>) -> Option<Seq<char>> {
    match member(m, key) {
        Some(JsonModel::Str(s)) => Some(s),
        _ => None,
    }
}

/// Wraps `str::eq`: two string slices are equal exactly when they hold the same
/// characters.
#[verifier::external_body]
pub(crate) fn str_equal(a: &str, b: &str) -> (r: bool)
    ensures
        r == (a@ == b@),
{
    a == b
}

/// Wraps the variant `serde_json::Value::Null`.
#[verifier::external_body]
pub(crate) fn json_null() -> (v: serde_json::Value)
    ensures
        json_model(v) == JsonModel::Null,
{
    serde_json::Value::Null
}

/// Wraps the variant `serde_json::Value::String`: the document is the string
/// itself.
#[verifier::external_body]
pub(crate) fn json_string(s: &str) -> (v: serde_json::Value)
    ensures
        json_model(v) == JsonModel::Str(s@),
{
    serde_json::Value::String(s.to_string())
}

/// Wraps `serde_json::Value::from` on an `i64`: the document is that integer.
#[verifier::external_body]
pub(crate) fn json_int(n: i64) -> (v: serde_json::Value)
    ensures
        json_model(v) == JsonModel::Int(n as int),
{
    serde_json::Value::from(n)
}

/// Wraps the variant `serde_json::Value::Array`: the document lists the given
/// documents in order.
#[verifier::external_body]
pub(crate) fn json_array(items: Vec<serde_json::Value>) -> (v: serde_json::Value)
    ensures
        json_model(v) == JsonModel::Array(models_of(items@)),
{
    serde_json::Value::Array(items)
}

/// Wraps `serde_json::Map::new` inside `serde_json::Value::Object`: an object
/// without members.
#[verifier::external_body]
pub(crate) fn json_object_new() -> (v: serde_json::Value)
    ensures
        json_model(v) == JsonModel::Object(Map::<Seq<char>, JsonModel>::empty()),
{
    serde_json::Value::Object(serde_json::Map::new())
}

/// Wraps `serde_json::Map::insert` on the map of an object: the member `key` is
/// set to `value`, replacing an earlier one of that name; the other members
/// stay.
#[verifier::external_body]
pub(crate) fn json_object_insert(obj: &mut serde_json::Value, key: &str, value: serde_json::Value)
    requires
        json_model(*old(obj)) is Object,
    ensures
        json_model(*final(obj)) == JsonModel::Object(
            json_model(*old(obj))->Object_0.insert(key@, json_model(value)),
        ),
{
    if let serde_json::Value::Object(map) = obj {
        map.insert(key.to_string(), value);
    }
}

/// Wraps `serde_json::Value::get` with a string index: the member of that name
/// where `v` is an object that has one, nothing otherwise.
#[verifier::external_body]
pub(crate) fn json_get<'a>(v: &'a serde_json::Value, key: &str) -> (r: Option<&'a serde_json::Value>)
    ensures
        match member(json_model(*v), key@) {
            Some(m) => r.is_some() && json_model(*r.unwrap()) == m,
            None => r.is_none(),
        },
{
    v.get(key)
}

/// Wraps `serde_json::Value::is_null`.
#[verifier::external_body]
pub(crate) fn json_is_null(v: &serde_json::Value) -> (r: bool)
    ensures
        r == (json_model(*v) is Null),
{
    v.is_null()
}

/// Wraps `serde_json::Value::as_str`: the characters of a string document,
/// nothing for any other document.
#[verifier::external_body]
pub(crate) fn json_as_str<'a>(v: &'a serde_json::Value) -> (r: Option<&'a str>)
    ensures
        match json_model(*v) {
            JsonModel::Str(s) => r.is_some() && r.unwrap()@ == s,
            _ => r.is_none(),
        },
{
    v.as_str()
}

/// Wraps `serde_json::Value::as_i64`: the value of an integer document that
/// fits in an `i64`, nothing for any other document.
#[verifier::external_body]
pub(crate) fn json_as_i64(v: &serde_json::Value) -> (r: Option<i64>)
    ensures
        match json_model(*v) {
            JsonModel::Int(n) => if i64::MIN <= n <= i64::MAX {
                r == Some(n as i64)
            } else {
                r.is_none()
            },
            _ => r.is_none(),
        },
{
    v.as_i64()
}

/// Wraps `serde_json::Value::as_array`: the elements of an array document,
/// nothing for any other document.
#[verifier::external_body]
pub(crate) fn json_as_array<'a>(v: &'a serde_json::Value) -> (r: Option<&'a Vec<serde_json::Value>>)
    ensures
        match json_model(*v) {
            JsonModel::Array(items) => r.is_some() && models_of(r.unwrap()@) == items,
            _ => r.is_none(),
        },
{
    v.as_array()
}

/// `Clone::clone` of `serde_json::Value`: the copy holds the same document.
pub assume_specification[ <serde_json::Value as Clone>::clone ](v: &serde_json::Value) -> (r:
    serde_json::Value)
    ensures
        json_model(r) == json_model(*v),
;

/// Wraps `serde_json::from_str` at `serde_json::Value`: the document read from
/// `text`, or the message of the parse error.
#[verifier::external_body]
pub(crate) fn json_from_text(text: &str) -> (r: Result<serde_json::Value, String>)
    ensures
        match r {
            Ok(v) => json_parse(text@) == Ok::<JsonModel, Seq<char>>(json_model(v)),
            Err(e) => json_parse(text@) == Err::<JsonModel, Seq<char>>(e@),
        },
{
    match serde_json::from_str::<serde_json::Value>(text) {
        Ok(v) => Ok(v),
        Err(e) => Err(e.to_string()),
    }
}

/// Wraps `ToString::to_string` of `serde_json::Value`, which writes the
/// document in compact form.
#[verifier::external_body]
pub(crate) fn json_to_text(v: &serde_json::Value) -> (r: String)
    ensures
        r@ == json_text(json_model(*v)),
{
    v.to_string()
}

/// The content of an optional document.
pub open spec fn option_model(v: Option<serde_json::Value>) -> Option<JsonModel> {
    match v {
        Some(x) => Some(json_model(x)),
        None => None,
    }
}

/// Reads the string member `key` of a document.
pub(crate) fn read_string(v: &serde_json::Value, key: &str) -> (r: Option<String>)
    ensures
        match string_member(json_model(*v), key@) {
            Some(s) => r.is_some() && r.unwrap()@ == s,
            None => r.is_none(),
        },
{
    match json_get(v, key) {
        Some(x) => match json_as_str(x) {
            Some(s) => Some(s.to_owned()),
            None => None,
        },
        None => None,
    }
}

/// Reads the member `key` of a document, taking `null` for an absent member.
pub(crate) fn read_optional(v: &serde_json::Value, key: &str) -> (r: Option<serde_json::Value>)
    ensures
        option_model(r) == optional_member(json_model(*v), key@),
{
    match json_get(v, key) {
        Some(x) => if json_is_null(x) {
            None
        } else {
            Some(x.clone())
        },
        None => None,
    }
}

} // verus!
