use vstd::prelude::*;

verus! {

/// The abstract shape of a decoded JSON document.
pub enum JsonModel {
    Null,
    Bool(bool),
    Number,
    Text(Seq<char>),
    Array(Seq<JsonModel>),
    Object(Map<Seq<char>, JsonModel>),
}

#[verifier::external_type_specification]
#[verifier::external_body]
pub struct ExValue(serde_json::Value);

/// What a decoded JSON value holds.
pub uninterp spec fn json_model(v: serde_json::Value) -> JsonModel;

/// What parsing a text as JSON yields: the decoding is a function of the
/// text alone, and fails exactly on invalid documents.
pub uninterp spec fn json_parse_model(s: Seq<char>) -> Option<JsonModel>;

/// The models of a list of decoded values, in order.
pub open spec fn values_model(a: Seq<serde_json::Value>) -> Seq<JsonModel> {
    a.map_values(|x: serde_json::Value| json_model(x))
}

/// Relies on serde_json::from_str::<Value>: decodes one JSON document,
/// failing exactly when the text is not valid JSON.
#[verifier::external_body]
pub fn json_parse(s: &str) -> (r: Option<serde_json::Value>)
    ensures
        match r {
            Some(v) => json_parse_model(s@) == Some(json_model(v)),
            None => json_parse_model(s@) is None,
        },
{
    serde_json::from_str::<serde_json::Value>(s).ok()
}

/// Relies on serde_json::Value::get with a string index: on an object it
/// looks the key up; on a missing key or any other kind of value it
/// returns None.
#[verifier::external_body]
pub fn json_get<'a>(v: &'a serde_json::Value, key: &str) -> (r: Option<&'a serde_json::Value>)
    ensures
        match json_model(*v) {
            JsonModel::Object(m) => {
                if m.dom().contains(key@) {
                    r matches Some(w) && json_model(*w) == m[key@]
                } else {
                    r is None
                }
            },
            _ => r is None,
        },
{
    v.get(key)
}

/// Relies on serde_json::Value::as_array: the elements of an array value,
/// and None for every other kind of value.
#[verifier::external_body]
pub fn json_as_array<'a>(v: &'a serde_json::Value) -> (r: Option<&'a Vec<serde_json::Value>>)
    ensures
        match json_model(*v) {
            JsonModel::Array(s) => r matches Some(a) && values_model(a@) == s,
            _ => r is None,
        },
{
    v.as_array()
}

/// Relies on serde_json::Value::as_str: the characters of a string value,
/// and None for every other kind of value.
#[verifier::external_body]
pub fn json_as_str<'a>(v: &'a serde_json::Value) -> (r: Option<&'a str>)
    ensures
        match json_model(*v) {
            JsonModel::Text(t) => r matches Some(s) && s@ == t,
            _ => r is None,
        },
{
    v.as_str()
}

} // verus!
