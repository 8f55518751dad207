//! The JSON object that holds the recorded fields of an event or a span,
//! and what the library knows of its contents.
use vstd::prelude::*;

verus! {

#[verifier::external_type_specification]
#[verifier::external_body]
#[verifier::reject_recursive_types(K)]
#[verifier::reject_recursive_types(V)]
pub struct ExJsonObject<K, V>(serde_json::Map<K, V>);

#[verifier::external_type_specification]
#[verifier::external_body]
pub struct ExJsonValue(serde_json::Value);

/// A JSON object whose keys are strings, as `serde_json` lays it out.
pub type JsonMap = serde_json::Map<String, serde_json::Value>;

/// What a JSON value holds, as far as this library reads or writes it.
///
/// No clause gives a value the view `Other`: it is there for the values that
/// the library never inspects, such as floating point numbers and arrays,
/// whose view no contract states.
pub enum JsonView {
    Null,
    Bool(bool),
    Int(int),
    Str(Seq<char>),
    Object(Map<Seq<char>, JsonView>),
    Other,
}

/// The entries of a JSON object, each value taken by what it holds.
pub uninterp spec fn json_object_view(m: JsonMap) -> Map<Seq<char>, JsonView>;

/// What a JSON value holds.
pub uninterp spec fn json_value_view(v: serde_json::Value) -> JsonView;

/// `serde_json::Map::new`: an object with no entries.
#[verifier::external_body]
pub fn json_map_new() -> (m: JsonMap)
    ensures
        json_object_view(m) =~= Map::empty(),
{
    serde_json::Map::new()
}

/// `Map::clone`: an object with the same entries.
#[verifier::external_body]
pub fn json_map_clone(m: &JsonMap) -> (r: JsonMap)
    ensures
        json_object_view(r) == json_object_view(*m),
{
    m.clone()
}

/// `serde_json::Map::insert`: the key now maps to the value; every other
/// entry stays as it was. The value that the key held before is dropped.
#[verifier::external_body]
pub fn json_map_insert(m: &mut JsonMap, key: String, value: serde_json::Value)
    ensures
        json_object_view(*final(m)) == json_object_view(*old(m)).insert(key@, json_value_view(value)),
{
    m.insert(key, value);
}

/// `serde_json::Map::remove`: the key leaves the object, every other entry
/// stays, and the value that the key held comes back, if it held one.
#[verifier::external_body]
pub fn json_map_remove(m: &mut JsonMap, key: &str) -> (r: Option<serde_json::Value>)
    ensures
        json_object_view(*final(m)) == json_object_view(*old(m)).remove(key@),
        r is Some <==> json_object_view(*old(m)).contains_key(key@),
        r matches Some(v) ==> json_value_view(v) == json_object_view(*old(m))[key@],
{
    m.remove(key)
}

/// `Value::String(s)` is taken apart; any other value gives `None`.
#[verifier::external_body]
pub fn json_value_into_string(v: serde_json::Value) -> (r: Option<String>)
    ensures
        r is Some <==> json_value_view(v) is Str,
        r matches Some(s) ==> json_value_view(v) == JsonView::Str(s@),
{
    match v {
        serde_json::Value::String(s) => Some(s),
        _ => None,
    }
}

/// `Value::from(bool)`: a JSON boolean.
#[verifier::external_body]
pub fn json_from_bool(b: bool) -> (v: serde_json::Value)
    ensures
        json_value_view(v) == JsonView::Bool(b),
{
    serde_json::Value::from(b)
}

/// `Value::from(i64)`: a JSON integer.
#[verifier::external_body]
pub fn json_from_i64(n: i64) -> (v: serde_json::Value)
    ensures
        json_value_view(v) == JsonView::Int(n as int),
{
    serde_json::Value::from(n)
}

/// `Value::from(u64)`: a JSON integer.
#[verifier::external_body]
pub fn json_from_u64(n: u64) -> (v: serde_json::Value)
    ensures
        json_value_view(v) == JsonView::Int(n as int),
{
    serde_json::Value::from(n)
}

/// `Value::from(&str)`: a JSON string with the same characters.
#[verifier::external_body]
pub fn json_from_str(s: &str) -> (v: serde_json::Value)
    ensures
        json_value_view(v) == JsonView::Str(s@),
{
    serde_json::Value::from(s)
}

/// `Value::from(String)`: a JSON string with the same characters.
#[verifier::external_body]
pub fn json_from_string(s: String) -> (v: serde_json::Value)
    ensures
        json_value_view(v) == JsonView::Str(s@),
{
    serde_json::Value::from(s)
}

/// `Value::from(Option<&str>)`: `null` for `None`, a JSON string otherwise.
#[verifier::external_body]
pub fn json_from_opt_str(s: Option<&str>) -> (v: serde_json::Value)
    ensures
        json_value_view(v) == opt_str_view(s),
{
    serde_json::Value::from(s)
}

/// `Value::from(Option<u32>)`: `null` for `None`, a JSON integer otherwise.
#[verifier::external_body]
pub fn json_from_opt_u32(n: Option<u32>) -> (v: serde_json::Value)
    ensures
        json_value_view(v) == opt_u32_view(n),
{
    serde_json::Value::from(n)
}

/// `Value::from(Option<Map>)`: `null` for `None`, a JSON object with the
/// same entries otherwise.
#[verifier::external_body]
pub fn json_from_opt_object(m: Option<JsonMap>) -> (v: serde_json::Value)
    ensures
        json_value_view(v) == opt_object_view(m),
{
    serde_json::Value::from(m)
}

/// How an optional string is written in JSON.
pub open spec fn opt_str_view(s: Option<&str>) -> JsonView {
    match s {
        Some(s) => JsonView::Str(s@),
        None => JsonView::Null,
    }
}

/// How an optional line number is written in JSON.
pub open spec fn opt_u32_view(n: Option<u32>) -> JsonView {
    match n {
        Some(n) => JsonView::Int(n as int),
        None => JsonView::Null,
    }
}

/// How an optional object is written in JSON.
pub open spec fn opt_object_view(m: Option<JsonMap>) -> JsonView {
    match m {
        Some(m) => JsonView::Object(json_object_view(m)),
        None => JsonView::Null,
    }
}

} // verus!
