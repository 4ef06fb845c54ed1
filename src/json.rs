use serde_json::Value;
use vstd::prelude::*;

verus! {

#[verifier::external_type_specification]
#[verifier::external_body]
pub struct ExValue(serde_json::Value);

#[verifier::external_type_specification]
#[verifier::external_body]
#[verifier::reject_recursive_types(K)]
#[verifier::reject_recursive_types(V)]
pub struct ExObject<K, V>(serde_json::Map<K, V>);

/// The document that a JSON text denotes, or `None` where the text is not JSON.
pub uninterp spec fn parsed_json(text: Seq<char>) -> Option<Value>;

/// The members of a JSON object, as serde_json holds them.
pub type Members = serde_json::Map<String, Value>;

/// No members.
pub open spec fn no_members() -> Map<Seq<char>, Value> {
    Map::empty()
}

/// The parser's description of why a text is not JSON.
pub uninterp spec fn json_parse_error(text: Seq<char>) -> Seq<char>;

/// The members of a JSON object under construction, by key.
pub uninterp spec fn object_entries(m: Members) -> Map<Seq<char>, Value>;

/// The JSON object value with these members.
pub uninterp spec fn json_object(entries: Map<Seq<char>, Value>) -> Value;

/// The JSON string value that holds `s`.
pub uninterp spec fn json_string(s: Seq<char>) -> Value;

/// The value that a JSON pointer selects inside a document.
pub uninterp spec fn json_pointer(doc: Value, ptr: Seq<char>) -> Option<Value>;

/// The characters of a JSON string value; `None` for any other value.
pub uninterp spec fn json_str(v: Value) -> Option<Seq<char>>;

/// The integer of a JSON number that fits an `i64`; `None` for any other value.
pub uninterp spec fn json_i64(v: Value) -> Option<i64>;

/// The first member value of a non-empty JSON object; `None` for any other value.
pub uninterp spec fn first_member(v: Value) -> Option<Value>;

/// A JSON number read as a double and written back as a JSON number; `None`
/// for any other value.
pub uninterp spec fn json_float(v: Value) -> Option<Value>;

/// The number of elements of a JSON array; `None` for any other value.
pub uninterp spec fn json_array_len(v: Value) -> Option<nat>;

/// The element at index `i` of a JSON array; `None` for any other value, or
/// past the end.
pub uninterp spec fn json_item(v: Value, i: nat) -> Option<Value>;

/// The compact JSON text of a value.
pub uninterp spec fn json_text(v: Value) -> Seq<char>;

/// Relies on `serde_json::from_str` into a `Value`, and on the `Display` of
/// its error: it reads a JSON text, or describes why it cannot.
#[verifier::external_body]
pub fn parse_json(text: &str) -> (r: Result<Value, String>)
    ensures
        match r {
            Ok(v) => parsed_json(text@) == Some(v),
            Err(m) => parsed_json(text@) is None && m@ == json_parse_error(text@),
        },
{
    serde_json::from_str::<Value>(text).map_err(|e| e.to_string())
}

/// Relies on `serde_json::Map::new`: an object with no members.
#[verifier::external_body]
pub fn new_object() -> (r: Members)
    ensures
        object_entries(r) == no_members(),
{
    serde_json::Map::new()
}

/// Relies on `serde_json::Map::insert`: the member under `key` becomes `v`.
#[verifier::external_body]
pub fn put(m: &mut Members, key: String, v: Value)
    ensures
        object_entries(*final(m)) == object_entries(*old(m)).insert(key@, v),
{
    m.insert(key, v);
}

/// Relies on `Value::Object`: the object value of a map of members.
#[verifier::external_body]
pub fn object_value(m: Members) -> (r: Value)
    ensures
        r == json_object(object_entries(m)),
{
    Value::Object(m)
}

/// Relies on `Value::String`: the string value of a text.
#[verifier::external_body]
pub fn string_value(s: &str) -> (r: Value)
    ensures
        r == json_string(s@),
{
    Value::String(s.to_string())
}

/// Relies on `Value::pointer`: the value at a JSON pointer.
#[verifier::external_body]
pub fn pointer<'a>(doc: &'a Value, ptr: &str) -> (r: Option<&'a Value>)
    ensures
        match r {
            Some(v) => json_pointer(*doc, ptr@) == Some(*v),
            None => json_pointer(*doc, ptr@) is None,
        },
{
    doc.pointer(ptr)
}

/// Relies on `Value::as_str`: the text of a string value.
#[verifier::external_body]
pub fn as_str<'a>(v: &'a Value) -> (r: Option<&'a str>)
    ensures
        match r {
            Some(s) => json_str(*v) == Some(s@),
            None => json_str(*v) is None,
        },
{
    v.as_str()
}

/// Relies on `Value::as_array` and `Vec::len`: the length of an array.
#[verifier::external_body]
pub fn array_len(v: &Value) -> (r: Option<usize>)
    ensures
        match r {
            Some(n) => json_array_len(*v) == Some(n as nat),
            None => json_array_len(*v) is None,
        },
{
    v.as_array().map(|a| a.len())
}

/// Relies on `Value::get` with an index: an element of an array.
#[verifier::external_body]
pub fn item<'a>(v: &'a Value, i: usize) -> (r: Option<&'a Value>)
    ensures
        match r {
            Some(e) => json_item(*v, i as nat) == Some(*e),
            None => json_item(*v, i as nat) is None,
        },
{
    v.get(i)
}

/// Relies on `Value::as_i64`: the integer of a number that fits an `i64`.
#[verifier::external_body]
pub fn as_i64(v: &Value) -> (r: Option<i64>)
    ensures
        r == json_i64(*v),
{
    v.as_i64()
}

/// Relies on `Value::as_object` and the ordered iteration of
/// `serde_json::Map::values`: the first member of an object.
#[verifier::external_body]
pub fn first_value<'a>(v: &'a Value) -> (r: Option<&'a Value>)
    ensures
        match r {
            Some(m) => first_member(*v) == Some(*m),
            None => first_member(*v) is None,
        },
{
    v.as_object().and_then(|o| o.values().next())
}

/// Relies on `Value::as_f64` and `Value::from`: a number read as a double,
/// held again as a JSON value.
#[verifier::external_body]
pub fn as_float(v: &Value) -> (r: Option<Value>)
    ensures
        r == json_float(*v),
{
    v.as_f64().map(Value::from)
}

/// Relies on the `Display` of `Value`: its compact JSON text.
#[verifier::external_body]
pub fn to_json_text(v: &Value) -> (r: String)
    ensures
        r@ == json_text(*v),
{
    v.to_string()
}

} // verus!
