use vstd::prelude::*;

verus! {

#[verifier::external_type_specification]
#[verifier::external_body]
pub struct ExValue(serde_json::Value);

/// What `serde_json` yields for a string: the parsed document, or `None`
/// when the string is not well-formed JSON.
pub uninterp spec fn json_of(s: Seq<char>) -> Option<serde_json::Value>;

/// The entry a parsed JSON value holds under a key: `Some` exactly when the
/// value is an object that has the key.
pub uninterp spec fn json_field(v: serde_json::Value, key: Seq<char>) -> Option<serde_json::Value>;

/// The elements a parsed JSON value holds: `Some` exactly when the value is
/// an array.
pub uninterp spec fn json_items(v: serde_json::Value) -> Option<Seq<serde_json::Value>>;

/// The characters a parsed JSON value holds: `Some` exactly when the value
/// is a string.
pub uninterp spec fn json_text(v: serde_json::Value) -> Option<Seq<char>>;

/// The truth value a parsed JSON value holds: `Some` exactly when the value
/// is a boolean.
pub uninterp spec fn json_truth(v: serde_json::Value) -> Option<bool>;

/// The string under `key` of an object, when the value is an object, has
/// the key, and the entry is a string.
pub open spec fn field_text(v: serde_json::Value, key: Seq<char>) -> Option<Seq<char>> {
    match json_field(v, key) {
        Some(x) => json_text(x),
        None => None,
    }
}

/// The boolean under `key` of an object, under the same conditions.
pub open spec fn field_truth(v: serde_json::Value, key: Seq<char>) -> Option<bool> {
    match json_field(v, key) {
        Some(x) => json_truth(x),
        None => None,
    }
}

/// The array under `key` of an object, under the same conditions.
pub open spec fn field_items(v: serde_json::Value, key: Seq<char>) -> Option<
    Seq<serde_json::Value>,
> {
    match json_field(v, key) {
        Some(x) => json_items(x),
        None => None,
    }
}

/// Relies on `serde_json::from_str::<Value>`: the parse result depends on
/// the string alone.
#[verifier::external_body]
pub(crate) fn parse_json(s: &str) -> (r: Option<serde_json::Value>)
    ensures
        (r is Some) == (json_of(s@) is Some),
        r matches Some(v) ==> json_of(s@) == Some(v),
{
    serde_json::from_str(s).ok()
}

/// Relies on `serde_json::Value::get`: the entry under the key, `Some`
/// exactly when the value is an object that has it.
#[verifier::external_body]
fn json_get<'a>(v: &'a serde_json::Value, key: &str) -> (r: Option<&'a serde_json::Value>)
    ensures
        (r is Some) == (json_field(*v, key@) is Some),
        r matches Some(x) ==> json_field(*v, key@) == Some(*x),
{
    v.get(key)
}

/// Relies on `serde_json::Value::as_array`: the elements, `Some` exactly
/// when the value is an array.
#[verifier::external_body]
pub(crate) fn json_as_array<'a>(v: &'a serde_json::Value) -> (r: Option<
    &'a Vec<serde_json::Value>,
>)
    ensures
        (r is Some) == (json_items(*v) is Some),
        r matches Some(a) ==> json_items(*v) == Some(a@),
{
    v.as_array()
}

/// Relies on `serde_json::Value::as_str`: the characters, `Some` exactly
/// when the value is a string, handed back as an owned copy.
#[verifier::external_body]
fn json_as_str(v: &serde_json::Value) -> (r: Option<String>)
    ensures
        (r is Some) == (json_text(*v) is Some),
        r matches Some(s) ==> json_text(*v) == Some(s@),
{
    match v.as_str() {
        Some(s) => Some(s.to_owned()),
        None => None,
    }
}

/// Relies on `serde_json::Value::as_bool`: the truth value, `Some` exactly
/// when the value is a boolean.
#[verifier::external_body]
fn json_as_bool(v: &serde_json::Value) -> (r: Option<bool>)
    ensures
        r == json_truth(*v),
{
    v.as_bool()
}

/// The string under `key` of an object, as `field_text` names it.
pub(crate) fn get_str_field(v: &serde_json::Value, key: &str) -> (r: Option<String>)
    ensures
        (r is Some) == (field_text(*v, key@) is Some),
        r matches Some(s) ==> field_text(*v, key@) == Some(s@),
{
    match json_get(v, key) {
        Some(x) => json_as_str(x),
        None => None,
    }
}

/// The boolean under `key` of an object, as `field_truth` names it.
pub(crate) fn get_bool_field(v: &serde_json::Value, key: &str) -> (r: Option<bool>)
    ensures
        r == field_truth(*v, key@),
{
    match json_get(v, key) {
        Some(x) => json_as_bool(x),
        None => None,
    }
}

/// The array under `key` of an object, as `field_items` names it.
pub(crate) fn get_array_field<'a>(v: &'a serde_json::Value, key: &str) -> (r: Option<
    &'a Vec<serde_json::Value>,
>)
    ensures
        (r is Some) == (field_items(*v, key@) is Some),
        r matches Some(a) ==> field_items(*v, key@) == Some(a@),
{
    match json_get(v, key) {
        Some(x) => json_as_array(x),
        None => None,
    }
}

} // verus!
