//! JSON values as the bridge sees them.
//!
//! Parsing and the value type are `serde_json`'s. A [`Value`] is carried
//! through the library as an opaque value; what the bridge needs to know of
//! one is given a name here, and the functions below are the only places
//! where `serde_json` is taken on trust.

use serde_json::{Error, Value};
use vstd::prelude::*;

verus! {

#[verifier::external_type_specification]
#[verifier::external_body]
pub struct ExValue(serde_json::Value);

#[verifier::external_type_specification]
#[verifier::external_body]
pub struct ExError(serde_json::Error);

/// What parsing makes of the bytes of a JSON text: the value they spell, or
/// the error that says where they stop being JSON.
pub uninterp spec fn json_parse(bytes: Seq<u8>) -> Result<Value, Error>;

/// The members of a JSON object by name, and `None` for a value that is not
/// an object.
pub uninterp spec fn json_members(value: Value) -> Option<Map<Seq<char>, Value>>;

/// The text of a JSON string, and `None` for a value that is not a string.
pub uninterp spec fn json_text(value: Value) -> Option<Seq<char>>;

/// The text that describes a parse error to a reader.
pub uninterp spec fn json_error_text(error: Error) -> Seq<char>;

/// `serde_json::from_slice` at type `Value`: parses a whole JSON text. Taken
/// on trust: the result is [`json_parse`] of the bytes.
#[verifier::external_body]
pub(crate) fn from_slice(bytes: &Vec<u8>) -> (parsed: Result<Value, Error>)
    ensures
        parsed == json_parse(bytes@),
{
    serde_json::from_slice::<Value>(bytes)
}

/// `Value::is_object`. Taken on trust: the answer is whether the value has
/// members, in the sense of [`json_members`].
#[verifier::external_body]
pub(crate) fn is_object(value: &Value) -> (object: bool)
    ensures
        object == json_members(*value).is_some(),
{
    value.is_object()
}

/// `Map::entry` followed by `Entry::or_insert`, on the members of an object,
/// with a JSON string as the value to insert. Taken on trust: an object that
/// has a member of that name is left as it is; any other object gains one
/// member, of that name, which is the string `text`, and keeps the rest.
#[verifier::external_body]
pub(crate) fn or_insert_text(value: &mut Value, name: &str, text: String)
    requires
        json_members(*old(value)).is_some(),
    ensures
        json_members(*final(value)).is_some(),
        json_members(*old(value)).unwrap().dom().contains(name@) ==> *final(value) == *old(value),
        json_members(*final(value)).unwrap().dom() == json_members(*old(value)).unwrap().dom().insert(
            name@,
        ),
        forall|other: Seq<char>| #[trigger]
            json_members(*old(value)).unwrap().dom().contains(other) ==> json_members(
                *final(value),
            ).unwrap()[other] == json_members(*old(value)).unwrap()[other],
        !json_members(*old(value)).unwrap().dom().contains(name@) ==> json_text(
            json_members(*final(value)).unwrap()[name@],
        ) == Some(text@),
{
    value.as_object_mut().unwrap().entry(name).or_insert(Value::String(text));
}

/// `Display` formatting of a parse error. Taken on trust: the result is
/// [`json_error_text`] of the error.
#[verifier::external_body]
pub(crate) fn error_text(error: &Error) -> (text: String)
    ensures
        text@ == json_error_text(*error),
{
    error.to_string()
}

} // verus!
