//! The JSON boundary of the relay.
//!
//! Frames are JSON text. Parsing and rendering are left to `serde_json`; this
//! module gives its values a mathematical model, states what each call into
//! the crate does to that model, and builds on those statements the verified
//! reading of payload fields and the rendering of error frames.

use vstd::prelude::*;

verus! {

/// `serde_json::Value`, carried through verified code as an opaque value.
#[verifier::external_type_specification]
#[verifier::external_body]
pub struct ExJsonValue(serde_json::Value);

/// What a JSON value holds.
pub enum JsonModel {
    Null,
    Bool(bool),
    /// A number that is held as an integer.
    Integer(int),
    /// Any other number, by its decimal text.
    Decimal(Seq<char>),
    Text(Seq<char>),
    Array(Seq<JsonModel>),
    /// An object: at most one member for each key, in no particular order.
    Object(Map<Seq<char>, JsonModel>),
}

/// The contents of a `serde_json::Value`.
pub uninterp spec fn json_model(value: serde_json::Value) -> JsonModel;

/// The value that `serde_json::from_str` reads from a text, or `None` where it
/// reports an error.
pub uninterp spec fn parsed_json(text: Seq<char>) -> Option<JsonModel>;

/// The compact text that `serde_json` writes for a value.
pub uninterp spec fn rendered_json(model: JsonModel) -> Seq<char>;

/// The member of an object under a key; `None` for a missing key and for
/// anything that is not an object.
pub open spec fn member(model: JsonModel, key: Seq<char>) -> Option<JsonModel> {
    match model {
        JsonModel::Object(members) => if members.contains_key(key) {
            Some(members[key])
        } else {
            None
        },
        _ => None,
    }
}

/// Calls `serde_json::from_str::<Value>`. The result is the parsed value, or
/// `None` where the parser reports an error; which of the two, and which
/// value, depends on the text alone.
#[verifier::external_body]
pub(crate) fn json_parse(text: &str) -> (result: Option<serde_json::Value>)
    ensures
        match result {
            Some(value) => parsed_json(text@) == Some(json_model(value)),
            None => parsed_json(text@) is None,
        },
{
    serde_json::from_str::<serde_json::Value>(text).ok()
}

/// Calls `Value::get` with a string key: the member under that key where the
/// value is an object that has one, else `None`.
#[verifier::external_body]
pub(crate) fn json_get<'a>(value: &'a serde_json::Value, key: &str) -> (result: Option<
    &'a serde_json::Value,
>)
    ensures
        match result {
            Some(inner) => member(json_model(*value), key@) == Some(json_model(*inner)),
            None => member(json_model(*value), key@) is None,
        },
{
    value.get(key)
}

/// Calls `Value::as_str`: the text of a JSON string, `None` for any other
/// value.
#[verifier::external_body]
pub(crate) fn json_as_str<'a>(value: &'a serde_json::Value) -> (result: Option<&'a str>)
    ensures
        match result {
            Some(text) => json_model(*value) == JsonModel::Text(text@),
            None => !(json_model(*value) is Text),
        },
{
    value.as_str()
}

/// Calls `Value::as_i64`: the number where the value is an integer that fits
/// in `i64`, `None` for any other value.
#[verifier::external_body]
pub(crate) fn json_as_i64(value: &serde_json::Value) -> (result: Option<i64>)
    ensures
        match result {
            Some(number) => json_model(*value) == JsonModel::Integer(number as int),
            None => !(json_model(*value) matches JsonModel::Integer(n) && i64::MIN <= n
                <= i64::MAX),
        },
{
    value.as_i64()
}

/// Calls `Value::is_null`.
#[verifier::external_body]
pub(crate) fn json_is_null(value: &serde_json::Value) -> (result: bool)
    ensures
        result == (json_model(*value) is Null),
{
    value.is_null()
}

/// `Value::clone` gives a value with the same contents.
pub assume_specification[ <serde_json::Value as Clone>::clone ](
    value: &serde_json::Value,
) -> (result: serde_json::Value)
    ensures
        json_model(result) == json_model(*value),
;

/// Makes `Value::Null`.
#[verifier::external_body]
pub(crate) fn json_null() -> (result: serde_json::Value)
    ensures
        json_model(result) == JsonModel::Null,
{
    serde_json::Value::Null
}

/// Makes `Value::Bool`.
#[verifier::external_body]
pub(crate) fn json_bool(flag: bool) -> (result: serde_json::Value)
    ensures
        json_model(result) == JsonModel::Bool(flag),
{
    serde_json::Value::Bool(flag)
}

/// Calls `Value::from` on an `i64`: a number held as that integer.
#[verifier::external_body]
pub(crate) fn json_integer(number: i64) -> (result: serde_json::Value)
    ensures
        json_model(result) == JsonModel::Integer(number as int),
{
    serde_json::Value::from(number)
}

/// Makes `Value::String` from a copy of the text.
#[verifier::external_body]
pub(crate) fn json_text(text: &str) -> (result: serde_json::Value)
    ensures
        json_model(result) == JsonModel::Text(text@),
{
    serde_json::Value::String(text.to_owned())
}

/// Makes `Value::Object` around `Map::new()`: an object without members.
#[verifier::external_body]
pub(crate) fn json_empty_object() -> (result: serde_json::Value)
    ensures
        json_model(result) == JsonModel::Object(Map::empty()),
{
    serde_json::Value::Object(serde_json::Map::new())
}

/// Assigns through `Value`'s index operator with a string key. On an object
/// this sets the member under the key, replacing one that is there. The
/// operator panics on a value that is neither an object nor null, which
/// `requires` leaves out.
#[verifier::external_body]
pub(crate) fn json_set(object: &mut serde_json::Value, key: &str, item: serde_json::Value)
    requires
        json_model(*old(object)) is Object,
    ensures
        json_model(*final(object)) == JsonModel::Object(
            json_model(*old(object))->Object_0.insert(key@, json_model(item)),
        ),
{
    object[key] = item;
}

/// Calls `Value`'s `to_string`, which writes the value as compact JSON. The
/// text depends on the contents alone: the members of an object are written
/// in the order of their keys.
#[verifier::external_body]
pub(crate) fn json_render(value: &serde_json::Value) -> (result: String)
    ensures
        result@ == rendered_json(json_model(*value)),
{
    value.to_string()
}

/// One member of a payload, as far as the relay reads it.
#[derive(Debug, Clone, PartialEq, Eq)]
pub enum Field {
    /// The payload is no object, or has no member under the key.
    Absent,
    Null,
    Text(String),
    /// An integer that fits in `i64`.
    Integer(i64),
    /// Any other value: a boolean, another number, an array or an object.
    Other,
}

/// The mathematical value of a [`Field`].
pub enum FieldModel {
    Absent,
    Null,
    Text(Seq<char>),
    Integer(i64),
    Other,
}

impl View for Field {
    type V = FieldModel;

    open spec fn view(&self) -> FieldModel {
        match *self {
            Field::Absent => FieldModel::Absent,
            Field::Null => FieldModel::Null,
            Field::Text(text) => FieldModel::Text(text@),
            Field::Integer(number) => FieldModel::Integer(number),
            Field::Other => FieldModel::Other,
        }
    }
}

/// How the relay reads a member of a payload.
pub open spec fn field_of(found: Option<JsonModel>) -> FieldModel {
    match found {
        None => FieldModel::Absent,
        Some(JsonModel::Null) => FieldModel::Null,
        Some(JsonModel::Text(text)) => FieldModel::Text(text),
        Some(JsonModel::Integer(number)) => if i64::MIN <= number <= i64::MAX {
            FieldModel::Integer(number as i64)
        } else {
            FieldModel::Other
        },
        Some(_) => FieldModel::Other,
    }
}

/// A field that must hold text.
pub open spec fn required_text(field: FieldModel) -> Option<Seq<char>> {
    match field {
        FieldModel::Text(text) => Some(text),
        _ => None,
    }
}

/// A field that may be left out or null, and otherwise must hold text. The
/// outer `None` says that the field is malformed.
pub open spec fn optional_text(field: FieldModel) -> Option<Option<Seq<char>>> {
    match field {
        FieldModel::Absent => Some(None),
        FieldModel::Null => Some(None),
        FieldModel::Text(text) => Some(Some(text)),
        _ => None,
    }
}

/// A field that must hold a row id: an integer that fits in `i32`.
pub open spec fn required_id(field: FieldModel) -> Option<i32> {
    match field {
        FieldModel::Integer(number) => if i32::MIN <= number <= i32::MAX {
            Some(number as i32)
        } else {
            None
        },
        _ => None,
    }
}

/// A field that may be left out or null, and otherwise must hold a row id.
/// The outer `None` says that the field is malformed.
pub open spec fn optional_id(field: FieldModel) -> Option<Option<i32>> {
    match field {
        FieldModel::Absent => Some(None),
        FieldModel::Null => Some(None),
        FieldModel::Integer(number) => if i32::MIN <= number <= i32::MAX {
            Some(Some(number as i32))
        } else {
            None
        },
        _ => None,
    }
}

/// Reads the member of `payload` under `key`.
pub fn read_field(payload: &serde_json::Value, key: &str) -> (field: Field)
    ensures
        field@ == field_of(member(json_model(*payload), key@)),
{
    match json_get(payload, key) {
        None => Field::Absent,
        Some(inner) => {
            if json_is_null(inner) {
                Field::Null
            } else {
                match json_as_str(inner) {
                    Some(text) => Field::Text(text.to_owned()),
                    None => match json_as_i64(inner) {
                        Some(number) => Field::Integer(number),
                        None => Field::Other,
                    },
                }
            }
        },
    }
}

impl Field {
    /// The text of a field that must hold text.
    pub fn into_text(self) -> (result: Option<String>)
        ensures
            result.deep_view() == required_text(self@),
    {
        match self {
            Field::Text(text) => Some(text),
            _ => None,
        }
    }

    /// The text of a field that may be left out. `Err` says that the field
    /// holds something else.
    pub fn into_optional_text(self) -> (result: Result<Option<String>, ()>)
        ensures
            match result {
                Ok(text) => optional_text(self@) == Some(text.deep_view()),
                Err(_) => optional_text(self@) is None,
            },
    {
        match self {
            Field::Absent => Ok(None),
            Field::Null => Ok(None),
            Field::Text(text) => Ok(Some(text)),
            _ => Err(()),
        }
    }

    /// The row id of a field that must hold one.
    pub fn into_id(self) -> (result: Option<i32>)
        ensures
            result == required_id(self@),
    {
        match self {
            Field::Integer(number) => {
                if -2147483648 <= number && number <= 2147483647 {
                    Some(number as i32)
                } else {
                    None
                }
            },
            _ => None,
        }
    }

    /// The row id of a field that may be left out. `Err` says that the field
    /// holds something else.
    pub fn into_optional_id(self) -> (result: Result<Option<i32>, ()>)
        ensures
            match result {
                Ok(id) => optional_id(self@) == Some(id),
                Err(_) => optional_id(self@) is None,
            },
    {
        match self {
            Field::Absent => Ok(None),
            Field::Null => Ok(None),
            Field::Integer(number) => {
                if -2147483648 <= number && number <= 2147483647 {
                    Ok(Some(number as i32))
                } else {
                    Err(())
                }
            },
            _ => Err(()),
        }
    }
}

/// The JSON of a text that may be missing.
pub open spec fn text_or_null(text: Option<String>) -> JsonModel {
    match text {
        Some(text) => JsonModel::Text(text@),
        None => JsonModel::Null,
    }
}

/// The JSON of a row id that may be missing.
pub open spec fn id_or_null(id: Option<i32>) -> JsonModel {
    match id {
        Some(id) => JsonModel::Integer(id as int),
        None => JsonModel::Null,
    }
}

/// The JSON value of a text that may be missing.
pub(crate) fn json_text_or_null(text: &Option<String>) -> (value: serde_json::Value)
    ensures
        json_model(value) == text_or_null(*text),
{
    match text {
        Some(text) => json_text(text.as_str()),
        None => json_null(),
    }
}

/// The JSON value of a row id that may be missing.
pub(crate) fn json_id_or_null(id: Option<i32>) -> (value: serde_json::Value)
    ensures
        json_model(value) == id_or_null(id),
{
    match id {
        Some(id) => json_integer(id as i64),
        None => json_null(),
    }
}

} // verus!
