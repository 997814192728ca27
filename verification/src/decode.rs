//! Reading the fields of provider messages out of JSON, as a `serde` derive
//! reads a struct: from an object by key, where unknown keys are ignored,
//! or from an array whose elements are the fields in order. A required
//! field must be present and of its type; an optional field may be absent or
//! `null`. A failure is reported with a message of the library's own.
use vstd::prelude::*;
use crate::error::{Error, JsonError};
use crate::json::{Json, JsonView, lookup, lookup_entry, lemma_object_view, lemma_array_view};

verus! {

/// `v` is a struct with `fields` fields, of which the first `required` have
/// no default: an object, or an array of at least `required` and at most
/// `fields` elements.
pub open spec fn is_struct(v: JsonView, required: int, fields: int) -> bool {
    match v {
        JsonView::Object(_) => true,
        JsonView::Array(items) => required <= items.len() <= fields,
        _ => false,
    }
}

/// Why `v` is not a struct of that shape: `type_message` where it is neither
/// an object nor an array, `length_message` where it is an array of another
/// length.
pub open spec fn struct_error(
    v: JsonView,
    required: int,
    fields: int,
    type_message: Seq<char>,
    length_message: Seq<char>,
) -> Option<Seq<char>> {
    match v {
        JsonView::Object(_) => None,
        JsonView::Array(items) => if required <= items.len() <= fields {
            None
        } else {
            Some(length_message)
        },
        _ => Some(type_message),
    }
}

/// The field at position `index`, named `key`, of a struct: the value of the
/// key in an object, the element at the position in an array.
pub open spec fn field_of(v: JsonView, index: int, key: Seq<char>) -> Option<JsonView> {
    match v {
        JsonView::Object(entries) => lookup(entries, key),
        JsonView::Array(items) => if 0 <= index < items.len() {
            Some(items[index])
        } else {
            None
        },
        _ => None,
    }
}

/// The message for a required field that is not there.
pub open spec fn missing_field(key: Seq<char>) -> Seq<char> {
    "missing field `"@ + key + "`"@
}

/// A required string field: its text, or why it cannot be read.
pub open spec fn text_field(v: JsonView, index: int, key: Seq<char>) -> Result<Seq<char>, Seq<char>> {
    match field_of(v, index, key) {
        Some(JsonView::Str(s)) => Ok(s),
        Some(_) => Err("invalid type: expected a string"@),
        None => Err(missing_field(key)),
    }
}

/// An optional string field: `Ok(None)` where it is absent or `null`.
pub open spec fn optional_text_field(v: JsonView, index: int, key: Seq<char>) -> Result<
    Option<Seq<char>>,
    Seq<char>,
> {
    match field_of(v, index, key) {
        None => Ok(None),
        Some(JsonView::Null) => Ok(None),
        Some(JsonView::Str(s)) => Ok(Some(s)),
        Some(_) => Err("invalid type: expected a string or null"@),
    }
}

/// `e` is an error about the shape of JSON data that says `message`.
pub open spec fn is_shape_error(e: Error, message: Seq<char>) -> bool {
    e matches Error::Json(j) && j.message@ == message && j.line == 0 && j.column == 0
}

/// An error about the shape of JSON data: the message, with no position.
pub fn shape_error(message: &str) -> (r: Error)
    ensures
        r matches Error::Json(e) && e.message@ == message@ && e.line == 0 && e.column == 0,
{
    Error::Json(JsonError::data(message.to_owned()))
}

/// Checks that `v` is a struct of `fields` fields, the first `required` of
/// them without default.
pub fn check_struct(
    v: &Json,
    required: usize,
    fields: usize,
    type_message: &str,
    length_message: &str,
) -> (r: Result<(), Error>)
    ensures
        match struct_error(v@, required as int, fields as int, type_message@, length_message@) {
            None => r is Ok,
            Some(m) => r matches Err(e) && is_shape_error(e, m),
        },
{
    match v {
        Json::Object(_) => Ok(()),
        Json::Array(items) => {
            proof {
                lemma_array_view(*items);
            }
            if required <= items.len() && items.len() <= fields {
                Ok(())
            } else {
                Err(shape_error(length_message))
            }
        },
        _ => {
            proof {
                crate::json::lemma_view_kind(*v);
            }
            Err(shape_error(type_message))
        },
    }
}

/// The field at position `index`, named `key`, of a struct.
pub fn field_at<'a>(v: &'a Json, index: usize, key: &str) -> (r: Option<&'a Json>)
    ensures
        r is Some <==> field_of(v@, index as int, key@) is Some,
        r matches Some(x) ==> field_of(v@, index as int, key@) == Some(x@),
{
    match v {
        Json::Object(entries) => {
            proof {
                lemma_object_view(*entries);
            }
            lookup_entry(entries, key)
        },
        Json::Array(items) => {
            proof {
                lemma_array_view(*items);
            }
            if index < items.len() {
                Some(&items[index])
            } else {
                None
            }
        },
        _ => None,
    }
}

/// The message for a required field that is not there.
pub fn missing_field_error(key: &str) -> (r: Error)
    ensures
        is_shape_error(r, missing_field(key@)),
{
    let mut message = "missing field `".to_owned();
    message.append(key);
    message.append("`");
    shape_error(message.as_str())
}

/// The string at position `index`, named `key`, which must be there.
pub fn read_text_field(v: &Json, index: usize, key: &str) -> (r: Result<String, Error>)
    ensures
        match text_field(v@, index as int, key@) {
            Ok(s) => r matches Ok(t) && t@ == s,
            Err(m) => r matches Err(e) && is_shape_error(e, m),
        },
{
    match field_at(v, index, key) {
        Some(Json::String(s)) => Ok(s.clone()),
        Some(_) => Err(shape_error("invalid type: expected a string")),
        None => Err(missing_field_error(key)),
    }
}

/// The string at position `index`, named `key`, which may be absent or `null`.
pub fn read_optional_text_field(v: &Json, index: usize, key: &str) -> (r: Result<Option<String>, Error>)
    ensures
        match optional_text_field(v@, index as int, key@) {
            Ok(s) => r matches Ok(t) && s == match t {
                Some(x) => Some(x@),
                None => None::<Seq<char>>,
            },
            Err(m) => r matches Err(e) && is_shape_error(e, m),
        },
{
    match field_at(v, index, key) {
        None => Ok(None),
        Some(Json::Null) => Ok(None),
        Some(Json::String(s)) => Ok(Some(s.clone())),
        Some(_) => Err(shape_error("invalid type: expected a string or null")),
    }
}

} // verus!
