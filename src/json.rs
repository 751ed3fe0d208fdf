//! The JSON values of the `json` crate, as the rest of the library sees them.
//!
//! A value is opaque. For an object, `json_entries` names the text that each
//! key's value displays as; the wrappers below state what each call of the
//! crate does to it.

use vstd::prelude::*;
use crate::console::{lower_of, truthy_text};
use crate::data::{CDataType, CError};

verus! {

#[verifier::external_type_specification]
#[verifier::external_body]
pub struct ExJsonValue(json::JsonValue);

/// Whether the value is a JSON object.
pub uninterp spec fn json_is_object(v: json::JsonValue) -> bool;

/// For an object, each key with the text its value displays as.
pub uninterp spec fn json_entries(v: json::JsonValue) -> Map<Seq<char>, Seq<char>>;

/// The compact JSON text of a value.
pub uninterp spec fn json_dump_of(v: json::JsonValue) -> Seq<char>;

/// What a text parses to: nothing where it is not JSON; for JSON, the
/// entries of the object it denotes, or nothing where it denotes no object.
pub uninterp spec fn json_parsed_entries(s: Seq<char>) -> Option<Option<Map<Seq<char>, Seq<char>>>>;

/// Whether a text parses as JSON.
pub open spec fn json_parses(s: Seq<char>) -> bool {
    json_parsed_entries(s) is Some
}

/// The text of a JSON string value; none for other values.
pub uninterp spec fn json_text(v: json::JsonValue) -> Option<Seq<char>>;

/// Whether the value is a JSON array.
pub uninterp spec fn json_is_array(v: json::JsonValue) -> bool;

/// Whether the value is a JSON boolean.
pub uninterp spec fn json_is_boolean(v: json::JsonValue) -> bool;

/// Whether the value is empty: null, false, zero, or an empty text, array
/// or object.
pub uninterp spec fn json_is_empty(v: json::JsonValue) -> bool;

/// Whether the value is JSON null.
pub uninterp spec fn json_is_null(v: json::JsonValue) -> bool;

/// Whether the value is a JSON number.
pub uninterp spec fn json_is_number(v: json::JsonValue) -> bool;

/// Whether the value is a JSON string.
pub uninterp spec fn json_is_string(v: json::JsonValue) -> bool;

/// The flag of a JSON boolean; none for other values.
pub uninterp spec fn json_bool_of(v: json::JsonValue) -> Option<bool>;

/// Whether a text parses as an absolute URL.
pub uninterp spec fn url_parses(s: Seq<char>) -> bool;

/// The longest text, in characters, that is handed to the JSON reader. The
/// reader lowers a 16-bit exponent by one for each fractional digit, so a
/// longer number could overflow it; no text of this length has that many.
pub const JSON_TEXT_LIMIT: usize = 32768;

/// An object's entries when it has none.
pub open spec fn empty_entries() -> Map<Seq<char>, Seq<char>> {
    Map::empty()
}

/// Relies on `JsonValue`'s `Clone`: a copy with the same JSON text.
#[verifier::external_body]
pub(crate) fn clone_value(v: &json::JsonValue) -> (r: json::JsonValue)
    ensures
        json_dump_of(r) == json_dump_of(*v),
{
    v.clone()
}

/// Relies on `JsonValue::new_array`: an array without members.
#[verifier::external_body]
pub(crate) fn new_array() -> (r: json::JsonValue)
    ensures
        json_is_array(r),
{
    json::JsonValue::new_array()
}

/// Relies on `JsonValue::is_array`.
#[verifier::external_body]
pub(crate) fn is_array(v: &json::JsonValue) -> (r: bool)
    ensures
        r == json_is_array(*v),
{
    v.is_array()
}

/// Relies on `JsonValue::is_boolean`.
#[verifier::external_body]
pub(crate) fn is_boolean(v: &json::JsonValue) -> (r: bool)
    ensures
        r == json_is_boolean(*v),
{
    v.is_boolean()
}

/// Relies on `JsonValue::is_empty`.
#[verifier::external_body]
pub(crate) fn is_empty(v: &json::JsonValue) -> (r: bool)
    ensures
        r == json_is_empty(*v),
{
    v.is_empty()
}

/// Relies on `JsonValue::is_null`.
#[verifier::external_body]
pub(crate) fn is_null(v: &json::JsonValue) -> (r: bool)
    ensures
        r == json_is_null(*v),
{
    v.is_null()
}

/// Relies on `JsonValue::is_number`.
#[verifier::external_body]
pub(crate) fn is_number(v: &json::JsonValue) -> (r: bool)
    ensures
        r == json_is_number(*v),
{
    v.is_number()
}

/// Relies on `JsonValue::is_string`.
#[verifier::external_body]
pub(crate) fn is_string(v: &json::JsonValue) -> (r: bool)
    ensures
        r == json_is_string(*v),
{
    v.is_string()
}

/// Relies on `JsonValue::as_bool`: the flag of a boolean.
#[verifier::external_body]
pub(crate) fn as_bool(v: &json::JsonValue) -> (r: Option<bool>)
    ensures
        r == json_bool_of(*v),
{
    v.as_bool()
}

/// Relies on `url::Url::parse`: whether the text is an absolute URL.
#[verifier::external_body]
pub(crate) fn parses_as_url(s: &str) -> (r: bool)
    ensures
        r == url_parses(s@),
{
    url::Url::parse(s).is_ok()
}

/// Relies on `JsonValue::new_object`: an object without entries.
#[verifier::external_body]
pub(crate) fn new_object() -> (r: json::JsonValue)
    ensures
        json_is_object(r),
        json_entries(r) == empty_entries(),
{
    json::JsonValue::new_object()
}

/// Relies on `JsonValue::is_object`; an object keeps its entries in a
/// vector, so it has finitely many.
#[verifier::external_body]
pub(crate) fn is_object(v: &json::JsonValue) -> (r: bool)
    ensures
        r == json_is_object(*v),
        r ==> json_entries(*v).dom().finite(),
{
    v.is_object()
}

/// Relies on `JsonValue::has_key`: true only for an object with that key.
#[verifier::external_body]
pub(crate) fn has_key(v: &json::JsonValue, key: &str) -> (r: bool)
    ensures
        r == (json_is_object(*v) && json_entries(*v).contains_key(key@)),
{
    v.has_key(key)
}

/// Relies on `JsonValue::len`: an object's number of keys.
#[verifier::external_body]
pub(crate) fn object_len(v: &json::JsonValue) -> (r: usize)
    ensures
        json_is_object(*v) ==> r == json_entries(*v).len(),
{
    v.len()
}

/// Relies on `JsonValue::insert` with a string value: on an object it adds
/// the entry or overrides the key's value; on anything else it fails and
/// changes nothing.
#[verifier::external_body]
pub(crate) fn insert_text(v: &mut json::JsonValue, key: &str, value: &str) -> (r: bool)
    ensures
        r == json_is_object(*old(v)),
        r ==> json_is_object(*final(v)) && json_entries(*final(v)) == json_entries(*old(v)).insert(
            key@,
            value@,
        ),
        !r ==> *final(v) == *old(v),
{
    v.insert(key, value).is_ok()
}

/// Relies on `JsonValue::remove`: on an object the key's entry is gone.
#[verifier::external_body]
pub(crate) fn remove_key(v: &mut json::JsonValue, key: &str)
    ensures
        json_is_object(*old(v)) ==> json_is_object(*final(v)) && json_entries(*final(v))
            == json_entries(*old(v)).remove(key@),
{
    let _ = v.remove(key);
}

/// Relies on `JsonValue::clear`: an object loses all its entries.
#[verifier::external_body]
pub(crate) fn clear_value(v: &mut json::JsonValue)
    ensures
        json_is_object(*old(v)) ==> json_is_object(*final(v)) && json_entries(*final(v))
            == empty_entries(),
{
    v.clear()
}

/// Relies on indexing a `JsonValue` by key and on its `Display`: the text
/// the key's value displays as.
#[verifier::external_body]
pub(crate) fn entry_text(v: &json::JsonValue, key: &str) -> (r: String)
    ensures
        json_is_object(*v) && json_entries(*v).contains_key(key@) ==> r@ == json_entries(
            *v,
        )[key@],
{
    v[key].to_string()
}

/// Relies on `JsonValue::dump`.
#[verifier::external_body]
pub(crate) fn dump(v: &json::JsonValue) -> (r: String)
    ensures
        r@ == json_dump_of(*v),
{
    v.dump()
}

/// Relies on `json::parse`: a value exactly when the text is JSON, an
/// object exactly when the text denotes one, with that object's entries.
#[verifier::external_body]
pub(crate) fn parse(text: &str) -> (r: Option<json::JsonValue>)
    requires
        text@.len() <= JSON_TEXT_LIMIT,
    ensures
        r is Some <==> json_parses(text@),
        r matches Some(v) ==> (json_is_object(v) <==> json_parsed_entries(text@) matches Some(
            Some(_),
        )),
        r matches Some(v) ==> (json_is_object(v) ==> json_parsed_entries(text@) == Some(
            Some(json_entries(v)),
        )),
{
    json::parse(text).ok()
}

/// Relies on `JsonValue::as_str`: the text of a string value.
#[verifier::external_body]
pub(crate) fn as_text(v: &json::JsonValue) -> (r: Option<&str>)
    ensures
        match r {
            Some(s) => json_text(*v) == Some(s@),
            None => json_text(*v) is None,
        },
{
    v.as_str()
}

/// A JSON value.
pub type CObject = json::JsonValue;

/// Whether the value is of the given JSON type.
pub open spec fn json_type_matches(t: CDataType, v: json::JsonValue) -> bool {
    match t {
        CDataType::Array => json_is_array(v),
        CDataType::Boolean => json_is_boolean(v),
        CDataType::Empty => json_is_empty(v),
        CDataType::Null => json_is_null(v),
        CDataType::Number => json_is_number(v),
        CDataType::Object => json_is_object(v),
        CDataType::String => json_is_string(v),
    }
}

/// A check's answer; with `should_fail`, a negative answer is an error.
pub open spec fn checked(answer: bool, should_fail: bool) -> Result<bool, CError> {
    if should_fail && !answer {
        Err(CError::InvalidArgument)
    } else {
        Ok(answer)
    }
}

/// The value as a boolean: true only for JSON `true`.
pub fn json_as_bool(data: &CObject) -> (r: bool)
    ensures
        r == (json_bool_of(*data) == Some(true)),
{
    match as_bool(data) {
        Some(v) => v,
        None => false,
    }
}

/// The text of a JSON string.
pub fn json_as_string(data: &CObject) -> (r: Option<String>)
    ensures
        match r {
            Some(s) => json_text(*data) == Some(s@),
            None => json_text(*data) is None,
        },
{
    match as_text(data) {
        Some(v) => Some(String::from_str(v)),
        None => None,
    }
}

/// Whether `data` is of `data_type`; with `should_panic`, a mismatch is
/// reported as `InvalidArgument`.
pub fn json_check_type(data_type: CDataType, data: &CObject, should_panic: bool) -> (r: Result<
    bool,
    CError,
>)
    ensures
        r == checked(json_type_matches(data_type, *data), should_panic),
{
    let answer = match data_type {
        CDataType::Array => is_array(data),
        CDataType::Boolean => is_boolean(data),
        CDataType::Empty => is_empty(data),
        CDataType::Null => is_null(data),
        CDataType::Number => is_number(data),
        CDataType::Object => is_object(data),
        CDataType::String => is_string(data),
    };
    if should_panic && !answer {
        Err(CError::InvalidArgument)
    } else {
        Ok(answer)
    }
}

/// An empty JSON array.
pub fn json_create_array() -> (r: CObject)
    ensures
        json_is_array(r),
{
    new_array()
}

/// An empty JSON object.
pub fn json_create_object() -> (r: CObject)
    ensures
        json_is_object(r),
        json_entries(r) == empty_entries(),
{
    new_object()
}

/// Whether an object has `key`; with `should_panic`, a missing key is
/// reported as `InvalidArgument`.
pub fn json_has_key(data: &CObject, key: &str, should_panic: bool) -> (r: Result<bool, CError>)
    ensures
        r == checked(json_is_object(*data) && json_entries(*data).contains_key(key@), should_panic),
{
    let answer = has_key(data, key);
    if should_panic && !answer {
        Err(CError::InvalidArgument)
    } else {
        Ok(answer)
    }
}

/// The value that JSON text denotes, where it is JSON; none for a text
/// longer than `JSON_TEXT_LIMIT` characters.
pub fn json_parse(data: &str) -> (r: Option<CObject>)
    ensures
        data@.len() <= JSON_TEXT_LIMIT ==> (r is Some <==> json_parses(data@)),
        data@.len() > JSON_TEXT_LIMIT ==> r is None,
{
    if data.unicode_len() > JSON_TEXT_LIMIT {
        None
    } else {
        parse(data)
    }
}

/// The compact JSON text of a value.
pub fn json_stringify(data: CObject) -> (r: String)
    ensures
        r@ == json_dump_of(data),
{
    dump(&data)
}

/// Whether `data` is an absolute URL; with `should_panic`, an invalid one
/// is reported as `InvalidArgument`.
pub fn json_valid_url(data: &str, should_panic: bool) -> (r: Result<bool, CError>)
    ensures
        r == checked(url_parses(data@), should_panic),
{
    let answer = parses_as_url(data);
    if should_panic && !answer {
        Err(CError::InvalidArgument)
    } else {
        Ok(answer)
    }
}

/// Text that reads as yes or no.
pub trait CTruthyString {
    /// Whether this value is text that counts as yes.
    fn as_truthy(&self) -> bool;

    /// Whether `data` counts as yes, ignoring case.
    fn is_truthy(data: &str) -> bool;
}

impl CTruthyString for json::JsonValue {
    /// A JSON string counts as yes when its text does; any other value does
    /// not.
    fn as_truthy(&self) -> (r: bool)
        ensures
            r == (json_text(*self) matches Some(t) && truthy_text(lower_of(t))),
    {
        match as_text(self) {
            Some(s) => crate::console::is_truthy(s),
            None => false,
        }
    }

    fn is_truthy(data: &str) -> (r: bool)
        ensures
            r == truthy_text(lower_of(data@)),
    {
        crate::console::is_truthy(data)
    }
}

} // verus!
