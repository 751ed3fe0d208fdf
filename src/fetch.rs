//! How a fetch response's body is read, by its content type.

use vstd::prelude::*;
use crate::console::{lower_of, lowercase};
use crate::text::{has_substring, str_contains};
use crate::data::copy_bytes;
use crate::json::{clone_value, json_dump_of};

verus! {

/// How a response body is read.
#[derive(Clone, Copy, Debug, PartialEq, Eq, Structural)]
pub enum CFetchBody {
    /// Raw bytes: binary streams and images.
    Bytes,
    /// JSON text, parsed.
    Json,
    /// Any other body, as text.
    Text,
}

/// Whether an HTTP status is in the success range 200 to 299.
pub fn fetch_status_ok(status: u16) -> (r: bool)
    ensures
        r == (200 <= status && status <= 299),
{
    200 <= status && status <= 299
}

/// The body kind for a lower-cased content type.
pub open spec fn body_kind_of(lowered: Seq<char>) -> CFetchBody {
    if has_substring(lowered, "application/octet-stream"@) || has_substring(lowered, "image/"@) {
        CFetchBody::Bytes
    } else if has_substring(lowered, "application/json"@) {
        CFetchBody::Json
    } else {
        CFetchBody::Text
    }
}

/// The body kind for an already lower-cased content type.
pub fn fetch_body_kind_lowered(lowered: &str) -> (r: CFetchBody)
    ensures
        r == body_kind_of(lowered@),
{
    if str_contains(lowered, "application/octet-stream") || str_contains(lowered, "image/") {
        CFetchBody::Bytes
    } else if str_contains(lowered, "application/json") {
        CFetchBody::Json
    } else {
        CFetchBody::Text
    }
}

/// The body kind for a content type, ignoring case.
pub fn fetch_body_kind(content_type: &str) -> (r: CFetchBody)
    ensures
        r == body_kind_of(lower_of(content_type@)),
{
    let lowered = lowercase(content_type);
    fetch_body_kind_lowered(lowered.as_str())
}

/// The outcome of a fetch: its status and the body, read as bytes, JSON or
/// text according to its content type.
pub struct CFetchResponse {
    status: u16,
    status_text: String,
    data_as_bytes: Option<Vec<u8>>,
    data_as_json: Option<json::JsonValue>,
    data_as_string: Option<String>,
}

impl CFetchResponse {
    pub closed spec fn status_view(&self) -> u16 {
        self.status
    }

    pub closed spec fn status_text_view(&self) -> Seq<char> {
        self.status_text@
    }

    pub closed spec fn bytes_view(&self) -> Option<Seq<u8>> {
        match self.data_as_bytes {
            Some(b) => Some(b@),
            None => None,
        }
    }

    pub closed spec fn json_view(&self) -> Option<json::JsonValue> {
        self.data_as_json
    }

    pub closed spec fn string_view(&self) -> Option<Seq<char>> {
        match self.data_as_string {
            Some(s) => Some(s@),
            None => None,
        }
    }

    pub fn new(
        status: u16,
        status_text: &str,
        data_as_bytes: Option<Vec<u8>>,
        data_as_json: Option<json::JsonValue>,
        data_as_string: Option<String>,
    ) -> (r: Self)
        ensures
            r.status_view() == status,
            r.status_text_view() == status_text@,
            r.bytes_view() == (match data_as_bytes {
                Some(b) => Some(b@),
                None => None::<Seq<u8>>,
            }),
            r.json_view() == data_as_json,
            r.string_view() == (match data_as_string {
                Some(s) => Some(s@),
                None => None::<Seq<char>>,
            }),
    {
        CFetchResponse {
            status,
            status_text: String::from_str(status_text),
            data_as_bytes,
            data_as_json,
            data_as_string,
        }
    }

    pub fn status(&self) -> (r: u16)
        ensures
            r == self.status_view(),
    {
        self.status
    }

    pub fn status_text(&self) -> (r: String)
        ensures
            r@ == self.status_text_view(),
    {
        self.status_text.clone()
    }

    pub fn data_as_bytes(&self) -> (r: Option<Vec<u8>>)
        ensures
            match r {
                Some(b) => self.bytes_view() == Some(b@),
                None => self.bytes_view() is None,
            },
    {
        match &self.data_as_bytes {
            Some(b) => Some(copy_bytes(b)),
            None => None,
        }
    }

    /// A copy of the JSON body.
    pub fn data_as_json(&self) -> (r: Option<json::JsonValue>)
        ensures
            match r {
                Some(j) => self.json_view() matches Some(v) && json_dump_of(j) == json_dump_of(v),
                None => self.json_view() is None,
            },
    {
        match &self.data_as_json {
            Some(v) => Some(clone_value(v)),
            None => None,
        }
    }

    pub fn data_as_string(&self) -> (r: Option<String>)
        ensures
            match r {
                Some(s) => self.string_view() == Some(s@),
                None => self.string_view() is None,
            },
    {
        match &self.data_as_string {
            Some(s) => Some(s.clone()),
            None => None,
        }
    }
}

} // verus!
