//! Plain value types shared by the disk, JSON, network and math helpers.

use vstd::prelude::*;
use crate::text::utf8_to_string;

verus! {

/// The kind of filesystem entry a query looks for.
#[derive(Clone, Copy, Debug, PartialEq, Eq, Structural)]
pub enum CDiskType {
    Either,
    Directory,
    File,
}

/// The contents of a file, read as raw bytes or as text.
pub enum CFileContents {
    Bytes(Vec<u8>),
    String(String),
}

impl CFileContents {
    /// The bytes, where the contents were read as bytes.
    pub fn as_bytes(&self) -> (r: Option<Vec<u8>>)
        ensures
            match self {
                CFileContents::Bytes(b) => r matches Some(v) && v@ == b@,
                CFileContents::String(_) => r is None,
            },
    {
        match self {
            CFileContents::Bytes(items) => Some(copy_bytes(items)),
            CFileContents::String(_) => None,
        }
    }

    /// The text, where the contents were read as text.
    pub fn as_string(&self) -> (r: Option<String>)
        ensures
            match self {
                CFileContents::Bytes(_) => r is None,
                CFileContents::String(s) => r matches Some(v) && v@ == s@,
            },
    {
        match self {
            CFileContents::Bytes(_) => None,
            CFileContents::String(v) => Some(v.clone()),
        }
    }
}

/// A message exchanged over a web socket.
pub enum CWebSocketData {
    /// No message was waiting.
    NoData,
    Bytes(Vec<u8>),
    String(String),
}

impl CWebSocketData {
    /// The bytes of a binary message.
    pub fn data_as_bytes(&self) -> (r: Option<Vec<u8>>)
        ensures
            match self {
                CWebSocketData::Bytes(b) => r matches Some(v) && v@ == b@,
                _ => r is None,
            },
    {
        match self {
            CWebSocketData::Bytes(items) => Some(copy_bytes(items)),
            _ => None,
        }
    }

    /// The text of a text message.
    pub fn data_as_string(&self) -> (r: Option<String>)
        ensures
            match self {
                CWebSocketData::String(s) => r matches Some(v) && v@ == s@,
                _ => r is None,
            },
    {
        match self {
            CWebSocketData::String(v) => Some(v.clone()),
            _ => None,
        }
    }
}

/// A copy of `b`, element by element.
pub fn copy_bytes(b: &Vec<u8>) -> (r: Vec<u8>)
    ensures
        r@ == b@,
{
    let mut r: Vec<u8> = Vec::new();
    let mut i: usize = 0;
    while i < b.len()
        invariant
            i <= b.len(),
            r@ == b@.subrange(0, i as int),
        decreases b.len() - i,
    {
        r.push(b[i]);
        i += 1;
    }
    assert(b@.subrange(0, b.len() as int) =~= b@);
    r
}

/// File contents from the bytes read: the bytes themselves, or, with
/// `is_string`, the text they encode, which must be well-formed UTF-8.
pub fn file_contents(data: Vec<u8>, is_string: bool) -> (r: Result<CFileContents, CError>)
    ensures
        !is_string ==> (r matches Ok(CFileContents::Bytes(b)) && b@ == data@),
        is_string && vstd::utf8::valid_utf8(data@) ==> (r matches Ok(CFileContents::String(s))
            && s@ == vstd::utf8::decode_utf8(data@)),
        is_string && !vstd::utf8::valid_utf8(data@) ==> r == Err::<CFileContents, CError>(
            CError::InvalidArgument,
        ),
{
    if !is_string {
        Ok(CFileContents::Bytes(data))
    } else {
        match utf8_to_string(data) {
            Some(s) => Ok(CFileContents::String(s)),
            None => Err(CError::InvalidArgument),
        }
    }
}

/// The JSON types that a value can be checked against.
#[derive(Clone, Copy, Debug, PartialEq, Eq, Structural)]
pub enum CDataType {
    Array,
    Boolean,
    Empty,
    Null,
    Number,
    Object,
    String,
}

/// The HTTP method of a fetch request.
#[derive(Clone, Copy, Debug, PartialEq, Eq, Structural)]
pub enum CFetchAction {
    Delete,
    Get,
    Post,
    Put,
}

/// The formulas that the math helper evaluates.
#[derive(Clone, Copy, Debug, PartialEq, Eq, Structural)]
pub enum CMathFormula {
    GeodeticDistance,
    GeodeticHeading,
    GeodeticSpeed,
    TemperatureCelsiusToFahrenheit,
    TemperatureCelsiusToKelvin,
    TemperatureFahrenheitToCelsius,
    TemperatureFahrenheitToKelvin,
    TemperatureKelvinToCelsius,
    TemperatureKelvinToFahrenheit,
}

impl CMathFormula {
    /// How many arguments the formula takes.
    pub fn arg_count(&self) -> (r: usize)
        ensures
            r == formula_arity(*self),
    {
        match self {
            CMathFormula::GeodeticDistance => 4,
            CMathFormula::GeodeticHeading => 4,
            CMathFormula::GeodeticSpeed => 6,
            _ => 1,
        }
    }
}

pub open spec fn formula_arity(f: CMathFormula) -> nat {
    match f {
        CMathFormula::GeodeticDistance => 4,
        CMathFormula::GeodeticHeading => 4,
        CMathFormula::GeodeticSpeed => 6,
        _ => 1,
    }
}

/// Why a request could not be served.
#[derive(Clone, Copy, Debug, PartialEq, Eq, Structural)]
pub enum CError {
    /// The feature is reserved for a future version.
    NotImplemented,
    /// An input was outside what the operation accepts.
    InvalidArgument,
    /// Data that was read back is not in the expected format.
    Corrupt,
    /// A value that the environment should provide is missing.
    Unavailable,
    /// A text is longer than the reader accepts.
    TooLong,
}

/// Opening a Bluetooth device is reserved for a future version.
pub fn hw_open_bluetooth_device() -> (r: Result<(), CError>)
    ensures
        r == Err::<(), CError>(CError::NotImplemented),
{
    Err(CError::NotImplemented)
}

/// WebRTC is reserved for a future version.
pub fn network_web_rtc() -> (r: Result<(), CError>)
    ensures
        r == Err::<(), CError>(CError::NotImplemented),
{
    Err(CError::NotImplemented)
}

/// Offloaded computation is reserved for a future version.
pub fn npu_compute() -> (r: Result<(), CError>)
    ensures
        r == Err::<(), CError>(CError::NotImplemented),
{
    Err(CError::NotImplemented)
}

} // verus!
