use codemelted::data::{CDataType, CError};
use codemelted::json::{
    json_as_bool, json_as_string, json_check_type, json_create_array, json_create_object,
    json_has_key, json_parse, json_stringify, json_valid_url,
};

#[test]
fn json_type_checks() {
    let arr = json_create_array();
    let obj = json_create_object();
    assert_eq!(json_check_type(CDataType::Array, &arr, false), Ok(true));
    assert_eq!(json_check_type(CDataType::Object, &arr, false), Ok(false));
    assert_eq!(json_check_type(CDataType::Object, &arr, true), Err(CError::InvalidArgument));
    assert_eq!(json_check_type(CDataType::Object, &obj, true), Ok(true));
    assert_eq!(json_check_type(CDataType::Empty, &obj, false), Ok(true));
    let n = json_parse("12").unwrap();
    assert_eq!(json_check_type(CDataType::Number, &n, false), Ok(true));
    let s = json_parse("\"hi\"").unwrap();
    assert_eq!(json_check_type(CDataType::String, &s, false), Ok(true));
    let b = json_parse("true").unwrap();
    assert_eq!(json_check_type(CDataType::Boolean, &b, false), Ok(true));
    let z = json_parse("null").unwrap();
    assert_eq!(json_check_type(CDataType::Null, &z, false), Ok(true));
}

#[test]
fn json_values_read_back() {
    let b = json_parse("true").unwrap();
    assert!(json_as_bool(&b));
    assert!(!json_as_bool(&json_parse("1").unwrap()));
    assert_eq!(json_as_string(&json_parse("\"x\"").unwrap()), Some(String::from("x")));
    assert_eq!(json_as_string(&b), None);
    assert!(json_parse("{bad").is_none());
    let obj = json_parse("{\"a\": [1, 2]}").unwrap();
    assert_eq!(json_has_key(&obj, "a", false), Ok(true));
    assert_eq!(json_has_key(&obj, "b", false), Ok(false));
    assert_eq!(json_has_key(&obj, "b", true), Err(CError::InvalidArgument));
    assert_eq!(json_stringify(obj), "{\"a\":[1,2]}");
    assert_eq!(json_stringify(json_create_array()), "[]");
}

#[test]
fn url_validation() {
    assert_eq!(json_valid_url("https://codemelted.com", false), Ok(true));
    assert_eq!(json_valid_url("not a url", false), Ok(false));
    assert_eq!(json_valid_url("not a url", true), Err(CError::InvalidArgument));
}

#[test]
fn json_long_text_is_refused() {
    let mut long = String::from("0.");
    long.push_str(&"0".repeat(32769));
    assert!(json_parse(&long).is_none());
    let mut fits = String::from("0.");
    fits.push_str(&"0".repeat(32766));
    assert!(json_parse(&fits).is_some());
}
