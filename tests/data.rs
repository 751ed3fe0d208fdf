use codemelted::websocket::{frame_of, WsFrame};
use codemelted::data::file_contents;
use codemelted::fetch::{fetch_body_kind, fetch_body_kind_lowered, fetch_status_ok, CFetchBody};
use codemelted::hw::{serial_request, CSerialRequest};
use codemelted::data::{
    hw_open_bluetooth_device, network_web_rtc, npu_compute, CError, CFileContents, CMathFormula,
    CWebSocketData,
};
use codemelted::runtime::{
    count_or_one, home_variable, or_undetermined, runtime_cpu_count, runtime_home_path,
    runtime_hostname, runtime_kernel_version, runtime_newline, runtime_os_name,
    runtime_os_version, runtime_path_separator, runtime_user, user_variable, CPlatform,
};

#[test]
fn file_contents_accessors() {
    let b = CFileContents::Bytes(vec![1, 2, 3]);
    let s = CFileContents::String(String::from("abc"));
    assert_eq!(b.as_bytes(), Some(vec![1, 2, 3]));
    assert_eq!(b.as_string(), None);
    assert_eq!(s.as_bytes(), None);
    assert_eq!(s.as_string(), Some(String::from("abc")));
}

#[test]
fn web_socket_data_accessors() {
    let b = CWebSocketData::Bytes(vec![9]);
    let s = CWebSocketData::String(String::from("hi"));
    assert_eq!(b.data_as_bytes(), Some(vec![9]));
    assert_eq!(b.data_as_string(), None);
    assert_eq!(s.data_as_string(), Some(String::from("hi")));
    assert_eq!(s.data_as_bytes(), None);
    assert_eq!(CWebSocketData::NoData.data_as_bytes(), None);
    assert_eq!(CWebSocketData::NoData.data_as_string(), None);
}

#[test]
fn reserved_features_report_not_implemented() {
    assert_eq!(hw_open_bluetooth_device(), Err(CError::NotImplemented));
    assert_eq!(network_web_rtc(), Err(CError::NotImplemented));
    assert_eq!(npu_compute(), Err(CError::NotImplemented));
}

#[test]
fn math_formula_arity() {
    assert_eq!(CMathFormula::GeodeticSpeed.arg_count(), 6);
    assert_eq!(CMathFormula::GeodeticDistance.arg_count(), 4);
    assert_eq!(CMathFormula::TemperatureKelvinToCelsius.arg_count(), 1);
}

#[test]
fn runtime_platform_conventions() {
    assert_eq!(runtime_newline(CPlatform::Windows), "\r\n");
    assert_eq!(runtime_newline(CPlatform::Unix), "\n");
    assert_eq!(runtime_path_separator(CPlatform::Windows), "\\");
    assert_eq!(runtime_path_separator(CPlatform::Unix), "/");
    assert_eq!(home_variable(CPlatform::Windows), "USERPROFILE");
    assert_eq!(home_variable(CPlatform::Unix), "HOME");
    assert_eq!(user_variable(CPlatform::Windows), "USERNAME");
    assert_eq!(user_variable(CPlatform::Unix), "USER");
}

#[test]
fn runtime_environment_values() {
    assert_eq!(runtime_home_path(Some(String::from("/home/a"))), Ok(String::from("/home/a")));
    assert_eq!(runtime_home_path(None), Err(CError::Unavailable));
    assert_eq!(runtime_user(Some(String::from("a"))), "a");
    assert_eq!(runtime_user(None), "UNDETERMINED");
}

#[test]
fn file_contents_from_bytes() {
    assert_eq!(file_contents(vec![0xff, 1], false).ok().unwrap().as_bytes(), Some(vec![0xff, 1]));
    assert_eq!(
        file_contents(vec![0x68, 0x69], true).ok().unwrap().as_string(),
        Some(String::from("hi"))
    );
    assert_eq!(file_contents(vec![0xff], true).err(), Some(CError::InvalidArgument));
}

#[test]
fn fetch_body_kinds() {
    assert_eq!(fetch_body_kind("Application/Octet-Stream"), CFetchBody::Bytes);
    assert_eq!(fetch_body_kind("IMAGE/png"), CFetchBody::Bytes);
    assert_eq!(fetch_body_kind("application/JSON; charset=utf-8"), CFetchBody::Json);
    assert_eq!(fetch_body_kind("text/html"), CFetchBody::Text);
    assert_eq!(fetch_body_kind(""), CFetchBody::Text);
    assert_eq!(fetch_body_kind_lowered("APPLICATION/JSON"), CFetchBody::Text);
}

#[test]
fn serial_request_names() {
    assert_eq!(serial_request("baud_rate"), Some(CSerialRequest::BaudRate));
    assert_eq!(serial_request("data_bits"), Some(CSerialRequest::DataBits));
    assert_eq!(serial_request("timeout"), Some(CSerialRequest::Timeout));
    assert_eq!(serial_request("data_bytes"), Some(CSerialRequest::DataBytes));
    assert_eq!(serial_request("ring_indicator"), Some(CSerialRequest::RingIndicator));
    assert_eq!(serial_request("duration"), None);
    assert_eq!(serial_request(""), None);
}

#[test]
fn fetch_response_accessors() {
    let r = codemelted::fetch::CFetchResponse::new(
        200,
        "OK",
        Some(vec![1, 2]),
        json::parse("{\"a\":1}").ok(),
        Some(String::from("body")),
    );
    assert_eq!(r.status(), 200);
    assert_eq!(r.status_text(), "OK");
    assert_eq!(r.data_as_bytes(), Some(vec![1, 2]));
    assert_eq!(r.data_as_json().map(|v| v.dump()), Some(String::from("{\"a\":1}")));
    assert_eq!(r.data_as_string(), Some(String::from("body")));
    let e = codemelted::fetch::CFetchResponse::new(418, "teapot", None, None, None);
    assert_eq!(e.status(), 418);
    assert_eq!(e.data_as_bytes(), None);
    assert!(e.data_as_json().is_none());
    assert_eq!(e.data_as_string(), None);
}

#[test]
fn runtime_reported_values() {
    assert_eq!(or_undetermined(Some(String::from("linux"))), "linux");
    assert_eq!(or_undetermined(None), "UNDETERMINED");
    assert_eq!(count_or_one(Some(8)), 8);
    assert_eq!(count_or_one(None), 1);
    assert!(runtime_cpu_count() >= 1);
    assert!(!runtime_os_name().is_empty());
    assert!(!runtime_hostname().is_empty());
    assert!(!runtime_kernel_version().is_empty());
    assert!(!runtime_os_version().is_empty());
}

#[test]
fn fetch_status_range() {
    assert!(fetch_status_ok(200));
    assert!(fetch_status_ok(299));
    assert!(!fetch_status_ok(199));
    assert!(!fetch_status_ok(300));
    assert!(!fetch_status_ok(404));
}

#[test]
fn web_socket_frames() {
    assert!(frame_of(CWebSocketData::NoData).is_none());
    assert!(matches!(
        frame_of(CWebSocketData::String(String::from("hi"))),
        Some(WsFrame::Text(t)) if t == "hi"
    ));
    assert!(matches!(
        frame_of(CWebSocketData::Bytes(vec![1, 2])),
        Some(WsFrame::Binary(b)) if b == vec![1, 2]
    ));
}
