use codemelted::hw::{serial_request, CSerialPortData};

#[test]
fn serial_data_getters() {
    assert_eq!(CSerialPortData::Break(Some(true)).as_bool(), Some(true));
    assert_eq!(CSerialPortData::RingIndicator(Some(false)).as_bool(), Some(false));
    assert_eq!(CSerialPortData::BaudRate(Some(9600)).as_bool(), None);
    assert_eq!(CSerialPortData::BaudRate(Some(9600)).as_u32(), Some(9600));
    assert_eq!(CSerialPortData::DataBytes(Some(vec![1, 2])).as_bytes(), Some(vec![1, 2]));
    assert_eq!(CSerialPortData::DataBytes(None).as_bytes(), None);
    assert_eq!(
        CSerialPortData::DataBits(Some(serialport::DataBits::Eight)).as_data_bits(),
        Some(serialport::DataBits::Eight)
    );
    assert_eq!(
        CSerialPortData::Parity(Some(serialport::Parity::Odd)).as_parity(),
        Some(serialport::Parity::Odd)
    );
    assert_eq!(
        CSerialPortData::StopBits(Some(serialport::StopBits::Two)).as_stop_bits(),
        Some(serialport::StopBits::Two)
    );
    assert_eq!(
        CSerialPortData::FlowControl(Some(serialport::FlowControl::Hardware)).as_flow_control(),
        Some(serialport::FlowControl::Hardware)
    );
    assert_eq!(
        CSerialPortData::Timeout(Some(std::time::Duration::from_millis(5))).as_timeout(),
        Some(std::time::Duration::from_millis(5))
    );
    assert_eq!(CSerialPortData::Parity(None).as_stop_bits(), None);
}

#[test]
fn serial_data_request_names() {
    assert_eq!(CSerialPortData::BaudRate(None).get_message_request(), Some("baud_rate"));
    assert_eq!(CSerialPortData::Timeout(None).get_message_request(), Some("timeout"));
    assert_eq!(CSerialPortData::DataBytes(None).get_message_request(), Some("data_bytes"));
    assert_eq!(CSerialPortData::Break(None).get_message_request(), None);
    assert_eq!(CSerialPortData::RequestToSend(None).get_message_request(), None);
}

#[test]
fn serial_request_names_read_back() {
    let all = [
        CSerialPortData::BaudRate(None),
        CSerialPortData::DataBits(None),
        CSerialPortData::FlowControl(None),
        CSerialPortData::Parity(None),
        CSerialPortData::StopBits(None),
        CSerialPortData::Timeout(None),
        CSerialPortData::CarrierDetect(None),
        CSerialPortData::ClearToSend(None),
        CSerialPortData::DataSetReady(None),
        CSerialPortData::RingIndicator(None),
        CSerialPortData::DataBytes(None),
    ];
    for d in all.iter() {
        let name = d.get_message_request().unwrap();
        assert!(serial_request(name).is_some(), "{}", name);
    }
}
