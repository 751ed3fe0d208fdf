//! Serial-port data and the requests that a serial port answers.

use vstd::prelude::*;
use crate::data::copy_bytes;
use crate::text::str_equals;

verus! {

/// A setting or line state that can be read from a serial port.
#[derive(Clone, Copy, Debug, PartialEq, Eq, Structural)]
pub enum CSerialRequest {
    BaudRate,
    DataBits,
    FlowControl,
    Parity,
    StopBits,
    Timeout,
    CarrierDetect,
    ClearToSend,
    DataSetReady,
    RingIndicator,
    DataBytes,
}

/// The request that each name selects.
pub open spec fn serial_request_of(name: Seq<char>) -> Option<CSerialRequest> {
    if name == "baud_rate"@ {
        Some(CSerialRequest::BaudRate)
    } else if name == "data_bits"@ {
        Some(CSerialRequest::DataBits)
    } else if name == "flow_control"@ {
        Some(CSerialRequest::FlowControl)
    } else if name == "parity"@ {
        Some(CSerialRequest::Parity)
    } else if name == "stop_bits"@ {
        Some(CSerialRequest::StopBits)
    } else if name == "timeout"@ {
        Some(CSerialRequest::Timeout)
    } else if name == "carrier_detect"@ {
        Some(CSerialRequest::CarrierDetect)
    } else if name == "clear_to_send"@ {
        Some(CSerialRequest::ClearToSend)
    } else if name == "data_set_ready"@ {
        Some(CSerialRequest::DataSetReady)
    } else if name == "ring_indicator"@ {
        Some(CSerialRequest::RingIndicator)
    } else if name == "data_bytes"@ {
        Some(CSerialRequest::DataBytes)
    } else {
        None
    }
}

/// The request that `name` selects; none for an unknown name.
pub fn serial_request(name: &str) -> (r: Option<CSerialRequest>)
    ensures
        r == serial_request_of(name@),
{
    if str_equals(name, "baud_rate") {
        Some(CSerialRequest::BaudRate)
    } else if str_equals(name, "data_bits") {
        Some(CSerialRequest::DataBits)
    } else if str_equals(name, "flow_control") {
        Some(CSerialRequest::FlowControl)
    } else if str_equals(name, "parity") {
        Some(CSerialRequest::Parity)
    } else if str_equals(name, "stop_bits") {
        Some(CSerialRequest::StopBits)
    } else if str_equals(name, "timeout") {
        Some(CSerialRequest::Timeout)
    } else if str_equals(name, "carrier_detect") {
        Some(CSerialRequest::CarrierDetect)
    } else if str_equals(name, "clear_to_send") {
        Some(CSerialRequest::ClearToSend)
    } else if str_equals(name, "data_set_ready") {
        Some(CSerialRequest::DataSetReady)
    } else if str_equals(name, "ring_indicator") {
        Some(CSerialRequest::RingIndicator)
    } else if str_equals(name, "data_bytes") {
        Some(CSerialRequest::DataBytes)
    } else {
        None
    }
}

#[verifier::external_type_specification]
#[verifier::external_body]
pub struct ExDataBits(serialport::DataBits);

#[verifier::external_type_specification]
#[verifier::external_body]
pub struct ExFlowControl(serialport::FlowControl);

#[verifier::external_type_specification]
#[verifier::external_body]
pub struct ExParity(serialport::Parity);

#[verifier::external_type_specification]
#[verifier::external_body]
pub struct ExStopBits(serialport::StopBits);

#[verifier::external_type_specification]
#[verifier::external_body]
pub struct ExClearBuffer(serialport::ClearBuffer);

/// A setting, line state or data exchanged with a serial port.
#[derive(Debug)]
pub enum CSerialPortData {
    BaudRate(Option<u32>),
    DataBits(Option<serialport::DataBits>),
    FlowControl(Option<serialport::FlowControl>),
    Parity(Option<serialport::Parity>),
    StopBits(Option<serialport::StopBits>),
    Timeout(Option<std::time::Duration>),
    Break(Option<bool>),
    ClearBuffer(Option<serialport::ClearBuffer>),
    CarrierDetect(Option<bool>),
    ClearToSend(Option<bool>),
    DataSetReady(Option<bool>),
    DataTerminalReady(Option<bool>),
    RequestToSend(Option<bool>),
    RingIndicator(Option<bool>),
    DataBytes(Option<Vec<u8>>),
}

/// The flag that a line-state variant carries.
pub open spec fn serial_flag(d: CSerialPortData) -> Option<bool> {
    match d {
        CSerialPortData::Break(v) => v,
        CSerialPortData::CarrierDetect(v) => v,
        CSerialPortData::ClearToSend(v) => v,
        CSerialPortData::DataSetReady(v) => v,
        CSerialPortData::DataTerminalReady(v) => v,
        CSerialPortData::RequestToSend(v) => v,
        CSerialPortData::RingIndicator(v) => v,
        _ => None,
    }
}

/// The request name that reads each kind of data back, where there is one.
pub open spec fn serial_request_name(d: CSerialPortData) -> Option<Seq<char>> {
    match d {
        CSerialPortData::BaudRate(_) => Some("baud_rate"@),
        CSerialPortData::DataBits(_) => Some("data_bits"@),
        CSerialPortData::FlowControl(_) => Some("flow_control"@),
        CSerialPortData::Parity(_) => Some("parity"@),
        CSerialPortData::StopBits(_) => Some("stop_bits"@),
        CSerialPortData::Timeout(_) => Some("timeout"@),
        CSerialPortData::CarrierDetect(_) => Some("carrier_detect"@),
        CSerialPortData::ClearToSend(_) => Some("clear_to_send"@),
        CSerialPortData::DataSetReady(_) => Some("data_set_ready"@),
        CSerialPortData::RingIndicator(_) => Some("ring_indicator"@),
        CSerialPortData::DataBytes(_) => Some("data_bytes"@),
        _ => None,
    }
}

/// Every kind of data that has a request name can be read back with it: the
/// name is one that `serial_request` recognises.
pub proof fn lemma_serial_request_round_trip(d: CSerialPortData)
    ensures
        serial_request_name(d) matches Some(n) ==> serial_request_of(n) is Some,
{
    reveal_strlit("baud_rate");
    reveal_strlit("data_bits");
    reveal_strlit("flow_control");
    reveal_strlit("parity");
    reveal_strlit("stop_bits");
    reveal_strlit("timeout");
    reveal_strlit("carrier_detect");
    reveal_strlit("clear_to_send");
    reveal_strlit("data_set_ready");
    reveal_strlit("ring_indicator");
    reveal_strlit("data_bytes");
}

impl CSerialPortData {
    /// The flag of a line-state variant.
    pub fn as_bool(&self) -> (r: Option<bool>)
        ensures
            r == serial_flag(*self),
    {
        match self {
            CSerialPortData::Break(v) => *v,
            CSerialPortData::CarrierDetect(v) => *v,
            CSerialPortData::ClearToSend(v) => *v,
            CSerialPortData::DataSetReady(v) => *v,
            CSerialPortData::DataTerminalReady(v) => *v,
            CSerialPortData::RequestToSend(v) => *v,
            CSerialPortData::RingIndicator(v) => *v,
            _ => None,
        }
    }

    /// The bytes of a data variant.
    pub fn as_bytes(&self) -> (r: Option<Vec<u8>>)
        ensures
            match self {
                CSerialPortData::DataBytes(Some(b)) => r matches Some(v) && v@ == b@,
                _ => r is None,
            },
    {
        match self {
            CSerialPortData::DataBytes(Some(items)) => Some(copy_bytes(items)),
            _ => None,
        }
    }

    pub fn as_data_bits(&self) -> (r: Option<serialport::DataBits>)
        ensures
            r == (match self {
                CSerialPortData::DataBits(v) => *v,
                _ => None,
            }),
    {
        match self {
            CSerialPortData::DataBits(data_bits) => *data_bits,
            _ => None,
        }
    }

    pub fn as_flow_control(&self) -> (r: Option<serialport::FlowControl>)
        ensures
            r == (match self {
                CSerialPortData::FlowControl(v) => *v,
                _ => None,
            }),
    {
        match self {
            CSerialPortData::FlowControl(flow_control) => *flow_control,
            _ => None,
        }
    }

    pub fn as_parity(&self) -> (r: Option<serialport::Parity>)
        ensures
            r == (match self {
                CSerialPortData::Parity(v) => *v,
                _ => None,
            }),
    {
        match self {
            CSerialPortData::Parity(parity) => *parity,
            _ => None,
        }
    }

    pub fn as_stop_bits(&self) -> (r: Option<serialport::StopBits>)
        ensures
            r == (match self {
                CSerialPortData::StopBits(v) => *v,
                _ => None,
            }),
    {
        match self {
            CSerialPortData::StopBits(stop_bits) => *stop_bits,
            _ => None,
        }
    }

    pub fn as_timeout(&self) -> (r: Option<std::time::Duration>)
        ensures
            r == (match self {
                CSerialPortData::Timeout(v) => *v,
                _ => None,
            }),
    {
        match self {
            CSerialPortData::Timeout(v) => *v,
            _ => None,
        }
    }

    pub fn as_u32(&self) -> (r: Option<u32>)
        ensures
            r == (match self {
                CSerialPortData::BaudRate(v) => *v,
                _ => None,
            }),
    {
        match self {
            CSerialPortData::BaudRate(v) => *v,
            _ => None,
        }
    }

    /// The request name that reads this kind of data back from a port.
    pub fn get_message_request(&self) -> (r: Option<&str>)
        ensures
            match r {
                Some(s) => serial_request_name(*self) == Some(s@),
                None => serial_request_name(*self) is None,
            },
    {
        match self {
            CSerialPortData::BaudRate(_) => Some("baud_rate"),
            CSerialPortData::DataBits(_) => Some("data_bits"),
            CSerialPortData::FlowControl(_) => Some("flow_control"),
            CSerialPortData::Parity(_) => Some("parity"),
            CSerialPortData::StopBits(_) => Some("stop_bits"),
            CSerialPortData::Timeout(_) => Some("timeout"),
            CSerialPortData::CarrierDetect(_) => Some("carrier_detect"),
            CSerialPortData::ClearToSend(_) => Some("clear_to_send"),
            CSerialPortData::DataSetReady(_) => Some("data_set_ready"),
            CSerialPortData::RingIndicator(_) => Some("ring_indicator"),
            CSerialPortData::DataBytes(_) => Some("data_bytes"),
            _ => None,
        }
    }
}

} // verus!
