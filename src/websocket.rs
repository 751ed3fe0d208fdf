//! A web socket connection behind the protocol handler contract.
//!
//! The connection itself is rouille's; what it delivers depends on the
//! peer. This handle decides what each request yields once the connection
//! was terminated or a message cannot be sent.

use vstd::prelude::*;
use crate::data::CWebSocketData;
use crate::protocol::{CProtocolError, CProtocolHandler};

verus! {

#[verifier::external_type_specification]
#[verifier::external_body]
pub struct ExWebsocket(rouille::websocket::Websocket);

/// Relies on rouille's `Websocket` iterator: the next message, or none once
/// the connection is closed.
#[verifier::external_body]
fn receive(socket: &mut rouille::websocket::Websocket) -> (r: CWebSocketData) {
    match socket.next() {
        Some(rouille::websocket::Message::Text(v)) => CWebSocketData::String(v),
        Some(rouille::websocket::Message::Binary(b)) => CWebSocketData::Bytes(b),
        None => CWebSocketData::NoData,
    }
}

/// Relies on `Websocket::send_text`: whether the text was sent.
#[verifier::external_body]
fn send_text(socket: &mut rouille::websocket::Websocket, data: &str) -> (r: bool) {
    socket.send_text(data).is_ok()
}

/// Relies on `Websocket::send_binary`: whether the bytes were sent.
#[verifier::external_body]
fn send_binary(socket: &mut rouille::websocket::Websocket, data: &[u8]) -> (r: bool) {
    socket.send_binary(data).is_ok()
}

/// Whether either side has closed the connection.
pub uninterp spec fn ws_closed(socket: rouille::websocket::Websocket) -> bool;

/// Relies on `Websocket::is_closed`: whether either side closed the
/// connection, which the socket records.
#[verifier::external_body]
fn is_closed(socket: &rouille::websocket::Websocket) -> (r: bool)
    ensures
        r == ws_closed(*socket),
{
    socket.is_closed()
}

/// What goes over the socket for one message.
pub enum WsFrame {
    Text(String),
    Binary(Vec<u8>),
}

/// The frame that carries `data`: its text or its bytes; none for `NoData`,
/// which is no message.
pub fn frame_of(data: CWebSocketData) -> (r: Option<WsFrame>)
    ensures
        match data {
            CWebSocketData::NoData => r is None,
            CWebSocketData::String(t) => r matches Some(WsFrame::Text(f)) && f@ == t@,
            CWebSocketData::Bytes(b) => r matches Some(WsFrame::Binary(f)) && f@ == b@,
        },
{
    match data {
        CWebSocketData::NoData => None,
        CWebSocketData::String(t) => Some(WsFrame::Text(t)),
        CWebSocketData::Bytes(b) => Some(WsFrame::Binary(b)),
    }
}

/// A web socket connection that its owner may terminate.
pub struct CWebSocketProtocol {
    id: String,
    socket: Option<rouille::websocket::Websocket>,
}

impl CWebSocketProtocol {
    pub closed spec fn id_view(&self) -> Seq<char> {
        self.id@
    }

    /// Whether the handle still holds its connection.
    pub closed spec fn is_open(&self) -> bool {
        self.socket is Some
    }

    /// Whether the handle holds a connection that neither side closed.
    pub closed spec fn is_connected(&self) -> bool {
        match self.socket {
            Some(s) => !ws_closed(s),
            None => false,
        }
    }

    /// A handle named `id` on an upgraded connection.
    pub fn new(id: &str, socket: rouille::websocket::Websocket) -> (r: Self)
        ensures
            r.id_view() == id@,
            r.is_open(),
    {
        CWebSocketProtocol { id: String::from_str(id), socket: Some(socket) }
    }
}

impl CProtocolHandler<CWebSocketData> for CWebSocketProtocol {
    fn id(&mut self) -> (r: String)
        ensures
            r@ == old(self).id_view(),
            final(self).id_view() == old(self).id_view(),
            final(self).is_open() == old(self).is_open(),
    {
        self.id.clone()
    }

    /// The next message, `NoData` when none came; `Closed` once terminated.
    fn get_message(&mut self, request: Option<&str>) -> (r: Result<CWebSocketData, CProtocolError>)
        ensures
            r is Ok <==> old(self).is_open(),
            r is Err ==> r == Err::<CWebSocketData, CProtocolError>(CProtocolError::Closed),
            final(self).id_view() == old(self).id_view(),
            final(self).is_open() == old(self).is_open(),
    {
        match self.socket.as_mut() {
            Some(socket) => Ok(receive(socket)),
            None => Err(CProtocolError::Closed),
        }
    }

    /// Running while the handle holds a connection that neither side closed.
    fn is_running(&self) -> (r: bool)
        ensures
            r == self.is_connected(),
            r ==> self.is_open(),
    {
        match self.socket.as_ref() {
            Some(socket) => !is_closed(socket),
            None => false,
        }
    }

    /// Sends text or bytes; `NoData` is not a message, and nothing is sent
    /// once terminated.
    fn post_message(&mut self, data: CWebSocketData) -> (r: Result<(), CProtocolError>)
        ensures
            !old(self).is_open() ==> r == Err::<(), CProtocolError>(CProtocolError::Closed),
            old(self).is_open() && data is NoData ==> r == Err::<(), CProtocolError>(
                CProtocolError::InvalidData,
            ),
            r is Err ==> r == Err::<(), CProtocolError>(CProtocolError::Closed) || r == Err::<
                (),
                CProtocolError,
            >(CProtocolError::InvalidData) || r == Err::<(), CProtocolError>(
                CProtocolError::Disconnected,
            ),
            r is Ok ==> old(self).is_open() && !(data is NoData),
            old(self).is_open() && !(data is NoData) ==> (r is Ok || r == Err::<(), CProtocolError>(
                CProtocolError::Disconnected,
            )),
            final(self).id_view() == old(self).id_view(),
            final(self).is_open() == old(self).is_open(),
    {
        let socket = match self.socket.as_mut() {
            Some(s) => s,
            None => {
                return Err(CProtocolError::Closed);
            },
        };
        let sent = match frame_of(data) {
            Some(WsFrame::Binary(b)) => send_binary(socket, b.as_slice()),
            Some(WsFrame::Text(t)) => send_text(socket, t.as_str()),
            None => {
                return Err(CProtocolError::InvalidData);
            },
        };
        if sent {
            Ok(())
        } else {
            Err(CProtocolError::Disconnected)
        }
    }

    /// Drops the connection; terminating again changes nothing.
    fn terminate(&mut self)
        ensures
            !final(self).is_open(),
            !final(self).is_connected(),
            final(self).id_view() == old(self).id_view(),
    {
        self.socket = None;
    }
}

} // verus!
