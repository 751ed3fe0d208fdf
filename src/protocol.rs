//! The contract shared by every handle that runs in the background and
//! exchanges messages with its owner.

use vstd::prelude::*;

verus! {

/// Why a protocol handle refused a request.
#[derive(Clone, Copy, Debug, PartialEq, Eq, Structural)]
pub enum CProtocolError {
    /// The handle was terminated: it accepts no further messages.
    Closed,
    /// The background side has stopped and nothing is left to receive.
    Disconnected,
    /// The message is not one that the protocol can send.
    InvalidData,
}

impl CProtocolError {
    /// A short description of the error.
    pub fn as_string(&self) -> (r: String)
        ensures
            r@ == protocol_error_text(*self),
    {
        match self {
            CProtocolError::Closed => String::from_str("protocol closed"),
            CProtocolError::Disconnected => String::from_str("protocol disconnected"),
            CProtocolError::InvalidData => String::from_str("invalid data for protocol"),
        }
    }
}

/// The text that describes each protocol error.
pub open spec fn protocol_error_text(e: CProtocolError) -> Seq<char> {
    match e {
        CProtocolError::Closed => "protocol closed"@,
        CProtocolError::Disconnected => "protocol disconnected"@,
        CProtocolError::InvalidData => "invalid data for protocol"@,
    }
}

/// The capabilities of an object that runs in the background until it is
/// terminated, accepts messages in order and hands back what it produced.
///
/// `terminate` is idempotent and asks the background side to stop; a driver
/// that runs the background side on a thread waits in `terminate` until that
/// thread has stopped. Once the background side has stopped, `is_running`
/// stays false.
pub trait CProtocolHandler<T> {
    /// Identifies the protocol for debugging and reporting.
    fn id(&mut self) -> String;

    /// Retrieves whatever the background side has produced, without
    /// blocking. `request` selects among the outputs where there are several.
    fn get_message(&mut self, request: Option<&str>) -> Result<T, CProtocolError>;

    /// Whether the background side is still running.
    fn is_running(&self) -> bool;

    /// Queues `data` for the background side; order is preserved.
    fn post_message(&mut self, data: T) -> Result<(), CProtocolError>;

    /// Signals shutdown; see the trait's description for the wait.
    fn terminate(&mut self);
}

} // verus!
