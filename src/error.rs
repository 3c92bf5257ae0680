use vstd::prelude::*;

verus! {

/// Failures of the display connection.
#[derive(Debug, Copy, Clone, PartialEq, Eq, Structural)]
pub enum XError {
    /// No display session could be opened.
    DisplayConnectionError,
    /// A synthesized event could not be sent.
    WireProtocolFailed,
}

impl XError {
    /// A sentence that describes the failure.
    pub fn message(&self) -> (r: &'static str)
        ensures
            r@ == (match *self {
                XError::DisplayConnectionError => "Couldn't connect to XDisplay server"@,
                XError::WireProtocolFailed => "Conversion to wire protocol format failed for XSendEvent"@,
            }),
    {
        match self {
            XError::DisplayConnectionError => "Couldn't connect to XDisplay server",
            XError::WireProtocolFailed => "Conversion to wire protocol format failed for XSendEvent",
        }
    }
}

} // verus!
