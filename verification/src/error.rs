//! The library's error type: why listing devices or connecting to one
//! failed, and the flat message each failure is reported as.

use vstd::prelude::*;

verus! {

/// Why listing devices or connecting to one failed.
pub enum ConnectError {
    /// Querying the host for attached devices failed; carries the underlying
    /// failure's message.
    Enumeration(String),
    /// No device of the fresh enumeration is addressed by the requested
    /// port; carries the requested port name.
    DeviceNotFound(String),
    /// Opening the serial connection failed; carries the underlying
    /// failure's message.
    Connection(String),
}

/// Relies on std's string formatting: the result is the two pieces, in
/// order, and nothing else.
#[verifier::external_body]
fn concat_strs(a: &str, b: &str) -> (r: String)
    ensures
        r@ == a@ + b@,
{
    format!("{a}{b}")
}

impl ConnectError {
    /// The flat message the failure is reported as at the boundary: the
    /// underlying message for enumeration and connection failures, and a
    /// sentence naming the requested port when no device matched it.
    pub fn message(&self) -> (r: String)
        ensures
            self matches ConnectError::Enumeration(m) ==> r@ == m@,
            self matches ConnectError::DeviceNotFound(p) ==> r@ == "No Vex device found at port "@
                + p@,
            self matches ConnectError::Connection(m) ==> r@ == m@,
    {
        match self {
            ConnectError::Enumeration(m) => m.clone(),
            ConnectError::DeviceNotFound(p) => concat_strs(
                "No Vex device found at port ",
                p.as_str(),
            ),
            ConnectError::Connection(m) => m.clone(),
        }
    }
}

} // verus!
