//! The configuration error type and the fixed catalog of user-facing
//! messages.  Only these messages cross the response boundary; internal
//! detail stays inside the library.

use vstd::prelude::*;

verus! {

/// Fixed user-facing message for a malformed payment proof.
pub const INVALID_PAYMENT: &'static str = "Invalid payment payload";

/// Fixed user-facing message for a failed verification or settlement.
pub const PAYMENT_VERIFICATION_FAILED: &'static str = "Payment verification failed";

/// Fixed user-facing message for a server-side configuration fault.
pub const CONFIGURATION_ERROR: &'static str = "Server configuration error";

/// Fixed user-facing message for a facilitator timeout.
pub const TIMEOUT: &'static str = "Payment verification timed out";

/// Fixed user-facing message for a replayed payment proof.
pub const REPLAY_DETECTED: &'static str = "Payment replay detected";

/// An error in the served location's configuration or in the handler's
/// own plumbing; surfaced to the client only as an internal error.
#[derive(Debug)]
pub struct ConfigError {
    pub message: String,
}

impl ConfigError {
    /// Wraps a message.
    pub fn new(msg: &str) -> (r: ConfigError)
        ensures
            r.message@ == msg@,
    {
        ConfigError { message: String::from_str(msg) }
    }

    /// Wraps an owned message.
    pub fn from_string(msg: String) -> (r: ConfigError)
        ensures
            r.message@ == msg@,
    {
        ConfigError { message: msg }
    }

    /// The message carried by this error.
    pub fn message(&self) -> (r: &str)
        ensures
            r@ == self.message@,
    {
        self.message.as_str()
    }
}

} // verus!
