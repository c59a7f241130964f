//! What the status of a handshake response means for the connection.

use vstd::prelude::*;

verus! {

/// The three ways a handshake can go.
#[derive(Clone, Copy, Debug, PartialEq, Eq, Structural)]
pub enum StatusClass {
    /// Informational or success: the connection stands.
    Accepted,
    /// A client error: the endpoint refuses what was presented, and will
    /// refuse it again.
    ClientError,
    /// Anything else: the endpoint cannot serve now.
    Other,
}

/// Statuses 100 to 199.
pub open spec fn is_informational(code: u16) -> bool {
    100 <= code < 200
}

/// Statuses 200 to 299.
pub open spec fn is_success(code: u16) -> bool {
    200 <= code < 300
}

/// Statuses 400 to 499.
pub open spec fn is_client_error(code: u16) -> bool {
    400 <= code < 500
}

/// The class of a status code.
pub open spec fn class_of(code: u16) -> StatusClass {
    if is_success(code) || is_informational(code) {
        StatusClass::Accepted
    } else if is_client_error(code) {
        StatusClass::ClientError
    } else {
        StatusClass::Other
    }
}

/// Classifies the status code of a handshake response.
pub fn classify(code: u16) -> (class: StatusClass)
    ensures
        class == class_of(code),
{
    if 100 <= code && code < 300 {
        StatusClass::Accepted
    } else if 400 <= code && code < 500 {
        StatusClass::ClientError
    } else {
        StatusClass::Other
    }
}

} // verus!
