//! What the gateway answers, and the status under which it does so.

use vstd::prelude::*;
use crate::error::GatewayError;

verus! {

/// The status of a successful answer.
pub const STATUS_OK: u16 = 200;

/// The status for a body that cannot be decoded.
pub const STATUS_BAD_REQUEST: u16 = 400;

/// The status for a credential that is not admitted.
pub const STATUS_UNAUTHORIZED: u16 = 401;

/// The status for a message that the broker client gave up on.
pub const STATUS_BAD_GATEWAY: u16 = 502;

/// The text that the health endpoint answers with.
pub const ALIVE: &'static str = "alive";

/// The answer to a publish request.
#[derive(Clone, Copy, Debug, PartialEq, Eq, Structural)]
pub enum Response {
    /// The broker acknowledged the message. The answer has no body.
    Published,
    /// The request was turned away, for the reason given.
    Refused(GatewayError),
}

impl Response {
    /// The HTTP status of this answer.
    pub open spec fn spec_status(self) -> u16 {
        match self {
            Response::Published => STATUS_OK,
            Response::Refused(GatewayError::Unauthorized) => STATUS_UNAUTHORIZED,
            Response::Refused(GatewayError::MalformedPayload) => STATUS_BAD_REQUEST,
            Response::Refused(GatewayError::DeliveryFailure) => STATUS_BAD_GATEWAY,
        }
    }

    /// The HTTP status of this answer: 200 for success and for nothing else,
    /// a status from 400 to 499 where the caller is at fault, and one from
    /// 500 to 599 where the delivery failed.
    #[verifier::when_used_as_spec(spec_status)]
    pub fn status(self) -> (code: u16)
        ensures
            code == self.spec_status(),
            code == STATUS_OK <==> self == Response::Published,
            self matches Response::Refused(e) ==> (if e.spec_is_client_error() {
                400 <= code < 500
            } else {
                500 <= code < 600
            }),
    {
        match self {
            Response::Published => STATUS_OK,
            Response::Refused(GatewayError::Unauthorized) => STATUS_UNAUTHORIZED,
            Response::Refused(GatewayError::MalformedPayload) => STATUS_BAD_REQUEST,
            Response::Refused(GatewayError::DeliveryFailure) => STATUS_BAD_GATEWAY,
        }
    }
}

/// The answer of the health endpoint: status and text. It is the same
/// whatever has happened to the broker connection, of which it knows nothing.
pub fn health_reply() -> (reply: (u16, &'static str))
    ensures
        reply.0 == STATUS_OK,
        reply.1@ == ALIVE@,
{
    (STATUS_OK, ALIVE)
}

} // verus!
