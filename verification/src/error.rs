//! The conditions under which a publish request is turned away.

use vstd::prelude::*;

verus! {

/// Why a publish request did not end in an acknowledged delivery.
#[derive(Clone, Copy, Debug, PartialEq, Eq, Structural)]
pub enum GatewayError {
    /// The credential was absent, did not match, or none is configured.
    Unauthorized,
    /// The body was too large, not well formed, or lacked a required field.
    MalformedPayload,
    /// The broker client gave up on the message.
    DeliveryFailure,
}

impl GatewayError {
    /// Whether the caller is at fault, as opposed to the broker connection.
    pub open spec fn spec_is_client_error(self) -> bool {
        self != GatewayError::DeliveryFailure
    }

    /// Whether the caller is at fault, as opposed to the broker connection.
    #[verifier::when_used_as_spec(spec_is_client_error)]
    pub fn is_client_error(self) -> (r: bool)
        ensures
            r == self.spec_is_client_error(),
    {
        match self {
            GatewayError::Unauthorized => true,
            GatewayError::MalformedPayload => true,
            GatewayError::DeliveryFailure => false,
        }
    }
}

} // verus!
