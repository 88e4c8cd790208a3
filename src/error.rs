//! The errors of both gateways.

use vstd::prelude::*;

verus! {

/// Why a request failed; each kind carries a human-readable message.
#[derive(Debug)]
pub enum GatewayError {
    /// Required configuration is missing.
    Configuration(String),
    /// The request body is not JSON or lacks a required field.
    MalformedRequest(String),
    /// The provider answered with a failure, or its answer could not be read.
    Upstream(String),
    /// The image data is not valid base64.
    InvalidPayload(String),
    /// The object store refused or failed the put.
    Storage(String),
}

impl GatewayError {
    pub open spec fn message_view(&self) -> Seq<char> {
        match self {
            GatewayError::Configuration(m) => m@,
            GatewayError::MalformedRequest(m) => m@,
            GatewayError::Upstream(m) => m@,
            GatewayError::InvalidPayload(m) => m@,
            GatewayError::Storage(m) => m@,
        }
    }

    /// The message that a failure response carries.
    pub fn message(&self) -> (r: String)
        ensures
            r@ == self.message_view(),
    {
        match self {
            GatewayError::Configuration(m) => m.clone(),
            GatewayError::MalformedRequest(m) => m.clone(),
            GatewayError::Upstream(m) => m.clone(),
            GatewayError::InvalidPayload(m) => m.clone(),
            GatewayError::Storage(m) => m.clone(),
        }
    }
}

} // verus!
