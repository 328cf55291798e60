//! The failures the gateway itself reports, and the HTTP status of each.

use vstd::prelude::*;

verus! {

/// A failure that ends a request at the gateway. Each one is answered with an
/// empty body and the status given by [`GatewayError::status`].
#[derive(Clone, Copy, Debug, PartialEq, Eq, Structural)]
pub enum GatewayError {
    /// The requested capability is not on the configured allowlist.
    AdmissionDenied,
    /// The caller has used up its quota of routing searches for the current window.
    RateLimited,
    /// No connection to the upstream could be made.
    UpstreamUnreachable,
    /// The upstream did not answer within the configured time.
    UpstreamTimeout,
    /// The upstream answered, but its body is not a JSON document.
    UpstreamMalformed,
    /// The upstream call failed in a way that is none of the above and carries no
    /// status of its own.
    InternalError,
}

impl GatewayError {
    /// The HTTP status that stands for this failure.
    pub open spec fn spec_status(self) -> u16 {
        match self {
            GatewayError::AdmissionDenied => 422,
            GatewayError::RateLimited => 429,
            GatewayError::UpstreamUnreachable => 502,
            GatewayError::UpstreamTimeout => 504,
            GatewayError::UpstreamMalformed => 500,
            GatewayError::InternalError => 500,
        }
    }

    /// The HTTP status that stands for this failure.
    #[verifier::when_used_as_spec(spec_status)]
    pub fn status(self) -> (code: u16)
        ensures
            code == self.spec_status(),
    {
        match self {
            GatewayError::AdmissionDenied => 422,
            GatewayError::RateLimited => 429,
            GatewayError::UpstreamUnreachable => 502,
            GatewayError::UpstreamTimeout => 504,
            GatewayError::UpstreamMalformed => 500,
            GatewayError::InternalError => 500,
        }
    }
}

} // verus!
