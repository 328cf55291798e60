//! What one upstream attempt came to, and the answer the gateway makes of it.
//!
//! The call itself is made outside this library. It hands in what happened as an
//! [`UpstreamEvent`], and [`conclude`] decides the response.

use crate::gateway_error::GatewayError;
use crate::json::{json_document, parse_json};
use serde_json::Value;
use vstd::prelude::*;

verus! {

/// What is known of a failed upstream call.
#[derive(Clone, Copy, Debug, PartialEq, Eq)]
pub struct TransportError {
    /// The call ran out of time.
    pub timeout: bool,
    /// No connection could be made.
    pub connect: bool,
    /// The status the failure carries, where it stems from a response.
    pub status: Option<u16>,
}

/// The result of the one attempt made for a request.
#[derive(Debug, PartialEq, Eq)]
pub enum UpstreamEvent {
    /// The call failed before a response came.
    Failed(TransportError),
    /// A response came, with this status and body. The body is `None` where it
    /// could not be read to its end.
    Answered { status: u16, body: Option<Vec<u8>> },
}

/// The response of the gateway to a request.
#[derive(Debug, PartialEq)]
pub enum ForwardOutcome {
    /// The upstream's status and document, passed on as they came.
    Relayed { status: u16, body: Value },
    /// The status that a failed call carried, passed on with an empty body.
    StatusOnly { status: u16 },
    /// A failure the gateway reports itself, with an empty body.
    Failed(GatewayError),
}

impl ForwardOutcome {
    /// The HTTP status of the response.
    pub open spec fn spec_status(&self) -> u16 {
        match *self {
            ForwardOutcome::Relayed { status, .. } => status,
            ForwardOutcome::StatusOnly { status } => status,
            ForwardOutcome::Failed(error) => error.spec_status(),
        }
    }

    /// The HTTP status of the response.
    #[verifier::when_used_as_spec(spec_status)]
    pub fn status(&self) -> (code: u16)
        ensures
            code == self.spec_status(),
    {
        match self {
            ForwardOutcome::Relayed { status, .. } => *status,
            ForwardOutcome::StatusOnly { status } => *status,
            ForwardOutcome::Failed(error) => error.status(),
        }
    }
}

/// The response to a failed call: a timeout before anything else, then a failure to
/// connect, then the status the failure carries, and an internal error where it
/// carries none.
pub open spec fn transport_outcome(error: TransportError) -> ForwardOutcome {
    if error.timeout {
        ForwardOutcome::Failed(GatewayError::UpstreamTimeout)
    } else if error.connect {
        ForwardOutcome::Failed(GatewayError::UpstreamUnreachable)
    } else {
        match error.status {
            Some(status) => ForwardOutcome::StatusOnly { status },
            None => ForwardOutcome::Failed(GatewayError::InternalError),
        }
    }
}

/// The response to an answer of the upstream whose body was read as `document`:
/// status and document as they came, or a failure where the body was no document.
pub open spec fn answer_outcome(status: u16, document: Option<Value>) -> ForwardOutcome {
    match document {
        Some(body) => ForwardOutcome::Relayed { status, body },
        None => ForwardOutcome::Failed(GatewayError::UpstreamMalformed),
    }
}

/// The response to an upstream attempt.
pub open spec fn event_outcome(event: UpstreamEvent) -> ForwardOutcome {
    match event {
        UpstreamEvent::Failed(error) => transport_outcome(error),
        UpstreamEvent::Answered { status, body: Some(bytes) } => answer_outcome(
            status,
            json_document(bytes@),
        ),
        UpstreamEvent::Answered { status, body: None } => ForwardOutcome::Failed(
            GatewayError::UpstreamMalformed,
        ),
    }
}

/// Classifies a failed upstream call.
pub fn classify_transport_error(error: TransportError) -> (outcome: ForwardOutcome)
    ensures
        outcome == transport_outcome(error),
{
    if error.timeout {
        ForwardOutcome::Failed(GatewayError::UpstreamTimeout)
    } else if error.connect {
        ForwardOutcome::Failed(GatewayError::UpstreamUnreachable)
    } else {
        match error.status {
            Some(status) => ForwardOutcome::StatusOnly { status },
            None => ForwardOutcome::Failed(GatewayError::InternalError),
        }
    }
}

/// The response to an answer with the given status whose body has been parsed
/// with the result `parsed`.
pub fn classify_answer(status: u16, parsed: Result<Value, serde_json::Error>) -> (outcome:
    ForwardOutcome)
    ensures
        outcome == answer_outcome(
            status,
            match parsed {
                Ok(document) => Some(document),
                Err(_) => None,
            },
        ),
{
    match parsed {
        Ok(body) => ForwardOutcome::Relayed { status, body },
        Err(_) => ForwardOutcome::Failed(GatewayError::UpstreamMalformed),
    }
}

/// The response to an answer with the given status and body: the body is parsed as
/// JSON and passed on with the status, whatever the status is.
pub fn interpret_answer(status: u16, body: &[u8]) -> (outcome: ForwardOutcome)
    ensures
        outcome == answer_outcome(status, json_document(body@)),
{
    classify_answer(status, parse_json(body))
}

/// Decides the response to the one upstream attempt made for a request.
pub fn conclude(event: UpstreamEvent) -> (outcome: ForwardOutcome)
    ensures
        outcome == event_outcome(event),
{
    match event {
        UpstreamEvent::Failed(error) => classify_transport_error(error),
        UpstreamEvent::Answered { status, body: Some(bytes) } => interpret_answer(
            status,
            bytes.as_slice(),
        ),
        UpstreamEvent::Answered { status, body: None } => ForwardOutcome::Failed(
            GatewayError::UpstreamMalformed,
        ),
    }
}

} // verus!
