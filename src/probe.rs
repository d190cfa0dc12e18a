//! Classification of one health probe.
use vstd::prelude::*;

verus! {

/// What a single health probe found.
#[derive(Clone, Debug)]
pub enum ProbeResult {
    /// The backend answered with a success status.
    Ready,
    /// The backend answered, but not with a success status.
    NotReady,
    /// No answer could be obtained; the text describes why.
    TransportError(String),
}

impl ProbeResult {
    /// Only `Ready` ends the wait; both other results are retried.
    pub open spec fn is_ready_spec(&self) -> bool {
        self is Ready
    }

    pub fn is_ready(&self) -> (r: bool)
        ensures
            r == self.is_ready_spec(),
    {
        match self {
            ProbeResult::Ready => true,
            _ => false,
        }
    }
}

/// An HTTP status code in the success class (2xx).
pub open spec fn is_success_spec(code: u16) -> bool {
    200 <= code && code < 300
}

/// Whether an HTTP status code is in the success class, as
/// `http::StatusCode::is_success` decides it.
pub fn is_success_status(code: u16) -> (r: bool)
    ensures
        r == is_success_spec(code),
{
    200 <= code && code < 300
}

/// Classifies the outcome of one request to the health endpoint: the status
/// code of the response, or the description of the transport failure.
pub fn classify_response(response: Result<u16, String>) -> (r: ProbeResult)
    ensures
        match response {
            Ok(code) => if is_success_spec(code) {
                r is Ready
            } else {
                r is NotReady
            },
            Err(detail) => r == ProbeResult::TransportError(detail),
        },
{
    match response {
        Ok(code) => {
            if is_success_status(code) {
                ProbeResult::Ready
            } else {
                ProbeResult::NotReady
            }
        },
        Err(detail) => ProbeResult::TransportError(detail),
    }
}

} // verus!
