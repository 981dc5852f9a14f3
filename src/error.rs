use vstd::prelude::*;

verus! {

/// The ways a relay request can fail.
#[derive(Clone, Copy, Debug, PartialEq, Eq, Structural)]
pub enum RelayError {
    /// No valid session accompanies the request.
    Unauthenticated,
    /// The parallel role and content arrays differ in length.
    MalformedHistory,
    /// The completion service could not be reached.
    UpstreamUnreachable,
    /// The completion service answered with something that is not a usable reply.
    UpstreamMalformed,
    /// Reasoning stripping was asked for, but the reply holds no end marker.
    ReasoningMarkerMissing,
}

/// The HTTP status that answers each failure.
pub open spec fn status_of(e: RelayError) -> u16 {
    match e {
        RelayError::Unauthenticated => 401,
        RelayError::MalformedHistory => 400,
        RelayError::UpstreamUnreachable => 500,
        RelayError::UpstreamMalformed => 500,
        RelayError::ReasoningMarkerMissing => 500,
    }
}

impl RelayError {
    /// The HTTP status code with which this failure is answered.
    pub fn status_code(&self) -> (r: u16)
        ensures
            r == status_of(*self),
    {
        match self {
            RelayError::Unauthenticated => 401,
            RelayError::MalformedHistory => 400,
            RelayError::UpstreamUnreachable => 500,
            RelayError::UpstreamMalformed => 500,
            RelayError::ReasoningMarkerMissing => 500,
        }
    }
}

} // verus!
