use vstd::prelude::*;

verus! {

/// How a network operation failed, as the transfer client classifies it.
#[derive(Clone, Copy, Debug, PartialEq, Eq, Structural)]
pub enum FaultKind {
    Timeout,
    ConnectFailure,
    ResetOrMidStream,
    Other,
}

impl FaultKind {
    /// The faults that a download retries when they stop the request itself.
    pub open spec fn retried_on_request_spec(self) -> bool {
        self == FaultKind::Timeout || self == FaultKind::ConnectFailure
    }

    /// The faults that a download retries when they break the body mid-stream.
    pub open spec fn retried_mid_stream_spec(self) -> bool {
        self == FaultKind::Timeout || self == FaultKind::ResetOrMidStream
    }

    pub fn retried_on_request(&self) -> (r: bool)
        ensures
            r == self.retried_on_request_spec(),
    {
        match self {
            FaultKind::Timeout | FaultKind::ConnectFailure => true,
            _ => false,
        }
    }

    pub fn retried_mid_stream(&self) -> (r: bool)
        ensures
            r == self.retried_mid_stream_spec(),
    {
        match self {
            FaultKind::Timeout | FaultKind::ResetOrMidStream => true,
            _ => false,
        }
    }
}

} // verus!
