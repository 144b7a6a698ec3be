//! Error taxonomy of the data-acquisition engine.
//!
//! A fetch fails either on the transport (connection or I/O failure,
//! retryable on the next cycle) or on the protocol (malformed or unexpected
//! response, surfaced to the operator). A malformed stream event is not an
//! error of a fetch: the feed skips it and goes on.

use vstd::prelude::*;

verus! {

/// Why one panel's fetch failed. Per-source failures are reported alongside
/// the sibling sources that succeeded; they never abort the whole refresh.
#[derive(Clone, Debug)]
pub enum FetchError {
    /// Connection or I/O failure. Retryable in principle; this design
    /// retries only on the next scheduled cycle.
    Transport(String),
    /// Malformed or unexpected response. Not retried, surfaced.
    Protocol(String),
}

impl FetchError {
    /// The description carried by the error.
    pub open spec fn spec_message(&self) -> Seq<char> {
        match self {
            FetchError::Transport(m) => m@,
            FetchError::Protocol(m) => m@,
        }
    }

    /// The description carried by the error.
    pub fn message(&self) -> (r: &str)
        ensures
            r@ == self.spec_message(),
    {
        match self {
            FetchError::Transport(m) => m.as_str(),
            FetchError::Protocol(m) => m.as_str(),
        }
    }

    /// Whether the failure was on the transport, the kind that the next
    /// scheduled cycle may clear on its own.
    pub fn is_transport(&self) -> (r: bool)
        ensures
            r == (self is Transport),
    {
        match self {
            FetchError::Transport(_) => true,
            FetchError::Protocol(_) => false,
        }
    }
}

} // verus!
