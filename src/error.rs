//! Errors a request can end with.
use vstd::prelude::*;

verus! {

/// Why a request failed.
pub enum EnclaveError {
    /// The payload broke the domain rules: `vote` is not among `allowed`.
    InvalidVote { vote: String, allowed: Vec<String> },
    /// The system clock could not be read as milliseconds since the Unix epoch.
    ClockError,
}

} // verus!
