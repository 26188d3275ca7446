//! Signed, timestamped, domain-separated responses for an anonymous vote.
pub mod clock;
pub mod envelope;
pub mod error;
pub mod signer;
pub mod vote;
