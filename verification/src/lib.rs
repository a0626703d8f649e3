//! Verified core of a fixed-rate lending protocol: fixed-point arithmetic,
//! interest-rate projection, oracle decoding and the protocol's loan and
//! vault accounting rules.

pub mod error;
pub mod math;
pub mod bytes;
pub mod protocol;
pub mod pubkey;
pub mod processor;
pub mod token;
