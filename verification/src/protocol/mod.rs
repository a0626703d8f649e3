//! Lending-protocol and oracle logic: share/atom conversions of the
//! marginfi adapter, interest-rate projection and oracle decoding.

pub mod marginfi;
pub mod marginfi_rate_calc;
pub mod oracles;

use vstd::prelude::*;

pub use crate::error::AdapterError;

verus! {

/// Tag of the lending protocol an adapter wraps.
#[derive(Debug, Clone, Copy, PartialEq, Eq, Structural)]
pub enum ProtocolId {
    /// The marginfi adapter.
    Marginfi,
}

} // verus!
