//! Verified core of the Ahjoor payment contracts.
use vstd::prelude::*;

pub mod assoc;
pub mod errors;
pub mod rosca;
pub mod spending;
pub mod whitelist;

verus! {

/// An account or contract address, by the number under which the host
/// integration registered it.
pub type AccountId = u64;

} // verus!
