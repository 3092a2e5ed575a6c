//! Namespaced error codes of the escrow contract (3000-3299).
use vstd::prelude::*;

verus! {

pub const INVALID_DEADLINE: u32 = 3001;
pub const INVALID_TRANCHE_INDEX: u32 = 3002;
pub const TRANCHE_ALREADY_CLAIMED: u32 = 3003;

} // verus!
