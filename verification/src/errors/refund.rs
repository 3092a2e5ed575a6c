//! Namespaced error codes of the refund contract (4000-4099).
use vstd::prelude::*;

verus! {

// Refund contract uses panic! rather than a contracterror enum;
// these codes are the off-chain namespace assignments for future migration.
pub const ALREADY_INITIALIZED: u32 = 4001;
pub const FEE_EXCEEDS_MAXIMUM: u32 = 4002;
pub const AMOUNT_MUST_BE_POSITIVE: u32 = 4003;
pub const INVALID_REASON_CODE: u32 = 4004;
pub const REFUND_COOLDOWN_ACTIVE: u32 = 4005;
pub const PAYMENT_NOT_FOUND: u32 = 4006;
pub const PAYMENT_NOT_COMPLETED: u32 = 4007;
pub const EXCEEDS_REFUNDABLE_AMOUNT: u32 = 4008;

} // verus!
