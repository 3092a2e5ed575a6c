//! Namespaced error codes of the token whitelist contract (5000-5099).
use vstd::prelude::*;

verus! {

pub const NOT_INITIALIZED: u32 = 5001;
pub const ALREADY_INITIALIZED: u32 = 5002;
pub const UNAUTHORIZED: u32 = 5003;
pub const TOKEN_ALREADY_WHITELISTED: u32 = 5004;
pub const TOKEN_NOT_WHITELISTED: u32 = 5005;
pub const QUOTA_EXCEEDED: u32 = 5006;
pub const TOKEN_ALREADY_HAS_QUOTA: u32 = 5007;
pub const TOKEN_HAS_NO_QUOTA: u32 = 5008;

} // verus!
