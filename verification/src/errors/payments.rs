//! Namespaced error codes of the payments contract (2000-2299).
use vstd::prelude::*;

verus! {

pub const RATE_LIMIT_EXCEEDED: u32 = 2001;
pub const SUBSCRIPTION_PAUSED: u32 = 2002;
pub const ORACLE_CONDITION_NOT_MET: u32 = 2003;
pub const SUBSCRIPTION_IN_TRIAL: u32 = 2004;
pub const TOKEN_NOT_ALLOWED: u32 = 2005;
pub const DUPLICATE_EXTERNAL_ID: u32 = 2006;
pub const MULTISIG_NOT_REQUIRED: u32 = 2007;
pub const ALREADY_APPROVED: u32 = 2008;
pub const NOT_A_SIGNER: u32 = 2009;
pub const VOUCHER_EXPIRED: u32 = 2010;
pub const VOUCHER_EXHAUSTED: u32 = 2011;
pub const VOUCHER_REVOKED: u32 = 2012;
pub const VOUCHER_NOT_FOUND: u32 = 2013;
pub const WITHDRAWAL_RATE_LIMIT_EXCEEDED: u32 = 2014;
pub const REFERRAL_ALREADY_EXISTS: u32 = 2015;
pub const NO_COMMISSION_TO_CLAIM: u32 = 2016;
pub const DYNAMIC_PAYMENT_EXPIRED: u32 = 2017;
pub const TIPPING_NOT_ENABLED: u32 = 2018;
pub const TIP_EXCEEDS_MAX_BPS: u32 = 2019;
pub const MERCHANT_VOLUME_CAPPED: u32 = 2020;
pub const SLIPPAGE_EXCEEDED: u32 = 2021;
pub const ORACLE_NOT_WHITELISTED: u32 = 2022;
pub const CUSTOMER_SPEND_LIMIT_EXCEEDED: u32 = 2023;
pub const CAPTURE_PAST_DEADLINE: u32 = 2024;
pub const EVIDENCE_WINDOW_CLOSED: u32 = 2025;
pub const EVIDENCE_LIMIT_REACHED: u32 = 2026;
pub const COOLING_OFF_EXPIRED: u32 = 2027;
pub const NOT_IN_COOLING_OFF: u32 = 2028;
pub const COOLING_OFF_EXCEEDS_MAX: u32 = 2029;
pub const PAUSE_COUNT_EXCEEDED: u32 = 2030;
pub const UNAUTHORIZED_PAUSE: u32 = 2031;
pub const INSUFFICIENT_MERCHANT_RESERVE: u32 = 2032;
pub const KYB_VERIFICATION_REQUIRED: u32 = 2033;
pub const RETRY_NOT_DUE: u32 = 2034;
pub const DEBIT_RECORD_NOT_FOUND: u32 = 2035;
pub const DEBIT_ALREADY_ABANDONED: u32 = 2036;
pub const DEBIT_ALREADY_SUCCEEDED: u32 = 2037;
pub const INVALID_PAYMENT_STATUS: u32 = 2038;
pub const MAX_EXTENSIONS_REACHED: u32 = 2039;
pub const MAX_EXTENSION_LEDGERS_EXCEEDED: u32 = 2040;
pub const CUSTOMER_BLOCKED: u32 = 2050;
pub const DAO_NOT_CONFIGURED: u32 = 2051;
pub const NOT_A_DAO_MEMBER: u32 = 2052;
pub const DAO_ALREADY_ESCALATED: u32 = 2053;
pub const DAO_VOTE_WINDOW_OPEN: u32 = 2054;
pub const DAO_VOTE_WINDOW_CLOSED: u32 = 2055;
pub const DAO_ALREADY_VOTED: u32 = 2056;

} // verus!
