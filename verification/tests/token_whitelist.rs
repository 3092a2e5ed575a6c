use ahjoor::whitelist::{Error, Rejection, TokenQuota, TokenWhitelistContract};

const ADMIN: u64 = 100;
const OTHER: u64 = 200;
const TOKEN_A: u64 = 1;
const TOKEN_B: u64 = 2;

fn initialized() -> TokenWhitelistContract {
    let mut c = TokenWhitelistContract::new();
    c.initialize(ADMIN).unwrap();
    c
}

#[test]
fn initialize_once() {
    let mut c = TokenWhitelistContract::new();
    assert_eq!(c.get_admin(), Err(Rejection::NotInitialized));
    c.initialize(ADMIN).unwrap();
    assert_eq!(c.get_admin(), Ok(ADMIN));
    assert_eq!(c.initialize(OTHER), Err(Rejection::AlreadyInitialized));
    assert_eq!(c.get_admin(), Ok(ADMIN));
    assert!(c.get_whitelisted_tokens().is_empty());
}

#[test]
fn admin_only_operations() {
    let mut c = TokenWhitelistContract::new();
    assert_eq!(c.add_token(ADMIN, TOKEN_A), Err(Rejection::NotInitialized));
    c.initialize(ADMIN).unwrap();
    assert_eq!(c.add_token(OTHER, TOKEN_A), Err(Rejection::Unauthorized));
    assert_eq!(c.remove_token(OTHER, TOKEN_A), Err(Rejection::Unauthorized));
    assert_eq!(c.propose_admin(OTHER, OTHER), Err(Rejection::Unauthorized));
    assert_eq!(c.suspend_token_timed(OTHER, TOKEN_A, 5, [0u8; 32], 1), Err(Rejection::Unauthorized));
    assert_eq!(c.set_token_quota(OTHER, TOKEN_A, 10, 5), Err(Rejection::Unauthorized));
    assert!(c.get_whitelisted_tokens().is_empty());
}

#[test]
fn add_and_remove_tokens() {
    let mut c = initialized();
    c.add_token(ADMIN, TOKEN_A).unwrap();
    c.add_token(ADMIN, TOKEN_B).unwrap();
    assert_eq!(c.add_token(ADMIN, TOKEN_A), Err(Rejection::TokenAlreadyWhitelisted));
    assert_eq!(c.get_whitelisted_tokens(), vec![TOKEN_A, TOKEN_B]);
    assert!(c.is_token_allowed(TOKEN_A, 1));
    c.remove_token(ADMIN, TOKEN_A).unwrap();
    assert_eq!(c.remove_token(ADMIN, TOKEN_A), Err(Rejection::TokenNotWhitelisted));
    assert_eq!(c.get_whitelisted_tokens(), vec![TOKEN_B]);
    assert!(!c.is_token_allowed(TOKEN_A, 1));
    assert!(c.is_token_allowed(TOKEN_B, 1));
    assert!(c.is_well_formed());
}

#[test]
fn admin_transfer_takes_two_steps() {
    let mut c = initialized();
    assert_eq!(c.accept_admin(OTHER), Err(Rejection::NoAdminTransferProposed));
    c.propose_admin(ADMIN, OTHER).unwrap();
    assert_eq!(c.get_admin(), Ok(ADMIN));
    assert_eq!(c.accept_admin(300), Err(Rejection::NotProposedAdmin));
    c.accept_admin(OTHER).unwrap();
    assert_eq!(c.get_admin(), Ok(OTHER));
    assert!(c.proposed_admin.is_none());
    assert_eq!(c.add_token(ADMIN, TOKEN_A), Err(Rejection::Unauthorized));
    c.add_token(OTHER, TOKEN_A).unwrap();
}

#[test]
fn suspension_blocks_until_expiry_then_lifts_itself() {
    let mut c = initialized();
    assert_eq!(
        c.suspend_token_timed(ADMIN, TOKEN_A, 10, [9u8; 32], 100),
        Err(Rejection::TokenNotWhitelisted)
    );
    c.add_token(ADMIN, TOKEN_A).unwrap();
    assert_eq!(
        c.suspend_token_timed(ADMIN, TOKEN_A, 0, [9u8; 32], 100),
        Err(Rejection::NonPositiveSuspendDuration)
    );
    c.suspend_token_timed(ADMIN, TOKEN_A, 10, [9u8; 32], 100).unwrap();
    let s = c.get_token_suspension(TOKEN_A).unwrap();
    assert_eq!(s.expiry_ledger, 110);
    assert_eq!(s.reason_hash, [9u8; 32]);
    assert!(!c.is_token_allowed(TOKEN_A, 100));
    assert!(!c.is_token_allowed(TOKEN_A, 109));
    assert!(c.get_token_suspension(TOKEN_A).is_some());
    assert!(c.is_token_allowed(TOKEN_A, 110));
    assert!(c.get_token_suspension(TOKEN_A).is_none());
    let h = c.get_suspension_history(TOKEN_A);
    assert_eq!(h.len(), 1);
    assert_eq!(h[0].expiry_ledger, 110);
    assert!(!h[0].lifted_early);
}

#[test]
fn suspension_expiry_overflow_is_refused() {
    let mut c = initialized();
    c.add_token(ADMIN, TOKEN_A).unwrap();
    assert_eq!(
        c.suspend_token_timed(ADMIN, TOKEN_A, 2, [0u8; 32], u32::MAX - 1),
        Err(Rejection::ArithmeticOverflow)
    );
    assert!(c.get_token_suspension(TOKEN_A).is_none());
}

#[test]
fn lift_and_extend_suspension() {
    let mut c = initialized();
    c.add_token(ADMIN, TOKEN_A).unwrap();
    assert_eq!(c.lift_token_suspension(ADMIN, TOKEN_A), Err(Rejection::NoActiveSuspension));
    assert_eq!(
        c.extend_token_suspension(ADMIN, TOKEN_A, 5),
        Err(Rejection::NoActiveSuspension)
    );
    c.suspend_token_timed(ADMIN, TOKEN_A, 10, [1u8; 32], 100).unwrap();
    assert_eq!(
        c.extend_token_suspension(ADMIN, TOKEN_A, 0),
        Err(Rejection::NonPositiveAdditionalLedgers)
    );
    c.extend_token_suspension(ADMIN, TOKEN_A, 5).unwrap();
    assert_eq!(c.get_token_suspension(TOKEN_A).unwrap().expiry_ledger, 115);
    assert_eq!(c.get_suspension_history(TOKEN_A)[0].expiry_ledger, 115);
    assert!(!c.is_token_allowed(TOKEN_A, 112));
    c.lift_token_suspension(ADMIN, TOKEN_A).unwrap();
    assert!(c.is_token_allowed(TOKEN_A, 112));
    let h = c.get_suspension_history(TOKEN_A);
    assert_eq!(h.len(), 1);
    assert!(h[0].lifted_early);
}

#[test]
fn history_keeps_last_ten() {
    let mut c = initialized();
    c.add_token(ADMIN, TOKEN_A).unwrap();
    for i in 0..12u32 {
        c.suspend_token_timed(ADMIN, TOKEN_A, 1, [i as u8; 32], i).unwrap();
    }
    let h = c.get_suspension_history(TOKEN_A);
    assert_eq!(h.len(), 10);
    assert_eq!(h[0].reason_hash, [2u8; 32]);
    assert_eq!(h[9].reason_hash, [11u8; 32]);
    assert_eq!(h[9].expiry_ledger, 12);
}

#[test]
fn quotas_set_update_remove() {
    let mut c = initialized();
    assert_eq!(c.set_token_quota(ADMIN, TOKEN_A, 100, 10), Err(Rejection::TokenNotWhitelisted));
    c.add_token(ADMIN, TOKEN_A).unwrap();
    assert_eq!(c.set_token_quota(ADMIN, TOKEN_A, 0, 10), Err(Rejection::NonPositiveMaxVolume));
    assert_eq!(c.set_token_quota(ADMIN, TOKEN_A, 100, 0), Err(Rejection::NonPositivePeriod));
    assert_eq!(c.update_token_quota(ADMIN, TOKEN_A, 100, 10), Err(Rejection::TokenHasNoQuota));
    assert_eq!(c.remove_token_quota(ADMIN, TOKEN_A), Err(Rejection::TokenHasNoQuota));
    c.set_token_quota(ADMIN, TOKEN_A, 100, 10).unwrap();
    assert_eq!(
        c.get_token_quota(TOKEN_A),
        Some(TokenQuota { max_volume_per_period: 100, period_ledgers: 10 })
    );
    assert_eq!(c.set_token_quota(ADMIN, TOKEN_A, 100, 10), Err(Rejection::TokenAlreadyHasQuota));
    c.update_token_quota(ADMIN, TOKEN_A, 50, 3).unwrap();
    assert_eq!(
        c.get_token_quota(TOKEN_A),
        Some(TokenQuota { max_volume_per_period: 50, period_ledgers: 3 })
    );
    c.remove_token_quota(ADMIN, TOKEN_A).unwrap();
    assert_eq!(c.get_token_quota(TOKEN_A), None);
}

#[test]
fn volume_is_capped_over_the_window() {
    let mut c = initialized();
    c.add_token(ADMIN, TOKEN_A).unwrap();
    assert_eq!(c.record_token_volume(TOKEN_A, 0, 1), Err(Rejection::NonPositiveAmount));
    // Without a quota nothing is recorded.
    assert_eq!(c.record_token_volume(TOKEN_A, 1_000, 1), Ok(Ok(())));
    assert_eq!(c.get_token_volume(TOKEN_A, 0, 10), Ok(0));
    c.set_token_quota(ADMIN, TOKEN_A, 100, 3).unwrap();
    assert_eq!(c.record_token_volume(TOKEN_A, 60, 10), Ok(Ok(())));
    assert_eq!(c.record_token_volume(TOKEN_A, 30, 11), Ok(Ok(())));
    assert_eq!(c.record_token_volume(TOKEN_A, 11, 12), Ok(Err(Error::QuotaExceeded)));
    assert_eq!(c.record_token_volume(TOKEN_A, 10, 12), Ok(Ok(())));
    assert_eq!(c.get_token_volume(TOKEN_A, 10, 12), Ok(100));
    // Ledger 10 leaves the window at ledger 13.
    assert_eq!(c.record_token_volume(TOKEN_A, 61, 13), Ok(Err(Error::QuotaExceeded)));
    assert_eq!(c.record_token_volume(TOKEN_A, 60, 13), Ok(Ok(())));
    assert_eq!(c.get_token_volume(TOKEN_A, 11, 13), Ok(100));
    assert_eq!(c.get_token_volume(TOKEN_A, 10, 10), Ok(60));
    assert_eq!(c.get_token_volume(TOKEN_A, 13, 10), Ok(0));
    assert_eq!(c.get_token_volume(TOKEN_B, 0, 100), Ok(0));
}

#[test]
fn window_reaching_before_ledger_zero_starts_at_zero() {
    let mut c = initialized();
    c.add_token(ADMIN, TOKEN_A).unwrap();
    c.set_token_quota(ADMIN, TOKEN_A, 10, 100).unwrap();
    assert_eq!(c.record_token_volume(TOKEN_A, 5, 0), Ok(Ok(())));
    assert_eq!(c.record_token_volume(TOKEN_A, 5, 2), Ok(Ok(())));
    assert_eq!(c.record_token_volume(TOKEN_A, 1, 3), Ok(Err(Error::QuotaExceeded)));
    assert_eq!(c.get_token_volume(TOKEN_A, 0, 3), Ok(10));
}

#[test]
fn volume_at_the_top_ledger() {
    let mut c = initialized();
    c.add_token(ADMIN, TOKEN_A).unwrap();
    c.set_token_quota(ADMIN, TOKEN_A, i128::MAX, 2).unwrap();
    assert_eq!(c.record_token_volume(TOKEN_A, 7, u32::MAX), Ok(Ok(())));
    assert_eq!(c.get_token_volume(TOKEN_A, u32::MAX - 1, u32::MAX), Ok(7));
    assert_eq!(
        c.record_token_volume(TOKEN_A, i128::MAX, u32::MAX),
        Err(Rejection::ArithmeticOverflow)
    );
}

#[test]
fn volumes_over_adjacent_ranges_add_up() {
    let mut c = initialized();
    c.add_token(ADMIN, TOKEN_A).unwrap();
    c.set_token_quota(ADMIN, TOKEN_A, 1_000, 100).unwrap();
    for (l, v) in [(3u32, 5i128), (4, 7), (9, 11), (10, 13)] {
        assert_eq!(c.record_token_volume(TOKEN_A, v, l), Ok(Ok(())));
    }
    let whole = c.get_token_volume(TOKEN_A, 0, 12).unwrap();
    let left = c.get_token_volume(TOKEN_A, 0, 4).unwrap();
    let right = c.get_token_volume(TOKEN_A, 5, 12).unwrap();
    assert_eq!(whole, 36);
    assert_eq!(left + right, whole);
    assert_eq!(c.get_token_volume(TOKEN_A, 4, 4), Ok(7));
}

#[test]
fn extension_overflow_is_refused() {
    let mut c = initialized();
    c.add_token(ADMIN, TOKEN_A).unwrap();
    c.suspend_token_timed(ADMIN, TOKEN_A, 10, [0u8; 32], u32::MAX - 20).unwrap();
    assert_eq!(
        c.extend_token_suspension(ADMIN, TOKEN_A, 11),
        Err(Rejection::ArithmeticOverflow)
    );
    assert_eq!(c.get_token_suspension(TOKEN_A).unwrap().expiry_ledger, u32::MAX - 10);
    c.extend_token_suspension(ADMIN, TOKEN_A, 10).unwrap();
    assert_eq!(c.get_token_suspension(TOKEN_A).unwrap().expiry_ledger, u32::MAX);
}

#[test]
fn unsuspended_unlisted_token_is_not_allowed() {
    let mut c = initialized();
    assert!(!c.is_token_allowed(TOKEN_B, 0));
    c.add_token(ADMIN, TOKEN_A).unwrap();
    c.suspend_token_timed(ADMIN, TOKEN_A, 10, [0u8; 32], 0).unwrap();
    c.remove_token(ADMIN, TOKEN_A).unwrap();
    c.lift_token_suspension(ADMIN, TOKEN_A).unwrap();
    assert!(!c.is_token_allowed(TOKEN_A, 1));
}

#[test]
fn ill_formed_state_is_detected() {
    let mut c = initialized();
    assert!(c.is_well_formed());
    c.whitelist.push(TOKEN_A);
    c.whitelist.push(TOKEN_A);
    assert!(!c.is_well_formed());
}
