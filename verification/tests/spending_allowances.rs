use ahjoor::spending::{
    AllowanceStatus, AuditAction, ConsentStatus, ConsentType, PreApprovedSpendingImpl,
    SpendingAllowanceError, TransactionStatus,
};

const CUSTOMER: u64 = 1;
const MERCHANT: u64 = 2;
const TOKEN: u64 = 3;
const DAY: u64 = 86_400;

fn store_with_allowance(now: u64) -> (PreApprovedSpendingImpl, u32) {
    let mut s = PreApprovedSpendingImpl::new();
    let id = s
        .create_allowance(
            CUSTOMER,
            MERCHANT,
            TOKEN,
            1_000,
            300,
            500,
            now + 10 * DAY,
            [7u8; 32],
            vec![("purpose".to_string(), "groceries".to_string())],
            now,
        )
        .unwrap();
    (s, id)
}

#[test]
fn create_allowance_assigns_sequential_ids_and_logs() {
    let (mut s, id) = store_with_allowance(1_000);
    assert_eq!(id, 1);
    let a = s.get_allowance(1).unwrap();
    assert_eq!(a.allowance_id, 1);
    assert_eq!(a.customer, CUSTOMER);
    assert_eq!(a.merchant, MERCHANT);
    assert_eq!(a.token, TOKEN);
    assert_eq!(a.total_amount, 1_000);
    assert_eq!(a.amount_spent, 0);
    assert_eq!(a.status, AllowanceStatus::Active);
    assert_eq!(a.created_at, 1_000);
    assert_eq!(a.daily_reset_timestamp, 1_000);
    assert_eq!(a.consent_hash, [7u8; 32]);
    assert_eq!(a.consent_metadata.len(), 1);
    assert_eq!(s.audit_log.len(), 1);
    assert_eq!(s.audit_log[0].log_id, 1);
    assert_eq!(s.audit_log[0].action, AuditAction::Created);
    assert_eq!(s.audit_log[0].actor, CUSTOMER);
    assert_eq!(s.audit_log[0].details, "Allowance created");
    let id2 = s
        .create_allowance(CUSTOMER, MERCHANT, TOKEN, 50, 50, 50, 5_000, [0u8; 32], vec![], 1_000)
        .unwrap();
    assert_eq!(id2, 2);
    assert!(s.is_well_formed());
}

#[test]
fn create_allowance_rejections() {
    let mut s = PreApprovedSpendingImpl::new();
    let bad = |s: &mut PreApprovedSpendingImpl, t: i128, p: i128, d: i128, e: u64| {
        s.create_allowance(CUSTOMER, MERCHANT, TOKEN, t, p, d, e, [0u8; 32], vec![], 100)
    };
    assert_eq!(bad(&mut s, 0, 1, 1, 200), Err(SpendingAllowanceError::InvalidAllowanceAmount));
    assert_eq!(bad(&mut s, 10, -1, 1, 200), Err(SpendingAllowanceError::InvalidAllowanceAmount));
    assert_eq!(bad(&mut s, 10, 11, 1, 200), Err(SpendingAllowanceError::InvalidAllowanceAmount));
    assert_eq!(bad(&mut s, 10, 1, 11, 200), Err(SpendingAllowanceError::InvalidAllowanceAmount));
    assert_eq!(bad(&mut s, 10, 1, 1, 100), Err(SpendingAllowanceError::AllowanceExpired));
    assert_eq!(s.allowances.len(), 0);
    assert_eq!(s.audit_log.len(), 0);
}

#[test]
fn spend_updates_totals_and_records_transaction() {
    let (mut s, id) = store_with_allowance(1_000);
    let tx = s.spend_from_allowance(id, 200, "order-1".to_string(), 1_100).unwrap();
    assert_eq!(tx.tx_id, 1);
    assert_eq!(tx.allowance_id, id);
    assert_eq!(tx.amount, 200);
    assert_eq!(tx.timestamp, 1_100);
    assert_eq!(tx.status, TransactionStatus::Completed);
    assert_eq!(tx.reference, "order-1");
    assert_eq!(s.transactions.len(), 1);
    assert_eq!(s.transactions[0].reference, "order-1");
    assert_eq!(s.get_remaining_balance(id), Ok(800));
    assert_eq!(s.get_daily_remaining(id, 1_100), Ok(300));
    assert_eq!(s.audit_log.len(), 2);
    assert_eq!(s.audit_log[1].action, AuditAction::TransactionApproved);
    assert_eq!(s.audit_log[1].details, "Spent from allowance");
}

#[test]
fn spend_limits_are_enforced() {
    let (mut s, id) = store_with_allowance(1_000);
    assert_eq!(
        s.spend_from_allowance(id, 301, "x".to_string(), 1_000).unwrap_err(),
        SpendingAllowanceError::PerTransactionLimitExceeded
    );
    s.spend_from_allowance(id, 300, "a".to_string(), 1_000).unwrap();
    assert_eq!(
        s.spend_from_allowance(id, 201, "b".to_string(), 1_000).unwrap_err(),
        SpendingAllowanceError::DailyLimitExceeded
    );
    s.spend_from_allowance(id, 200, "c".to_string(), 1_000).unwrap();
    // A new day starts once more than a day has passed since the window began.
    assert_eq!(
        s.spend_from_allowance(id, 1, "d".to_string(), 1_000 + DAY).unwrap_err(),
        SpendingAllowanceError::DailyLimitExceeded
    );
    s.spend_from_allowance(id, 300, "e".to_string(), 1_001 + DAY).unwrap();
    assert_eq!(s.get_allowance(id).unwrap().daily_reset_timestamp, 1_001 + DAY);
    assert_eq!(s.get_allowance(id).unwrap().daily_spent, 300);
    // 800 spent of 1000: on a new day, 201 would exceed the total.
    let day3 = 1_002 + 2 * DAY;
    assert_eq!(
        s.spend_from_allowance(id, 201, "f".to_string(), day3).unwrap_err(),
        SpendingAllowanceError::AllowanceExhausted
    );
    s.spend_from_allowance(id, 200, "g".to_string(), day3).unwrap();
    assert_eq!(s.get_allowance(id).unwrap().status, AllowanceStatus::Exhausted);
    assert_eq!(s.get_remaining_balance(id), Ok(0));
    assert_eq!(
        s.spend_from_allowance(id, 1, "h".to_string(), day3).unwrap_err(),
        SpendingAllowanceError::AllowanceExhausted
    );
}

#[test]
fn spend_on_missing_or_expired_allowance_fails_without_change() {
    let (mut s, id) = store_with_allowance(1_000);
    assert_eq!(
        s.spend_from_allowance(9, 1, "x".to_string(), 1_000).unwrap_err(),
        SpendingAllowanceError::AllowanceNotFound
    );
    assert_eq!(
        s.spend_from_allowance(id, 1, "x".to_string(), 1_000 + 10 * DAY + 1).unwrap_err(),
        SpendingAllowanceError::AllowanceExpired
    );
    assert_eq!(s.get_allowance(id).unwrap().status, AllowanceStatus::Active);
    assert_eq!(s.transactions.len(), 0);
}

#[test]
fn pause_resume_and_revoke() {
    let (mut s, id) = store_with_allowance(1_000);
    assert_eq!(
        s.resume_allowance(id, 1_000),
        Err(SpendingAllowanceError::InvalidAllowanceAmount)
    );
    s.pause_allowance(id, 1_001).unwrap();
    assert_eq!(s.get_allowance(id).unwrap().status, AllowanceStatus::Paused);
    assert_eq!(
        s.spend_from_allowance(id, 1, "x".to_string(), 1_002).unwrap_err(),
        SpendingAllowanceError::AllowancePaused
    );
    s.resume_allowance(id, 1_003).unwrap();
    assert_eq!(s.get_allowance(id).unwrap().status, AllowanceStatus::Active);
    s.spend_from_allowance(id, 1, "y".to_string(), 1_004).unwrap();
    s.revoke_allowance(id, 1_005).unwrap();
    assert_eq!(
        s.spend_from_allowance(id, 1, "z".to_string(), 1_006).unwrap_err(),
        SpendingAllowanceError::AllowanceRevoked
    );
    let actions: Vec<AuditAction> = s.audit_log.iter().map(|e| e.action).collect();
    assert_eq!(
        actions,
        vec![
            AuditAction::Created,
            AuditAction::Paused,
            AuditAction::Resumed,
            AuditAction::TransactionApproved,
            AuditAction::Revoked
        ]
    );
    assert_eq!(s.pause_allowance(5, 0), Err(SpendingAllowanceError::AllowanceNotFound));
    assert_eq!(s.resume_allowance(5, 0), Err(SpendingAllowanceError::AllowanceNotFound));
    assert_eq!(s.revoke_allowance(5, 0), Err(SpendingAllowanceError::AllowanceNotFound));
}

#[test]
fn update_limits() {
    let (mut s, id) = store_with_allowance(1_000);
    assert_eq!(
        s.update_allowance_limits(id, 0, 10, 1_000),
        Err(SpendingAllowanceError::InvalidAllowanceAmount)
    );
    assert_eq!(
        s.update_allowance_limits(7, 10, 10, 1_000),
        Err(SpendingAllowanceError::AllowanceNotFound)
    );
    s.update_allowance_limits(id, 50, 60, 1_000).unwrap();
    let a = s.get_allowance(id).unwrap();
    assert_eq!(a.per_transaction_limit, 50);
    assert_eq!(a.daily_limit, 60);
    assert_eq!(s.audit_log.last().unwrap().details, "Allowance limits updated");
    assert_eq!(
        s.spend_from_allowance(id, 51, "x".to_string(), 1_000).unwrap_err(),
        SpendingAllowanceError::PerTransactionLimitExceeded
    );
}

#[test]
fn consents_record_verify_and_revoke() {
    let mut s = PreApprovedSpendingImpl::new();
    assert_eq!(
        s.record_consent(
            CUSTOMER,
            MERCHANT,
            ConsentType { code: 1 },
            [1u8; 32],
            [2u8; 32],
            [3u8; 32],
            [4u8; 32],
            100,
            vec![],
            100
        ),
        Err(SpendingAllowanceError::ConsentExpired)
    );
    let id = s
        .record_consent(
            CUSTOMER,
            MERCHANT,
            ConsentType { code: 1 },
            [1u8; 32],
            [2u8; 32],
            [3u8; 32],
            [4u8; 32],
            500,
            vec![("ip".to_string(), "hashed".to_string())],
            100,
        )
        .unwrap();
    assert_eq!(id, 1);
    let c = s.get_consent(id).unwrap();
    assert_eq!(c.status, ConsentStatus::Active);
    assert_eq!(c.timestamp, 100);
    assert_eq!(c.device_hash, [3u8; 32]);
    assert!(s.verify_consent(id, 500));
    assert!(!s.verify_consent(id, 501));
    assert!(!s.verify_consent(2, 100));
    s.revoke_consent(id).unwrap();
    assert!(!s.verify_consent(id, 100));
    assert_eq!(s.revoke_consent(2), Err(SpendingAllowanceError::ConsentNotFound));
    assert!(s.get_consent(0).is_none());
}

#[test]
fn allowances_by_customer_and_merchant() {
    let mut s = PreApprovedSpendingImpl::new();
    s.create_allowance(1, 10, TOKEN, 100, 10, 10, 50, [0u8; 32], vec![], 0).unwrap();
    s.create_allowance(2, 10, TOKEN, 100, 10, 10, 50, [0u8; 32], vec![], 0).unwrap();
    s.create_allowance(1, 20, TOKEN, 100, 10, 10, 50, [0u8; 32], vec![], 0).unwrap();
    let ids: Vec<u32> = s.get_customer_allowances(1).iter().map(|a| a.allowance_id).collect();
    assert_eq!(ids, vec![1, 3]);
    let ids: Vec<u32> = s.get_merchant_allowances(10).iter().map(|a| a.allowance_id).collect();
    assert_eq!(ids, vec![1, 2]);
    assert!(s.get_customer_allowances(99).is_empty());
    assert!(s.get_allowance_transactions(1).is_empty());
    let log = s.get_audit_log(1);
    assert_eq!(log.len(), 1);
    assert_eq!(log[0].action, AuditAction::Created);
}

#[test]
fn remaining_balances_of_missing_allowance() {
    let s = PreApprovedSpendingImpl::new();
    assert_eq!(s.get_remaining_balance(1), Err(SpendingAllowanceError::AllowanceNotFound));
    assert_eq!(s.get_daily_remaining(1, 0), Err(SpendingAllowanceError::AllowanceNotFound));
}

#[test]
fn daily_window_overflow_is_detected_before_spending() {
    let mut s = PreApprovedSpendingImpl::new();
    let late = u64::MAX - 10;
    s.create_allowance(CUSTOMER, MERCHANT, TOKEN, 100, 10, 10, u64::MAX, [0u8; 32], vec![], late)
        .unwrap();
    assert!(s.daily_window_overflows(1, 5, late));
    assert!(!s.daily_window_overflows(1, 11, late));
    assert!(!s.daily_window_overflows(2, 5, late));
    let (s2, id) = store_with_allowance(1_000);
    assert!(!s2.daily_window_overflows(id, 5, 1_000));
}

#[test]
fn ill_formed_store_is_detected() {
    let (mut s, _) = store_with_allowance(1_000);
    assert!(s.is_well_formed());
    s.allowances[0].amount_spent = 2_000;
    assert!(!s.is_well_formed());
}

#[test]
fn negative_spend_is_accepted() {
    // The sign of a spend is not checked.
    let (mut s, id) = store_with_allowance(1_000);
    s.spend_from_allowance(id, -50, "refund".to_string(), 1_000).unwrap();
    assert_eq!(s.get_remaining_balance(id), Ok(1_050));
    assert_eq!(s.get_daily_remaining(id, 1_000), Ok(550));
}

#[test]
fn daily_remaining_counts_only_the_current_window() {
    let (mut s, id) = store_with_allowance(1_000);
    s.spend_from_allowance(id, 200, "a".to_string(), 1_000).unwrap();
    assert_eq!(s.get_daily_remaining(id, 1_000), Ok(300));
    assert_eq!(s.get_daily_remaining(id, 1_000 + DAY), Ok(300));
    // More than a day after the window began, the whole daily limit is free.
    assert_eq!(s.get_daily_remaining(id, 1_001 + DAY), Ok(500));
}

#[test]
fn transaction_history_and_audit_log_per_allowance() {
    let (mut s, id) = store_with_allowance(1_000);
    let other = s
        .create_allowance(CUSTOMER, MERCHANT, TOKEN, 100, 100, 100, 5_000, [0u8; 32], vec![], 1_000)
        .unwrap();
    s.spend_from_allowance(id, 10, "first".to_string(), 1_000).unwrap();
    s.spend_from_allowance(other, 20, "elsewhere".to_string(), 1_000).unwrap();
    s.spend_from_allowance(id, 30, "second".to_string(), 1_000).unwrap();
    s.pause_allowance(id, 1_001).unwrap();
    let txs = s.get_allowance_transactions(id);
    let refs: Vec<&str> = txs.iter().map(|t| t.reference.as_str()).collect();
    assert_eq!(refs, vec!["first", "second"]);
    assert_eq!(txs[0].tx_id, 1);
    assert_eq!(txs[1].tx_id, 3);
    let log: Vec<AuditAction> = s.get_audit_log(id).iter().map(|l| l.action).collect();
    assert_eq!(
        log,
        vec![
            AuditAction::Created,
            AuditAction::TransactionApproved,
            AuditAction::TransactionApproved,
            AuditAction::Paused
        ]
    );
    assert_eq!(s.get_audit_log(other).len(), 2);
    assert!(s.get_allowance_transactions(9).is_empty());
}
