//! Pre-approved spending allowances.
//!
//! A customer grants a merchant an allowance: a total budget, a cap per
//! transaction and a cap per day, valid until an expiry time. The merchant
//! spends from it; the customer can pause, resume, revoke it or change its
//! limits. Consent records document what the customer agreed to. Every change
//! to an allowance is written to an audit log.
//!
//! Identifiers are handed out in sequence: the n-th allowance, consent,
//! transaction or audit entry has the identifier n. The store keeps each kind
//! of record in a vector whose position i holds the record with identifier
//! i + 1. Accounts are referred to by [`AccountId`].
use vstd::prelude::*;

use crate::AccountId;

verus! {


/// Length of the window after which the daily limit starts afresh.
pub const DAY_IN_SECONDS: u64 = 86400;

/// Lifecycle state of an allowance.
#[derive(Clone, Copy, Debug, PartialEq, Eq, Structural)]
pub enum AllowanceStatus {
    Active,
    Paused,
    Revoked,
    Expired,
    Exhausted,
}

/// Lifecycle state of a consent record.
#[derive(Clone, Copy, Debug, PartialEq, Eq, Structural)]
pub enum ConsentStatus {
    Active,
    Revoked,
}

/// Outcome of a spend.
#[derive(Clone, Copy, Debug, PartialEq, Eq, Structural)]
pub enum TransactionStatus {
    Completed,
}

/// What an audit entry records.
#[derive(Clone, Copy, Debug, PartialEq, Eq, Structural)]
pub enum AuditAction {
    Created,
    TransactionApproved,
    Paused,
    Resumed,
    Revoked,
    Modified,
}

/// The kind of consent a customer gave, by its numeric code; it is carried
/// through unchanged.
#[derive(Clone, Copy, Debug, PartialEq, Eq, Structural)]
pub struct ConsentType {
    pub code: u32,
}

/// Why an operation on allowances or consents was refused.
#[derive(Clone, Copy, Debug, PartialEq, Eq, Structural)]
pub enum SpendingAllowanceError {
    InvalidAllowanceAmount,
    AllowanceExpired,
    ConsentExpired,
    AllowanceNotFound,
    AllowanceRevoked,
    AllowancePaused,
    AllowanceExhausted,
    PerTransactionLimitExceeded,
    DailyLimitExceeded,
    ConsentNotFound,
}

/// A spending allowance granted by a customer to a merchant.
#[derive(Clone, Debug)]
pub struct SpendingAllowance {
    pub allowance_id: u32,
    pub customer: AccountId,
    pub merchant: AccountId,
    pub token: AccountId,
    pub total_amount: i128,
    pub amount_spent: i128,
    pub created_at: u64,
    pub expires_at: u64,
    pub status: AllowanceStatus,
    pub consent_hash: [u8; 32],
    pub consent_timestamp: u64,
    pub consent_metadata: Vec<(String, String)>,
    pub per_transaction_limit: i128,
    pub daily_limit: i128,
    pub daily_spent: i128,
    pub daily_reset_timestamp: u64,
}

/// A record of the consent a customer gave to a merchant.
#[derive(Clone, Debug)]
pub struct ConsentRecord {
    pub consent_id: u32,
    pub customer: AccountId,
    pub merchant: AccountId,
    pub consent_type: ConsentType,
    pub consent_hash: [u8; 32],
    pub timestamp: u64,
    pub expires_at: u64,
    pub ip_hash: [u8; 32],
    pub device_hash: [u8; 32],
    pub location_hash: [u8; 32],
    pub status: ConsentStatus,
    pub metadata: Vec<(String, String)>,
}

/// A completed spend from an allowance.
#[derive(Clone, Debug)]
pub struct AllowanceTransaction {
    pub tx_id: u32,
    pub allowance_id: u32,
    pub amount: i128,
    pub timestamp: u64,
    pub status: TransactionStatus,
    pub reference: String,
}

/// One entry of the audit log.
#[derive(Clone, Copy, Debug)]
pub struct AllowanceAuditLog {
    pub log_id: u32,
    pub allowance_id: u32,
    pub action: AuditAction,
    pub actor: AccountId,
    pub timestamp: u64,
    pub details: &'static str,
}

/// The store of allowances, consents, transactions and audit entries.
#[derive(Clone, Debug)]
pub struct PreApprovedSpendingImpl {
    pub allowances: Vec<SpendingAllowance>,
    pub consents: Vec<ConsentRecord>,
    pub transactions: Vec<AllowanceTransaction>,
    pub audit_log: Vec<AllowanceAuditLog>,
}

// ---------------------------------------------------------------------------
// Specification
// ---------------------------------------------------------------------------

/// The customer of an allowance, or its merchant when `customer` is false.
pub open spec fn party_of(a: SpendingAllowance, customer: bool) -> AccountId {
    if customer {
        a.customer
    } else {
        a.merchant
    }
}

/// The text that the audit log records for each action.
pub open spec fn audit_details_text(action: AuditAction) -> &'static str {
    match action {
        AuditAction::Created => "Allowance created",
        AuditAction::TransactionApproved => "Spent from allowance",
        AuditAction::Paused => "Allowance paused",
        AuditAction::Resumed => "Allowance resumed",
        AuditAction::Revoked => "Allowance revoked",
        AuditAction::Modified => "Allowance limits updated",
    }
}

/// The text that the audit log records for `action`.
pub fn audit_details(action: AuditAction) -> (d: &'static str)
    ensures
        d == audit_details_text(action),
{
    match action {
        AuditAction::Created => "Allowance created",
        AuditAction::TransactionApproved => "Spent from allowance",
        AuditAction::Paused => "Allowance paused",
        AuditAction::Resumed => "Allowance resumed",
        AuditAction::Revoked => "Allowance revoked",
        AuditAction::Modified => "Allowance limits updated",
    }
}

/// The audit log after an entry is logged: a new entry with the next
/// identifier, or, once the identifiers are used up, the last entry
/// overwritten under the last identifier.
pub open spec fn log_appended(
    log: Seq<AllowanceAuditLog>,
    allowance_id: u32,
    action: AuditAction,
    actor: AccountId,
    now: u64,
    details: &'static str,
) -> Seq<AllowanceAuditLog> {
    if log.len() < u32::MAX {
        log.push(
            AllowanceAuditLog {
                log_id: (log.len() + 1) as u32,
                allowance_id,
                action,
                actor,
                timestamp: now,
                details,
            },
        )
    } else {
        log.update(
            log.len() - 1,
            AllowanceAuditLog {
                log_id: log.len() as u32,
                allowance_id,
                action,
                actor,
                timestamp: now,
                details,
            },
        )
    }
}

/// Allowance terms that can be granted: every amount positive, and neither
/// limit above the total.
pub open spec fn valid_allowance_terms(
    total_amount: i128,
    per_transaction_limit: i128,
    daily_limit: i128,
) -> bool {
    &&& 0 < total_amount
    &&& 0 < per_transaction_limit <= total_amount
    &&& 0 < daily_limit <= total_amount
}

/// The error with which a new allowance is refused, if any.
pub open spec fn create_allowance_error(
    count: nat,
    total_amount: i128,
    per_transaction_limit: i128,
    daily_limit: i128,
    expires_at: u64,
    now: u64,
) -> Option<SpendingAllowanceError> {
    if total_amount <= 0 || per_transaction_limit <= 0 || daily_limit <= 0 {
        Some(SpendingAllowanceError::InvalidAllowanceAmount)
    } else if per_transaction_limit > total_amount || daily_limit > total_amount {
        Some(SpendingAllowanceError::InvalidAllowanceAmount)
    } else if expires_at <= now {
        Some(SpendingAllowanceError::AllowanceExpired)
    } else if count >= u32::MAX {
        Some(SpendingAllowanceError::InvalidAllowanceAmount)
    } else {
        None
    }
}

/// The daily window of an allowance at time `now`: the amount spent in it and
/// when it began. A window older than a day starts afresh at `now`.
pub open spec fn daily_window(a: SpendingAllowance, now: u64) -> (i128, u64) {
    if now > a.daily_reset_timestamp + DAY_IN_SECONDS {
        (0i128, now)
    } else {
        (a.daily_spent, a.daily_reset_timestamp)
    }
}

/// Whether a spend of `amount` at `now` gets past the status, expiry and
/// per-transaction checks, to where the daily window is looked at.
pub open spec fn spend_reaches_window(a: SpendingAllowance, amount: i128, now: u64) -> bool {
    &&& a.status != AllowanceStatus::Revoked
    &&& a.status != AllowanceStatus::Paused
    &&& a.status != AllowanceStatus::Expired
    &&& a.status != AllowanceStatus::Exhausted
    &&& now <= a.expires_at
    &&& amount <= a.per_transaction_limit
}

/// The error with which a spend of `amount` at `now` from `a` is refused, if
/// any; `tx_count` transactions have been recorded before.
pub open spec fn spend_error(a: SpendingAllowance, amount: i128, now: u64, tx_count: nat) -> Option<
    SpendingAllowanceError,
> {
    let window_spent = daily_window(a, now).0;
    if a.status == AllowanceStatus::Revoked {
        Some(SpendingAllowanceError::AllowanceRevoked)
    } else if a.status == AllowanceStatus::Paused {
        Some(SpendingAllowanceError::AllowancePaused)
    } else if a.status == AllowanceStatus::Expired {
        Some(SpendingAllowanceError::AllowanceExpired)
    } else if a.status == AllowanceStatus::Exhausted {
        Some(SpendingAllowanceError::AllowanceExhausted)
    } else if now > a.expires_at {
        Some(SpendingAllowanceError::AllowanceExpired)
    } else if amount > a.per_transaction_limit {
        Some(SpendingAllowanceError::PerTransactionLimitExceeded)
    } else if window_spent + amount < i128::MIN || window_spent + amount > i128::MAX {
        Some(SpendingAllowanceError::InvalidAllowanceAmount)
    } else if window_spent + amount > a.daily_limit {
        Some(SpendingAllowanceError::DailyLimitExceeded)
    } else if a.amount_spent + amount < i128::MIN || a.amount_spent + amount > i128::MAX {
        Some(SpendingAllowanceError::InvalidAllowanceAmount)
    } else if a.amount_spent + amount > a.total_amount {
        Some(SpendingAllowanceError::AllowanceExhausted)
    } else if tx_count >= u32::MAX {
        Some(SpendingAllowanceError::InvalidAllowanceAmount)
    } else {
        None
    }
}

/// The allowance after a successful spend of `amount` at `now`.
pub open spec fn spent(a: SpendingAllowance, amount: i128, now: u64) -> SpendingAllowance {
    let (window_spent, window_start) = daily_window(a, now);
    let new_total = (a.amount_spent + amount) as i128;
    SpendingAllowance {
        amount_spent: new_total,
        daily_spent: (window_spent + amount) as i128,
        daily_reset_timestamp: window_start,
        status: if new_total >= a.total_amount {
            AllowanceStatus::Exhausted
        } else {
            a.status
        },
        ..a
    }
}

impl PreApprovedSpendingImpl {
    /// The invariant of the store: identifiers match positions and fit in
    /// `u32`, and every allowance has positive limits and has not spent more
    /// than its total.
    pub open spec fn wf(&self) -> bool {
        &&& self.allowances@.len() <= u32::MAX
        &&& self.consents@.len() <= u32::MAX
        &&& self.transactions@.len() <= u32::MAX
        &&& self.audit_log@.len() <= u32::MAX
        &&& forall|i: int|
            0 <= i < self.allowances@.len() ==> {
                let a = #[trigger] self.allowances@[i];
                &&& a.allowance_id == i + 1
                &&& a.total_amount > 0
                &&& a.per_transaction_limit > 0
                &&& a.daily_limit > 0
                &&& a.amount_spent <= a.total_amount
            }
        &&& forall|i: int|
            0 <= i < self.consents@.len() ==> (#[trigger] self.consents@[i]).consent_id == i + 1
        &&& forall|i: int|
            0 <= i < self.transactions@.len() ==> (#[trigger] self.transactions@[i]).tx_id == i
                + 1
        &&& forall|i: int|
            0 <= i < self.audit_log@.len() ==> (#[trigger] self.audit_log@[i]).log_id == i + 1
    }

    /// Whether an allowance with identifier `id` exists.
    pub open spec fn has_allowance(&self, id: u32) -> bool {
        1 <= id <= self.allowances@.len()
    }

    /// The allowance with identifier `id` (meaningful when it exists).
    pub open spec fn allowance(&self, id: u32) -> SpendingAllowance {
        self.allowances@[id - 1]
    }

    /// Whether a consent record with identifier `id` exists.
    pub open spec fn has_consent(&self, id: u32) -> bool {
        1 <= id <= self.consents@.len()
    }

    /// The consent record with identifier `id` (meaningful when it exists).
    pub open spec fn consent(&self, id: u32) -> ConsentRecord {
        self.consents@[id - 1]
    }

    /// The allowances granted by `customer`, in order of creation.
    pub open spec fn allowances_of_customer(&self, customer: AccountId) -> Seq<SpendingAllowance> {
        self.allowances@.filter(|a: SpendingAllowance| a.customer == customer)
    }

    /// The allowances granted to `merchant`, in order of creation.
    pub open spec fn allowances_of_merchant(&self, merchant: AccountId) -> Seq<SpendingAllowance> {
        self.allowances@.filter(|a: SpendingAllowance| a.merchant == merchant)
    }

    /// Whether a spend from allowance `id` reaches the point where the daily
    /// window is computed and the window's start plus a day is out of range
    /// of `u64`.
    pub open spec fn spend_overflows_window(&self, id: u32, amount: i128, now: u64) -> bool {
        &&& self.has_allowance(id)
        &&& spend_reaches_window(self.allowance(id), amount, now)
        &&& self.allowance(id).daily_reset_timestamp + DAY_IN_SECONDS > u64::MAX
    }
}

// ---------------------------------------------------------------------------
// Implementation
// ---------------------------------------------------------------------------

impl PreApprovedSpendingImpl {
    /// An empty store.
    pub fn new() -> (s: Self)
        ensures
            s.wf(),
            s.allowances@.len() == 0,
            s.consents@.len() == 0,
            s.transactions@.len() == 0,
            s.audit_log@.len() == 0,
    {
        PreApprovedSpendingImpl {
            allowances: Vec::new(),
            consents: Vec::new(),
            transactions: Vec::new(),
            audit_log: Vec::new(),
        }
    }

    /// Checks the invariant of a store that was put together from outside.
    pub fn is_well_formed(&self) -> (r: bool)
        ensures
            r == self.wf(),
    {
        if self.allowances.len() > 4294967295usize || self.consents.len() > 4294967295usize
            || self.transactions.len() > 4294967295usize || self.audit_log.len()
            > 4294967295usize {
            return false;
        }
        let mut i: usize = 0;
        while i < self.allowances.len()
            invariant
                i <= self.allowances@.len(),
                self.allowances@.len() <= u32::MAX,
                forall|k: int|
                    0 <= k < i ==> {
                        let a = #[trigger] self.allowances@[k];
                        &&& a.allowance_id == k + 1
                        &&& a.total_amount > 0
                        &&& a.per_transaction_limit > 0
                        &&& a.daily_limit > 0
                        &&& a.amount_spent <= a.total_amount
                    },
            decreases self.allowances@.len() - i,
        {
            let a = &self.allowances[i];
            if a.allowance_id as usize != i + 1 || a.total_amount <= 0 || a.per_transaction_limit
                <= 0 || a.daily_limit <= 0 || a.amount_spent > a.total_amount {
                return false;
            }
            i = i + 1;
        }
        let mut i: usize = 0;
        while i < self.consents.len()
            invariant
                i <= self.consents@.len(),
                self.consents@.len() <= u32::MAX,
                forall|k: int| 0 <= k < i ==> (#[trigger] self.consents@[k]).consent_id == k + 1,
            decreases self.consents@.len() - i,
        {
            if self.consents[i].consent_id as usize != i + 1 {
                return false;
            }
            i = i + 1;
        }
        let mut i: usize = 0;
        while i < self.transactions.len()
            invariant
                i <= self.transactions@.len(),
                self.transactions@.len() <= u32::MAX,
                forall|k: int| 0 <= k < i ==> (#[trigger] self.transactions@[k]).tx_id == k + 1,
            decreases self.transactions@.len() - i,
        {
            if self.transactions[i].tx_id as usize != i + 1 {
                return false;
            }
            i = i + 1;
        }
        let mut i: usize = 0;
        while i < self.audit_log.len()
            invariant
                i <= self.audit_log@.len(),
                self.audit_log@.len() <= u32::MAX,
                forall|k: int| 0 <= k < i ==> (#[trigger] self.audit_log@[k]).log_id == k + 1,
            decreases self.audit_log@.len() - i,
        {
            if self.audit_log[i].log_id as usize != i + 1 {
                return false;
            }
            i = i + 1;
        }
        true
    }


    /// Creates an allowance from `customer` to `merchant` over `token` and
    /// returns its identifier. Refused when an amount is not positive, when a
    /// limit exceeds the total, when the expiry is not after `now`, or when
    /// the identifiers are used up.
    pub fn create_allowance(
        &mut self,
        customer: AccountId,
        merchant: AccountId,
        token: AccountId,
        total_amount: i128,
        per_transaction_limit: i128,
        daily_limit: i128,
        expires_at: u64,
        consent_hash: [u8; 32],
        consent_metadata: Vec<(String, String)>,
        now: u64,
    ) -> (r: Result<u32, SpendingAllowanceError>)
        requires
            old(self).wf(),
        ensures
            final(self).wf(),
            r is Ok <==> (valid_allowance_terms(total_amount, per_transaction_limit, daily_limit)
                && expires_at > now && old(self).allowances@.len() < u32::MAX),
            valid_allowance_terms(total_amount, per_transaction_limit, daily_limit) && expires_at
                <= now ==> r == Err::<u32, SpendingAllowanceError>(
                SpendingAllowanceError::AllowanceExpired,
            ) && *final(self) == *old(self),
            match create_allowance_error(
                old(self).allowances@.len(),
                total_amount,
                per_transaction_limit,
                daily_limit,
                expires_at,
                now,
            ) {
                Some(e) => r == Err::<u32, SpendingAllowanceError>(e) && *final(self) == *old(self),
                None => {
                    &&& r == Ok::<u32, SpendingAllowanceError>((old(self).allowances@.len() + 1) as u32)
                    &&& final(self).allowances@ == old(self).allowances@.push(
                        SpendingAllowance {
                            allowance_id: (old(self).allowances@.len() + 1) as u32,
                            customer,
                            merchant,
                            token,
                            total_amount,
                            amount_spent: 0,
                            created_at: now,
                            expires_at,
                            status: AllowanceStatus::Active,
                            consent_hash,
                            consent_timestamp: now,
                            consent_metadata,
                            per_transaction_limit,
                            daily_limit,
                            daily_spent: 0,
                            daily_reset_timestamp: now,
                        },
                    )
                    &&& final(self).audit_log@ == log_appended(
                        old(self).audit_log@,
                        (old(self).allowances@.len() + 1) as u32,
                        AuditAction::Created,
                        customer,
                        now,
                        "Allowance created",
                    )
                    &&& final(self).consents@ == old(self).consents@
                    &&& final(self).transactions@ == old(self).transactions@
                },
            },
    {
        if total_amount <= 0 || per_transaction_limit <= 0 || daily_limit <= 0 {
            return Err(SpendingAllowanceError::InvalidAllowanceAmount);
        }
        if per_transaction_limit > total_amount || daily_limit > total_amount {
            return Err(SpendingAllowanceError::InvalidAllowanceAmount);
        }
        if expires_at <= now {
            return Err(SpendingAllowanceError::AllowanceExpired);
        }
        let count = self.allowances.len();
        if count >= 4294967295usize {
            return Err(SpendingAllowanceError::InvalidAllowanceAmount);
        }
        let next_id = (count + 1) as u32;
        let allowance = SpendingAllowance {
            allowance_id: next_id,
            customer,
            merchant,
            token,
            total_amount,
            amount_spent: 0,
            created_at: now,
            expires_at,
            status: AllowanceStatus::Active,
            consent_hash,
            consent_timestamp: now,
            consent_metadata,
            per_transaction_limit,
            daily_limit,
            daily_spent: 0,
            daily_reset_timestamp: now,
        };
        self.allowances.push(allowance);
        self.log_audit_entry(next_id, AuditAction::Created, customer, now);
        Ok(next_id)
    }

    /// Records a consent given by `customer` to `merchant` and returns its
    /// identifier. Refused when the expiry is not after `now`, or when the
    /// identifiers are used up.
    pub fn record_consent(
        &mut self,
        customer: AccountId,
        merchant: AccountId,
        consent_type: ConsentType,
        consent_hash: [u8; 32],
        ip_hash: [u8; 32],
        device_hash: [u8; 32],
        location_hash: [u8; 32],
        expires_at: u64,
        metadata: Vec<(String, String)>,
        now: u64,
    ) -> (r: Result<u32, SpendingAllowanceError>)
        requires
            old(self).wf(),
        ensures
            final(self).wf(),
            expires_at <= now ==> r == Err::<u32, SpendingAllowanceError>(
                SpendingAllowanceError::ConsentExpired,
            ) && *final(self) == *old(self),
            expires_at > now && old(self).consents@.len() >= u32::MAX ==> r == Err::<
                u32,
                SpendingAllowanceError,
            >(SpendingAllowanceError::InvalidAllowanceAmount) && *final(self) == *old(self),
            expires_at > now && old(self).consents@.len() < u32::MAX ==> {
                &&& r == Ok::<u32, SpendingAllowanceError>((old(self).consents@.len() + 1) as u32)
                &&& final(self).consents@ == old(self).consents@.push(
                    ConsentRecord {
                        consent_id: (old(self).consents@.len() + 1) as u32,
                        customer,
                        merchant,
                        consent_type,
                        consent_hash,
                        timestamp: now,
                        expires_at,
                        ip_hash,
                        device_hash,
                        location_hash,
                        status: ConsentStatus::Active,
                        metadata,
                    },
                )
                &&& final(self).allowances@ == old(self).allowances@
                &&& final(self).transactions@ == old(self).transactions@
                &&& final(self).audit_log@ == old(self).audit_log@
            },
    {
        if expires_at <= now {
            return Err(SpendingAllowanceError::ConsentExpired);
        }
        let count = self.consents.len();
        if count >= 4294967295usize {
            return Err(SpendingAllowanceError::InvalidAllowanceAmount);
        }
        let next_id = (count + 1) as u32;
        let consent = ConsentRecord {
            consent_id: next_id,
            customer,
            merchant,
            consent_type,
            consent_hash,
            timestamp: now,
            expires_at,
            ip_hash,
            device_hash,
            location_hash,
            status: ConsentStatus::Active,
            metadata,
        };
        self.consents.push(consent);
        Ok(next_id)
    }

    /// Spends `amount` from allowance `allowance_id` at time `now` and returns
    /// the recorded transaction. Refused when the allowance does not exist, is
    /// not active, has expired, or when the amount exceeds the per-transaction
    /// limit, what is left of the daily limit or of the total. A daily window
    /// older than a day starts afresh. The allowance becomes exhausted when
    /// its total is reached.
    pub fn spend_from_allowance(
        &mut self,
        allowance_id: u32,
        amount: i128,
        reference: String,
        now: u64,
    ) -> (r: Result<AllowanceTransaction, SpendingAllowanceError>)
        requires
            old(self).wf(),
            !old(self).spend_overflows_window(allowance_id, amount, now),
        ensures
            final(self).wf(),
            r is Ok ==> {
                let a = old(self).allowance(allowance_id);
                let b = final(self).allowance(allowance_id);
                let lapsed = now > a.daily_reset_timestamp + DAY_IN_SECONDS;
                &&& final(self).has_allowance(allowance_id)
                &&& b.daily_reset_timestamp == if lapsed {
                    now
                } else {
                    a.daily_reset_timestamp
                }
                &&& b.daily_spent == (if lapsed {
                    0
                } else {
                    a.daily_spent as int
                }) + amount
                &&& b.amount_spent == a.amount_spent + amount
                &&& amount <= a.per_transaction_limit
                &&& b.daily_spent <= a.daily_limit
                &&& b.amount_spent <= a.total_amount
            },
            !old(self).has_allowance(allowance_id) ==> r == Err::<
                AllowanceTransaction,
                SpendingAllowanceError,
            >(SpendingAllowanceError::AllowanceNotFound) && *final(self) == *old(self),
            old(self).has_allowance(allowance_id) ==> match spend_error(
                old(self).allowance(allowance_id),
                amount,
                now,
                old(self).transactions@.len(),
            ) {
                Some(e) => r == Err::<AllowanceTransaction, SpendingAllowanceError>(e)
                    && *final(self) == *old(self),
                None => {
                    let tx = AllowanceTransaction {
                        tx_id: (old(self).transactions@.len() + 1) as u32,
                        allowance_id,
                        amount,
                        timestamp: now,
                        status: TransactionStatus::Completed,
                        reference,
                    };
                    &&& r == Ok::<AllowanceTransaction, SpendingAllowanceError>(tx)
                    &&& final(self).allowances@ == old(self).allowances@.update(
                        allowance_id - 1,
                        spent(old(self).allowance(allowance_id), amount, now),
                    )
                    &&& final(self).transactions@ == old(self).transactions@.push(tx)
                    &&& final(self).audit_log@ == log_appended(
                        old(self).audit_log@,
                        allowance_id,
                        AuditAction::TransactionApproved,
                        old(self).allowance(allowance_id).customer,
                        now,
                        "Spent from allowance",
                    )
                    &&& final(self).consents@ == old(self).consents@
                },
            },
    {
        if allowance_id == 0 || allowance_id as usize > self.allowances.len() {
            return Err(SpendingAllowanceError::AllowanceNotFound);
        }
        let idx = (allowance_id - 1) as usize;
        let status = self.allowances[idx].status;
        match status {
            AllowanceStatus::Revoked => {
                return Err(SpendingAllowanceError::AllowanceRevoked);
            },
            AllowanceStatus::Paused => {
                return Err(SpendingAllowanceError::AllowancePaused);
            },
            AllowanceStatus::Expired => {
                return Err(SpendingAllowanceError::AllowanceExpired);
            },
            AllowanceStatus::Exhausted => {
                return Err(SpendingAllowanceError::AllowanceExhausted);
            },
            _ => {},
        }
        let expires_at = self.allowances[idx].expires_at;
        if now > expires_at {
            return Err(SpendingAllowanceError::AllowanceExpired);
        }
        if amount > self.allowances[idx].per_transaction_limit {
            return Err(SpendingAllowanceError::PerTransactionLimitExceeded);
        }
        let mut daily_spent = self.allowances[idx].daily_spent;
        let mut daily_reset_timestamp = self.allowances[idx].daily_reset_timestamp;
        if now > daily_reset_timestamp + DAY_IN_SECONDS {
            daily_spent = 0;
            daily_reset_timestamp = now;
        }
        let new_daily_spent = match daily_spent.checked_add(amount) {
            Some(v) => v,
            None => {
                return Err(SpendingAllowanceError::InvalidAllowanceAmount);
            },
        };
        if new_daily_spent > self.allowances[idx].daily_limit {
            return Err(SpendingAllowanceError::DailyLimitExceeded);
        }
        let new_total_spent = match self.allowances[idx].amount_spent.checked_add(amount) {
            Some(v) => v,
            None => {
                return Err(SpendingAllowanceError::InvalidAllowanceAmount);
            },
        };
        let total_amount = self.allowances[idx].total_amount;
        if new_total_spent > total_amount {
            return Err(SpendingAllowanceError::AllowanceExhausted);
        }
        let tx_count = self.transactions.len();
        if tx_count >= 4294967295usize {
            return Err(SpendingAllowanceError::InvalidAllowanceAmount);
        }
        let customer = self.allowances[idx].customer;
        let a = &mut self.allowances[idx];
        a.amount_spent = new_total_spent;
        a.daily_spent = new_daily_spent;
        a.daily_reset_timestamp = daily_reset_timestamp;
        if new_total_spent >= total_amount {
            a.status = AllowanceStatus::Exhausted;
        }
        let next_tx_id = (tx_count + 1) as u32;
        let stored = AllowanceTransaction {
            tx_id: next_tx_id,
            allowance_id,
            amount,
            timestamp: now,
            status: TransactionStatus::Completed,
            reference: reference.clone(),
        };
        self.transactions.push(stored);
        self.log_audit_entry(
            allowance_id,
            AuditAction::TransactionApproved,
            customer,
            now,
        );
        Ok(
            AllowanceTransaction {
                tx_id: next_tx_id,
                allowance_id,
                amount,
                timestamp: now,
                status: TransactionStatus::Completed,
                reference,
            },
        )
    }

    /// The allowance with identifier `allowance_id`, if it exists.
    pub fn get_allowance(&self, allowance_id: u32) -> (r: Option<&SpendingAllowance>)
        requires
            self.wf(),
        ensures
            match r {
                Some(a) => self.has_allowance(allowance_id) && *a == self.allowance(allowance_id),
                None => !self.has_allowance(allowance_id),
            },
    {
        if allowance_id == 0 || allowance_id as usize > self.allowances.len() {
            None
        } else {
            Some(&self.allowances[(allowance_id - 1) as usize])
        }
    }

    /// The consent record with identifier `consent_id`, if it exists.
    pub fn get_consent(&self, consent_id: u32) -> (r: Option<&ConsentRecord>)
        requires
            self.wf(),
        ensures
            match r {
                Some(c) => self.has_consent(consent_id) && *c == self.consent(consent_id),
                None => !self.has_consent(consent_id),
            },
    {
        if consent_id == 0 || consent_id as usize > self.consents.len() {
            None
        } else {
            Some(&self.consents[(consent_id - 1) as usize])
        }
    }

    /// Sets the status of an existing allowance and logs the change.
    fn set_allowance_status(
        &mut self,
        allowance_id: u32,
        status: AllowanceStatus,
        action: AuditAction,
        now: u64,
    )
        requires
            old(self).wf(),
            old(self).has_allowance(allowance_id),
        ensures
            final(self).wf(),
            final(self).allowances@ == old(self).allowances@.update(
                allowance_id - 1,
                SpendingAllowance { status, ..old(self).allowance(allowance_id) },
            ),
            final(self).audit_log@ == log_appended(
                old(self).audit_log@,
                allowance_id,
                action,
                old(self).allowance(allowance_id).customer,
                now,
                audit_details_text(action),
            ),
            final(self).consents@ == old(self).consents@,
            final(self).transactions@ == old(self).transactions@,
    {
        let idx = (allowance_id - 1) as usize;
        let customer = self.allowances[idx].customer;
        let a = &mut self.allowances[idx];
        a.status = status;
        self.log_audit_entry(allowance_id, action, customer, now);
    }

    /// Pauses an allowance, whatever its status. Refused when it does not
    /// exist.
    pub fn pause_allowance(&mut self, allowance_id: u32, now: u64) -> (r: Result<
        (),
        SpendingAllowanceError,
    >)
        requires
            old(self).wf(),
        ensures
            final(self).wf(),
            !old(self).has_allowance(allowance_id) ==> r == Err::<(), SpendingAllowanceError>(
                SpendingAllowanceError::AllowanceNotFound,
            ) && *final(self) == *old(self),
            old(self).has_allowance(allowance_id) ==> {
                &&& r is Ok
                &&& final(self).allowances@ == old(self).allowances@.update(
                    allowance_id - 1,
                    SpendingAllowance {
                        status: AllowanceStatus::Paused,
                        ..old(self).allowance(allowance_id)
                    },
                )
                &&& final(self).audit_log@ == log_appended(
                    old(self).audit_log@,
                    allowance_id,
                    AuditAction::Paused,
                    old(self).allowance(allowance_id).customer,
                    now,
                    "Allowance paused",
                )
                &&& final(self).consents@ == old(self).consents@
                &&& final(self).transactions@ == old(self).transactions@
            },
    {
        if allowance_id == 0 || allowance_id as usize > self.allowances.len() {
            return Err(SpendingAllowanceError::AllowanceNotFound);
        }
        self.set_allowance_status(
            allowance_id,
            AllowanceStatus::Paused,
            AuditAction::Paused,
            now,
        );
        Ok(())
    }

    /// Resumes a paused allowance. Refused when it does not exist or is not
    /// paused.
    pub fn resume_allowance(&mut self, allowance_id: u32, now: u64) -> (r: Result<
        (),
        SpendingAllowanceError,
    >)
        requires
            old(self).wf(),
        ensures
            final(self).wf(),
            !old(self).has_allowance(allowance_id) ==> r == Err::<(), SpendingAllowanceError>(
                SpendingAllowanceError::AllowanceNotFound,
            ) && *final(self) == *old(self),
            old(self).has_allowance(allowance_id) && old(self).allowance(allowance_id).status
                != AllowanceStatus::Paused ==> r == Err::<(), SpendingAllowanceError>(
                SpendingAllowanceError::InvalidAllowanceAmount,
            ) && *final(self) == *old(self),
            old(self).has_allowance(allowance_id) && old(self).allowance(allowance_id).status
                == AllowanceStatus::Paused ==> {
                &&& r is Ok
                &&& final(self).allowances@ == old(self).allowances@.update(
                    allowance_id - 1,
                    SpendingAllowance {
                        status: AllowanceStatus::Active,
                        ..old(self).allowance(allowance_id)
                    },
                )
                &&& final(self).audit_log@ == log_appended(
                    old(self).audit_log@,
                    allowance_id,
                    AuditAction::Resumed,
                    old(self).allowance(allowance_id).customer,
                    now,
                    "Allowance resumed",
                )
                &&& final(self).consents@ == old(self).consents@
                &&& final(self).transactions@ == old(self).transactions@
            },
    {
        if allowance_id == 0 || allowance_id as usize > self.allowances.len() {
            return Err(SpendingAllowanceError::AllowanceNotFound);
        }
        if self.allowances[(allowance_id - 1) as usize].status != AllowanceStatus::Paused {
            return Err(SpendingAllowanceError::InvalidAllowanceAmount);
        }
        self.set_allowance_status(
            allowance_id,
            AllowanceStatus::Active,
            AuditAction::Resumed,
            now,
        );
        Ok(())
    }

    /// Revokes an allowance, whatever its status. Refused when it does not
    /// exist.
    pub fn revoke_allowance(&mut self, allowance_id: u32, now: u64) -> (r: Result<
        (),
        SpendingAllowanceError,
    >)
        requires
            old(self).wf(),
        ensures
            final(self).wf(),
            !old(self).has_allowance(allowance_id) ==> r == Err::<(), SpendingAllowanceError>(
                SpendingAllowanceError::AllowanceNotFound,
            ) && *final(self) == *old(self),
            old(self).has_allowance(allowance_id) ==> {
                &&& r is Ok
                &&& final(self).allowances@ == old(self).allowances@.update(
                    allowance_id - 1,
                    SpendingAllowance {
                        status: AllowanceStatus::Revoked,
                        ..old(self).allowance(allowance_id)
                    },
                )
                &&& final(self).audit_log@ == log_appended(
                    old(self).audit_log@,
                    allowance_id,
                    AuditAction::Revoked,
                    old(self).allowance(allowance_id).customer,
                    now,
                    "Allowance revoked",
                )
                &&& final(self).consents@ == old(self).consents@
                &&& final(self).transactions@ == old(self).transactions@
            },
    {
        if allowance_id == 0 || allowance_id as usize > self.allowances.len() {
            return Err(SpendingAllowanceError::AllowanceNotFound);
        }
        self.set_allowance_status(
            allowance_id,
            AllowanceStatus::Revoked,
            AuditAction::Revoked,
            now,
        );
        Ok(())
    }

    /// Revokes a consent record. Refused when it does not exist.
    pub fn revoke_consent(&mut self, consent_id: u32) -> (r: Result<(), SpendingAllowanceError>)
        requires
            old(self).wf(),
        ensures
            final(self).wf(),
            !old(self).has_consent(consent_id) ==> r == Err::<(), SpendingAllowanceError>(
                SpendingAllowanceError::ConsentNotFound,
            ) && *final(self) == *old(self),
            old(self).has_consent(consent_id) ==> {
                &&& r is Ok
                &&& final(self).consents@ == old(self).consents@.update(
                    consent_id - 1,
                    ConsentRecord { status: ConsentStatus::Revoked, ..old(self).consent(consent_id) },
                )
                &&& final(self).allowances@ == old(self).allowances@
                &&& final(self).transactions@ == old(self).transactions@
                &&& final(self).audit_log@ == old(self).audit_log@
            },
    {
        if consent_id == 0 || consent_id as usize > self.consents.len() {
            return Err(SpendingAllowanceError::ConsentNotFound);
        }
        let c = &mut self.consents[(consent_id - 1) as usize];
        c.status = ConsentStatus::Revoked;
        Ok(())
    }

    /// What is left of an allowance's total. Refused when the allowance does
    /// not exist, or when the difference is out of range of `i128`.
    pub fn get_remaining_balance(&self, allowance_id: u32) -> (r: Result<i128, SpendingAllowanceError>)
        requires
            self.wf(),
        ensures
            !self.has_allowance(allowance_id) ==> r == Err::<i128, SpendingAllowanceError>(
                SpendingAllowanceError::AllowanceNotFound,
            ),
            self.has_allowance(allowance_id) ==> {
                let d = self.allowance(allowance_id).total_amount - self.allowance(
                    allowance_id,
                ).amount_spent;
                if i128::MIN <= d <= i128::MAX {
                    r == Ok::<i128, SpendingAllowanceError>(d as i128)
                } else {
                    r == Err::<i128, SpendingAllowanceError>(
                        SpendingAllowanceError::InvalidAllowanceAmount,
                    )
                }
            },
    {
        if allowance_id == 0 || allowance_id as usize > self.allowances.len() {
            return Err(SpendingAllowanceError::AllowanceNotFound);
        }
        let a = &self.allowances[(allowance_id - 1) as usize];
        match a.total_amount.checked_sub(a.amount_spent) {
            Some(d) => Ok(d),
            None => Err(SpendingAllowanceError::InvalidAllowanceAmount),
        }
    }

    /// What the daily limit of an allowance still allows at time `now`: the
    /// daily limit less what was spent in the current daily window, which is
    /// nothing once the window is more than a day old. Refused when the
    /// allowance does not exist, or when the difference is out of range of
    /// `i128`.
    pub fn get_daily_remaining(&self, allowance_id: u32, now: u64) -> (r: Result<
        i128,
        SpendingAllowanceError,
    >)
        requires
            self.wf(),
        ensures
            !self.has_allowance(allowance_id) ==> r == Err::<i128, SpendingAllowanceError>(
                SpendingAllowanceError::AllowanceNotFound,
            ),
            self.has_allowance(allowance_id) ==> {
                let a = self.allowance(allowance_id);
                let d = a.daily_limit - daily_window(a, now).0;
                if i128::MIN <= d <= i128::MAX {
                    r == Ok::<i128, SpendingAllowanceError>(d as i128)
                } else {
                    r == Err::<i128, SpendingAllowanceError>(
                        SpendingAllowanceError::InvalidAllowanceAmount,
                    )
                }
            },
    {
        if allowance_id == 0 || allowance_id as usize > self.allowances.len() {
            return Err(SpendingAllowanceError::AllowanceNotFound);
        }
        let a = &self.allowances[(allowance_id - 1) as usize];
        let window_spent: i128 = if now > a.daily_reset_timestamp && now - a.daily_reset_timestamp
            > DAY_IN_SECONDS {
            0
        } else {
            a.daily_spent
        };
        match a.daily_limit.checked_sub(window_spent) {
            Some(d) => Ok(d),
            None => Err(SpendingAllowanceError::InvalidAllowanceAmount),
        }
    }

    /// The transactions of allowance `allowance_id`, in the order they were
    /// made.
    pub fn get_allowance_transactions(&self, allowance_id: u32) -> (r: Vec<&AllowanceTransaction>)
        ensures
            r@.map_values(|t: &AllowanceTransaction| *t) == self.transactions@.filter(
                |t: AllowanceTransaction| t.allowance_id == allowance_id,
            ),
    {
        let ghost pred = |t: AllowanceTransaction| t.allowance_id == allowance_id;
        let mut r: Vec<&AllowanceTransaction> = Vec::new();
        let mut i: usize = 0;
        while i < self.transactions.len()
            invariant
                i <= self.transactions@.len(),
                pred == (|t: AllowanceTransaction| t.allowance_id == allowance_id),
                r@.map_values(|t: &AllowanceTransaction| *t) == self.transactions@.take(
                    i as int,
                ).filter(pred),
            decreases self.transactions@.len() - i,
        {
            let t = &self.transactions[i];
            let ghost prev = r@;
            if t.allowance_id == allowance_id {
                r.push(t);
                proof {
                    assert(r@ == prev.push(t));
                    assert(r@.map_values(|t: &AllowanceTransaction| *t) =~= prev.map_values(
                        |t: &AllowanceTransaction| *t,
                    ).push(*t));
                }
            }
            proof {
                let s = self.transactions@.take((i + 1) as int);
                reveal_with_fuel(Seq::<_>::filter, 1);
                assert(s.last() == *t);
                assert(s.drop_last() =~= self.transactions@.take(i as int));
                assert(s.filter(pred) == if pred(*t) {
                    s.drop_last().filter(pred).push(*t)
                } else {
                    s.drop_last().filter(pred)
                });
                assert(pred(*t) == (t.allowance_id == allowance_id));
                assert(r@.map_values(|t: &AllowanceTransaction| *t) =~= s.filter(pred));
            }
            i = i + 1;
        }
        assert(self.transactions@.take(self.transactions@.len() as int) =~= self.transactions@);
        r
    }

    /// The audit entries of allowance `allowance_id`, in the order they were
    /// logged.
    pub fn get_audit_log(&self, allowance_id: u32) -> (r: Vec<AllowanceAuditLog>)
        ensures
            r@ == self.audit_log@.filter(|l: AllowanceAuditLog| l.allowance_id == allowance_id),
    {
        let ghost pred = |l: AllowanceAuditLog| l.allowance_id == allowance_id;
        let mut r: Vec<AllowanceAuditLog> = Vec::new();
        let mut i: usize = 0;
        while i < self.audit_log.len()
            invariant
                i <= self.audit_log@.len(),
                pred == (|l: AllowanceAuditLog| l.allowance_id == allowance_id),
                r@ == self.audit_log@.take(i as int).filter(pred),
            decreases self.audit_log@.len() - i,
        {
            let l = self.audit_log[i];
            if l.allowance_id == allowance_id {
                r.push(l);
            }
            proof {
                let s = self.audit_log@.take((i + 1) as int);
                reveal_with_fuel(Seq::<_>::filter, 1);
                assert(s.last() == l);
                assert(s.drop_last() =~= self.audit_log@.take(i as int));
                assert(s.filter(pred) == if pred(l) {
                    s.drop_last().filter(pred).push(l)
                } else {
                    s.drop_last().filter(pred)
                });
                assert(pred(l) == (l.allowance_id == allowance_id));
                assert(r@ =~= s.filter(pred));
            }
            i = i + 1;
        }
        assert(self.audit_log@.take(self.audit_log@.len() as int) =~= self.audit_log@);
        r
    }

    /// All allowances granted by `customer`, in order of creation.
    pub fn get_customer_allowances(&self, customer: AccountId) -> (r: Vec<&SpendingAllowance>)
        ensures
            r@.map_values(|a: &SpendingAllowance| *a) == self.allowances_of_customer(customer),
    {
        let r = self.allowances_of(customer, true);
        assert((|a: SpendingAllowance| party_of(a, true) == customer) =~= (|a: SpendingAllowance|
            a.customer == customer));
        r
    }

    /// All allowances granted to `merchant`, in order of creation.
    pub fn get_merchant_allowances(&self, merchant: AccountId) -> (r: Vec<&SpendingAllowance>)
        ensures
            r@.map_values(|a: &SpendingAllowance| *a) == self.allowances_of_merchant(merchant),
    {
        let r = self.allowances_of(merchant, false);
        assert((|a: SpendingAllowance| party_of(a, false) == merchant) =~= (|a: SpendingAllowance|
            a.merchant == merchant));
        r
    }

    /// The allowances whose customer (or, when `as_customer` is false,
    /// merchant) is `account`, in order of creation.
    fn allowances_of(&self, account: AccountId, as_customer: bool) -> (r: Vec<&SpendingAllowance>)
        ensures
            r@.map_values(|a: &SpendingAllowance| *a) == self.allowances@.filter(
                |a: SpendingAllowance| party_of(a, as_customer) == account,
            ),
    {
        let ghost pred = |a: SpendingAllowance| party_of(a, as_customer) == account;
        let mut r: Vec<&SpendingAllowance> = Vec::new();
        let mut i: usize = 0;
        while i < self.allowances.len()
            invariant
                i <= self.allowances@.len(),
                pred == (|a: SpendingAllowance| party_of(a, as_customer) == account),
                r@.map_values(|a: &SpendingAllowance| *a) == self.allowances@.take(i as int).filter(
                    pred,
                ),
            decreases self.allowances@.len() - i,
        {
            let a = &self.allowances[i];
            let party = if as_customer {
                a.customer
            } else {
                a.merchant
            };
            let ghost prev = r@;
            if party == account {
                r.push(a);
                proof {
                    assert(r@ == prev.push(a));
                    assert(r@.map_values(|a: &SpendingAllowance| *a) =~= prev.map_values(
                        |a: &SpendingAllowance| *a,
                    ).push(*a));
                }
            }
            proof {
                let t = self.allowances@.take((i + 1) as int);
                reveal_with_fuel(Seq::<_>::filter, 1);
                assert(t.last() == *a);
                assert(t.drop_last() =~= self.allowances@.take(i as int));
                assert(t.filter(pred) == if pred(*a) {
                    t.drop_last().filter(pred).push(*a)
                } else {
                    t.drop_last().filter(pred)
                });
                assert(pred(*a) == (party == account));
                assert(r@.map_values(|a: &SpendingAllowance| *a) =~= t.filter(pred));
            }
            i = i + 1;
        }
        assert(self.allowances@.take(self.allowances@.len() as int) =~= self.allowances@);
        r
    }

    /// Whether consent `consent_id` exists, is active and has not expired at
    /// `now`.
    pub fn verify_consent(&self, consent_id: u32, now: u64) -> (r: bool)
        requires
            self.wf(),
        ensures
            r == (self.has_consent(consent_id) && self.consent(consent_id).status
                == ConsentStatus::Active && now <= self.consent(consent_id).expires_at),
    {
        if consent_id == 0 || consent_id as usize > self.consents.len() {
            return false;
        }
        let c = &self.consents[(consent_id - 1) as usize];
        c.status == ConsentStatus::Active && now <= c.expires_at
    }

    /// Replaces the per-transaction and daily limits of an allowance. Refused
    /// when it does not exist or when a limit is not positive.
    pub fn update_allowance_limits(
        &mut self,
        allowance_id: u32,
        per_transaction_limit: i128,
        daily_limit: i128,
        now: u64,
    ) -> (r: Result<(), SpendingAllowanceError>)
        requires
            old(self).wf(),
        ensures
            final(self).wf(),
            !old(self).has_allowance(allowance_id) ==> r == Err::<(), SpendingAllowanceError>(
                SpendingAllowanceError::AllowanceNotFound,
            ) && *final(self) == *old(self),
            old(self).has_allowance(allowance_id) && (per_transaction_limit <= 0 || daily_limit
                <= 0) ==> r == Err::<(), SpendingAllowanceError>(
                SpendingAllowanceError::InvalidAllowanceAmount,
            ) && *final(self) == *old(self),
            old(self).has_allowance(allowance_id) && per_transaction_limit > 0 && daily_limit > 0
                ==> {
                &&& r is Ok
                &&& final(self).allowances@ == old(self).allowances@.update(
                    allowance_id - 1,
                    SpendingAllowance {
                        per_transaction_limit,
                        daily_limit,
                        ..old(self).allowance(allowance_id)
                    },
                )
                &&& final(self).audit_log@ == log_appended(
                    old(self).audit_log@,
                    allowance_id,
                    AuditAction::Modified,
                    old(self).allowance(allowance_id).customer,
                    now,
                    "Allowance limits updated",
                )
                &&& final(self).consents@ == old(self).consents@
                &&& final(self).transactions@ == old(self).transactions@
            },
    {
        if allowance_id == 0 || allowance_id as usize > self.allowances.len() {
            return Err(SpendingAllowanceError::AllowanceNotFound);
        }
        if per_transaction_limit <= 0 || daily_limit <= 0 {
            return Err(SpendingAllowanceError::InvalidAllowanceAmount);
        }
        let idx = (allowance_id - 1) as usize;
        let customer = self.allowances[idx].customer;
        let a = &mut self.allowances[idx];
        a.per_transaction_limit = per_transaction_limit;
        a.daily_limit = daily_limit;
        self.log_audit_entry(
            allowance_id,
            AuditAction::Modified,
            customer,
            now,
        );
        Ok(())
    }

    /// Whether a spend from allowance `allowance_id` would reach the daily
    /// window of an allowance whose window start plus a day is out of range
    /// of `u64`; `spend_from_allowance` may only be called when it would not.
    pub fn daily_window_overflows(&self, allowance_id: u32, amount: i128, now: u64) -> (r: bool)
        requires
            self.wf(),
        ensures
            r == self.spend_overflows_window(allowance_id, amount, now),
    {
        if allowance_id == 0 || allowance_id as usize > self.allowances.len() {
            return false;
        }
        let a = &self.allowances[(allowance_id - 1) as usize];
        match a.status {
            AllowanceStatus::Active => {},
            _ => {
                return false;
            },
        }
        now <= a.expires_at && amount <= a.per_transaction_limit && a.daily_reset_timestamp
            > u64::MAX - DAY_IN_SECONDS
    }

    /// Appends an entry to the audit log, under the next identifier; once the
    /// identifiers are used up, the last entry is overwritten.
    fn log_audit_entry(
        &mut self,
        allowance_id: u32,
        action: AuditAction,
        actor: AccountId,
        now: u64,
    )
        requires
            old(self).wf(),
        ensures
            final(self).wf(),
            final(self).audit_log@ == log_appended(
                old(self).audit_log@,
                allowance_id,
                action,
                actor,
                now,
                audit_details_text(action),
            ),
            final(self).allowances@ == old(self).allowances@,
            final(self).consents@ == old(self).consents@,
            final(self).transactions@ == old(self).transactions@,
    {
        let details = audit_details(action);
        let len = self.audit_log.len();
        if len < 4294967295usize {
            let entry = AllowanceAuditLog {
                log_id: (len + 1) as u32,
                allowance_id,
                action,
                actor,
                timestamp: now,
                details,
            };
            self.audit_log.push(entry);
        } else {
            let entry = AllowanceAuditLog {
                log_id: len as u32,
                allowance_id,
                action,
                actor,
                timestamp: now,
                details,
            };
            self.audit_log.set(len - 1, entry);
        }
    }
}

// ---------------------------------------------------------------------------
// Laws
// ---------------------------------------------------------------------------

/// A spend that goes through stays within every limit: the amount is within
/// the per-transaction limit, the day's spend within the daily limit and the
/// total spend within the total; the spend is added to both; and the
/// allowance is exhausted exactly when its total is reached.
pub proof fn lemma_spend_within_limits(a: SpendingAllowance, amount: i128, now: u64, tx_count: nat)
    requires
        spend_error(a, amount, now, tx_count) is None,
    ensures
        amount <= a.per_transaction_limit,
        spent(a, amount, now).daily_spent <= a.daily_limit,
        spent(a, amount, now).daily_reset_timestamp == if now > a.daily_reset_timestamp
            + DAY_IN_SECONDS {
            now
        } else {
            a.daily_reset_timestamp
        },
        spent(a, amount, now).daily_spent == (if now > a.daily_reset_timestamp + DAY_IN_SECONDS {
            0
        } else {
            a.daily_spent as int
        }) + amount,
        spent(a, amount, now).amount_spent <= a.total_amount,
        spent(a, amount, now).amount_spent == a.amount_spent + amount,
        (spent(a, amount, now).status == AllowanceStatus::Exhausted) == (spent(
            a,
            amount,
            now,
        ).amount_spent == a.total_amount),
{
}

/// An allowance that is not active cannot be spent from: revoked, paused,
/// expired and exhausted allowances refuse every spend, each with its own
/// error.
pub proof fn lemma_inactive_allowance_not_spendable(
    a: SpendingAllowance,
    amount: i128,
    now: u64,
    tx_count: nat,
)
    requires
        a.status != AllowanceStatus::Active,
    ensures
        spend_error(a, amount, now, tx_count) == Some(
            match a.status {
                AllowanceStatus::Revoked => SpendingAllowanceError::AllowanceRevoked,
                AllowanceStatus::Paused => SpendingAllowanceError::AllowancePaused,
                AllowanceStatus::Expired => SpendingAllowanceError::AllowanceExpired,
                _ => SpendingAllowanceError::AllowanceExhausted,
            },
        ),
{
}

/// An allowance past its expiry cannot be spent from.
pub proof fn lemma_expired_allowance_not_spendable(
    a: SpendingAllowance,
    amount: i128,
    now: u64,
    tx_count: nat,
)
    requires
        now > a.expires_at,
    ensures
        spend_error(a, amount, now, tx_count) is Some,
{
}

/// Pausing an active allowance and resuming it gives back the allowance as
/// it was.
pub proof fn lemma_pause_resume_roundtrip(a: SpendingAllowance)
    requires
        a.status == AllowanceStatus::Active,
    ensures
        (SpendingAllowance {
            status: AllowanceStatus::Active,
            ..(SpendingAllowance { status: AllowanceStatus::Paused, ..a })
        }) == a,
{
}

/// No allowance of a well-formed store has spent more than its total, so its
/// remaining balance is never negative; where nothing negative was spent,
/// the remaining balance is also within range, so asking for it succeeds.
pub proof fn lemma_remaining_balance_nonnegative(s: PreApprovedSpendingImpl, id: u32)
    requires
        s.wf(),
        s.has_allowance(id),
    ensures
        s.allowance(id).total_amount - s.allowance(id).amount_spent >= 0,
        s.allowance(id).amount_spent >= 0 ==> s.allowance(id).total_amount - s.allowance(
            id,
        ).amount_spent <= i128::MAX,
{
    assert(s.allowances@[id - 1] == s.allowance(id));
}

/// The audit log grows by exactly one entry per logged action until the
/// identifiers are used up, and the new entry is the last one.
pub proof fn lemma_log_appended(
    log: Seq<AllowanceAuditLog>,
    allowance_id: u32,
    action: AuditAction,
    actor: AccountId,
    now: u64,
    details: &'static str,
)
    requires
        0 < log.len() < u32::MAX || log.len() == 0,
    ensures
        log_appended(log, allowance_id, action, actor, now, details).len() == log.len() + 1,
        log_appended(log, allowance_id, action, actor, now, details).last() == (AllowanceAuditLog {
            log_id: (log.len() + 1) as u32,
            allowance_id,
            action,
            actor,
            timestamp: now,
            details,
        }),
        log_appended(log, allowance_id, action, actor, now, details).drop_last() == log,
{
    assert(log_appended(log, allowance_id, action, actor, now, details).drop_last() =~= log);
}

/// A new allowance is granted exactly when every amount is positive, neither
/// limit exceeds the total (the per-transaction limit may exceed the daily
/// limit), the expiry lies after the creation time, and identifiers are left;
/// an allowance with valid amounts whose expiry is not in the future is
/// refused as expired.
pub proof fn lemma_create_allowance_accepts_exactly(
    count: nat,
    total_amount: i128,
    per_transaction_limit: i128,
    daily_limit: i128,
    expires_at: u64,
    now: u64,
)
    ensures
        create_allowance_error(count, total_amount, per_transaction_limit, daily_limit, expires_at, now)
            is None <==> (0 < total_amount && 0 < per_transaction_limit && per_transaction_limit
            <= total_amount && 0 < daily_limit && daily_limit <= total_amount && expires_at > now
            && count < u32::MAX),
        (0 < total_amount && 0 < per_transaction_limit && per_transaction_limit <= total_amount
            && 0 < daily_limit && daily_limit <= total_amount && expires_at <= now)
            ==> create_allowance_error(count, total_amount, per_transaction_limit, daily_limit, expires_at, now)
            == Some(SpendingAllowanceError::AllowanceExpired),
{
}

} // verus!
