//! Global error-code namespace registry.
//!
//! Each Ahjoor protocol contract owns a non-overlapping numeric range so that
//! off-chain parsers can decode errors across contracts without per-contract
//! decode tables:
//!
//! | Contract               | Range       |
//! |------------------------|-------------|
//! | ahjoor-rosca           | 1000 - 1299 |
//! | ahjoor-payments        | 2000 - 2299 |
//! | ahjoor-escrow          | 3000 - 3299 |
//! | ahjoor-refund          | 4000 - 4099 |
//! | ahjoor-token-whitelist | 5000 - 5099 |
//!
//! On-chain contracts keep their small discriminants; these namespaced codes
//! are what relay nodes and indexers use when decoding errors.
use vstd::prelude::*;

pub mod escrow;
pub mod payments;
pub mod refund;
pub mod rosca;
pub mod whitelist;

verus! {

/// Compact descriptor for one error code entry (used to generate the
/// machine-readable error table).
#[derive(Clone, Debug)]
pub struct ErrorEntry {
    pub code: u32,
    pub name: &'static str,
    pub contract: &'static str,
}

impl ErrorEntry {
    /// The entry as a triple of plain values: code, name, contract.
    pub open spec fn triple(&self) -> (u32, Seq<char>, Seq<char>) {
        (self.code, self.name@, self.contract@)
    }
}

/// The registry, entry by entry: code, error name, owning contract.
pub open spec fn registry() -> Seq<(u32, Seq<char>, Seq<char>)> {
    seq![
        (1001u32, "AlreadyInitialized"@, "ahjoor-rosca"@),
        (1002u32, "TokenNotApproved"@, "ahjoor-rosca"@),
        (1003u32, "CustomOrderLengthMismatch"@, "ahjoor-rosca"@),
        (1004u32, "CustomOrderNonMember"@, "ahjoor-rosca"@),
        (1005u32, "AmountMustBePositive"@, "ahjoor-rosca"@),
        (1006u32, "RoundDeadlinePassed"@, "ahjoor-rosca"@),
        (1007u32, "MemberHasExited"@, "ahjoor-rosca"@),
        (1008u32, "NotAMember"@, "ahjoor-rosca"@),
        (1009u32, "AlreadyContributed"@, "ahjoor-rosca"@),
        (1025u32, "ContractPaused"@, "ahjoor-rosca"@),
        (1036u32, "GroupFull"@, "ahjoor-rosca"@),
        (1078u32, "GroupFrozen"@, "ahjoor-rosca"@),
        (1101u32, "AuctionNotEnabled"@, "ahjoor-rosca"@),
        (1109u32, "MigrationNotFound"@, "ahjoor-rosca"@),
        (1118u32, "ProxyRoundsExhausted"@, "ahjoor-rosca"@),
        (2001u32, "RateLimitExceeded"@, "ahjoor-payments"@),
        (2005u32, "TokenNotAllowed"@, "ahjoor-payments"@),
        (2010u32, "VoucherExpired"@, "ahjoor-payments"@),
        (2050u32, "CustomerBlocked"@, "ahjoor-payments"@),
        (2033u32, "KYBVerificationRequired"@, "ahjoor-payments"@),
        (2051u32, "DaoNotConfigured"@, "ahjoor-payments"@),
        (3001u32, "InvalidDeadline"@, "ahjoor-escrow"@),
        (3002u32, "InvalidTrancheIndex"@, "ahjoor-escrow"@),
        (3003u32, "TrancheAlreadyClaimed"@, "ahjoor-escrow"@),
        (4001u32, "AlreadyInitialized"@, "ahjoor-refund"@),
        (4003u32, "AmountMustBePositive"@, "ahjoor-refund"@),
        (5001u32, "NotInitialized"@, "ahjoor-token-whitelist"@),
        (5004u32, "TokenAlreadyWhitelisted"@, "ahjoor-token-whitelist"@),
        (5005u32, "TokenNotWhitelisted"@, "ahjoor-token-whitelist"@)
    ]
}

/// The name of the error that each registered code constant denotes.
pub open spec fn error_name(code: u32) -> Option<Seq<char>> {
    if code == rosca::ALREADY_INITIALIZED {
        Some("AlreadyInitialized"@)
    } else if code == rosca::TOKEN_NOT_APPROVED {
        Some("TokenNotApproved"@)
    } else if code == rosca::CUSTOM_ORDER_LENGTH_MISMATCH {
        Some("CustomOrderLengthMismatch"@)
    } else if code == rosca::CUSTOM_ORDER_NON_MEMBER {
        Some("CustomOrderNonMember"@)
    } else if code == rosca::AMOUNT_MUST_BE_POSITIVE {
        Some("AmountMustBePositive"@)
    } else if code == rosca::ROUND_DEADLINE_PASSED {
        Some("RoundDeadlinePassed"@)
    } else if code == rosca::MEMBER_HAS_EXITED {
        Some("MemberHasExited"@)
    } else if code == rosca::NOT_A_MEMBER {
        Some("NotAMember"@)
    } else if code == rosca::ALREADY_CONTRIBUTED {
        Some("AlreadyContributed"@)
    } else if code == rosca::CONTRACT_PAUSED {
        Some("ContractPaused"@)
    } else if code == rosca::GROUP_FULL {
        Some("GroupFull"@)
    } else if code == rosca::GROUP_FROZEN {
        Some("GroupFrozen"@)
    } else if code == rosca::AUCTION_NOT_ENABLED {
        Some("AuctionNotEnabled"@)
    } else if code == rosca::MIGRATION_NOT_FOUND {
        Some("MigrationNotFound"@)
    } else if code == rosca::PROXY_ROUNDS_EXHAUSTED {
        Some("ProxyRoundsExhausted"@)
    } else if code == payments::RATE_LIMIT_EXCEEDED {
        Some("RateLimitExceeded"@)
    } else if code == payments::TOKEN_NOT_ALLOWED {
        Some("TokenNotAllowed"@)
    } else if code == payments::VOUCHER_EXPIRED {
        Some("VoucherExpired"@)
    } else if code == payments::CUSTOMER_BLOCKED {
        Some("CustomerBlocked"@)
    } else if code == payments::KYB_VERIFICATION_REQUIRED {
        Some("KYBVerificationRequired"@)
    } else if code == payments::DAO_NOT_CONFIGURED {
        Some("DaoNotConfigured"@)
    } else if code == escrow::INVALID_DEADLINE {
        Some("InvalidDeadline"@)
    } else if code == escrow::INVALID_TRANCHE_INDEX {
        Some("InvalidTrancheIndex"@)
    } else if code == escrow::TRANCHE_ALREADY_CLAIMED {
        Some("TrancheAlreadyClaimed"@)
    } else if code == refund::ALREADY_INITIALIZED {
        Some("AlreadyInitialized"@)
    } else if code == refund::AMOUNT_MUST_BE_POSITIVE {
        Some("AmountMustBePositive"@)
    } else if code == whitelist::NOT_INITIALIZED {
        Some("NotInitialized"@)
    } else if code == whitelist::TOKEN_ALREADY_WHITELISTED {
        Some("TokenAlreadyWhitelisted"@)
    } else if code == whitelist::TOKEN_NOT_WHITELISTED {
        Some("TokenNotWhitelisted"@)
    } else {
        None
    }
}

/// The inclusive range of namespaced codes owned by a contract, if it is one
/// of the registered contracts.
pub open spec fn contract_range(contract: Seq<char>) -> Option<(u32, u32)> {
    if contract == "ahjoor-rosca"@ {
        Some((1000u32, 1299u32))
    } else if contract == "ahjoor-payments"@ {
        Some((2000u32, 2299u32))
    } else if contract == "ahjoor-escrow"@ {
        Some((3000u32, 3299u32))
    } else if contract == "ahjoor-refund"@ {
        Some((4000u32, 4099u32))
    } else if contract == "ahjoor-token-whitelist"@ {
        Some((5000u32, 5099u32))
    } else {
        None
    }
}

/// Every entry of the registry, in table order.
pub fn all_errors() -> (v: Vec<ErrorEntry>)
    ensures
        v@.len() == registry().len(),
        forall|i: int| 0 <= i < v@.len() ==> #[trigger] v@[i].triple() == registry()[i],
        forall|i: int| 0 <= i < v@.len() ==> error_name(#[trigger] v@[i].code) == Some(v@[i].name@),
{
    let mut v: Vec<ErrorEntry> = Vec::new();
    v.push(ErrorEntry { code: rosca::ALREADY_INITIALIZED, name: "AlreadyInitialized", contract: "ahjoor-rosca" });
    v.push(ErrorEntry { code: rosca::TOKEN_NOT_APPROVED, name: "TokenNotApproved", contract: "ahjoor-rosca" });
    v.push(ErrorEntry { code: rosca::CUSTOM_ORDER_LENGTH_MISMATCH, name: "CustomOrderLengthMismatch", contract: "ahjoor-rosca" });
    v.push(ErrorEntry { code: rosca::CUSTOM_ORDER_NON_MEMBER, name: "CustomOrderNonMember", contract: "ahjoor-rosca" });
    v.push(ErrorEntry { code: rosca::AMOUNT_MUST_BE_POSITIVE, name: "AmountMustBePositive", contract: "ahjoor-rosca" });
    v.push(ErrorEntry { code: rosca::ROUND_DEADLINE_PASSED, name: "RoundDeadlinePassed", contract: "ahjoor-rosca" });
    v.push(ErrorEntry { code: rosca::MEMBER_HAS_EXITED, name: "MemberHasExited", contract: "ahjoor-rosca" });
    v.push(ErrorEntry { code: rosca::NOT_A_MEMBER, name: "NotAMember", contract: "ahjoor-rosca" });
    v.push(ErrorEntry { code: rosca::ALREADY_CONTRIBUTED, name: "AlreadyContributed", contract: "ahjoor-rosca" });
    v.push(ErrorEntry { code: rosca::CONTRACT_PAUSED, name: "ContractPaused", contract: "ahjoor-rosca" });
    v.push(ErrorEntry { code: rosca::GROUP_FULL, name: "GroupFull", contract: "ahjoor-rosca" });
    v.push(ErrorEntry { code: rosca::GROUP_FROZEN, name: "GroupFrozen", contract: "ahjoor-rosca" });
    v.push(ErrorEntry { code: rosca::AUCTION_NOT_ENABLED, name: "AuctionNotEnabled", contract: "ahjoor-rosca" });
    v.push(ErrorEntry { code: rosca::MIGRATION_NOT_FOUND, name: "MigrationNotFound", contract: "ahjoor-rosca" });
    v.push(ErrorEntry { code: rosca::PROXY_ROUNDS_EXHAUSTED, name: "ProxyRoundsExhausted", contract: "ahjoor-rosca" });
    v.push(ErrorEntry { code: payments::RATE_LIMIT_EXCEEDED, name: "RateLimitExceeded", contract: "ahjoor-payments" });
    v.push(ErrorEntry { code: payments::TOKEN_NOT_ALLOWED, name: "TokenNotAllowed", contract: "ahjoor-payments" });
    v.push(ErrorEntry { code: payments::VOUCHER_EXPIRED, name: "VoucherExpired", contract: "ahjoor-payments" });
    v.push(ErrorEntry { code: payments::CUSTOMER_BLOCKED, name: "CustomerBlocked", contract: "ahjoor-payments" });
    v.push(ErrorEntry { code: payments::KYB_VERIFICATION_REQUIRED, name: "KYBVerificationRequired", contract: "ahjoor-payments" });
    v.push(ErrorEntry { code: payments::DAO_NOT_CONFIGURED, name: "DaoNotConfigured", contract: "ahjoor-payments" });
    v.push(ErrorEntry { code: escrow::INVALID_DEADLINE, name: "InvalidDeadline", contract: "ahjoor-escrow" });
    v.push(ErrorEntry { code: escrow::INVALID_TRANCHE_INDEX, name: "InvalidTrancheIndex", contract: "ahjoor-escrow" });
    v.push(ErrorEntry { code: escrow::TRANCHE_ALREADY_CLAIMED, name: "TrancheAlreadyClaimed", contract: "ahjoor-escrow" });
    v.push(ErrorEntry { code: refund::ALREADY_INITIALIZED, name: "AlreadyInitialized", contract: "ahjoor-refund" });
    v.push(ErrorEntry { code: refund::AMOUNT_MUST_BE_POSITIVE, name: "AmountMustBePositive", contract: "ahjoor-refund" });
    v.push(ErrorEntry { code: whitelist::NOT_INITIALIZED, name: "NotInitialized", contract: "ahjoor-token-whitelist" });
    v.push(ErrorEntry { code: whitelist::TOKEN_ALREADY_WHITELISTED, name: "TokenAlreadyWhitelisted", contract: "ahjoor-token-whitelist" });
    v.push(ErrorEntry { code: whitelist::TOKEN_NOT_WHITELISTED, name: "TokenNotWhitelisted", contract: "ahjoor-token-whitelist" });
    assert(v@.map_values(|e: ErrorEntry| e.triple()) =~= registry());
    assert forall|i: int| 0 <= i < v@.len() implies #[trigger] v@[i].triple() == registry()[i] by {
        assert(v@.map_values(|e: ErrorEntry| e.triple())[i] == v@[i].triple());
    }
    proof {
        lemma_registry_names_match_codes();
        assert forall|i: int| 0 <= i < v@.len() implies error_name(#[trigger] v@[i].code) == Some(
            v@[i].name@,
        ) by {
            assert(v@[i].triple() == registry()[i]);
        }
    }
    v
}


/// No two entries of the registry share a code, so a namespaced code decodes
/// to at most one entry.
pub proof fn lemma_registry_codes_distinct()
    ensures
        forall|i: int, j: int|
            0 <= i < registry().len() && 0 <= j < registry().len() && i != j
                ==> #[trigger] registry()[i].0 != #[trigger] registry()[j].0,
{
    let r = registry();
    assert forall|i: int, j: int|
        0 <= i < r.len() && 0 <= j < r.len() && i != j implies #[trigger] r[i].0 != #[trigger] r[j].0 by {
        assert(r[i].0 == r.map_values(|e: (u32, Seq<char>, Seq<char>)| e.0)[i]);
        assert(r[j].0 == r.map_values(|e: (u32, Seq<char>, Seq<char>)| e.0)[j]);
        assert(r.map_values(|e: (u32, Seq<char>, Seq<char>)| e.0) =~= seq![1001u32, 1002u32, 1003u32, 1004u32, 1005u32, 1006u32, 1007u32, 1008u32, 1009u32, 1025u32, 1036u32, 1078u32, 1101u32, 1109u32, 1118u32, 2001u32, 2005u32, 2010u32, 2050u32, 2033u32, 2051u32, 3001u32, 3002u32, 3003u32, 4001u32, 4003u32, 5001u32, 5004u32, 5005u32]);
    }
}

/// Every entry's code lies in the range owned by the contract it names.
pub proof fn lemma_registry_codes_in_contract_range()
    ensures
        forall|i: int|
            0 <= i < registry().len() ==> {
                let e = #[trigger] registry()[i];
                &&& contract_range(e.2) is Some
                &&& contract_range(e.2).unwrap().0 <= e.0 <= contract_range(e.2).unwrap().1
            },
{
    reveal_strlit("ahjoor-rosca");
    reveal_strlit("ahjoor-payments");
    reveal_strlit("ahjoor-escrow");
    reveal_strlit("ahjoor-refund");
    reveal_strlit("ahjoor-token-whitelist");
    assert("ahjoor-rosca"@.len() == 12);
    assert("ahjoor-payments"@.len() == 15);
    assert("ahjoor-escrow"@.len() == 13);
    assert("ahjoor-refund"@.len() == 13);
    assert("ahjoor-token-whitelist"@.len() == 22);
    assert("ahjoor-escrow"@[7] != "ahjoor-refund"@[7]);
    assert(contract_range("ahjoor-rosca"@) == Some((1000u32, 1299u32)));
    assert(contract_range("ahjoor-payments"@) == Some((2000u32, 2299u32)));
    assert(contract_range("ahjoor-escrow"@) == Some((3000u32, 3299u32)));
    assert(contract_range("ahjoor-refund"@) == Some((4000u32, 4099u32)));
    assert(contract_range("ahjoor-token-whitelist"@) == Some((5000u32, 5099u32)));
    let r = registry();
    assert forall|i: int| 0 <= i < r.len() implies {
        let e = #[trigger] r[i];
        &&& contract_range(e.2) is Some
        &&& contract_range(e.2).unwrap().0 <= e.0 <= contract_range(e.2).unwrap().1
    } by {
        if i == 0 {
        } else if i == 1 {
        } else if i == 2 {
        } else if i == 3 {
        } else if i == 4 {
        } else if i == 5 {
        } else if i == 6 {
        } else if i == 7 {
        } else if i == 8 {
        } else if i == 9 {
        } else if i == 10 {
        } else if i == 11 {
        } else if i == 12 {
        } else if i == 13 {
        } else if i == 14 {
        } else if i == 15 {
        } else if i == 16 {
        } else if i == 17 {
        } else if i == 18 {
        } else if i == 19 {
        } else if i == 20 {
        } else if i == 21 {
        } else if i == 22 {
        } else if i == 23 {
        } else if i == 24 {
        } else if i == 25 {
        } else if i == 26 {
        } else if i == 27 {
        } else if i == 28 {
        }
    }
}

/// The ranges owned by two different contracts do not overlap.
pub proof fn lemma_contract_ranges_disjoint(a: Seq<char>, b: Seq<char>, code: u32)
    requires
        a != b,
        contract_range(a) is Some,
        contract_range(b) is Some,
        contract_range(a).unwrap().0 <= code <= contract_range(a).unwrap().1,
    ensures
        !(contract_range(b).unwrap().0 <= code <= contract_range(b).unwrap().1),
{
}

/// Each entry's name is the error that its code constant denotes, so
/// decoding a code through the registry gives that error's name.
pub proof fn lemma_registry_names_match_codes()
    ensures
        forall|i: int|
            0 <= i < registry().len() ==> error_name((#[trigger] registry()[i]).0) == Some(
                registry()[i].1,
            ),
{
    let r = registry();
    assert forall|i: int| 0 <= i < r.len() implies error_name((#[trigger] r[i]).0) == Some(r[i].1) by {
        if i == 0 {
        } else if i == 1 {
        } else if i == 2 {
        } else if i == 3 {
        } else if i == 4 {
        } else if i == 5 {
        } else if i == 6 {
        } else if i == 7 {
        } else if i == 8 {
        } else if i == 9 {
        } else if i == 10 {
        } else if i == 11 {
        } else if i == 12 {
        } else if i == 13 {
        } else if i == 14 {
        } else if i == 15 {
        } else if i == 16 {
        } else if i == 17 {
        } else if i == 18 {
        } else if i == 19 {
        } else if i == 20 {
        } else if i == 21 {
        } else if i == 22 {
        } else if i == 23 {
        } else if i == 24 {
        } else if i == 25 {
        } else if i == 26 {
        } else if i == 27 {
        } else if i == 28 {
        }
    }
}

} // verus!
