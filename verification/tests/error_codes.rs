use ahjoor::errors::{all_errors, escrow, payments, refund, rosca, whitelist};

#[test]
fn no_duplicate_codes() {
    let mut seen = std::vec::Vec::new();
    for entry in all_errors().iter() {
        assert!(
            !seen.contains(&entry.code),
            "Duplicate error code {} ({}::{})",
            entry.code,
            entry.contract,
            entry.name,
        );
        seen.push(entry.code);
    }
}

#[test]
fn codes_within_contract_ranges() {
    for entry in all_errors().iter() {
        let in_range = match entry.contract {
            "ahjoor-rosca" => (1000..=1299).contains(&entry.code),
            "ahjoor-payments" => (2000..=2299).contains(&entry.code),
            "ahjoor-escrow" => (3000..=3299).contains(&entry.code),
            "ahjoor-refund" => (4000..=4099).contains(&entry.code),
            "ahjoor-token-whitelist" => (5000..=5099).contains(&entry.code),
            _ => false,
        };
        assert!(
            in_range,
            "Error code {} ({}) is outside the expected range for {}",
            entry.code,
            entry.name,
            entry.contract,
        );
    }
}

#[test]
fn registry_has_all_entries_in_order() {
    let all = all_errors();
    assert_eq!(all.len(), 29);
    assert_eq!(all[0].code, 1001);
    assert_eq!(all[0].name, "AlreadyInitialized");
    assert_eq!(all[0].contract, "ahjoor-rosca");
    assert_eq!(all[28].code, 5005);
    assert_eq!(all[28].name, "TokenNotWhitelisted");
    assert_eq!(all[28].contract, "ahjoor-token-whitelist");
}

#[test]
fn namespaced_constants_have_their_codes() {
    assert_eq!(rosca::PROXY_ROUNDS_EXHAUSTED, 1118);
    assert_eq!(rosca::MIGRATION_NOT_APPROVED, 1108);
    assert_eq!(rosca::AUCTION_WINDOW_CLOSED, 1103);
    assert_eq!(payments::DAO_ALREADY_VOTED, 2056);
    assert_eq!(payments::CUSTOMER_BLOCKED, 2050);
    assert_eq!(escrow::TRANCHE_ALREADY_CLAIMED, 3003);
    assert_eq!(refund::EXCEEDS_REFUNDABLE_AMOUNT, 4008);
    assert_eq!(whitelist::TOKEN_HAS_NO_QUOTA, 5008);
}

#[test]
fn each_code_decodes_to_one_entry() {
    let all = all_errors();
    for entry in all.iter() {
        let matches = all.iter().filter(|e| e.code == entry.code).count();
        assert_eq!(matches, 1);
    }
}
