use ahjoor::rosca::{base_config, PayoutStrategy, VotingMode};

#[test]
fn base_config_switches_every_option_off() {
    let c = base_config();
    assert_eq!(c.strategy, PayoutStrategy::RoundRobin);
    assert!(c.custom_order.is_none());
    assert_eq!(c.penalty_amount, 0);
    assert_eq!(c.exit_penalty_bps, 0);
    assert!(c.collective_goal.is_none());
    assert!(c.member_goals.is_none());
    assert_eq!(c.fee_bps, 0);
    assert!(c.fee_recipient.is_none());
    assert_eq!(c.max_defaults, 3);
    assert_eq!(c.grace_period_ledgers, 0);
    assert!(!c.use_timestamp_schedule);
    assert_eq!(c.round_duration_seconds, 0);
    assert!(c.max_members.is_none());
    assert_eq!(c.skip_fee, 0);
    assert_eq!(c.max_skips_per_cycle, 0);
    assert_eq!(c.voting_mode, VotingMode::Equal);
    assert_eq!(c.late_fee_bps, 0);
    assert_eq!(c.grace_period_seconds, 0);
    assert!(!c.auction_enabled);
    assert_eq!(c.auction_window_ledgers, 0);
    assert!(!c.randomize_payout_order);
    assert!(!c.reserve_enabled);
    assert_eq!(c.reserve_contribution_bps, 0);
}
