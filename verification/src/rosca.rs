//! Configuration of a rotating savings group (ROSCA).
use vstd::prelude::*;

use crate::AccountId;

verus! {

/// How the pot of each round is assigned.
#[derive(Clone, Copy, Debug, PartialEq, Eq, Structural)]
pub enum PayoutStrategy {
    RoundRobin,
}

/// How members' votes are weighed.
#[derive(Clone, Copy, Debug, PartialEq, Eq, Structural)]
pub enum VotingMode {
    Equal,
}

/// The settings a group is created with.
#[derive(Clone, Debug)]
pub struct RoscaConfig {
    pub strategy: PayoutStrategy,
    pub custom_order: Option<Vec<AccountId>>,
    pub penalty_amount: i128,
    pub exit_penalty_bps: u32,
    pub collective_goal: Option<i128>,
    pub member_goals: Option<Vec<(AccountId, i128)>>,
    pub fee_bps: u32,
    pub fee_recipient: Option<AccountId>,
    pub max_defaults: u32,
    pub grace_period_ledgers: u32,
    pub use_timestamp_schedule: bool,
    pub round_duration_seconds: u64,
    pub max_members: Option<u32>,
    pub skip_fee: i128,
    pub max_skips_per_cycle: u32,
    pub voting_mode: VotingMode,
    pub late_fee_bps: u32,
    pub grace_period_seconds: u64,
    pub auction_enabled: bool,
    pub auction_window_ledgers: u32,
    pub randomize_payout_order: bool,
    pub reserve_enabled: bool,
    pub reserve_contribution_bps: u32,
}

/// The plain configuration: round-robin payouts, equal votes, three defaults
/// tolerated, and every optional feature (custom order, penalties, goals,
/// fees, grace periods, timestamp schedule, member cap, skips, late fees,
/// auctions, randomised order, reserve) off.
pub fn base_config() -> (c: RoscaConfig)
    ensures
        c.strategy == PayoutStrategy::RoundRobin,
        c.custom_order is None,
        c.penalty_amount == 0,
        c.exit_penalty_bps == 0,
        c.collective_goal is None,
        c.member_goals is None,
        c.fee_bps == 0,
        c.fee_recipient is None,
        c.max_defaults == 3,
        c.grace_period_ledgers == 0,
        !c.use_timestamp_schedule,
        c.round_duration_seconds == 0,
        c.max_members is None,
        c.skip_fee == 0,
        c.max_skips_per_cycle == 0,
        c.voting_mode == VotingMode::Equal,
        c.late_fee_bps == 0,
        c.grace_period_seconds == 0,
        !c.auction_enabled,
        c.auction_window_ledgers == 0,
        !c.randomize_payout_order,
        !c.reserve_enabled,
        c.reserve_contribution_bps == 0,
{
    RoscaConfig {
        strategy: PayoutStrategy::RoundRobin,
        custom_order: None,
        penalty_amount: 0,
        exit_penalty_bps: 0,
        collective_goal: None,
        member_goals: None,
        fee_bps: 0,
        fee_recipient: None,
        max_defaults: 3,
        grace_period_ledgers: 0,
        use_timestamp_schedule: false,
        round_duration_seconds: 0,
        max_members: None,
        skip_fee: 0,
        max_skips_per_cycle: 0,
        voting_mode: VotingMode::Equal,
        late_fee_bps: 0,
        grace_period_seconds: 0,
        auction_enabled: false,
        auction_window_ledgers: 0,
        randomize_payout_order: false,
        reserve_enabled: false,
        reserve_contribution_bps: 0,
    }
}

} // verus!
