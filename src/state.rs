use vstd::prelude::*;
use crate::pubkey::Pubkey;

verus! {

/// Basis points in a whole: a fee rate of this many takes the full amount.
pub const BPS_DENOMINATOR: u16 = 10_000;

/// The process-wide settings of the bank, its pause switch and its circuit
/// breaker.
#[derive(Clone, Copy, Debug)]
pub struct BankConfig {
    pub admin: Pubkey,
    /// Fee taken from each withdrawal, in basis points.
    pub protocol_fee_bps: u16,
    pub total_fees_collected: u64,
    pub paused: bool,
    /// Why the bank is paused (see `PauseReason`); 0 when it is not.
    pub pause_reason: u8,
    /// Blocked withdrawal attempts since the last reset.
    pub suspicious_activity_count: u32,
    /// Count at which the breaker trips; 0 disables the breaker.
    pub auto_pause_threshold: u32,
    pub last_security_check: i64,
}

impl BankConfig {
    /// The fee rate is at most the whole amount.
    pub open spec fn wf(&self) -> bool {
        self.protocol_fee_bps <= BPS_DENOMINATOR
    }
}

/// A principal's custody account and its spending window.
#[derive(Clone, Debug)]
pub struct Agent {
    pub owner: Pubkey,
    /// Most that may leave the vault within one period.
    pub spending_limit: u64,
    /// Length of a period, in seconds.
    pub period_duration: i64,
    pub current_period_start: i64,
    pub current_period_spend: u64,
    pub name: String,
    pub total_deposited: u64,
    /// Part of the deposits that earns yield.
    pub staked_amount: u64,
    pub last_yield_timestamp: i64,
}

/// A second identity allowed to act for an agent.
#[derive(Clone, Copy, Debug)]
pub struct Delegate {
    /// Address of the agent record this delegate belongs to.
    pub agent: Pubkey,
    pub delegate_key: Pubkey,
    pub can_spend: bool,
    pub can_manage_yield: bool,
    /// Expiry time; 0 means the delegate never expires.
    pub valid_until: i64,
}

/// When a yield hook fires.
#[derive(Clone, Copy, Debug, PartialEq, Eq, Structural)]
pub enum HookCondition {
    /// The staked amount has reached `threshold` lamports.
    BalanceAbove { threshold: u64 },
    /// `interval` seconds have passed since the hook last fired.
    TimeElapsed { interval: i64 },
    /// The yield accrued since the last accrual has reached `threshold`.
    YieldAbove { threshold: u64 },
}

/// Where a yield hook deploys funds.
#[derive(Clone, Copy, Debug, PartialEq, Eq, Structural)]
pub enum YieldProtocol {
    Internal,
    Jupiter,
    Meteora,
    Marinade,
    JitoSOL,
}

/// An agent's conditional yield deployment.
#[derive(Clone, Copy, Debug)]
pub struct YieldStrategy {
    /// Address of the agent record this strategy belongs to.
    pub agent: Pubkey,
    pub condition: HookCondition,
    pub protocol: YieldProtocol,
    /// Share of the staked amount to deploy, in percent.
    pub deploy_percentage: u8,
    pub enabled: bool,
    pub last_triggered: i64,
    pub trigger_count: u64,
}

impl YieldStrategy {
    /// The deployed share is at most the whole stake.
    pub open spec fn wf(&self) -> bool {
        self.deploy_percentage <= 100
    }
}

} // verus!
