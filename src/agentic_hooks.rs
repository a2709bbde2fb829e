use vstd::prelude::*;
use vstd::arithmetic::div_mod::{
    lemma_fundamental_div_mod, lemma_hoist_over_denominator, lemma_multiply_divide_le,
};
use crate::error::BankError;
use crate::pubkey::Pubkey;
use crate::state::{Agent, BankConfig, HookCondition, YieldProtocol, YieldStrategy};

verus! {

/// Yearly yield rate, in percent.
pub const YIELD_RATE_PERCENT: u128 = 5;

/// Percent times seconds in a 365-day year: the divisor of the yield
/// formula.
pub const YIELD_DIVISOR: u128 = 3_153_600_000;

/// Yield earned by `staked` lamports over `elapsed` seconds at the yearly
/// rate, simple accrual, rounded down. No time, or negative time, earns
/// nothing.
pub open spec fn pending_yield_of(staked: int, elapsed: int) -> int {
    if elapsed <= 0 {
        0
    } else {
        staked * YIELD_RATE_PERCENT as int * elapsed / YIELD_DIVISOR as int
    }
}

/// Yield earned by `staked` lamports over `elapsed` seconds, computed
/// exactly for any stake and any span between two timestamps.
pub fn pending_yield(staked: u64, elapsed: i128) -> (r: u128)
    requires
        elapsed <= u64::MAX,
    ensures
        r == pending_yield_of(staked as int, elapsed as int),
{
    if elapsed <= 0 {
        return 0;
    }
    let e = elapsed as u128;
    let p5 = (staked as u128) * YIELD_RATE_PERCENT;
    let q = e / YIELD_DIVISOR;
    let rem = e % YIELD_DIVISOR;
    proof {
        let d = YIELD_DIVISOR as int;
        lemma_fundamental_div_mod(e as int, d);
        assert(q <= 5_849_424_174) by {
            lemma_multiply_divide_le(e as int, d, 5_849_424_174);
        }
        assert(p5 * q <= 5 * 0xffff_ffff_ffff_ffffu128 * 5_849_424_174) by (nonlinear_arith)
            requires
                p5 <= 5 * 0xffff_ffff_ffff_ffffu128,
                q <= 5_849_424_174,
        ;
        assert(p5 * rem <= 5 * 0xffff_ffff_ffff_ffffu128 * 3_153_600_000) by (nonlinear_arith)
            requires
                p5 <= 5 * 0xffff_ffff_ffff_ffffu128,
                rem < 3_153_600_000,
        ;
        assert(staked as int * 5 * e as int == p5 * rem + (p5 * q) * d) by (nonlinear_arith)
            requires
                e as int == d * q + rem,
                p5 == staked as int * 5,
        ;
        lemma_hoist_over_denominator(p5 * rem, p5 * q, YIELD_DIVISOR as nat);
    }
    p5 * q + p5 * rem / YIELD_DIVISOR
}

/// The hook's condition holds at `now`.
pub open spec fn condition_met(strategy: YieldStrategy, agent: Agent, now: i64) -> bool {
    match strategy.condition {
        HookCondition::BalanceAbove { threshold } => agent.staked_amount >= threshold,
        HookCondition::TimeElapsed { interval } => now - strategy.last_triggered >= interval,
        HookCondition::YieldAbove { threshold } => pending_yield_of(
            agent.staked_amount as int,
            now - agent.last_yield_timestamp,
        ) >= threshold,
    }
}

/// The quantity a hook's condition compares, and what it compares it with.
#[derive(Clone, Copy, Debug, PartialEq, Eq, Structural)]
pub enum HookReason {
    Balance { balance: u64, threshold: u64 },
    Elapsed { elapsed: i128, interval: i64 },
    PendingYield { pending: u128, threshold: u64 },
}

/// What the hook's condition compares at `now`.
pub open spec fn hook_reason_of(strategy: YieldStrategy, agent: Agent, now: i64) -> HookReason {
    match strategy.condition {
        HookCondition::BalanceAbove { threshold } => HookReason::Balance {
            balance: agent.staked_amount,
            threshold,
        },
        HookCondition::TimeElapsed { interval } => HookReason::Elapsed {
            elapsed: (now - strategy.last_triggered) as i128,
            interval,
        },
        HookCondition::YieldAbove { threshold } => HookReason::PendingYield {
            pending: pending_yield_of(
                agent.staked_amount as int,
                now - agent.last_yield_timestamp,
            ) as u128,
            threshold,
        },
    }
}

/// Whether the hook's condition holds at `now`, and what it compared.
pub fn evaluate_condition(strategy: &YieldStrategy, agent: &Agent, now: i64) -> (r: (
    bool,
    HookReason,
))
    ensures
        r.0 == condition_met(*strategy, *agent, now),
        r.1 == hook_reason_of(*strategy, *agent, now),
{
    match strategy.condition {
        HookCondition::BalanceAbove { threshold } => (
            agent.staked_amount >= threshold,
            HookReason::Balance { balance: agent.staked_amount, threshold },
        ),
        HookCondition::TimeElapsed { interval } => {
            let elapsed = (now as i128) - (strategy.last_triggered as i128);
            (elapsed >= interval as i128, HookReason::Elapsed { elapsed, interval })
        },
        HookCondition::YieldAbove { threshold } => {
            let elapsed = (now as i128) - (agent.last_yield_timestamp as i128);
            let pending = pending_yield(agent.staked_amount, elapsed);
            (pending >= threshold as u128, HookReason::PendingYield { pending, threshold })
        },
    }
}

/// The share `percentage` of `staked`, rounded down.
pub open spec fn deploy_amount_of(staked: int, percentage: int) -> int {
    staked * percentage / 100
}

/// The records that configuring a hook reads.
#[derive(Clone, Debug)]
pub struct ConfigureYieldStrategy {
    /// The signer; must own the agent.
    pub owner: Pubkey,
    pub agent: Agent,
    /// Address of the agent record.
    pub agent_key: Pubkey,
}

/// The agent's hook as configured: enabled or not, never triggered yet. It
/// replaces any earlier one whole. Fails with `InvalidAuthority` unless the
/// owner signs, then with `InvalidPercentage` above 100 percent.
pub fn configure_yield_strategy_handler(
    ctx: &ConfigureYieldStrategy,
    condition: HookCondition,
    protocol: YieldProtocol,
    deploy_percentage: u8,
    enabled: bool,
) -> (r: Result<YieldStrategy, BankError>)
    ensures
        r == (if ctx.owner@ != ctx.agent.owner@ {
            Err::<YieldStrategy, BankError>(BankError::InvalidAuthority)
        } else if deploy_percentage > 100 {
            Err(BankError::InvalidPercentage)
        } else {
            Ok(
                YieldStrategy {
                    agent: ctx.agent_key,
                    condition,
                    protocol,
                    deploy_percentage,
                    enabled,
                    last_triggered: 0,
                    trigger_count: 0,
                },
            )
        }),
{
    if ctx.owner != ctx.agent.owner {
        return Err(BankError::InvalidAuthority);
    }
    if deploy_percentage > 100 {
        return Err(BankError::InvalidPercentage);
    }
    Ok(
        YieldStrategy {
            agent: ctx.agent_key,
            condition,
            protocol,
            deploy_percentage,
            enabled,
            last_triggered: 0,
            trigger_count: 0,
        },
    )
}

/// The records that triggering a hook reads and changes.
#[derive(Clone, Debug)]
pub struct TriggerYieldHook {
    /// The signer; anyone may trigger.
    pub cranker: Pubkey,
    pub config: BankConfig,
    pub agent: Agent,
    /// Address of the agent record.
    pub agent_key: Pubkey,
    pub yield_strategy: YieldStrategy,
}

/// What triggering at `now` leaves behind and returns. The hook must belong
/// to the agent, be enabled and have its condition met, and the bank must
/// not be paused; then the share of the stake to deploy is returned and the
/// hook records the trigger. The first check that fails, in that order,
/// decides the error and nothing changes.
pub open spec fn trigger_outcome(c: TriggerYieldHook, now: i64) -> (
    TriggerYieldHook,
    Result<u64, BankError>,
) {
    if c.yield_strategy.agent@ != c.agent_key@ {
        (c, Err(BankError::InvalidAuthority))
    } else if !c.yield_strategy.enabled {
        (c, Err(BankError::HookDisabled))
    } else if !condition_met(c.yield_strategy, c.agent, now) {
        (c, Err(BankError::HookConditionNotMet))
    } else if c.config.paused {
        (c, Err(BankError::BankPaused))
    } else {
        (
            TriggerYieldHook {
                yield_strategy: YieldStrategy {
                    last_triggered: now,
                    trigger_count: (c.yield_strategy.trigger_count + 1) as u64,
                    ..c.yield_strategy
                },
                ..c
            },
            Ok(
                deploy_amount_of(
                    c.agent.staked_amount as int,
                    c.yield_strategy.deploy_percentage as int,
                ) as u64,
            ),
        )
    }
}

/// Fires the hook when its condition holds, and returns the lamports to
/// deploy to its protocol. See `trigger_outcome`.
pub fn trigger_yield_hook_handler(ctx: &mut TriggerYieldHook, now: i64) -> (r: Result<
    u64,
    BankError,
>)
    requires
        old(ctx).yield_strategy.wf(),
        old(ctx).yield_strategy.trigger_count < u64::MAX,
    ensures
        (*final(ctx), r) == trigger_outcome(*old(ctx), now),
        r matches Ok(amount) ==> amount <= old(ctx).agent.staked_amount,
{
    if ctx.yield_strategy.agent != ctx.agent_key {
        return Err(BankError::InvalidAuthority);
    }
    if !ctx.yield_strategy.enabled {
        return Err(BankError::HookDisabled);
    }
    let (met, _reason) = evaluate_condition(&ctx.yield_strategy, &ctx.agent, now);
    if !met {
        return Err(BankError::HookConditionNotMet);
    }
    if ctx.config.paused {
        return Err(BankError::BankPaused);
    }
    let staked = ctx.agent.staked_amount;
    let percentage = ctx.yield_strategy.deploy_percentage;
    proof {
        assert(staked as int * percentage as int <= 100 * staked as int) by (nonlinear_arith)
            requires
                percentage <= 100,
        ;
        lemma_multiply_divide_le(staked as int * percentage as int, 100, staked as int);
    }
    let amount = ((staked as u128) * (percentage as u128) / 100) as u64;
    ctx.yield_strategy.last_triggered = now;
    ctx.yield_strategy.trigger_count = ctx.yield_strategy.trigger_count + 1;
    Ok(amount)
}

/// The records that a status check reads.
#[derive(Clone, Debug)]
pub struct CheckHookStatus {
    pub agent: Agent,
    pub yield_strategy: YieldStrategy,
}

/// Whether a hook would fire now, and why.
#[derive(Clone, Copy, Debug)]
pub struct HookStatus {
    pub enabled: bool,
    pub would_trigger: bool,
    pub reason: HookReason,
    pub trigger_count: u64,
}

/// Reports, without changing anything, whether the hook's condition holds
/// at `now`, what it compared, and how often the hook has fired.
pub fn check_hook_status_handler(ctx: &CheckHookStatus, now: i64) -> (r: HookStatus)
    ensures
        r.enabled == ctx.yield_strategy.enabled,
        r.would_trigger == condition_met(ctx.yield_strategy, ctx.agent, now),
        r.reason == hook_reason_of(ctx.yield_strategy, ctx.agent, now),
        r.trigger_count == ctx.yield_strategy.trigger_count,
{
    let (met, reason) = evaluate_condition(&ctx.yield_strategy, &ctx.agent, now);
    HookStatus {
        enabled: ctx.yield_strategy.enabled,
        would_trigger: met,
        reason,
        trigger_count: ctx.yield_strategy.trigger_count,
    }
}

} // verus!
