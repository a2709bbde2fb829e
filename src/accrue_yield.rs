use vstd::prelude::*;
use crate::agentic_hooks::{pending_yield, pending_yield_of};
use crate::state::{Agent, BankConfig};

verus! {

/// The records that accruing yield reads and changes.
#[derive(Clone, Debug)]
pub struct AccrueYield {
    pub agent: Agent,
    pub config: BankConfig,
    pub vault_balance: u64,
    pub treasury_balance: u64,
}

/// The smaller of two amounts.
pub open spec fn min_of(a: int, b: int) -> int {
    if a <= b {
        a
    } else {
        b
    }
}

/// What accruing yield at `now` leaves behind, and the lamports paid. With
/// a stake and time passed since the last accrual, the treasury pays the
/// yield earned, or all it holds when that is less, into the vault; the
/// payout adds to the stake and to the total deposited, and the yield clock
/// moves to `now`. Otherwise nothing changes.
pub open spec fn accrue_outcome(c: AccrueYield, now: i64) -> (AccrueYield, u64) {
    let elapsed = now - c.agent.last_yield_timestamp;
    if c.agent.staked_amount == 0 || elapsed <= 0 {
        (c, 0)
    } else {
        let payout = min_of(
            pending_yield_of(c.agent.staked_amount as int, elapsed),
            c.treasury_balance as int,
        );
        (
            AccrueYield {
                agent: Agent {
                    staked_amount: (c.agent.staked_amount + payout) as u64,
                    total_deposited: (c.agent.total_deposited + payout) as u64,
                    last_yield_timestamp: now,
                    ..c.agent
                },
                vault_balance: (c.vault_balance + payout) as u64,
                treasury_balance: (c.treasury_balance - payout) as u64,
                ..c
            },
            payout as u64,
        )
    }
}

/// Pays the agent the yield its stake has earned since the last accrual,
/// from the treasury. See `accrue_outcome`.
pub fn accrue_yield_handler(ctx: &mut AccrueYield, now: i64) -> (r: u64)
    requires
        old(ctx).vault_balance + old(ctx).treasury_balance <= u64::MAX,
        old(ctx).agent.staked_amount + old(ctx).treasury_balance <= u64::MAX,
        old(ctx).agent.total_deposited + old(ctx).treasury_balance <= u64::MAX,
    ensures
        (*final(ctx), r) == accrue_outcome(*old(ctx), now),
{
    if ctx.agent.staked_amount == 0 {
        return 0;
    }
    let elapsed = (now as i128) - (ctx.agent.last_yield_timestamp as i128);
    if elapsed <= 0 {
        return 0;
    }
    let earned = pending_yield(ctx.agent.staked_amount, elapsed);
    let payout: u64 = if earned <= ctx.treasury_balance as u128 {
        earned as u64
    } else {
        ctx.treasury_balance
    };
    ctx.treasury_balance = ctx.treasury_balance - payout;
    ctx.vault_balance = ctx.vault_balance + payout;
    ctx.agent.staked_amount = ctx.agent.staked_amount + payout;
    ctx.agent.total_deposited = ctx.agent.total_deposited + payout;
    ctx.agent.last_yield_timestamp = now;
    payout
}

} // verus!
