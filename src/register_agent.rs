use vstd::prelude::*;
use crate::pubkey::Pubkey;
use crate::state::Agent;

verus! {

/// The records that registering an agent reads.
#[derive(Clone, Copy, Debug)]
pub struct RegisterAgent {
    /// The signer, who becomes the agent's owner.
    pub owner: Pubkey,
}

/// A new agent owned by the signer, its first period starting `now` with
/// nothing spent, deposited or staked.
pub fn handler(
    ctx: &RegisterAgent,
    name: String,
    spending_limit: u64,
    period_duration: i64,
    now: i64,
) -> (r: Agent)
    ensures
        r.owner == ctx.owner,
        r.name@ == name@,
        r.spending_limit == spending_limit,
        r.period_duration == period_duration,
        r.current_period_start == now,
        r.current_period_spend == 0,
        r.total_deposited == 0,
        r.staked_amount == 0,
        r.last_yield_timestamp == 0,
{
    Agent {
        owner: ctx.owner,
        spending_limit,
        period_duration,
        current_period_start: now,
        current_period_spend: 0,
        name,
        total_deposited: 0,
        staked_amount: 0,
        last_yield_timestamp: 0,
    }
}

} // verus!
