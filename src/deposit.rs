use vstd::prelude::*;
use vstd::arithmetic::div_mod::lemma_multiply_divide_le;
use crate::error::BankError;
use crate::pubkey::Pubkey;
use crate::state::Agent;

verus! {

/// The records that a deposit reads and changes.
#[derive(Clone, Debug)]
pub struct Deposit {
    /// The signer; must own the agent.
    pub owner: Pubkey,
    pub owner_balance: u64,
    pub agent: Agent,
    pub vault_balance: u64,
}

/// The staked part of a total deposit: eight tenths, rounded down.
pub open spec fn staked_share(total: int) -> int {
    total * 8 / 10
}

/// What a deposit of `amount` at `now` leaves behind and returns: the owner
/// must sign (else `InvalidAuthority`) and hold the amount (else
/// `InsufficientFunds`); then the amount moves to the vault, the total
/// deposited grows by it, eight tenths of the total count as staked, and
/// the yield clock starts if it never has.
pub open spec fn deposit_outcome(c: Deposit, amount: u64, now: i64) -> (Deposit, Result<(), BankError>) {
    if c.owner@ != c.agent.owner@ {
        (c, Err(BankError::InvalidAuthority))
    } else if c.owner_balance < amount {
        (c, Err(BankError::InsufficientFunds))
    } else {
        let total = c.agent.total_deposited + amount;
        (
            Deposit {
                owner_balance: (c.owner_balance - amount) as u64,
                vault_balance: (c.vault_balance + amount) as u64,
                agent: Agent {
                    total_deposited: total as u64,
                    staked_amount: staked_share(total) as u64,
                    last_yield_timestamp: if c.agent.last_yield_timestamp == 0 {
                        now
                    } else {
                        c.agent.last_yield_timestamp
                    },
                    ..c.agent
                },
                ..c
            },
            Ok(()),
        )
    }
}

/// Credits `amount` from the owner to the agent's vault. See
/// `deposit_outcome`.
pub fn deposit_handler(ctx: &mut Deposit, amount: u64, now: i64) -> (r: Result<(), BankError>)
    requires
        old(ctx).owner_balance + old(ctx).vault_balance <= u64::MAX,
        old(ctx).agent.total_deposited + amount <= u64::MAX,
    ensures
        (*final(ctx), r) == deposit_outcome(*old(ctx), amount, now),
{
    if ctx.owner != ctx.agent.owner {
        return Err(BankError::InvalidAuthority);
    }
    if ctx.owner_balance < amount {
        return Err(BankError::InsufficientFunds);
    }
    let total = ctx.agent.total_deposited + amount;
    proof {
        lemma_multiply_divide_le(total as int * 8, 10, total as int);
    }
    ctx.owner_balance = ctx.owner_balance - amount;
    ctx.vault_balance = ctx.vault_balance + amount;
    ctx.agent.total_deposited = total;
    ctx.agent.staked_amount = ((total as u128) * 8 / 10) as u64;
    if ctx.agent.last_yield_timestamp == 0 {
        ctx.agent.last_yield_timestamp = now;
    }
    Ok(())
}

} // verus!
