use vstd::prelude::*;
use crate::pubkey::Pubkey;
use crate::state::YieldProtocol;

verus! {

/// Published when an owner authorizes a delegate.
#[derive(Clone, Copy, Debug)]
pub struct DelegateAdded {
    pub agent: Pubkey,
    pub delegate: Pubkey,
    pub can_spend: bool,
    pub can_manage_yield: bool,
    pub valid_until: i64,
}

/// Published when an owner revokes a delegate.
#[derive(Clone, Copy, Debug)]
pub struct DelegateRemoved {
    pub agent: Pubkey,
    pub delegate: Pubkey,
}

/// Published for each completed withdrawal.
#[derive(Clone, Copy, Debug)]
pub struct Withdrawal {
    pub agent: Pubkey,
    pub authority: Pubkey,
    pub destination: Pubkey,
    /// The whole amount that left the vault.
    pub amount: u64,
    /// The part of `amount` that went to the treasury.
    pub fee: u64,
    /// The agent's spend in its current period, this withdrawal included.
    pub period_spend: u64,
}

/// Published when funds go to or come back from a yield protocol.
#[derive(Clone, Debug)]
pub struct YieldInteract {
    pub agent: Pubkey,
    pub protocol: YieldProtocol,
    /// "deposit" or "withdraw".
    pub action: String,
    pub amount: u64,
    pub timestamp: i64,
}

} // verus!
