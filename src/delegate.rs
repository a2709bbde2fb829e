use vstd::prelude::*;
use crate::error::BankError;
use crate::events::{DelegateAdded, DelegateRemoved};
use crate::pubkey::Pubkey;
use crate::state::{Agent, Delegate};

verus! {

/// The records that authorizing a delegate reads.
#[derive(Clone, Debug)]
pub struct AddDelegate {
    /// The signer; must own the agent.
    pub owner: Pubkey,
    pub agent: Agent,
    /// Address of the agent record.
    pub agent_key: Pubkey,
}

/// The new delegate record for the agent, and its event. Only the owner
/// may authorize a delegate; anyone else fails with `InvalidAuthority`.
pub fn add_delegate_handler(
    ctx: &AddDelegate,
    delegate_key: Pubkey,
    can_spend: bool,
    can_manage_yield: bool,
    valid_until: i64,
) -> (r: Result<(Delegate, DelegateAdded), BankError>)
    ensures
        r == (if ctx.owner@ != ctx.agent.owner@ {
            Err::<(Delegate, DelegateAdded), BankError>(BankError::InvalidAuthority)
        } else {
            Ok(
                (
                    Delegate {
                        agent: ctx.agent_key,
                        delegate_key,
                        can_spend,
                        can_manage_yield,
                        valid_until,
                    },
                    DelegateAdded {
                        agent: ctx.agent_key,
                        delegate: delegate_key,
                        can_spend,
                        can_manage_yield,
                        valid_until,
                    },
                ),
            )
        }),
{
    if ctx.owner != ctx.agent.owner {
        return Err(BankError::InvalidAuthority);
    }
    let delegate = Delegate {
        agent: ctx.agent_key,
        delegate_key,
        can_spend,
        can_manage_yield,
        valid_until,
    };
    let event = DelegateAdded {
        agent: ctx.agent_key,
        delegate: delegate_key,
        can_spend,
        can_manage_yield,
        valid_until,
    };
    Ok((delegate, event))
}

/// The records that revoking a delegate reads.
#[derive(Clone, Debug)]
pub struct RemoveDelegate {
    /// The signer; must own the agent.
    pub owner: Pubkey,
    pub agent: Agent,
    /// Address of the agent record.
    pub agent_key: Pubkey,
    pub delegate: Delegate,
}

/// The event of revoking the delegate; the host then deletes its record.
/// Fails with `InvalidAuthority` unless the owner signs and the delegate
/// belongs to the agent.
pub fn remove_delegate_handler(ctx: &RemoveDelegate) -> (r: Result<DelegateRemoved, BankError>)
    ensures
        r == (if ctx.owner@ != ctx.agent.owner@ || ctx.delegate.agent@ != ctx.agent_key@ {
            Err::<DelegateRemoved, BankError>(BankError::InvalidAuthority)
        } else {
            Ok(DelegateRemoved { agent: ctx.delegate.agent, delegate: ctx.delegate.delegate_key })
        }),
{
    if ctx.owner != ctx.agent.owner || ctx.delegate.agent != ctx.agent_key {
        return Err(BankError::InvalidAuthority);
    }
    Ok(DelegateRemoved { agent: ctx.delegate.agent, delegate: ctx.delegate.delegate_key })
}

} // verus!
