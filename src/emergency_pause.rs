use vstd::prelude::*;
use crate::error::BankError;
use crate::pubkey::Pubkey;
use crate::state::BankConfig;

verus! {

/// Pause reason code: not paused.
pub const PAUSE_NONE: u8 = 0;

/// Pause reason code: a security incident, set when the breaker trips.
pub const PAUSE_SECURITY: u8 = 1;

/// Pause reason code: scheduled maintenance.
pub const PAUSE_MAINTENANCE: u8 = 2;

/// Pause reason code: protocol upgrade.
pub const PAUSE_UPGRADE: u8 = 3;

/// Why the bank is paused.
#[derive(Clone, Copy, Debug, PartialEq, Eq, Structural)]
pub enum PauseReason {
    NoReason,
    Security,
    Maintenance,
    Upgrade,
}

/// The reason that a stored code stands for; unknown codes read as none.
pub open spec fn pause_reason_of(code: u8) -> PauseReason {
    if code == PAUSE_SECURITY {
        PauseReason::Security
    } else if code == PAUSE_MAINTENANCE {
        PauseReason::Maintenance
    } else if code == PAUSE_UPGRADE {
        PauseReason::Upgrade
    } else {
        PauseReason::NoReason
    }
}

impl From<u8> for PauseReason {
    fn from(val: u8) -> PauseReason {
        if val == PAUSE_SECURITY {
            PauseReason::Security
        } else if val == PAUSE_MAINTENANCE {
            PauseReason::Maintenance
        } else if val == PAUSE_UPGRADE {
            PauseReason::Upgrade
        } else {
            PauseReason::NoReason
        }
    }
}

impl vstd::std_specs::convert::FromSpecImpl<u8> for PauseReason {
    open spec fn obeys_from_spec() -> bool {
        true
    }

    open spec fn from_spec(v: u8) -> PauseReason {
        pause_reason_of(v)
    }
}

/// The records that an admin's pause switch touches.
#[derive(Clone, Copy, Debug)]
pub struct TogglePause {
    pub bank_config: BankConfig,
    /// The signer; must be the bank's admin.
    pub admin: Pubkey,
}

/// Fails with `BankPaused` exactly when the bank is paused.
pub fn require_not_paused(bank_config: &BankConfig) -> (r: Result<(), BankError>)
    ensures
        r == (if bank_config.paused {
            Err::<(), BankError>(BankError::BankPaused)
        } else {
            Ok(())
        }),
{
    if bank_config.paused {
        Err(BankError::BankPaused)
    } else {
        Ok(())
    }
}

/// Sets or clears the pause switch. The reason is kept only while paused.
/// Only the admin may do this; anyone else fails with `Unauthorized` and
/// changes nothing.
pub fn toggle_pause_handler(ctx: &mut TogglePause, paused: bool, reason: u8) -> (r: Result<
    (),
    BankError,
>)
    ensures
        old(ctx).admin@ != old(ctx).bank_config.admin@ ==> {
            &&& r == Err::<(), BankError>(BankError::Unauthorized)
            &&& *final(ctx) == *old(ctx)
        },
        old(ctx).admin@ == old(ctx).bank_config.admin@ ==> {
            &&& r == Ok::<(), BankError>(())
            &&& final(ctx).admin == old(ctx).admin
            &&& final(ctx).bank_config == (BankConfig {
                paused,
                pause_reason: if paused {
                    reason
                } else {
                    PAUSE_NONE
                },
                ..old(ctx).bank_config
            })
        },
{
    if ctx.admin != ctx.bank_config.admin {
        return Err(BankError::Unauthorized);
    }
    ctx.bank_config.paused = paused;
    ctx.bank_config.pause_reason = if paused {
        reason
    } else {
        PAUSE_NONE
    };
    Ok(())
}

} // verus!
