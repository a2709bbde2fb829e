use vstd::prelude::*;
use crate::emergency_pause::PAUSE_SECURITY;
use crate::error::BankError;
use crate::pubkey::Pubkey;
use crate::state::BankConfig;

verus! {

/// The breaker is armed (threshold above 0) and the count has reached its
/// threshold.
pub open spec fn breaker_trips(config: BankConfig) -> bool {
    config.auto_pause_threshold > 0 && config.suspicious_activity_count
        >= config.auto_pause_threshold
}

/// The settings after one more blocked attempt; the count stops at its
/// largest value.
pub open spec fn record_suspicious(config: BankConfig) -> BankConfig {
    BankConfig {
        suspicious_activity_count: config.suspicious_activity_count.saturating_add(1),
        ..config
    }
}

/// The settings after the breaker trips: paused for a security reason.
pub open spec fn tripped(config: BankConfig) -> BankConfig {
    BankConfig { paused: true, pause_reason: PAUSE_SECURITY, ..config }
}

/// Counts one blocked attempt.
pub fn note_suspicious_activity(config: &mut BankConfig)
    ensures
        *final(config) == record_suspicious(*old(config)),
{
    config.suspicious_activity_count = config.suspicious_activity_count.saturating_add(1);
}

/// Trips the breaker when it is armed and the count has reached the
/// threshold, and says whether it did.
pub fn check_circuit_breaker(config: &mut BankConfig) -> (r: bool)
    ensures
        r == breaker_trips(*old(config)),
        *final(config) == (if r {
            tripped(*old(config))
        } else {
            *old(config)
        }),
{
    if config.auto_pause_threshold > 0 && config.suspicious_activity_count
        >= config.auto_pause_threshold {
        config.paused = true;
        config.pause_reason = PAUSE_SECURITY;
        true
    } else {
        false
    }
}

/// The records that resetting the breaker's count touches.
#[derive(Clone, Copy, Debug)]
pub struct ResetSecurityCounter {
    /// The signer; must be the bank's admin.
    pub admin: Pubkey,
    pub config: BankConfig,
}

/// Sets the suspicious-activity count back to zero and records when. The
/// pause switch is left as it is. Anyone but the admin fails with
/// `Unauthorized` and changes nothing.
pub fn reset_security_counter_handler(ctx: &mut ResetSecurityCounter, now: i64) -> (r: Result<
    (),
    BankError,
>)
    ensures
        old(ctx).admin@ != old(ctx).config.admin@ ==> {
            &&& r == Err::<(), BankError>(BankError::Unauthorized)
            &&& *final(ctx) == *old(ctx)
        },
        old(ctx).admin@ == old(ctx).config.admin@ ==> {
            &&& r == Ok::<(), BankError>(())
            &&& final(ctx).admin == old(ctx).admin
            &&& final(ctx).config == (BankConfig {
                suspicious_activity_count: 0,
                last_security_check: now,
                ..old(ctx).config
            })
        },
{
    if ctx.admin != ctx.config.admin {
        return Err(BankError::Unauthorized);
    }
    ctx.config.suspicious_activity_count = 0;
    ctx.config.last_security_check = now;
    Ok(())
}

/// The records that changing the breaker's threshold touches.
#[derive(Clone, Copy, Debug)]
pub struct UpdateAutoThreshold {
    /// The signer; must be the bank's admin.
    pub admin: Pubkey,
    pub config: BankConfig,
}

/// Sets the count at which the breaker trips; 0 disables it. Anyone but the
/// admin fails with `Unauthorized` and changes nothing.
pub fn update_auto_threshold_handler(ctx: &mut UpdateAutoThreshold, new_threshold: u32) -> (r:
    Result<(), BankError>)
    ensures
        old(ctx).admin@ != old(ctx).config.admin@ ==> {
            &&& r == Err::<(), BankError>(BankError::Unauthorized)
            &&& *final(ctx) == *old(ctx)
        },
        old(ctx).admin@ == old(ctx).config.admin@ ==> {
            &&& r == Ok::<(), BankError>(())
            &&& final(ctx).admin == old(ctx).admin
            &&& final(ctx).config == (BankConfig {
                auto_pause_threshold: new_threshold,
                ..old(ctx).config
            })
        },
{
    if ctx.admin != ctx.config.admin {
        return Err(BankError::Unauthorized);
    }
    ctx.config.auto_pause_threshold = new_threshold;
    Ok(())
}

} // verus!
