use vstd::prelude::*;
use crate::emergency_pause::PAUSE_NONE;
use crate::pubkey::Pubkey;
use crate::state::{BankConfig, BPS_DENOMINATOR};

verus! {

/// Blocked attempts after which a new bank's breaker trips.
pub const DEFAULT_AUTO_PAUSE_THRESHOLD: u32 = 10;

/// The records that setting up the bank reads.
#[derive(Clone, Copy, Debug)]
pub struct InitializeBank {
    /// The signer, who becomes the bank's admin.
    pub admin: Pubkey,
}

/// The settings of a new bank: the signer as admin, the given fee rate,
/// nothing collected, not paused, and the breaker armed at its default
/// threshold with a count of zero.
pub fn initialize_bank_handler(ctx: &InitializeBank, fee_bps: u16) -> (r: BankConfig)
    requires
        fee_bps <= BPS_DENOMINATOR,
    ensures
        r.wf(),
        r == (BankConfig {
            admin: ctx.admin,
            protocol_fee_bps: fee_bps,
            total_fees_collected: 0,
            paused: false,
            pause_reason: PAUSE_NONE,
            suspicious_activity_count: 0,
            auto_pause_threshold: DEFAULT_AUTO_PAUSE_THRESHOLD,
            last_security_check: 0,
        }),
{
    BankConfig {
        admin: ctx.admin,
        protocol_fee_bps: fee_bps,
        total_fees_collected: 0,
        paused: false,
        pause_reason: PAUSE_NONE,
        suspicious_activity_count: 0,
        auto_pause_threshold: DEFAULT_AUTO_PAUSE_THRESHOLD,
        last_security_check: 0,
    }
}

} // verus!
