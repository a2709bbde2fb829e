use vstd::prelude::*;
use vstd::arithmetic::div_mod::lemma_multiply_divide_le;
use crate::circuit_breaker::{
    breaker_trips, check_circuit_breaker, note_suspicious_activity, record_suspicious, tripped,
};
use crate::emergency_pause::require_not_paused;
use crate::error::BankError;
use crate::events::Withdrawal;
use crate::pubkey::{zero_address, Pubkey};
use crate::security::{destination_blocked, should_block_transaction, validate_destination};
use crate::state::{Agent, BankConfig, Delegate, BPS_DENOMINATOR};

verus! {

/// The records that a withdrawal reads and changes, as the host loaded them.
#[derive(Clone, Debug)]
pub struct Withdraw {
    /// The signer: the agent's owner or one of its delegates.
    pub authority: Pubkey,
    /// Address of the agent record.
    pub agent_key: Pubkey,
    pub agent: Agent,
    pub vault_balance: u64,
    pub destination: Pubkey,
    pub destination_balance: u64,
    pub config: BankConfig,
    pub treasury_balance: u64,
    /// The delegate record of the signer, when the signer is not the owner.
    pub delegate_record: Option<Delegate>,
}

impl Withdraw {
    /// The lamports of the three accounts that a withdrawal touches fit in
    /// one `u64` together, so no transfer among them can overflow.
    pub open spec fn balances_fit(&self) -> bool {
        self.vault_balance + self.treasury_balance + self.destination_balance <= u64::MAX
    }
}

/// The delegate has an expiry and `now` has reached it.
pub open spec fn delegate_expired(d: Delegate, now: i64) -> bool {
    d.valid_until != 0 && now >= d.valid_until
}

/// Why the signer may not spend from the agent's vault, if it may not.
pub open spec fn spend_authority_error(c: Withdraw, now: i64) -> Option<BankError> {
    if c.authority@ == c.agent.owner@ {
        None
    } else {
        match c.delegate_record {
            None => Some(BankError::InvalidAuthority),
            Some(d) => {
                if d.agent@ != c.agent_key@ || d.delegate_key@ != c.authority@ {
                    Some(BankError::InvalidAuthority)
                } else if !d.can_spend {
                    Some(BankError::UnauthorizedDelegate)
                } else if delegate_expired(d, now) {
                    Some(BankError::DelegateExpired)
                } else {
                    None
                }
            },
        }
    }
}

/// The agent's current period has run out at `now`.
pub open spec fn period_elapsed(agent: Agent, now: i64) -> bool {
    now > agent.current_period_start + agent.period_duration
}

/// The agent with its period rolled over at `now`, if it has run out.
pub open spec fn roll_period(agent: Agent, now: i64) -> Agent {
    if period_elapsed(agent, now) {
        Agent { current_period_start: now, current_period_spend: 0, ..agent }
    } else {
        agent
    }
}

/// The protocol fee on `amount`, rounded down.
pub open spec fn fee_for(amount: int, fee_bps: int) -> int {
    amount * fee_bps / BPS_DENOMINATOR as int
}

/// What a withdrawal of `amount` at `now` leaves behind and returns. The
/// checks run in order and the first that fails decides the error. A blocked
/// destination still counts as suspicious, and a tripped breaker still
/// pauses the bank; any other failure changes nothing.
pub open spec fn withdraw_outcome(c: Withdraw, amount: u64, now: i64) -> (
    Withdraw,
    Result<Withdrawal, BankError>,
) {
    if c.config.paused {
        (c, Err(BankError::BankPaused))
    } else {
        match spend_authority_error(c, now) {
            Some(e) => (c, Err(e)),
            None => {
                if destination_blocked(c.destination@) {
                    (
                        Withdraw { config: record_suspicious(c.config), ..c },
                        Err(BankError::SuspiciousDestination),
                    )
                } else if breaker_trips(c.config) {
                    (Withdraw { config: tripped(c.config), ..c }, Err(BankError::BankPaused))
                } else {
                    let a = roll_period(c.agent, now);
                    let spend = a.current_period_spend + amount;
                    if spend > a.spending_limit {
                        (c, Err(BankError::SpendingLimitExceeded))
                    } else if c.vault_balance < amount {
                        (c, Err(BankError::InsufficientFunds))
                    } else {
                        let fee = fee_for(amount as int, c.config.protocol_fee_bps as int);
                        (
                            Withdraw {
                                agent: Agent { current_period_spend: spend as u64, ..a },
                                vault_balance: (c.vault_balance - amount) as u64,
                                treasury_balance: (c.treasury_balance + fee) as u64,
                                destination_balance: (c.destination_balance + amount
                                    - fee) as u64,
                                config: BankConfig {
                                    total_fees_collected:
                                        c.config.total_fees_collected.saturating_add(fee as u64),
                                    ..c.config
                                },
                                ..c
                            },
                            Ok(
                                Withdrawal {
                                    agent: c.agent_key,
                                    authority: c.authority,
                                    destination: c.destination,
                                    amount,
                                    fee: fee as u64,
                                    period_spend: spend as u64,
                                },
                            ),
                        )
                    }
                }
            },
        }
    }
}

/// Splits `amount` into the protocol fee, rounded down, and what is left;
/// the two add up to `amount` exactly.
pub fn split_fee(amount: u64, fee_bps: u16) -> (r: (u64, u64))
    requires
        fee_bps <= BPS_DENOMINATOR,
    ensures
        r.0 == fee_for(amount as int, fee_bps as int),
        r.0 + r.1 == amount,
{
    proof {
        assert(amount as int * fee_bps as int <= BPS_DENOMINATOR as int * amount as int)
            by (nonlinear_arith)
            requires
                fee_bps <= BPS_DENOMINATOR,
        ;
        lemma_multiply_divide_le(
            amount as int * fee_bps as int,
            BPS_DENOMINATOR as int,
            amount as int,
        );
    }
    let fee = ((amount as u128) * (fee_bps as u128) / (BPS_DENOMINATOR as u128)) as u64;
    (fee, amount - fee)
}

/// Whether the agent's current period has run out at `now`.
pub fn period_has_elapsed(agent: &Agent, now: i64) -> (r: bool)
    ensures
        r == period_elapsed(*agent, now),
{
    (now as i128) > (agent.current_period_start as i128) + (agent.period_duration as i128)
}

/// Fails as `spend_authority_error` says, or succeeds.
fn check_spend_authority(ctx: &Withdraw, now: i64) -> (r: Result<(), BankError>)
    ensures
        r == (match spend_authority_error(*ctx, now) {
            Some(e) => Err::<(), BankError>(e),
            None => Ok(()),
        }),
{
    if ctx.authority == ctx.agent.owner {
        return Ok(());
    }
    match &ctx.delegate_record {
        None => Err(BankError::InvalidAuthority),
        Some(d) => {
            if d.agent != ctx.agent_key || d.delegate_key != ctx.authority {
                Err(BankError::InvalidAuthority)
            } else if !d.can_spend {
                Err(BankError::UnauthorizedDelegate)
            } else if d.valid_until != 0 && now >= d.valid_until {
                Err(BankError::DelegateExpired)
            } else {
                Ok(())
            }
        },
    }
}

/// Moves `amount` out of the agent's vault: the fee to the treasury, the
/// rest to the destination. See `withdraw_outcome` for the checks, their
/// order, and what each failure leaves behind.
pub fn withdraw_handler(ctx: &mut Withdraw, amount: u64, now: i64) -> (r: Result<
    Withdrawal,
    BankError,
>)
    requires
        old(ctx).config.wf(),
        old(ctx).balances_fit(),
    ensures
        (*final(ctx), r) == withdraw_outcome(*old(ctx), amount, now),
{
    if let Err(e) = require_not_paused(&ctx.config) {
        return Err(e);
    }
    if let Err(e) = check_spend_authority(ctx, now) {
        return Err(e);
    }
    let verdict = match validate_destination(&ctx.destination) {
        Ok(v) => v,
        Err(e) => return Err(e),
    };
    if should_block_transaction(&verdict) {
        note_suspicious_activity(&mut ctx.config);
        return Err(BankError::SuspiciousDestination);
    }
    if check_circuit_breaker(&mut ctx.config) {
        return Err(BankError::BankPaused);
    }
    let elapsed = period_has_elapsed(&ctx.agent, now);
    let start: i64 = if elapsed {
        now
    } else {
        ctx.agent.current_period_start
    };
    let spent: u64 = if elapsed {
        0
    } else {
        ctx.agent.current_period_spend
    };
    if (spent as u128) + (amount as u128) > (ctx.agent.spending_limit as u128) {
        return Err(BankError::SpendingLimitExceeded);
    }
    if ctx.vault_balance < amount {
        return Err(BankError::InsufficientFunds);
    }
    let period_spend = spent + amount;
    let (fee, net) = split_fee(amount, ctx.config.protocol_fee_bps);
    ctx.agent.current_period_start = start;
    ctx.agent.current_period_spend = period_spend;
    ctx.vault_balance = ctx.vault_balance - amount;
    ctx.treasury_balance = ctx.treasury_balance + fee;
    ctx.destination_balance = ctx.destination_balance + net;
    if fee > 0 {
        ctx.config.total_fees_collected = ctx.config.total_fees_collected.saturating_add(fee);
    }
    Ok(
        Withdrawal {
            agent: ctx.agent_key,
            authority: ctx.authority,
            destination: ctx.destination,
            amount,
            fee,
            period_spend,
        },
    )
}

/// The sum of a sequence of amounts.
pub open spec fn total_of(amounts: Seq<u64>) -> int
    decreases amounts.len(),
{
    if amounts.len() == 0 {
        0
    } else {
        total_of(amounts.drop_last()) + amounts.last()
    }
}

/// One successful withdrawal of `amount` at `now` leads from `before` to
/// the agent record `after`.
pub open spec fn withdraws_to(before: Withdraw, amount: u64, now: i64, after: Agent) -> bool {
    let (c, r) = withdraw_outcome(before, amount, now);
    r is Ok && c.agent == after
}

/// Successful withdrawals within one period take no more than the spending
/// limit in total. `steps[i]` is what the i-th withdrawal found, and its
/// agent record is what the one before it left; all of them leave the agent
/// in the same period. Periods of negative length are left out: with them a
/// period rolls over again at the very time it started.
pub proof fn lemma_period_spend_bounded(steps: Seq<Withdraw>, amounts: Seq<u64>, times: Seq<i64>)
    requires
        steps.len() == amounts.len() + 1,
        times.len() == amounts.len(),
        steps[0].agent.period_duration >= 0,
        forall|i: int|
            0 <= i < amounts.len() ==> #[trigger] withdraws_to(
                steps[i],
                amounts[i],
                times[i],
                steps[i + 1].agent,
            ),
        forall|i: int|
            1 <= i < steps.len() ==> (#[trigger] steps[i]).agent.current_period_start
                == steps.last().agent.current_period_start,
    ensures
        total_of(amounts) <= steps.last().agent.spending_limit,
{
    let n = amounts.len() as int;
    if n > 0 {
        lemma_spend_covers_total(steps, amounts, times, n);
        assert(amounts.take(n) =~= amounts);
    }
}

/// After the k-th withdrawal of a run within one period, the period's spend
/// covers all the amounts so far and stays within the unchanged limit.
proof fn lemma_spend_covers_total(steps: Seq<Withdraw>, amounts: Seq<u64>, times: Seq<i64>, k: int)
    requires
        steps.len() == amounts.len() + 1,
        times.len() == amounts.len(),
        steps[0].agent.period_duration >= 0,
        forall|i: int|
            0 <= i < amounts.len() ==> #[trigger] withdraws_to(
                steps[i],
                amounts[i],
                times[i],
                steps[i + 1].agent,
            ),
        forall|i: int|
            1 <= i < steps.len() ==> (#[trigger] steps[i]).agent.current_period_start
                == steps.last().agent.current_period_start,
        1 <= k <= amounts.len(),
    ensures
        steps[k].agent.current_period_spend >= total_of(amounts.take(k)),
        steps[k].agent.current_period_spend <= steps[k].agent.spending_limit,
        steps[k].agent.period_duration == steps[0].agent.period_duration,
    decreases k,
{
    let j = k - 1;
    assert(withdraws_to(steps[j], amounts[j], times[j], steps[j + 1].agent));
    assert(amounts.take(k).drop_last() =~= amounts.take(k - 1));
    assert(amounts.take(k).last() == amounts[j]);
    assert(total_of(amounts.take(k)) == total_of(amounts.take(j)) + amounts[j]);
    if k == 1 {
        assert(amounts.take(0) =~= Seq::<u64>::empty());
        assert(total_of(amounts.take(0)) == 0);
    } else {
        lemma_spend_covers_total(steps, amounts, times, k - 1);
        let prev = steps[k - 1].agent;
        assert(steps[k - 1].agent.current_period_start == steps.last().agent.current_period_start);
        assert(steps[k].agent.current_period_start == steps.last().agent.current_period_start);
        assert(!period_elapsed(prev, times[k - 1]));
    }
}

/// A period rolls over only once its whole length has passed, restarts at
/// the time of the call with nothing spent, and rolls over at most once per
/// call: rolling over again at the same time changes nothing. A withdrawal
/// that succeeds leaves the period as the roll-over says.
pub proof fn lemma_period_rolls_once(c: Withdraw, amount: u64, now: i64)
    ensures
        !period_elapsed(c.agent, now) ==> roll_period(c.agent, now) == c.agent,
        period_elapsed(c.agent, now) ==> roll_period(c.agent, now).current_period_start == now
            && roll_period(c.agent, now).current_period_spend == 0,
        roll_period(roll_period(c.agent, now), now) == roll_period(c.agent, now),
        withdraw_outcome(c, amount, now).1 is Ok ==> withdraw_outcome(
            c,
            amount,
            now,
        ).0.agent.current_period_start == roll_period(c.agent, now).current_period_start,
{
}

/// A withdrawal to the all-zero address that gets past the pause and
/// authority checks fails with `SuspiciousDestination` and counts exactly
/// one more suspicious attempt. Left out: a count already at its largest
/// value, where it stays.
pub proof fn lemma_zero_destination_rejected(c: Withdraw, amount: u64, now: i64)
    requires
        c.destination@ == zero_address(),
        !c.config.paused,
        spend_authority_error(c, now) is None,
        c.config.suspicious_activity_count < u32::MAX,
    ensures
        withdraw_outcome(c, amount, now).1 == Err::<Withdrawal, BankError>(
            BankError::SuspiciousDestination,
        ),
        withdraw_outcome(c, amount, now).0.config.suspicious_activity_count
            == c.config.suspicious_activity_count + 1,
{
    assert(c.destination@[0] == 0u8);
}


/// A successful withdrawal splits its amount exactly: the fee, rounded
/// down, goes to the treasury and the rest to the destination, so the three
/// balances together neither lose nor gain a lamport.
pub proof fn lemma_withdrawal_splits_exactly(c: Withdraw, amount: u64, now: i64)
    requires
        c.config.wf(),
        c.balances_fit(),
    ensures
        withdraw_outcome(c, amount, now).1 matches Ok(w) ==> {
            let after = withdraw_outcome(c, amount, now).0;
            &&& w.amount == amount
            &&& w.fee == fee_for(amount as int, c.config.protocol_fee_bps as int)
            &&& w.fee <= amount
            &&& after.vault_balance == c.vault_balance - amount
            &&& after.treasury_balance == c.treasury_balance + w.fee
            &&& after.destination_balance == c.destination_balance + (amount - w.fee)
            &&& after.vault_balance + after.treasury_balance + after.destination_balance
                == c.vault_balance + c.treasury_balance + c.destination_balance
            &&& c.config.total_fees_collected + amount <= u64::MAX
                ==> after.config.total_fees_collected == c.config.total_fees_collected + w.fee
        },
{
    assert(amount as int * c.config.protocol_fee_bps as int <= BPS_DENOMINATOR as int
        * amount as int) by (nonlinear_arith)
        requires
            c.config.protocol_fee_bps <= BPS_DENOMINATOR,
    ;
    lemma_multiply_divide_le(
        amount as int * c.config.protocol_fee_bps as int,
        BPS_DENOMINATOR as int,
        amount as int,
    );
}


/// Successful withdrawals made no later than the end of the period as it
/// stood before the first of them never roll it over: the period's spend
/// grows by exactly their amounts, and so their sum stays within the
/// spending limit. `steps[i]` is what the i-th withdrawal found, and its
/// agent record is what the one before it left.
pub proof fn lemma_spend_within_period(steps: Seq<Withdraw>, amounts: Seq<u64>, times: Seq<i64>)
    requires
        steps.len() == amounts.len() + 1,
        times.len() == amounts.len(),
        forall|i: int|
            0 <= i < amounts.len() ==> #[trigger] withdraws_to(
                steps[i],
                amounts[i],
                times[i],
                steps[i + 1].agent,
            ),
        forall|i: int|
            0 <= i < times.len() ==> #[trigger] times[i] <= steps[0].agent.current_period_start
                + steps[0].agent.period_duration,
    ensures
        steps.last().agent.current_period_spend == steps[0].agent.current_period_spend
            + total_of(amounts),
        total_of(amounts) <= steps.last().agent.spending_limit,
{
    let n = amounts.len() as int;
    lemma_spend_accumulates(steps, amounts, times, n);
    assert(amounts.take(n) =~= amounts);
}

/// After the k-th of those withdrawals the period is unchanged and its spend
/// is the starting spend plus the first k amounts.
proof fn lemma_spend_accumulates(steps: Seq<Withdraw>, amounts: Seq<u64>, times: Seq<i64>, k: int)
    requires
        steps.len() == amounts.len() + 1,
        times.len() == amounts.len(),
        forall|i: int|
            0 <= i < amounts.len() ==> #[trigger] withdraws_to(
                steps[i],
                amounts[i],
                times[i],
                steps[i + 1].agent,
            ),
        forall|i: int|
            0 <= i < times.len() ==> #[trigger] times[i] <= steps[0].agent.current_period_start
                + steps[0].agent.period_duration,
        0 <= k <= amounts.len(),
    ensures
        steps[k].agent.current_period_start == steps[0].agent.current_period_start,
        steps[k].agent.period_duration == steps[0].agent.period_duration,
        steps[k].agent.spending_limit == steps[0].agent.spending_limit,
        steps[k].agent.current_period_spend == steps[0].agent.current_period_spend + total_of(
            amounts.take(k),
        ),
        k >= 1 ==> steps[k].agent.current_period_spend <= steps[k].agent.spending_limit,
    decreases k,
{
    if k == 0 {
        assert(amounts.take(0) =~= Seq::<u64>::empty());
    } else {
        let j = k - 1;
        lemma_spend_accumulates(steps, amounts, times, j);
        assert(withdraws_to(steps[j], amounts[j], times[j], steps[j + 1].agent));
        assert(times[j] <= steps[0].agent.current_period_start + steps[0].agent.period_duration);
        assert(!period_elapsed(steps[j].agent, times[j]));
        assert(amounts.take(k).drop_last() =~= amounts.take(j));
        assert(amounts.take(k).last() == amounts[j]);
        assert(total_of(amounts.take(k)) == total_of(amounts.take(j)) + amounts[j]);
    }
}

} // verus!
