use vstd::prelude::*;
use crate::error::BankError;
use crate::pubkey::Pubkey;
use crate::security::destination_blocked;
use crate::circuit_breaker::breaker_trips;
use crate::state::Agent;
use crate::withdraw::{period_has_elapsed, roll_period, spend_authority_error, withdraw_outcome, Withdraw};

verus! {

/// The records that a pre-flight check reads.
#[derive(Clone, Debug)]
pub struct ValidateIntent {
    pub requester: Pubkey,
    pub agent: Agent,
    pub vault_balance: u64,
}

/// A withdrawal that an agent means to make.
#[derive(Clone, Debug)]
pub struct TransactionIntent {
    pub amount: u64,
    /// What the withdrawal is for.
    pub memo: String,
    /// When it is meant to run; the current time when absent.
    pub execution_time: Option<i64>,
}

/// How a withdrawal would fare, and the agent's period as it would then
/// stand.
#[derive(Clone, Copy, Debug, PartialEq, Eq, Structural)]
pub struct IntentValidation {
    pub valid: bool,
    /// What is left of the limit in the period, before this withdrawal.
    pub remaining_limit: u64,
    pub vault_balance: u64,
    pub current_period_spend: u64,
    /// When the period runs out; the largest time when that lies beyond.
    pub period_resets_at: i64,
    /// Why the withdrawal would fail, when it would.
    pub reason: Option<BankError>,
}

/// `x`, or the nearest end of the `i64` range when it lies outside.
pub open spec fn clamp_i64(x: int) -> i64 {
    if x > i64::MAX {
        i64::MAX
    } else if x < i64::MIN {
        i64::MIN
    } else {
        x as i64
    }
}

/// The time at which an intent is checked.
pub open spec fn check_time_of(execution_time: Option<i64>, now: i64) -> i64 {
    match execution_time {
        Some(t) => t,
        None => now,
    }
}

/// The spending-limit and balance checks of a withdrawal of `amount` at
/// time `at`, with the period rolled over first when it has run out.
pub open spec fn intent_report(agent: Agent, vault_balance: u64, amount: u64, at: i64) -> IntentValidation {
    let a = roll_period(agent, at);
    let reason = if a.current_period_spend + amount > a.spending_limit {
        Some(BankError::IntentWouldExceedLimit)
    } else if amount > vault_balance {
        Some(BankError::IntentInsufficientFunds)
    } else {
        None
    };
    IntentValidation {
        valid: reason is None,
        remaining_limit: a.spending_limit.saturating_sub(a.current_period_spend),
        vault_balance,
        current_period_spend: a.current_period_spend,
        period_resets_at: clamp_i64(a.current_period_start + a.period_duration),
        reason,
    }
}

/// Runs the spending-limit and balance checks of a withdrawal of `amount`
/// at time `at`, without changing anything.
pub fn evaluate_intent(agent: &Agent, vault_balance: u64, amount: u64, at: i64) -> (r: IntentValidation)
    ensures
        r == intent_report(*agent, vault_balance, amount, at),
{
    let elapsed = period_has_elapsed(agent, at);
    let start: i64 = if elapsed {
        at
    } else {
        agent.current_period_start
    };
    let spent: u64 = if elapsed {
        0
    } else {
        agent.current_period_spend
    };
    let reason = if (spent as u128) + (amount as u128) > (agent.spending_limit as u128) {
        Some(BankError::IntentWouldExceedLimit)
    } else if amount > vault_balance {
        Some(BankError::IntentInsufficientFunds)
    } else {
        None
    };
    let end = (start as i128) + (agent.period_duration as i128);
    let period_resets_at: i64 = if end > i64::MAX as i128 {
        i64::MAX
    } else if end < i64::MIN as i128 {
        i64::MIN
    } else {
        end as i64
    };
    IntentValidation {
        valid: reason.is_none(),
        remaining_limit: agent.spending_limit.saturating_sub(spent),
        vault_balance,
        current_period_spend: spent,
        period_resets_at,
        reason,
    }
}

/// Checks ahead of time whether a withdrawal of the intent's amount would
/// pass the spending-limit and balance checks at its execution time (now,
/// when it has none), and reports the period as it would then stand. When
/// it would not pass, the report is marked invalid and names the failing
/// check (`IntentWouldExceedLimit` before `IntentInsufficientFunds`).
/// Changes nothing.
pub fn validate_intent_handler(ctx: &ValidateIntent, intent: TransactionIntent, now: i64) -> (r:
    IntentValidation)
    ensures
        r == intent_report(
            ctx.agent,
            ctx.vault_balance,
            intent.amount,
            check_time_of(intent.execution_time, now),
        ),
        r.valid <==> r.reason is None,
{
    let at: i64 = match intent.execution_time {
        Some(t) => t,
        None => now,
    };
    evaluate_intent(&ctx.agent, ctx.vault_balance, intent.amount, at)
}

/// A pre-flight check at the time of a withdrawal predicts it: when the
/// withdrawal gets past the pause, authority, screening and breaker checks,
/// it succeeds exactly when the intent is valid, and otherwise fails on the
/// matching limit or funds check.
pub proof fn lemma_intent_predicts_withdrawal(c: Withdraw, amount: u64, now: i64)
    requires
        !c.config.paused,
        spend_authority_error(c, now) is None,
        !destination_blocked(c.destination@),
        !breaker_trips(c.config),
    ensures
        ({
            let rep = intent_report(c.agent, c.vault_balance, amount, now);
            let r = withdraw_outcome(c, amount, now).1;
            &&& rep.valid <==> r is Ok
            &&& rep.reason == Some(BankError::IntentWouldExceedLimit) ==> r == Err::<
                crate::events::Withdrawal,
                BankError,
            >(BankError::SpendingLimitExceeded)
            &&& rep.reason == Some(BankError::IntentInsufficientFunds) ==> r == Err::<
                crate::events::Withdrawal,
                BankError,
            >(BankError::InsufficientFunds)
        }),
{
}

} // verus!
