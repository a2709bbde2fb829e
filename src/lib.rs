//! Custody vaults with rolling spending limits, delegated authority,
//! destination screening and an automatic circuit breaker, together with a
//! threshold-voting treasury and conditional yield hooks.
//!
//! Every operation takes the records it touches as plain values, together
//! with the host's clock reading, and returns the records as they stand
//! afterwards. Moving lamports, reading the clock and publishing events are
//! left to the host that runs the library.

mod accrue_yield;
mod agentic_hooks;
mod circuit_breaker;
mod delegate;
mod deposit;
mod emergency_pause;
mod error;
mod events;
mod initialize_bank;
mod pubkey;
mod register_agent;
mod security;
mod state;
mod treasury_governance;
mod validate_intent;
mod withdraw;
mod yield_cpi;

pub use accrue_yield::{accrue_yield_handler, AccrueYield};
pub use agentic_hooks::{
    check_hook_status_handler, configure_yield_strategy_handler, evaluate_condition,
    pending_yield, trigger_yield_hook_handler, CheckHookStatus, ConfigureYieldStrategy,
    HookReason, HookStatus, TriggerYieldHook, YIELD_DIVISOR, YIELD_RATE_PERCENT,
};
pub use circuit_breaker::{
    check_circuit_breaker, note_suspicious_activity, reset_security_counter_handler,
    update_auto_threshold_handler, ResetSecurityCounter, UpdateAutoThreshold,
};
pub use delegate::{add_delegate_handler, remove_delegate_handler, AddDelegate, RemoveDelegate};
pub use deposit::{deposit_handler, Deposit};
pub use emergency_pause::{
    require_not_paused, toggle_pause_handler, PauseReason, TogglePause, PAUSE_MAINTENANCE,
    PAUSE_NONE, PAUSE_SECURITY, PAUSE_UPGRADE,
};
pub use error::BankError;
pub use events::{DelegateAdded, DelegateRemoved, Withdrawal, YieldInteract};
pub use initialize_bank::{initialize_bank_handler, InitializeBank, DEFAULT_AUTO_PAUSE_THRESHOLD};
pub use pubkey::{Pubkey, PUBKEY_BYTES};
pub use register_agent::{handler, RegisterAgent};
pub use security::{
    should_block_transaction, validate_destination, ValidationResult, MAX_ACCEPTED_RISK,
    REASON_BLACKLISTED, REASON_SAFE, REASON_SUSPICIOUS_PATTERN,
};
pub use state::{
    Agent, BankConfig, Delegate, HookCondition, YieldProtocol, YieldStrategy, BPS_DENOMINATOR,
};
pub use treasury_governance::{
    create_proposal_handler, execute_proposal_handler, initialize_governance_handler,
    vote_proposal_handler, AdminRegistry, CreateProposal, ExecuteProposal, InitializeGovernance,
    ProposalStatus, TreasuryProposal, VoteProposal, MAX_ADMINS, MAX_MEMO_CHARS,
    PROPOSAL_LIFETIME,
};
pub use validate_intent::{
    evaluate_intent, validate_intent_handler, IntentValidation, TransactionIntent, ValidateIntent,
};
pub use withdraw::{period_has_elapsed, split_fee, withdraw_handler, Withdraw};
pub use yield_cpi::{
    deploy_to_jito_handler, encode_instruction_data, withdraw_from_jito_handler, AccountMeta,
    DeployToJito, Instruction, WithdrawFromJito, DEPOSIT_SOL_TAG, WITHDRAW_SOL_TAG,
};
