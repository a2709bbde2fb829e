use vstd::prelude::*;

verus! {

/// Every way in which an operation of the library can fail.
#[derive(Clone, Copy, Debug, PartialEq, Eq, Structural)]
pub enum BankError {
    SpendingLimitExceeded,
    InvalidAuthority,
    InsufficientFunds,
    IntentWouldExceedLimit,
    IntentInsufficientFunds,
    HookDisabled,
    HookConditionNotMet,
    InvalidPercentage,
    TooManyAdmins,
    InvalidThreshold,
    NotAdmin,
    InsufficientTreasuryFunds,
    ProposalNotPending,
    ProposalExpired,
    ProposalNotApproved,
    InvalidDestination,
    InvalidProtocol,
    Unauthorized,
    BankPaused,
    SuspiciousDestination,
    NeoShieldCheckFailed,
    LowReputationScore,
    UnauthorizedDelegate,
    DelegateExpired,
}

} // verus!
