use vstd::prelude::*;
use vstd::string::StrSliceExecFns;
use crate::error::BankError;
use crate::pubkey::{zero_address, Pubkey};
use crate::state::BankConfig;

verus! {

/// Most admins that the registry holds.
pub const MAX_ADMINS: usize = 5;

/// Seconds from a proposal's creation to its expiry: three days.
pub const PROPOSAL_LIFETIME: i64 = 259_200;

/// Most characters of a proposal's memo that are kept.
pub const MAX_MEMO_CHARS: usize = 64;

/// Where a proposal stands.
#[derive(Clone, Copy, Debug, PartialEq, Eq, Structural)]
pub enum ProposalStatus {
    Pending,
    Approved,
    Rejected,
    Executed,
    Expired,
}

/// A request to pay `amount` from the treasury to `destination`.
#[derive(Clone, Debug)]
pub struct TreasuryProposal {
    pub id: u64,
    pub proposer: Pubkey,
    pub destination: Pubkey,
    pub amount: u64,
    pub memo: String,
    pub status: ProposalStatus,
    pub votes_for: u8,
    pub votes_against: u8,
    pub created_at: i64,
    pub expires_at: i64,
    pub executed_at: Option<i64>,
}

/// The admins who govern the treasury, and how many of them must approve.
#[derive(Clone, Copy, Debug)]
pub struct AdminRegistry {
    /// The first `admin_count` entries are the admins; the rest are zero.
    pub admins: [Pubkey; 5],
    pub admin_count: u8,
    /// Votes for that approve a proposal.
    pub threshold: u8,
    /// Proposals created so far; the next one gets this number as its id.
    pub proposal_count: u64,
}

impl AdminRegistry {
    /// At most five admins, and a threshold from one to their number.
    pub open spec fn wf(&self) -> bool {
        &&& self.admin_count <= MAX_ADMINS
        &&& 1 <= self.threshold <= self.admin_count
    }

    /// `key` is one of the admins.
    pub open spec fn has_admin(&self, key: Seq<u8>) -> bool {
        exists|i: int| 0 <= i < self.admin_count && (#[trigger] self.admins@[i])@ == key
    }

    /// Whether `key` is one of the admins.
    pub fn is_admin(&self, key: &Pubkey) -> (r: bool)
        requires
            self.admin_count <= MAX_ADMINS,
        ensures
            r == self.has_admin(key@),
    {
        let count = self.admin_count as usize;
        let mut i: usize = 0;
        while i < count
            invariant
                i <= count,
                count == self.admin_count,
                count <= MAX_ADMINS,
                forall|j: int| 0 <= j < i ==> (#[trigger] self.admins@[j])@ != key@,
            decreases count - i,
        {
            if self.admins[i] == *key {
                assert(self.admins@[i as int]@ == key@);
                return true;
            }
            i = i + 1;
        }
        false
    }
}

/// The records that setting up governance reads.
#[derive(Clone, Copy, Debug)]
pub struct InitializeGovernance {
    /// The signer; must be the bank's admin.
    pub authority: Pubkey,
    pub config: BankConfig,
}

/// Creates the admin registry from up to five admins and a threshold from
/// one to their number. Fails with `InvalidAuthority` unless the bank's
/// admin signs, then with `TooManyAdmins`, then with `InvalidThreshold`.
pub fn initialize_governance_handler(
    ctx: &InitializeGovernance,
    initial_admins: Vec<Pubkey>,
    threshold: u8,
) -> (r: Result<AdminRegistry, BankError>)
    ensures
        ctx.authority@ != ctx.config.admin@ ==> r == Err::<AdminRegistry, BankError>(
            BankError::InvalidAuthority,
        ),
        ctx.authority@ == ctx.config.admin@ && initial_admins@.len() > MAX_ADMINS ==> r == Err::<
            AdminRegistry,
            BankError,
        >(BankError::TooManyAdmins),
        ctx.authority@ == ctx.config.admin@ && initial_admins@.len() <= MAX_ADMINS && (threshold
            == 0 || threshold > initial_admins@.len()) ==> r == Err::<AdminRegistry, BankError>(
            BankError::InvalidThreshold,
        ),
        r is Ok <==> ctx.authority@ == ctx.config.admin@ && initial_admins@.len() <= MAX_ADMINS
            && 1 <= threshold <= initial_admins@.len(),
        r matches Ok(reg) ==> {
            &&& reg.wf()
            &&& reg.admin_count == initial_admins@.len()
            &&& reg.threshold == threshold
            &&& reg.proposal_count == 0
            &&& forall|i: int| 0 <= i < initial_admins@.len() ==> reg.admins@[i] == initial_admins@[i]
            &&& forall|i: int|
                initial_admins@.len() <= i < MAX_ADMINS ==> reg.admins@[i]@ == zero_address()
        },
{
    if ctx.authority != ctx.config.admin {
        return Err(BankError::InvalidAuthority);
    }
    let count = initial_admins.len();
    if count > MAX_ADMINS {
        return Err(BankError::TooManyAdmins);
    }
    if threshold == 0 || threshold as usize > count {
        return Err(BankError::InvalidThreshold);
    }
    let z = Pubkey::zeroed();
    let mut admins: [Pubkey; 5] = [z, z, z, z, z];
    let mut i: usize = 0;
    while i < count
        invariant
            i <= count,
            count == initial_admins@.len(),
            count <= MAX_ADMINS,
            admins@.len() == MAX_ADMINS,
            forall|j: int| 0 <= j < i ==> admins@[j] == initial_admins@[j],
            forall|j: int| i <= j < MAX_ADMINS ==> admins@[j] == z,
        decreases count - i,
    {
        admins[i] = initial_admins[i];
        i = i + 1;
    }
    Ok(AdminRegistry { admins, admin_count: count as u8, threshold, proposal_count: 0 })
}

/// A memo cut down to its first `MAX_MEMO_CHARS` characters.
pub open spec fn clip_memo(memo: Seq<char>) -> Seq<char> {
    if memo.len() <= MAX_MEMO_CHARS {
        memo
    } else {
        memo.take(MAX_MEMO_CHARS as int)
    }
}

/// The records that creating a proposal reads and changes.
#[derive(Clone, Copy, Debug)]
pub struct CreateProposal {
    /// The signer; must be an admin.
    pub proposer: Pubkey,
    pub admin_registry: AdminRegistry,
    pub treasury_balance: u64,
}

/// Opens a proposal to pay `amount` to `destination`, with the proposer's
/// vote already counted for it and three days to run. Only an admin may
/// propose (else `NotAdmin`), and the treasury must hold the amount now
/// (else `InsufficientTreasuryFunds`); a failure changes nothing.
pub fn create_proposal_handler(
    ctx: &mut CreateProposal,
    destination: Pubkey,
    amount: u64,
    memo: String,
    now: i64,
) -> (r: Result<TreasuryProposal, BankError>)
    requires
        old(ctx).admin_registry.admin_count <= MAX_ADMINS,
        old(ctx).admin_registry.proposal_count < u64::MAX,
        now + PROPOSAL_LIFETIME <= i64::MAX,
    ensures
        !old(ctx).admin_registry.has_admin(old(ctx).proposer@) ==> r == Err::<
            TreasuryProposal,
            BankError,
        >(BankError::NotAdmin),
        old(ctx).admin_registry.has_admin(old(ctx).proposer@) && old(ctx).treasury_balance < amount
            ==> r == Err::<TreasuryProposal, BankError>(BankError::InsufficientTreasuryFunds),
        r is Ok <==> old(ctx).admin_registry.has_admin(old(ctx).proposer@)
            && old(ctx).treasury_balance >= amount,
        r is Err ==> *final(ctx) == *old(ctx),
        r matches Ok(p) ==> {
            &&& *final(ctx) == (CreateProposal {
                admin_registry: AdminRegistry {
                    proposal_count: (old(ctx).admin_registry.proposal_count + 1) as u64,
                    ..old(ctx).admin_registry
                },
                ..*old(ctx)
            })
            &&& p.id == old(ctx).admin_registry.proposal_count
            &&& p.proposer == old(ctx).proposer
            &&& p.destination == destination
            &&& p.amount == amount
            &&& p.memo@ == clip_memo(memo@)
            &&& p.status == ProposalStatus::Pending
            &&& p.votes_for == 1
            &&& p.votes_against == 0
            &&& p.created_at == now
            &&& p.expires_at == now + PROPOSAL_LIFETIME
            &&& p.executed_at == None::<i64>
        },
{
    if !ctx.admin_registry.is_admin(&ctx.proposer) {
        return Err(BankError::NotAdmin);
    }
    if ctx.treasury_balance < amount {
        return Err(BankError::InsufficientTreasuryFunds);
    }
    let chars = memo.as_str().unicode_len();
    let memo = if chars <= MAX_MEMO_CHARS {
        memo
    } else {
        memo.as_str().substring_char(0, MAX_MEMO_CHARS).to_owned()
    };
    let id = ctx.admin_registry.proposal_count;
    ctx.admin_registry.proposal_count = id + 1;
    Ok(
        TreasuryProposal {
            id,
            proposer: ctx.proposer,
            destination,
            amount,
            memo,
            status: ProposalStatus::Pending,
            votes_for: 1,
            votes_against: 0,
            created_at: now,
            expires_at: now + PROPOSAL_LIFETIME,
            executed_at: None,
        },
    )
}

/// The records that a vote reads and changes.
#[derive(Clone, Debug)]
pub struct VoteProposal {
    /// The signer; must be an admin.
    pub voter: Pubkey,
    pub admin_registry: AdminRegistry,
    pub proposal: TreasuryProposal,
}

/// A pending proposal with one more vote counted, then settled: approved
/// once the votes for reach the threshold, else rejected once the votes
/// against leave too few admins to reach it. A count stops at its largest
/// value.
pub open spec fn tally(p: TreasuryProposal, reg: AdminRegistry, approve: bool) -> TreasuryProposal {
    let votes_for = if approve {
        p.votes_for.saturating_add(1)
    } else {
        p.votes_for
    };
    let votes_against = if approve {
        p.votes_against
    } else {
        p.votes_against.saturating_add(1)
    };
    let status = if votes_for >= reg.threshold {
        ProposalStatus::Approved
    } else if votes_against > reg.admin_count - reg.threshold {
        ProposalStatus::Rejected
    } else {
        ProposalStatus::Pending
    };
    TreasuryProposal { votes_for, votes_against, status, ..p }
}

/// What a vote at `now` leaves behind and returns. The voter must be an
/// admin, then the proposal pending. A vote after expiry marks the proposal
/// expired and fails; the mark stays.
pub open spec fn vote_outcome(c: VoteProposal, approve: bool, now: i64) -> (
    VoteProposal,
    Result<(), BankError>,
) {
    if !c.admin_registry.has_admin(c.voter@) {
        (c, Err(BankError::NotAdmin))
    } else if c.proposal.status != ProposalStatus::Pending {
        (c, Err(BankError::ProposalNotPending))
    } else if now > c.proposal.expires_at {
        (
            VoteProposal {
                proposal: TreasuryProposal { status: ProposalStatus::Expired, ..c.proposal },
                ..c
            },
            Err(BankError::ProposalExpired),
        )
    } else {
        (VoteProposal { proposal: tally(c.proposal, c.admin_registry, approve), ..c }, Ok(()))
    }
}

/// Casts one admin's vote on the proposal numbered `proposal_id`, which is
/// the one in `ctx`. See `vote_outcome`.
pub fn vote_proposal_handler(ctx: &mut VoteProposal, proposal_id: u64, approve: bool, now: i64) -> (r:
    Result<(), BankError>)
    requires
        old(ctx).admin_registry.wf(),
        old(ctx).proposal.id == proposal_id,
    ensures
        (*final(ctx), r) == vote_outcome(*old(ctx), approve, now),
{
    if !ctx.admin_registry.is_admin(&ctx.voter) {
        return Err(BankError::NotAdmin);
    }
    if ctx.proposal.status != ProposalStatus::Pending {
        return Err(BankError::ProposalNotPending);
    }
    if now > ctx.proposal.expires_at {
        ctx.proposal.status = ProposalStatus::Expired;
        return Err(BankError::ProposalExpired);
    }
    if approve {
        ctx.proposal.votes_for = ctx.proposal.votes_for.saturating_add(1);
    } else {
        ctx.proposal.votes_against = ctx.proposal.votes_against.saturating_add(1);
    }
    if ctx.proposal.votes_for >= ctx.admin_registry.threshold {
        ctx.proposal.status = ProposalStatus::Approved;
    } else if ctx.proposal.votes_against > ctx.admin_registry.admin_count
        - ctx.admin_registry.threshold {
        ctx.proposal.status = ProposalStatus::Rejected;
    }
    Ok(())
}

/// The records that executing a proposal reads and changes.
#[derive(Clone, Debug)]
pub struct ExecuteProposal {
    /// The signer; anyone may execute.
    pub executor: Pubkey,
    pub config: BankConfig,
    pub proposal: TreasuryProposal,
    pub treasury_balance: u64,
    pub destination: Pubkey,
    pub destination_balance: u64,
}

/// What executing at `now` leaves behind and returns: with an approved
/// proposal, its own destination, the amount in the treasury and the bank
/// not paused, the amount moves and the proposal is executed; the first
/// check that fails, in that order, decides the error and nothing changes.
pub open spec fn execute_outcome(c: ExecuteProposal, now: i64) -> (
    ExecuteProposal,
    Result<(), BankError>,
) {
    if c.proposal.status != ProposalStatus::Approved {
        (c, Err(BankError::ProposalNotApproved))
    } else if c.destination@ != c.proposal.destination@ {
        (c, Err(BankError::InvalidDestination))
    } else if c.treasury_balance < c.proposal.amount {
        (c, Err(BankError::InsufficientTreasuryFunds))
    } else if c.config.paused {
        (c, Err(BankError::BankPaused))
    } else {
        (
            ExecuteProposal {
                proposal: TreasuryProposal {
                    status: ProposalStatus::Executed,
                    executed_at: Some(now),
                    ..c.proposal
                },
                treasury_balance: (c.treasury_balance - c.proposal.amount) as u64,
                destination_balance: (c.destination_balance + c.proposal.amount) as u64,
                ..c
            },
            Ok(()),
        )
    }
}

/// Pays out the approved proposal numbered `proposal_id`, which is the one
/// in `ctx`. See `execute_outcome`.
pub fn execute_proposal_handler(ctx: &mut ExecuteProposal, proposal_id: u64, now: i64) -> (r:
    Result<(), BankError>)
    requires
        old(ctx).proposal.id == proposal_id,
        old(ctx).treasury_balance + old(ctx).destination_balance <= u64::MAX,
    ensures
        (*final(ctx), r) == execute_outcome(*old(ctx), now),
{
    if ctx.proposal.status != ProposalStatus::Approved {
        return Err(BankError::ProposalNotApproved);
    }
    if ctx.destination != ctx.proposal.destination {
        return Err(BankError::InvalidDestination);
    }
    if ctx.treasury_balance < ctx.proposal.amount {
        return Err(BankError::InsufficientTreasuryFunds);
    }
    if ctx.config.paused {
        return Err(BankError::BankPaused);
    }
    ctx.treasury_balance = ctx.treasury_balance - ctx.proposal.amount;
    ctx.destination_balance = ctx.destination_balance + ctx.proposal.amount;
    ctx.proposal.status = ProposalStatus::Executed;
    ctx.proposal.executed_at = Some(now);
    Ok(())
}

/// A vote approves a proposal only when the votes for have reached the
/// threshold; a proposal is executed only when it was approved; and once
/// executed it cannot be executed again: a later execution of it fails with
/// `ProposalNotApproved` and changes nothing, whatever else it holds.
pub proof fn lemma_approval_gates_execution(
    vote: VoteProposal,
    approve: bool,
    vote_time: i64,
    exec: ExecuteProposal,
    exec_time: i64,
    again: ExecuteProposal,
    again_time: i64,
)
    ensures
        vote.proposal.status != ProposalStatus::Approved && vote_outcome(
            vote,
            approve,
            vote_time,
        ).0.proposal.status == ProposalStatus::Approved ==> vote_outcome(
            vote,
            approve,
            vote_time,
        ).0.proposal.votes_for >= vote.admin_registry.threshold,
        execute_outcome(exec, exec_time).1 is Ok ==> exec.proposal.status
            == ProposalStatus::Approved,
        execute_outcome(exec, exec_time).1 is Ok ==> execute_outcome(
            exec,
            exec_time,
        ).0.proposal.status == ProposalStatus::Executed,
        execute_outcome(exec, exec_time).1 is Ok && again.proposal == execute_outcome(
            exec,
            exec_time,
        ).0.proposal ==> execute_outcome(again, again_time) == (again, Err::<(), BankError>(
            BankError::ProposalNotApproved,
        )),
{
}


/// Where a status may lead: `Pending` to `Approved`, `Rejected` or
/// `Expired`, and `Approved` to `Executed`. A vote or an execution either
/// leaves the status as it was or takes one of these steps.
pub open spec fn status_step(before: ProposalStatus, after: ProposalStatus) -> bool {
    ||| before == after
    ||| before == ProposalStatus::Pending && after == ProposalStatus::Approved
    ||| before == ProposalStatus::Pending && after == ProposalStatus::Rejected
    ||| before == ProposalStatus::Pending && after == ProposalStatus::Expired
    ||| before == ProposalStatus::Approved && after == ProposalStatus::Executed
}

/// Votes and executions move a proposal's status only forward along
/// `status_step`, so no status is ever left and then reached again.
pub proof fn lemma_status_moves_forward(
    vote: VoteProposal,
    approve: bool,
    vote_time: i64,
    exec: ExecuteProposal,
    exec_time: i64,
)
    requires
        vote.admin_registry.wf(),
    ensures
        status_step(vote.proposal.status, vote_outcome(vote, approve, vote_time).0.proposal.status),
        status_step(exec.proposal.status, execute_outcome(exec, exec_time).0.proposal.status),
{
}

} // verus!
