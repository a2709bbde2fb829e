use vstd::prelude::*;
use crate::error::BankError;
use crate::events::YieldInteract;
use crate::pubkey::Pubkey;
use crate::state::{Agent, BankConfig, YieldProtocol, YieldStrategy};

verus! {

/// Stake-pool instruction tag that deposits lamports for pool tokens.
pub const DEPOSIT_SOL_TAG: u8 = 14;

/// Stake-pool instruction tag that burns pool tokens for lamports.
pub const WITHDRAW_SOL_TAG: u8 = 16;

/// One account that an instruction names, and how it may use it.
#[derive(Clone, Copy, Debug, PartialEq, Eq)]
pub struct AccountMeta {
    pub pubkey: Pubkey,
    pub is_signer: bool,
    pub is_writable: bool,
}

/// A call into another program, ready for the host to issue.
#[derive(Clone, Debug)]
pub struct Instruction {
    pub program_id: Pubkey,
    pub accounts: Vec<AccountMeta>,
    pub data: Vec<u8>,
}

/// An account the instruction may write.
pub open spec fn writable(key: Pubkey, is_signer: bool) -> AccountMeta {
    AccountMeta { pubkey: key, is_signer, is_writable: true }
}

/// An account the instruction only reads.
pub open spec fn readonly(key: Pubkey) -> AccountMeta {
    AccountMeta { pubkey: key, is_signer: false, is_writable: false }
}

fn writable_meta(key: Pubkey, is_signer: bool) -> (r: AccountMeta)
    ensures
        r == writable(key, is_signer),
{
    AccountMeta { pubkey: key, is_signer, is_writable: true }
}

fn readonly_meta(key: Pubkey) -> (r: AccountMeta)
    ensures
        r == readonly(key),
{
    AccountMeta { pubkey: key, is_signer: false, is_writable: false }
}

/// The eight bytes of `x`, least significant first.
pub open spec fn le_bytes_of(x: u64) -> Seq<u8> {
    seq![
        x as u8,
        (x >> 8u64) as u8,
        (x >> 16u64) as u8,
        (x >> 24u64) as u8,
        (x >> 32u64) as u8,
        (x >> 40u64) as u8,
        (x >> 48u64) as u8,
        (x >> 56u64) as u8,
    ]
}

/// An instruction's data: its tag, then the amount in little-endian order.
pub open spec fn instruction_data(tag: u8, amount: u64) -> Seq<u8> {
    seq![tag] + le_bytes_of(amount)
}

/// The data of a stake-pool instruction with `tag` for `amount`.
pub fn encode_instruction_data(tag: u8, amount: u64) -> (r: Vec<u8>)
    ensures
        r@ == instruction_data(tag, amount),
{
    let r = vec![
        tag,
        amount as u8,
        (amount >> 8u64) as u8,
        (amount >> 16u64) as u8,
        (amount >> 24u64) as u8,
        (amount >> 32u64) as u8,
        (amount >> 40u64) as u8,
        (amount >> 48u64) as u8,
        (amount >> 56u64) as u8,
    ];
    assert(r@ =~= instruction_data(tag, amount));
    r
}

/// The records that a deposit into the stake pool reads.
#[derive(Clone, Debug)]
pub struct DeployToJito {
    /// The signer; must own the agent.
    pub authority: Pubkey,
    pub agent: Agent,
    /// Address of the agent record.
    pub agent_key: Pubkey,
    pub config: BankConfig,
    pub vault: Pubkey,
    pub vault_balance: u64,
    pub yield_strategy: YieldStrategy,
    pub jito_program: Pubkey,
    pub stake_pool: Pubkey,
    pub pool_withdraw_authority: Pubkey,
    pub reserve_stake: Pubkey,
    pub manager_fee: Pubkey,
    pub destination_pool_account: Pubkey,
    pub pool_mint: Pubkey,
    pub system_program: Pubkey,
    pub token_program: Pubkey,
}

/// The accounts of a deposit, in the order the stake pool reads them; the
/// vault signs.
pub open spec fn deploy_accounts(c: DeployToJito) -> Seq<AccountMeta> {
    seq![
        writable(c.stake_pool, false),
        writable(c.pool_withdraw_authority, false),
        writable(c.reserve_stake, false),
        writable(c.vault, true),
        writable(c.manager_fee, false),
        writable(c.destination_pool_account, false),
        writable(c.pool_mint, false),
        readonly(c.system_program),
        readonly(c.token_program),
    ]
}

/// Why the stake pool may not be used for this agent, if it may not: the
/// owner must sign, and the strategy must be the agent's and name the pool.
pub open spec fn stake_pool_error(
    authority: Pubkey,
    agent: Agent,
    agent_key: Pubkey,
    strategy: YieldStrategy,
) -> Option<BankError> {
    if authority@ != agent.owner@ || strategy.agent@ != agent_key@ {
        Some(BankError::InvalidAuthority)
    } else if strategy.protocol != YieldProtocol::JitoSOL {
        Some(BankError::InvalidProtocol)
    } else {
        None
    }
}

fn check_stake_pool_use(
    authority: &Pubkey,
    agent: &Agent,
    agent_key: &Pubkey,
    strategy: &YieldStrategy,
) -> (r: Result<(), BankError>)
    ensures
        r == (match stake_pool_error(*authority, *agent, *agent_key, *strategy) {
            Some(e) => Err::<(), BankError>(e),
            None => Ok(()),
        }),
{
    if *authority != agent.owner || strategy.agent != *agent_key {
        Err(BankError::InvalidAuthority)
    } else if strategy.protocol != YieldProtocol::JitoSOL {
        Err(BankError::InvalidProtocol)
    } else {
        Ok(())
    }
}

/// The stake-pool deposit of `amount` lamports from the vault, and its
/// event. Fails as `stake_pool_error` says, then with `InsufficientFunds`
/// when the vault holds less than the amount, then with `BankPaused` when
/// the bank is paused.
pub fn deploy_to_jito_handler(ctx: &DeployToJito, amount: u64, now: i64) -> (r: Result<
    (Instruction, YieldInteract),
    BankError,
>)
    ensures
        ({
            let e = stake_pool_error(
                ctx.authority,
                ctx.agent,
                ctx.agent_key,
                ctx.yield_strategy,
            );
            &&& e matches Some(err) ==> r == Err::<(Instruction, YieldInteract), BankError>(err)
            &&& e is None && ctx.vault_balance < amount ==> r == Err::<
                (Instruction, YieldInteract),
                BankError,
            >(BankError::InsufficientFunds)
            &&& e is None && ctx.vault_balance >= amount && ctx.config.paused ==> r == Err::<
                (Instruction, YieldInteract),
                BankError,
            >(BankError::BankPaused)
            &&& r is Ok <==> e is None && ctx.vault_balance >= amount && !ctx.config.paused
        }),
        r matches Ok((ix, ev)) ==> {
            &&& ix.program_id == ctx.jito_program
            &&& ix.accounts@ == deploy_accounts(*ctx)
            &&& ix.data@ == instruction_data(DEPOSIT_SOL_TAG, amount)
            &&& ev.agent == ctx.agent_key
            &&& ev.protocol == YieldProtocol::JitoSOL
            &&& ev.action@ == "deposit"@
            &&& ev.amount == amount
            &&& ev.timestamp == now
        },
{
    if let Err(e) = check_stake_pool_use(
        &ctx.authority,
        &ctx.agent,
        &ctx.agent_key,
        &ctx.yield_strategy,
    ) {
        return Err(e);
    }
    if ctx.vault_balance < amount {
        return Err(BankError::InsufficientFunds);
    }
    if ctx.config.paused {
        return Err(BankError::BankPaused);
    }
    let accounts = vec![
        writable_meta(ctx.stake_pool, false),
        writable_meta(ctx.pool_withdraw_authority, false),
        writable_meta(ctx.reserve_stake, false),
        writable_meta(ctx.vault, true),
        writable_meta(ctx.manager_fee, false),
        writable_meta(ctx.destination_pool_account, false),
        writable_meta(ctx.pool_mint, false),
        readonly_meta(ctx.system_program),
        readonly_meta(ctx.token_program),
    ];
    assert(accounts@ =~= deploy_accounts(*ctx));
    let ix = Instruction {
        program_id: ctx.jito_program,
        accounts,
        data: encode_instruction_data(DEPOSIT_SOL_TAG, amount),
    };
    let ev = YieldInteract {
        agent: ctx.agent_key,
        protocol: YieldProtocol::JitoSOL,
        action: "deposit".to_owned(),
        amount,
        timestamp: now,
    };
    Ok((ix, ev))
}

/// The records that a withdrawal from the stake pool reads.
#[derive(Clone, Debug)]
pub struct WithdrawFromJito {
    /// The signer; must own the agent.
    pub authority: Pubkey,
    pub agent: Agent,
    /// Address of the agent record.
    pub agent_key: Pubkey,
    pub config: BankConfig,
    pub vault: Pubkey,
    pub yield_strategy: YieldStrategy,
    pub jito_program: Pubkey,
    pub stake_pool: Pubkey,
    pub pool_withdraw_authority: Pubkey,
    pub vault_jito_account: Pubkey,
    pub reserve_stake: Pubkey,
    pub manager_fee: Pubkey,
    pub pool_mint: Pubkey,
    pub clock: Pubkey,
    pub stake_history: Pubkey,
    pub stake_program: Pubkey,
    pub token_program: Pubkey,
}

/// The accounts of a withdrawal, in the order the stake pool reads them;
/// the vault signs for its pool tokens and receives the lamports.
pub open spec fn withdraw_accounts(c: WithdrawFromJito) -> Seq<AccountMeta> {
    seq![
        writable(c.stake_pool, false),
        writable(c.pool_withdraw_authority, false),
        writable(c.vault, true),
        writable(c.vault_jito_account, false),
        writable(c.reserve_stake, false),
        writable(c.vault, false),
        writable(c.manager_fee, false),
        writable(c.pool_mint, false),
        readonly(c.clock),
        readonly(c.stake_history),
        readonly(c.stake_program),
        readonly(c.token_program),
    ]
}

/// The stake-pool withdrawal of `amount` lamports back into the vault, and
/// its event. Fails as `stake_pool_error` says, then with `BankPaused` when
/// the bank is paused.
pub fn withdraw_from_jito_handler(ctx: &WithdrawFromJito, amount: u64, now: i64) -> (r: Result<
    (Instruction, YieldInteract),
    BankError,
>)
    ensures
        ({
            let e = stake_pool_error(
                ctx.authority,
                ctx.agent,
                ctx.agent_key,
                ctx.yield_strategy,
            );
            &&& e matches Some(err) ==> r == Err::<(Instruction, YieldInteract), BankError>(err)
            &&& e is None && ctx.config.paused ==> r == Err::<
                (Instruction, YieldInteract),
                BankError,
            >(BankError::BankPaused)
            &&& r is Ok <==> e is None && !ctx.config.paused
        }),
        r matches Ok((ix, ev)) ==> {
            &&& ix.program_id == ctx.jito_program
            &&& ix.accounts@ == withdraw_accounts(*ctx)
            &&& ix.data@ == instruction_data(WITHDRAW_SOL_TAG, amount)
            &&& ev.agent == ctx.agent_key
            &&& ev.protocol == YieldProtocol::JitoSOL
            &&& ev.action@ == "withdraw"@
            &&& ev.amount == amount
            &&& ev.timestamp == now
        },
{
    if let Err(e) = check_stake_pool_use(
        &ctx.authority,
        &ctx.agent,
        &ctx.agent_key,
        &ctx.yield_strategy,
    ) {
        return Err(e);
    }
    if ctx.config.paused {
        return Err(BankError::BankPaused);
    }
    let accounts = vec![
        writable_meta(ctx.stake_pool, false),
        writable_meta(ctx.pool_withdraw_authority, false),
        writable_meta(ctx.vault, true),
        writable_meta(ctx.vault_jito_account, false),
        writable_meta(ctx.reserve_stake, false),
        writable_meta(ctx.vault, false),
        writable_meta(ctx.manager_fee, false),
        writable_meta(ctx.pool_mint, false),
        readonly_meta(ctx.clock),
        readonly_meta(ctx.stake_history),
        readonly_meta(ctx.stake_program),
        readonly_meta(ctx.token_program),
    ];
    assert(accounts@ =~= withdraw_accounts(*ctx));
    let ix = Instruction {
        program_id: ctx.jito_program,
        accounts,
        data: encode_instruction_data(WITHDRAW_SOL_TAG, amount),
    };
    let ev = YieldInteract {
        agent: ctx.agent_key,
        protocol: YieldProtocol::JitoSOL,
        action: "withdraw".to_owned(),
        amount,
        timestamp: now,
    };
    Ok((ix, ev))
}

} // verus!
