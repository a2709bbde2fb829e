use bank::{
    accrue_yield_handler, add_delegate_handler, check_hook_status_handler,
    configure_yield_strategy_handler, deploy_to_jito_handler, deposit_handler,
    encode_instruction_data, evaluate_intent, handler, initialize_bank_handler, pending_yield,
    remove_delegate_handler, reset_security_counter_handler, toggle_pause_handler,
    trigger_yield_hook_handler, update_auto_threshold_handler, validate_intent_handler,
    withdraw_from_jito_handler, AccrueYield, AddDelegate, Agent, BankConfig, BankError,
    CheckHookStatus, ConfigureYieldStrategy, DeployToJito, Deposit, HookCondition, HookReason,
    InitializeBank, PauseReason, Pubkey, RegisterAgent, RemoveDelegate, ResetSecurityCounter,
    TogglePause, TransactionIntent, TriggerYieldHook, UpdateAutoThreshold, ValidateIntent,
    WithdrawFromJito, YieldProtocol, YieldStrategy,
};

const NOW: i64 = 5_000_000;
const YEAR: i64 = 31_536_000;

fn key(b: u8) -> Pubkey {
    let mut bytes = [0u8; 32];
    bytes[0] = b;
    bytes[31] = 0x11;
    Pubkey::new_from_array(bytes)
}

fn config() -> BankConfig {
    initialize_bank_handler(&InitializeBank { admin: key(9) }, 25)
}

fn agent() -> Agent {
    let mut a = handler(&RegisterAgent { owner: key(1) }, "bot".to_string(), 5000, 86_400, NOW);
    a.staked_amount = 1_000_000_000;
    a.total_deposited = 1_250_000_000;
    a.last_yield_timestamp = NOW;
    a
}

fn strategy(condition: HookCondition, protocol: YieldProtocol, pct: u8) -> YieldStrategy {
    let ctx = ConfigureYieldStrategy { owner: key(1), agent: agent(), agent_key: key(2) };
    configure_yield_strategy_handler(&ctx, condition, protocol, pct, true).unwrap()
}

fn trigger_ctx(s: YieldStrategy) -> TriggerYieldHook {
    TriggerYieldHook { cranker: key(50), config: config(), agent: agent(), agent_key: key(2), yield_strategy: s }
}

#[test]
fn pending_yield_formula() {
    assert_eq!(pending_yield(1_000_000_000, YEAR as i128), 50_000_000);
    assert_eq!(pending_yield(1_000_000_000, 0), 0);
    assert_eq!(pending_yield(1_000_000_000, -5), 0);
    assert_eq!(pending_yield(100, 1), 0);
    assert_eq!(pending_yield(u64::MAX, u64::MAX as i128), 539_514_153_540_300_709_390_032_216_013);
}

#[test]
fn balance_hook_deploys_its_share() {
    let s = strategy(HookCondition::BalanceAbove { threshold: 1_000_000_000 }, YieldProtocol::Marinade, 40);
    let mut c = trigger_ctx(s);
    assert_eq!(trigger_yield_hook_handler(&mut c, NOW + 10).unwrap(), 400_000_000);
    assert_eq!(c.yield_strategy.trigger_count, 1);
    assert_eq!(c.yield_strategy.last_triggered, NOW + 10);
    let s = strategy(HookCondition::BalanceAbove { threshold: 1_000_000_001 }, YieldProtocol::Marinade, 40);
    let mut c = trigger_ctx(s);
    assert_eq!(trigger_yield_hook_handler(&mut c, NOW).unwrap_err(), BankError::HookConditionNotMet);
    assert_eq!(c.yield_strategy.trigger_count, 0);
}

#[test]
fn time_hook_waits_for_interval() {
    let s = strategy(HookCondition::TimeElapsed { interval: 600 }, YieldProtocol::Internal, 100);
    let mut c = trigger_ctx(s);
    c.yield_strategy.last_triggered = NOW;
    assert_eq!(trigger_yield_hook_handler(&mut c, NOW + 599).unwrap_err(), BankError::HookConditionNotMet);
    assert_eq!(trigger_yield_hook_handler(&mut c, NOW + 600).unwrap(), 1_000_000_000);
    assert_eq!(trigger_yield_hook_handler(&mut c, NOW + 601).unwrap_err(), BankError::HookConditionNotMet);
    assert_eq!(c.yield_strategy.trigger_count, 1);
}

#[test]
fn yield_hook_compares_pending_yield() {
    let s = strategy(HookCondition::YieldAbove { threshold: 50_000_000 }, YieldProtocol::Jupiter, 10);
    let mut c = trigger_ctx(s);
    assert_eq!(trigger_yield_hook_handler(&mut c, NOW + YEAR - 1).unwrap_err(), BankError::HookConditionNotMet);
    assert_eq!(trigger_yield_hook_handler(&mut c, NOW + YEAR).unwrap(), 100_000_000);
}

#[test]
fn disabled_paused_and_foreign_hooks() {
    let mut s = strategy(HookCondition::BalanceAbove { threshold: 0 }, YieldProtocol::Meteora, 10);
    s.enabled = false;
    let mut c = trigger_ctx(s);
    assert_eq!(trigger_yield_hook_handler(&mut c, NOW).unwrap_err(), BankError::HookDisabled);
    c.yield_strategy.enabled = true;
    c.config.paused = true;
    assert_eq!(trigger_yield_hook_handler(&mut c, NOW).unwrap_err(), BankError::BankPaused);
    c.yield_strategy.enabled = false;
    assert_eq!(trigger_yield_hook_handler(&mut c, NOW).unwrap_err(), BankError::HookDisabled);
    c.yield_strategy.enabled = true;
    c.yield_strategy.condition = HookCondition::BalanceAbove { threshold: u64::MAX };
    assert_eq!(trigger_yield_hook_handler(&mut c, NOW).unwrap_err(), BankError::HookConditionNotMet);
    assert_eq!(c.yield_strategy.trigger_count, 0);
    c.config.paused = false;
    c.agent_key = key(3);
    assert_eq!(trigger_yield_hook_handler(&mut c, NOW).unwrap_err(), BankError::InvalidAuthority);
}

#[test]
fn configure_checks_owner_and_percentage() {
    let ctx = ConfigureYieldStrategy { owner: key(1), agent: agent(), agent_key: key(2) };
    let cond = HookCondition::BalanceAbove { threshold: 1 };
    assert_eq!(
        configure_yield_strategy_handler(&ctx, cond, YieldProtocol::Internal, 101, true).unwrap_err(),
        BankError::InvalidPercentage
    );
    let s = configure_yield_strategy_handler(&ctx, cond, YieldProtocol::Internal, 100, false).unwrap();
    assert!(s.agent == key(2));
    assert!(!s.enabled);
    assert_eq!(s.trigger_count, 0);
    let stranger = ConfigureYieldStrategy { owner: key(7), agent: agent(), agent_key: key(2) };
    assert_eq!(
        configure_yield_strategy_handler(&stranger, cond, YieldProtocol::Internal, 10, true).unwrap_err(),
        BankError::InvalidAuthority
    );
}

#[test]
fn hook_status_reports_without_change() {
    let s = strategy(HookCondition::TimeElapsed { interval: 100 }, YieldProtocol::Internal, 10);
    let c = CheckHookStatus { agent: agent(), yield_strategy: s };
    let st = check_hook_status_handler(&c, 150);
    assert!(st.would_trigger);
    assert!(st.enabled);
    assert_eq!(st.reason, HookReason::Elapsed { elapsed: 150, interval: 100 });
    assert_eq!(st.trigger_count, 0);
    let s = strategy(HookCondition::YieldAbove { threshold: 1 }, YieldProtocol::Internal, 10);
    let c = CheckHookStatus { agent: agent(), yield_strategy: s };
    let st = check_hook_status_handler(&c, NOW + YEAR);
    assert_eq!(st.reason, HookReason::PendingYield { pending: 50_000_000, threshold: 1 });
}

#[test]
fn accrual_pays_from_treasury() {
    let mut c = AccrueYield { agent: agent(), config: config(), vault_balance: 1_000, treasury_balance: 80_000_000 };
    assert_eq!(accrue_yield_handler(&mut c, NOW + YEAR), 50_000_000);
    assert_eq!(c.treasury_balance, 30_000_000);
    assert_eq!(c.vault_balance, 50_001_000);
    assert_eq!(c.agent.staked_amount, 1_050_000_000);
    assert_eq!(c.agent.total_deposited, 1_300_000_000);
    assert_eq!(c.agent.last_yield_timestamp, NOW + YEAR);
    let mut low = AccrueYield { agent: agent(), config: config(), vault_balance: 0, treasury_balance: 7 };
    assert_eq!(accrue_yield_handler(&mut low, NOW + YEAR), 7);
    assert_eq!(low.treasury_balance, 0);
    let mut none = AccrueYield { agent: agent(), config: config(), vault_balance: 0, treasury_balance: 7 };
    assert_eq!(accrue_yield_handler(&mut none, NOW), 0);
    assert_eq!(none.agent.last_yield_timestamp, NOW);
}

#[test]
fn deposit_stakes_eight_tenths() {
    let mut a = agent();
    a.total_deposited = 0;
    a.staked_amount = 0;
    a.last_yield_timestamp = 0;
    let mut c = Deposit { owner: key(1), owner_balance: 1_000, agent: a, vault_balance: 0 };
    deposit_handler(&mut c, 999, NOW).unwrap();
    assert_eq!(c.agent.total_deposited, 999);
    assert_eq!(c.agent.staked_amount, 799);
    assert_eq!(c.agent.last_yield_timestamp, NOW);
    assert_eq!(c.vault_balance, 999);
    assert_eq!(c.owner_balance, 1);
    assert_eq!(deposit_handler(&mut c, 2, NOW + 1).unwrap_err(), BankError::InsufficientFunds);
    c.owner = key(8);
    assert_eq!(deposit_handler(&mut c, 1, NOW + 1).unwrap_err(), BankError::InvalidAuthority);
}

#[test]
fn intent_replays_limit_and_balance_checks() {
    let mut a = agent();
    a.current_period_spend = 4_000;
    let ctx = ValidateIntent { requester: key(1), agent: a, vault_balance: 2_000 };
    let ok = validate_intent_handler(
        &ctx,
        TransactionIntent { amount: 1_000, memo: "swap".to_string(), execution_time: None },
        NOW + 10,
    );
    assert!(ok.valid);
    assert_eq!(ok.reason, None);
    assert_eq!(ok.remaining_limit, 1_000);
    assert_eq!(ok.current_period_spend, 4_000);
    assert_eq!(ok.period_resets_at, NOW + 86_400);
    let over = TransactionIntent { amount: 1_001, memo: "swap".to_string(), execution_time: None };
    let rep = validate_intent_handler(&ctx, over, NOW + 10);
    assert!(!rep.valid);
    assert_eq!(rep.reason, Some(BankError::IntentWouldExceedLimit));
    assert_eq!(rep.remaining_limit, 1_000);
    assert_eq!(rep.current_period_spend, 4_000);
    assert_eq!(rep.vault_balance, 2_000);
    assert_eq!(rep.period_resets_at, NOW + 86_400);
    let later = TransactionIntent { amount: 3_000, memo: "swap".to_string(), execution_time: Some(NOW + 86_401) };
    let rep = validate_intent_handler(&ctx, later, NOW);
    assert!(!rep.valid);
    assert_eq!(rep.reason, Some(BankError::IntentInsufficientFunds));
    assert_eq!(rep.remaining_limit, 5_000);
    assert_eq!(rep.current_period_spend, 0);
    assert_eq!(rep.period_resets_at, NOW + 86_401 + 86_400);
    let report = evaluate_intent(&ctx.agent, 2_000, 1_500, NOW + 86_401);
    assert!(report.valid);
    assert_eq!(report.remaining_limit, 5_000);
    assert_eq!(report.period_resets_at, NOW + 86_401 + 86_400);
    let mut far = agent();
    far.current_period_start = i64::MAX - 10;
    assert_eq!(evaluate_intent(&far, 0, 0, 0).period_resets_at, i64::MAX);
}

#[test]
fn jito_instructions() {
    assert_eq!(encode_instruction_data(14, 0x0102_0304_0506_0708), vec![14, 8, 7, 6, 5, 4, 3, 2, 1]);
    let s = strategy(HookCondition::BalanceAbove { threshold: 0 }, YieldProtocol::JitoSOL, 10);
    let d = DeployToJito {
        authority: key(1),
        agent: agent(),
        agent_key: key(2),
        config: config(),
        vault: key(20),
        vault_balance: 1_000,
        yield_strategy: s,
        jito_program: key(21),
        stake_pool: key(22),
        pool_withdraw_authority: key(23),
        reserve_stake: key(24),
        manager_fee: key(25),
        destination_pool_account: key(26),
        pool_mint: key(27),
        system_program: key(28),
        token_program: key(29),
    };
    let (ix, ev) = deploy_to_jito_handler(&d, 500, NOW).unwrap();
    assert_eq!(ix.data, vec![14, 244, 1, 0, 0, 0, 0, 0, 0]);
    assert_eq!(ix.accounts.len(), 9);
    assert!(ix.accounts[3].pubkey == key(20) && ix.accounts[3].is_signer);
    assert!(!ix.accounts[8].is_writable);
    assert!(ix.program_id == key(21));
    assert_eq!(ev.action, "deposit");
    assert_eq!(ev.amount, 500);
    assert_eq!(deploy_to_jito_handler(&d, 1_001, NOW).unwrap_err(), BankError::InsufficientFunds);
    let mut internal = d.clone();
    internal.yield_strategy.protocol = YieldProtocol::Internal;
    assert_eq!(deploy_to_jito_handler(&internal, 1, NOW).unwrap_err(), BankError::InvalidProtocol);
    let mut paused = d.clone();
    paused.config.paused = true;
    assert_eq!(deploy_to_jito_handler(&paused, 1_001, NOW).unwrap_err(), BankError::InsufficientFunds);
    assert_eq!(deploy_to_jito_handler(&paused, 1, NOW).unwrap_err(), BankError::BankPaused);
    internal.config.paused = true;
    assert_eq!(deploy_to_jito_handler(&internal, 1, NOW).unwrap_err(), BankError::InvalidProtocol);
    let w = WithdrawFromJito {
        authority: key(1),
        agent: agent(),
        agent_key: key(2),
        config: config(),
        vault: key(20),
        yield_strategy: s,
        jito_program: key(21),
        stake_pool: key(22),
        pool_withdraw_authority: key(23),
        vault_jito_account: key(30),
        reserve_stake: key(24),
        manager_fee: key(25),
        pool_mint: key(27),
        clock: key(31),
        stake_history: key(32),
        stake_program: key(33),
        token_program: key(29),
    };
    let (ix, ev) = withdraw_from_jito_handler(&w, 256, NOW).unwrap();
    assert_eq!(ix.data, vec![16, 0, 1, 0, 0, 0, 0, 0, 0]);
    assert_eq!(ix.accounts.len(), 12);
    assert!(ix.accounts[5].pubkey == key(20) && !ix.accounts[5].is_signer);
    assert_eq!(ev.action, "withdraw");
    let mut stranger = w.clone();
    stranger.authority = key(5);
    assert_eq!(withdraw_from_jito_handler(&stranger, 1, NOW).unwrap_err(), BankError::InvalidAuthority);
    let mut paused = w.clone();
    paused.config.paused = true;
    assert_eq!(withdraw_from_jito_handler(&paused, 1, NOW).unwrap_err(), BankError::BankPaused);
    paused.yield_strategy.protocol = YieldProtocol::Marinade;
    assert_eq!(withdraw_from_jito_handler(&paused, 1, NOW).unwrap_err(), BankError::InvalidProtocol);
}

#[test]
fn delegates_are_added_and_removed_by_owner() {
    let ctx = AddDelegate { owner: key(1), agent: agent(), agent_key: key(2) };
    let (d, ev) = add_delegate_handler(&ctx, key(4), true, false, NOW + 100).unwrap();
    assert!(d.agent == key(2) && d.delegate_key == key(4));
    assert!(d.can_spend && !d.can_manage_yield);
    assert_eq!(ev.valid_until, NOW + 100);
    let stranger = AddDelegate { owner: key(4), agent: agent(), agent_key: key(2) };
    assert_eq!(add_delegate_handler(&stranger, key(4), true, true, 0).unwrap_err(), BankError::InvalidAuthority);
    let rm = RemoveDelegate { owner: key(1), agent: agent(), agent_key: key(2), delegate: d };
    let ev = remove_delegate_handler(&rm).unwrap();
    assert!(ev.delegate == key(4));
    let foreign = RemoveDelegate { owner: key(1), agent: agent(), agent_key: key(3), delegate: d };
    assert_eq!(remove_delegate_handler(&foreign).unwrap_err(), BankError::InvalidAuthority);
}

#[test]
fn admin_controls() {
    let mut t = TogglePause { bank_config: config(), admin: key(9) };
    toggle_pause_handler(&mut t, true, 2).unwrap();
    assert!(t.bank_config.paused);
    assert_eq!(PauseReason::from(t.bank_config.pause_reason), PauseReason::Maintenance);
    toggle_pause_handler(&mut t, false, 2).unwrap();
    assert_eq!(t.bank_config.pause_reason, 0);
    let mut bad = TogglePause { bank_config: config(), admin: key(8) };
    assert_eq!(toggle_pause_handler(&mut bad, true, 1).unwrap_err(), BankError::Unauthorized);
    assert!(!bad.bank_config.paused);

    let mut cfg = config();
    cfg.suspicious_activity_count = 12;
    cfg.paused = true;
    let mut r = ResetSecurityCounter { admin: key(9), config: cfg };
    reset_security_counter_handler(&mut r, NOW).unwrap();
    assert_eq!(r.config.suspicious_activity_count, 0);
    assert_eq!(r.config.last_security_check, NOW);
    assert!(r.config.paused);
    let mut r = ResetSecurityCounter { admin: key(8), config: cfg };
    assert_eq!(reset_security_counter_handler(&mut r, NOW).unwrap_err(), BankError::Unauthorized);

    let mut u = UpdateAutoThreshold { admin: key(9), config: config() };
    assert_eq!(u.config.auto_pause_threshold, 10);
    update_auto_threshold_handler(&mut u, 0).unwrap();
    assert_eq!(u.config.auto_pause_threshold, 0);
    let mut u = UpdateAutoThreshold { admin: key(1), config: config() };
    assert_eq!(update_auto_threshold_handler(&mut u, 3).unwrap_err(), BankError::Unauthorized);
}

#[test]
fn pause_reason_codes() {
    assert_eq!(PauseReason::from(0), PauseReason::NoReason);
    assert_eq!(PauseReason::from(1), PauseReason::Security);
    assert_eq!(PauseReason::from(3), PauseReason::Upgrade);
    assert_eq!(PauseReason::from(200), PauseReason::NoReason);
}
