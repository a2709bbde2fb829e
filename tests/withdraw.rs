use bank::{
    initialize_bank_handler, split_fee, withdraw_handler, Agent, BankConfig, BankError, Delegate,
    InitializeBank, Pubkey, Withdraw,
};

const DAY: i64 = 86_400;
const START: i64 = 1_000_000;

fn key(b: u8) -> Pubkey {
    let mut bytes = [0u8; 32];
    bytes[0] = b;
    bytes[31] = 0x5a;
    Pubkey::new_from_array(bytes)
}

fn agent(limit: u64, duration: i64) -> Agent {
    Agent {
        owner: key(1),
        spending_limit: limit,
        period_duration: duration,
        current_period_start: START,
        current_period_spend: 0,
        name: "trader".to_string(),
        total_deposited: 0,
        staked_amount: 0,
        last_yield_timestamp: 0,
    }
}

fn config(fee_bps: u16) -> BankConfig {
    initialize_bank_handler(&InitializeBank { admin: key(9) }, fee_bps)
}

fn ctx(limit: u64, fee_bps: u16) -> Withdraw {
    Withdraw {
        authority: key(1),
        agent_key: key(2),
        agent: agent(limit, DAY),
        vault_balance: 100_000,
        destination: key(3),
        destination_balance: 0,
        config: config(fee_bps),
        treasury_balance: 0,
        delegate_record: None,
    }
}

#[test]
fn scenario_b_spending_limit_and_rollover() {
    let mut c = ctx(5000, 0);
    let w = withdraw_handler(&mut c, 3000, START + 100).unwrap();
    assert_eq!(w.period_spend, 3000);
    assert_eq!(c.agent.current_period_spend, 3000);
    assert_eq!(withdraw_handler(&mut c, 3000, START + 200).unwrap_err(), BankError::SpendingLimitExceeded);
    assert_eq!(c.agent.current_period_spend, 3000);
    assert_eq!(c.vault_balance, 97_000);
    let later = START + DAY + 1;
    let w = withdraw_handler(&mut c, 3000, later).unwrap();
    assert_eq!(w.period_spend, 3000);
    assert_eq!(c.agent.current_period_start, later);
    assert_eq!(c.agent.current_period_spend, 3000);
    assert_eq!(c.vault_balance, 94_000);
}

#[test]
fn scenario_c_breaker_trips_on_next_safe_withdrawal() {
    let mut c = ctx(5000, 0);
    c.config.auto_pause_threshold = 10;
    c.config.suspicious_activity_count = 9;
    c.destination = Pubkey::new_from_array([0xAB; 32]);
    assert_eq!(withdraw_handler(&mut c, 10, START + 1).unwrap_err(), BankError::SuspiciousDestination);
    assert_eq!(c.config.suspicious_activity_count, 10);
    assert!(!c.config.paused);
    c.destination = key(3);
    assert_eq!(withdraw_handler(&mut c, 10, START + 2).unwrap_err(), BankError::BankPaused);
    assert!(c.config.paused);
    assert_eq!(c.config.pause_reason, 1);
    assert_eq!(c.config.suspicious_activity_count, 10);
    assert_eq!(c.vault_balance, 100_000);
    assert_eq!(withdraw_handler(&mut c, 10, START + 3).unwrap_err(), BankError::BankPaused);
}

#[test]
fn scenario_d_delegate_permissions() {
    let now = START + 500;
    let mut c = ctx(5000, 0);
    c.authority = key(4);
    c.delegate_record = Some(Delegate {
        agent: key(2),
        delegate_key: key(4),
        can_spend: false,
        can_manage_yield: false,
        valid_until: 0,
    });
    assert_eq!(withdraw_handler(&mut c, 10, now).unwrap_err(), BankError::UnauthorizedDelegate);
    c.delegate_record = Some(Delegate {
        agent: key(2),
        delegate_key: key(4),
        can_spend: true,
        can_manage_yield: false,
        valid_until: now - 1,
    });
    assert_eq!(withdraw_handler(&mut c, 10, now).unwrap_err(), BankError::DelegateExpired);
    assert_eq!(c.agent.current_period_spend, 0);
}

#[test]
fn active_delegates_may_spend() {
    let now = START + 500;
    let mut c = ctx(5000, 0);
    c.authority = key(4);
    c.delegate_record = Some(Delegate {
        agent: key(2),
        delegate_key: key(4),
        can_spend: true,
        can_manage_yield: false,
        valid_until: 0,
    });
    assert!(withdraw_handler(&mut c, 10, now).is_ok());
    c.delegate_record = Some(Delegate {
        agent: key(2),
        delegate_key: key(4),
        can_spend: true,
        can_manage_yield: false,
        valid_until: now + 1,
    });
    let w = withdraw_handler(&mut c, 10, now).unwrap();
    assert!(w.authority == key(4));
    assert_eq!(w.period_spend, 20);
}

#[test]
fn missing_or_foreign_delegate_record_is_invalid_authority() {
    let mut c = ctx(5000, 0);
    c.authority = key(4);
    assert_eq!(withdraw_handler(&mut c, 10, START).unwrap_err(), BankError::InvalidAuthority);
    c.delegate_record = Some(Delegate {
        agent: key(8),
        delegate_key: key(4),
        can_spend: true,
        can_manage_yield: true,
        valid_until: 0,
    });
    assert_eq!(withdraw_handler(&mut c, 10, START).unwrap_err(), BankError::InvalidAuthority);
}

#[test]
fn paused_bank_refuses_before_anything_else() {
    let mut c = ctx(5000, 0);
    c.config.paused = true;
    c.authority = key(4);
    c.destination = Pubkey::new_from_array([0u8; 32]);
    assert_eq!(withdraw_handler(&mut c, 10, START).unwrap_err(), BankError::BankPaused);
    assert_eq!(c.config.suspicious_activity_count, 0);
}

#[test]
fn zero_address_counts_exactly_one_attempt() {
    let mut c = ctx(5000, 0);
    c.config.suspicious_activity_count = 3;
    c.config.auto_pause_threshold = 0;
    c.destination = Pubkey::new_from_array([0u8; 32]);
    assert_eq!(withdraw_handler(&mut c, 10, START).unwrap_err(), BankError::SuspiciousDestination);
    assert_eq!(c.config.suspicious_activity_count, 4);
    assert_eq!(withdraw_handler(&mut c, 10, START).unwrap_err(), BankError::SuspiciousDestination);
    assert_eq!(c.config.suspicious_activity_count, 5);
    assert!(!c.config.paused);
    assert_eq!(c.vault_balance, 100_000);
}

#[test]
fn disabled_breaker_never_trips() {
    let mut c = ctx(5000, 0);
    c.config.auto_pause_threshold = 0;
    c.config.suspicious_activity_count = 1000;
    assert!(withdraw_handler(&mut c, 10, START).is_ok());
    assert!(!c.config.paused);
}

#[test]
fn insufficient_vault_funds() {
    let mut c = ctx(5000, 0);
    c.vault_balance = 99;
    assert_eq!(withdraw_handler(&mut c, 100, START).unwrap_err(), BankError::InsufficientFunds);
    assert_eq!(c.agent.current_period_spend, 0);
    assert_eq!(c.vault_balance, 99);
}

#[test]
fn failed_limit_check_after_rollover_keeps_old_period() {
    let mut c = ctx(5000, 0);
    c.agent.current_period_spend = 4000;
    let later = START + DAY + 10;
    assert_eq!(withdraw_handler(&mut c, 6000, later).unwrap_err(), BankError::SpendingLimitExceeded);
    assert_eq!(c.agent.current_period_start, START);
    assert_eq!(c.agent.current_period_spend, 4000);
}

#[test]
fn sum_within_one_period_stays_within_limit() {
    let mut c = ctx(1000, 0);
    let mut total: u64 = 0;
    for i in 0..20i64 {
        if withdraw_handler(&mut c, 150, START + i).is_ok() {
            total += 150;
        }
    }
    assert_eq!(total, 900);
    assert_eq!(c.agent.current_period_spend, 900);
    assert!(total <= c.agent.spending_limit);
    assert_eq!(c.agent.current_period_start, START);
}

#[test]
fn period_rolls_only_past_its_end() {
    let mut c = ctx(1000, 0);
    withdraw_handler(&mut c, 1000, START).unwrap();
    assert_eq!(withdraw_handler(&mut c, 1, START + DAY).unwrap_err(), BankError::SpendingLimitExceeded);
    assert_eq!(c.agent.current_period_start, START);
    withdraw_handler(&mut c, 1, START + DAY + 1).unwrap();
    assert_eq!(c.agent.current_period_start, START + DAY + 1);
    assert_eq!(c.agent.current_period_spend, 1);
    withdraw_handler(&mut c, 1, START + DAY + 1).unwrap();
    assert_eq!(c.agent.current_period_start, START + DAY + 1);
    assert_eq!(c.agent.current_period_spend, 2);
}

#[test]
fn fee_split_examples() {
    assert_eq!(split_fee(10_000, 25), (25, 9_975));
    assert_eq!(split_fee(399, 25), (0, 399));
    assert_eq!(split_fee(3_000, 25), (7, 2_993));
    assert_eq!(split_fee(1_234, 10_000), (1_234, 0));
    assert_eq!(split_fee(u64::MAX, 9_999), (18_444_899_399_302_180_659, 1_844_674_407_370_956));
    assert_eq!(split_fee(0, 500), (0, 0));
}

#[test]
fn withdrawal_moves_fee_and_net() {
    let mut c = ctx(5000, 25);
    c.treasury_balance = 50;
    c.destination_balance = 5;
    let w = withdraw_handler(&mut c, 3000, START).unwrap();
    assert_eq!(w.fee, 7);
    assert_eq!(w.amount, 3000);
    assert_eq!(c.vault_balance, 97_000);
    assert_eq!(c.treasury_balance, 57);
    assert_eq!(c.destination_balance, 5 + 2_993);
    assert_eq!(c.config.total_fees_collected, 7);
    assert!(w.agent == key(2));
    assert!(w.destination == key(3));
}
