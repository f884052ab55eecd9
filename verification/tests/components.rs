use defi_tools::allocation::{validate, weights_add_up};
use defi_tools::errors::ErrorCode;
use defi_tools::gate::{check_and_advance, state, RebalanceState};
use defi_tools::guard::{check, check_active, same_identity};
use defi_tools::ledger::{deposit, withdraw};
use defi_tools::state::{
    Allocation, Asset, Protocol, RebalanceCondition, StrategyConfig, UserProfile,
    MAX_RISK_LEVEL, MAX_SLIPPAGE_BPS, MIN_RISK_LEVEL, TOTAL_WEIGHT_BPS,
};

fn profile(total_value_lamports: u64) -> UserProfile {
    UserProfile {
        owner: [7; 32],
        risk_level: 2,
        strategy_counter: 4,
        vault_bump: 250,
        last_activity: 100,
        total_value_lamports,
        is_paused: false,
    }
}

fn strategy(last_executed_at: i64, time_interval_seconds: u64) -> StrategyConfig {
    StrategyConfig {
        owner: [7; 32],
        strategy_id: 3,
        allocations: vec![Allocation { protocol: 2, asset: 1, target_weight_bps: 10000 }],
        rebalance_condition: RebalanceCondition {
            time_interval_seconds,
            max_deviation_bps: 0,
            auto_rebalance: false,
        },
        created_at: 1,
        last_executed_at,
        max_slippage_bps: 0,
    }
}

fn weights(ws: &[u16]) -> Vec<Allocation> {
    let mut out = Vec::new();
    for w in ws {
        out.push(Allocation { protocol: 0, asset: 0, target_weight_bps: *w });
    }
    out
}

#[test]
fn constants_of_the_rules() {
    assert_eq!(TOTAL_WEIGHT_BPS, 10000);
    assert_eq!(MAX_SLIPPAGE_BPS, 1000);
    assert_eq!(MIN_RISK_LEVEL, 1);
    assert_eq!(MAX_RISK_LEVEL, 5);
}

#[test]
fn guard_lets_the_owner_through_only() {
    let a = [3u8; 32];
    let mut b = a;
    assert!(same_identity(&a, &b));
    assert_eq!(check(&a, &b), Ok(()));
    b[31] = 4;
    assert!(!same_identity(&a, &b));
    assert_eq!(check(&a, &b), Err(ErrorCode::Unauthorized));
    b = a;
    b[0] = 0;
    assert!(!same_identity(&a, &b));
    assert_eq!(check(&b, &a), Err(ErrorCode::Unauthorized));
}

#[test]
fn guard_refuses_a_paused_profile() {
    let mut p = profile(0);
    assert_eq!(check_active(&p), Ok(()));
    p.is_paused = true;
    assert_eq!(check_active(&p), Err(ErrorCode::StrategyPaused));
}

#[test]
fn validator_judges_weights_before_slippage() {
    assert_eq!(validate(&weights(&[2500, 2500, 2500, 2500]), 1000), Ok(()));
    assert_eq!(validate(&weights(&[2500, 2500, 2500, 2500]), 1001), Err(ErrorCode::InvalidSlippage));
    assert_eq!(validate(&weights(&[2500, 2500, 2500, 2499]), 1001), Err(ErrorCode::InvalidAllocation));
    assert_eq!(validate(&weights(&[2500, 2500, 2500, 2501]), 0), Err(ErrorCode::InvalidAllocation));
    assert_eq!(validate(&weights(&[]), 0), Err(ErrorCode::InvalidAllocation));
    assert_eq!(validate(&weights(&[10000]), u16::MAX), Err(ErrorCode::InvalidSlippage));
}

#[test]
fn weights_are_summed_without_wrapping() {
    assert!(weights_add_up(&weights(&[10000])));
    assert!(weights_add_up(&weights(&[1; 10000])));
    assert!(!weights_add_up(&weights(&[1; 9999])));
    assert!(!weights_add_up(&weights(&[1; 10001])));
    assert!(!weights_add_up(&weights(&[65535, 10001])));
    assert!(!weights_add_up(&weights(&[10000, 65535, 1])));
    assert!(!weights_add_up(&weights(&[32768, 32768, 10000])));
    assert!(weights_add_up(&weights(&[0, 10000, 0])));
}

#[test]
fn ledger_deposit() {
    let mut p = profile(1000);
    assert_eq!(deposit(&mut p, 500, 200), Ok(()));
    assert_eq!(p, UserProfile { total_value_lamports: 1500, last_activity: 200, ..profile(0) });
    assert_eq!(deposit(&mut p, 0, 300), Err(ErrorCode::InsufficientFunds));
    assert_eq!(p, UserProfile { total_value_lamports: 1500, last_activity: 200, ..profile(0) });
    assert_eq!(deposit(&mut p, u64::MAX - 1499, 400), Err(ErrorCode::MathError));
    assert_eq!(p, UserProfile { total_value_lamports: 1500, last_activity: 400, ..profile(0) });
    assert_eq!(deposit(&mut p, u64::MAX - 1500, 500), Ok(()));
    assert_eq!(p, UserProfile { total_value_lamports: u64::MAX, last_activity: 500, ..profile(0) });
}

#[test]
fn ledger_withdraw() {
    let mut p = profile(1000);
    assert_eq!(withdraw(&mut p, 1, 200), Ok(()));
    assert_eq!(p, UserProfile { total_value_lamports: 999, last_activity: 200, ..profile(0) });
    assert_eq!(withdraw(&mut p, 1000, 300), Err(ErrorCode::InsufficientFunds));
    assert_eq!(withdraw(&mut p, 0, 300), Err(ErrorCode::InsufficientFunds));
    assert_eq!(p, UserProfile { total_value_lamports: 999, last_activity: 200, ..profile(0) });
    assert_eq!(withdraw(&mut p, 999, 400), Ok(()));
    assert_eq!(p, UserProfile { total_value_lamports: 0, last_activity: 400, ..profile(0) });
    assert_eq!(withdraw(&mut p, 1, 500), Err(ErrorCode::InsufficientFunds));
}

#[test]
fn ledger_works_while_paused() {
    let mut p = UserProfile { is_paused: true, ..profile(10) };
    assert_eq!(deposit(&mut p, 5, 1), Ok(()));
    assert_eq!(withdraw(&mut p, 15, 2), Ok(()));
    assert_eq!(p.total_value_lamports, 0);
    assert!(p.is_paused);
}

#[test]
fn gate_boundary() {
    let s = strategy(1234564290, 3600);
    assert_eq!(state(&s, 1234567890), RebalanceState::Eligible);
    assert_eq!(check_and_advance(&s, 1234567890), Ok(()));
    assert_eq!(state(&s, 1234567889), RebalanceState::NotYetDue);
    assert_eq!(check_and_advance(&s, 1234567889), Err(ErrorCode::RebalanceConditionNotMet));
    assert_eq!(state(&s, 1234567891), RebalanceState::Eligible);
    // Deciding writes nothing.
    assert_eq!(s, strategy(1234564290, 3600));
}

#[test]
fn gate_with_an_interval_of_zero_is_open_from_the_last_execution_on() {
    let s = strategy(500, 0);
    assert_eq!(state(&s, 500), RebalanceState::Eligible);
    assert_eq!(state(&s, 499), RebalanceState::NotYetDue);
}

#[test]
fn gate_at_the_ends_of_the_range() {
    // The difference does not fit in 64 bits and is still taken exactly.
    let s = strategy(i64::MIN, u64::MAX);
    assert_eq!(state(&s, i64::MAX), RebalanceState::Eligible);
    assert_eq!(state(&s, i64::MAX - 1), RebalanceState::NotYetDue);
    let s = strategy(i64::MAX, 0);
    assert_eq!(state(&s, i64::MIN), RebalanceState::NotYetDue);
    // An interval above i64::MAX is an interval, not a negative number.
    let s = strategy(0, u64::MAX);
    assert_eq!(state(&s, i64::MAX), RebalanceState::NotYetDue);
    let s = strategy(0, 1u64 << 63);
    assert_eq!(state(&s, 1234567890), RebalanceState::NotYetDue);
    let s = strategy(-1, 1u64 << 63);
    assert_eq!(state(&s, i64::MAX), RebalanceState::Eligible);
    // A clock that reads before the last execution.
    let s = strategy(1000, 10);
    assert_eq!(state(&s, -1000), RebalanceState::NotYetDue);
}

#[test]
fn slots_of_protocols_and_assets() {
    assert_eq!(Protocol::Raydium.slot(), 0);
    assert_eq!(Protocol::Solend.slot(), 1);
    assert_eq!(Protocol::Orca.slot(), 2);
    assert_eq!(Protocol::Mango.slot(), 3);
    assert_eq!(Asset::SOL.slot(), 0);
    assert_eq!(Asset::USDC.slot(), 1);
    assert_eq!(Asset::USDT.slot(), 2);
}
