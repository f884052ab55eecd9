use defi_tools::errors::ErrorCode;
use defi_tools::instructions::withdraw_funds::{process, WithdrawFunds};
use defi_tools::state::{RebalanceCondition, StrategyConfig, UserProfile};

fn context(signer: [u8; 32], owner_key: [u8; 32], total_value_lamports: u64) -> WithdrawFunds {
    let user_profile = UserProfile {
        owner: owner_key,
        risk_level: 3,
        strategy_counter: 2,
        vault_bump: 255,
        last_activity: 0,
        total_value_lamports,
        is_paused: false,
    };
    let strategy_config = StrategyConfig {
        owner: owner_key,
        strategy_id: 1,
        allocations: vec![],
        rebalance_condition: RebalanceCondition {
            time_interval_seconds: 0,
            max_deviation_bps: 0,
            auto_rebalance: false,
        },
        created_at: 0,
        last_executed_at: 0,
        max_slippage_bps: 0,
    };
    WithdrawFunds { owner: signer, user_profile, strategy_config }
}

#[test]
fn test_withdraw_funds_success() {
    let owner_key = [1; 32];
    let mut ctx = context(owner_key, owner_key, 1000);

    let result = process(&mut ctx, 1, 500, 1234567890);
    assert!(result.is_ok());
    assert_eq!(ctx.user_profile.total_value_lamports, 500);
    assert_eq!(ctx.user_profile.last_activity, 1234567890);
}

#[test]
fn test_withdraw_funds_insufficient_balance() {
    let owner_key = [1; 32];
    let mut ctx = context(owner_key, owner_key, 300);

    let result = process(&mut ctx, 1, 500, 1234567890);
    assert!(result.is_err());
    assert_eq!(result.unwrap_err(), ErrorCode::InsufficientFunds);
}

#[test]
fn test_withdraw_funds_zero_amount() {
    let owner_key = [1; 32];
    let mut ctx = context(owner_key, owner_key, 1000);

    let result = process(&mut ctx, 1, 0, 1234567890);
    assert!(result.is_err());
    assert_eq!(result.unwrap_err(), ErrorCode::InsufficientFunds);
}

#[test]
fn test_withdraw_funds_unauthorized() {
    let owner_key = [1; 32];
    let unauthorized_key = [2; 32];

    let mut ctx = context(unauthorized_key, owner_key, 1000);

    let result = process(&mut ctx, 1, 500, 1234567890);

    assert!(result.is_err(), "Expected Unauthorized error, but got Ok");
    assert_eq!(
        result.unwrap_err(),
        ErrorCode::Unauthorized,
        "Expected Unauthorized error"
    );
}
