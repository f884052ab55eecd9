use defi_tools::instructions::execute_strategy::{process, ExecuteStrategy};
use defi_tools::state::{RebalanceCondition, StrategyConfig, UserProfile};

fn context(owner_key: [u8; 32], strategy_id: u64) -> ExecuteStrategy {
    let user_profile = UserProfile {
        owner: owner_key,
        risk_level: 3,
        strategy_counter: strategy_id + 1,
        vault_bump: 255,
        last_activity: 0,
        total_value_lamports: 0,
        is_paused: false,
    };
    let strategy_config = StrategyConfig {
        owner: owner_key,
        strategy_id,
        allocations: vec![],
        rebalance_condition: RebalanceCondition {
            time_interval_seconds: 0,
            max_deviation_bps: 0,
            auto_rebalance: false,
        },
        created_at: 0,
        last_executed_at: 0,
        max_slippage_bps: 0,
    };
    ExecuteStrategy { owner: owner_key, user_profile, strategy_config }
}

#[test]
fn test_execute_strategy_success() {
    let test_timestamp = 1234567890;

    let owner_key = [1; 32];
    let strategy_id = 42;
    let mut ctx = context(owner_key, strategy_id);

    let result = process(&mut ctx, strategy_id, test_timestamp);
    assert!(result.is_ok());

    let user_profile = &ctx.user_profile;
    let strategy_config = &ctx.strategy_config;
    assert_eq!(user_profile.last_activity, 1234567890);
    assert_eq!(strategy_config.last_executed_at, 1234567890);
}

#[test]
fn test_execute_strategy_different_id() {
    let test_timestamp = 1234567890;

    let owner_key = [1; 32];
    let strategy_id = 999;
    let mut ctx = context(owner_key, strategy_id);

    let result = process(&mut ctx, strategy_id, test_timestamp);
    assert!(result.is_ok());

    let user_profile = &ctx.user_profile;
    let strategy_config = &ctx.strategy_config;
    assert_eq!(user_profile.last_activity, 1234567890);
    assert_eq!(strategy_config.last_executed_at, 1234567890);
}

#[test]
fn test_execute_strategy_different_timestamp() {
    let test_timestamp = 987654321;

    let owner_key = [1; 32];
    let strategy_id = 42;
    let mut ctx = context(owner_key, strategy_id);

    let result = process(&mut ctx, strategy_id, test_timestamp);
    assert!(result.is_ok());

    let user_profile = &ctx.user_profile;
    let strategy_config = &ctx.strategy_config;
    assert_eq!(user_profile.last_activity, 987654321);
    assert_eq!(strategy_config.last_executed_at, 987654321);
}
