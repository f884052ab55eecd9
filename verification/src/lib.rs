//! Control layer of a custodial portfolio ledger. A profile holds an
//! identity's risk preference and the value in its custody; a strategy is an
//! allocation plan of one owner, with a time gate on rebalancing.
//!
//! The functions of this file are the instructions as a caller sees them:
//! each looks at the constraints on its accounts and then runs its handler
//! from [`instructions`]. An instruction either succeeds or leaves its
//! accounts as they were, with one exception that [`deposit_funds`] states.
//! The accounts are handed in looked up and are stored again by the caller;
//! the moment `now` comes from the caller's clock.

use vstd::prelude::*;
use crate::guard::{check, check_active};
use crate::state::total_weight;

pub use crate::errors::ErrorCode;
pub use crate::instructions::create_strategy::CreateStrategy;
pub use crate::instructions::deposit_funds::DepositFunds;
pub use crate::instructions::execute_strategy::ExecuteStrategy;
pub use crate::instructions::initialize_user::InitializeUser;
pub use crate::instructions::rebalance_positions::RebalancePositions;
pub use crate::instructions::withdraw_funds::WithdrawFunds;
pub use crate::state::{
    Allocation, Asset, Identity, PositionTracker, Protocol, ProtocolRegistry, RebalanceCondition,
    StrategyConfig, UserProfile,
};

pub mod allocation;
pub mod errors;
pub mod gate;
pub mod guard;
pub mod instructions;
pub mod ledger;
pub mod state;

verus! {

/// Creates the signer's profile with the given risk level, which must lie
/// within `1..=5`.
pub fn initialize_user(ctx: &mut InitializeUser, risk_level: u8, now: i64) -> (r: Result<
    (),
    ErrorCode,
>)
    ensures
        r == instructions::initialize_user::decision(risk_level as nat),
        r is Ok <==> 1 <= risk_level <= 5,
        r is Err ==> r == Err::<(), ErrorCode>(ErrorCode::InvalidRiskLevel),
        final(ctx)@ == instructions::initialize_user::effect(
            old(ctx)@,
            risk_level as nat,
            now as int,
        ),
        r is Ok ==> final(ctx).user_profile.wf(),
        r is Err ==> *final(ctx) == *old(ctx),
{
    instructions::initialize_user::process(ctx, risk_level, now)
}

/// Creates a strategy under the signer's profile. It succeeds iff the signer
/// owns the profile, the weights add up to 10000 basis points and the
/// slippage bound is at most 1000. The new strategy gets the profile's
/// counter as its identifier, and the counter moves on only then.
pub fn create_strategy(
    ctx: &mut CreateStrategy,
    allocations: Vec<Allocation>,
    rebalance_condition: RebalanceCondition,
    max_slippage_bps: u16,
    now: i64,
) -> (r: Result<(), ErrorCode>)
    requires
        old(ctx).user_profile.strategy_counter < u64::MAX,
    ensures
        r == instructions::create_strategy::decision(
            old(ctx)@,
            allocations@,
            max_slippage_bps as nat,
        ),
        r is Ok <==> old(ctx).owner@ == old(ctx).user_profile.owner@ && total_weight(allocations@)
            == 10000 && max_slippage_bps <= 1000,
        final(ctx)@ == instructions::create_strategy::effect(
            old(ctx)@,
            allocations@,
            rebalance_condition,
            max_slippage_bps as nat,
            now as int,
        ),
        r is Ok ==> final(ctx).strategy_config.wf() && final(ctx).strategy_config@.belongs_to(
            final(ctx).user_profile@,
        ),
        old(ctx).user_profile.wf() ==> final(ctx).user_profile.wf(),
        r is Err ==> *final(ctx) == *old(ctx),
{
    match check(&ctx.owner, &ctx.user_profile.owner) {
        Err(e) => {
            return Err(e);
        },
        Ok(_) => {},
    }
    instructions::create_strategy::process(
        ctx,
        allocations,
        rebalance_condition,
        max_slippage_bps,
        now,
    )
}

/// Executes a strategy of the signer, unless the profile is paused: stamps
/// the strategy and the profile with `now`.
pub fn execute_strategy(ctx: &mut ExecuteStrategy, strategy_id: u64, now: i64) -> (r: Result<
    (),
    ErrorCode,
>)
    ensures
        r == instructions::execute_strategy::constraints(old(ctx)@),
        final(ctx)@ == instructions::execute_strategy::effect(old(ctx)@, now as int),
        old(ctx).user_profile.wf() ==> final(ctx).user_profile.wf(),
        old(ctx).strategy_config.wf() ==> final(ctx).strategy_config.wf(),
        r is Err ==> *final(ctx) == *old(ctx),
{
    match check(&ctx.owner, &ctx.user_profile.owner) {
        Err(e) => {
            return Err(e);
        },
        Ok(_) => {},
    }
    match check_active(&ctx.user_profile) {
        Err(e) => {
            return Err(e);
        },
        Ok(_) => {},
    }
    match check(&ctx.owner, &ctx.strategy_config.owner) {
        Err(e) => {
            return Err(e);
        },
        Ok(_) => {},
    }
    instructions::execute_strategy::process(ctx, strategy_id, now)
}

/// Deposits `amount` into the custody of the signer's profile, unless the
/// profile is paused. A failed deposit leaves the accounts as they were, but
/// for one case: where the sum overflows, the deposit fails with `MathError`
/// and the profile's `last_activity` is `now` all the same.
pub fn deposit_funds(ctx: &mut DepositFunds, strategy_id: u64, amount: u64, now: i64) -> (r: Result<
    (),
    ErrorCode,
>)
    ensures
        r == instructions::deposit_funds::decision(old(ctx)@, amount as nat),
        final(ctx)@ == instructions::deposit_funds::effect(old(ctx)@, amount as nat, now as int),
        old(ctx).user_profile.wf() ==> final(ctx).user_profile.wf(),
        final(ctx).owner == old(ctx).owner,
        final(ctx).strategy_config == old(ctx).strategy_config,
        r is Err && r != Err::<(), ErrorCode>(ErrorCode::MathError) ==> *final(ctx) == *old(ctx),
{
    match check(&ctx.owner, &ctx.user_profile.owner) {
        Err(e) => {
            return Err(e);
        },
        Ok(_) => {},
    }
    match check_active(&ctx.user_profile) {
        Err(e) => {
            return Err(e);
        },
        Ok(_) => {},
    }
    match check(&ctx.owner, &ctx.strategy_config.owner) {
        Err(e) => {
            return Err(e);
        },
        Ok(_) => {},
    }
    instructions::deposit_funds::process(ctx, strategy_id, amount, now)
}

/// Withdraws `amount` from the custody of the signer's profile, paused or
/// not.
pub fn withdraw_funds(ctx: &mut WithdrawFunds, strategy_id: u64, amount: u64, now: i64) -> (r:
    Result<(), ErrorCode>)
    ensures
        r == instructions::withdraw_funds::decision(old(ctx)@, amount as nat),
        final(ctx)@ == instructions::withdraw_funds::effect(old(ctx)@, amount as nat, now as int),
        old(ctx).user_profile.wf() ==> final(ctx).user_profile.wf(),
        final(ctx).owner == old(ctx).owner,
        final(ctx).strategy_config == old(ctx).strategy_config,
        r is Err ==> *final(ctx) == *old(ctx),
{
    match check(&ctx.owner, &ctx.user_profile.owner) {
        Err(e) => {
            return Err(e);
        },
        Ok(_) => {},
    }
    match check(&ctx.owner, &ctx.strategy_config.owner) {
        Err(e) => {
            return Err(e);
        },
        Ok(_) => {},
    }
    instructions::withdraw_funds::process(ctx, strategy_id, amount, now)
}

/// Rebalances a strategy of the signer, unless the profile is paused or the
/// strategy's interval has not passed since it last ran: stamps the strategy
/// and the profile with `now`.
pub fn rebalance_positions(ctx: &mut RebalancePositions, strategy_id: u64, now: i64) -> (r: Result<
    (),
    ErrorCode,
>)
    ensures
        r == instructions::rebalance_positions::decision(old(ctx)@, now as int),
        final(ctx)@ == instructions::rebalance_positions::effect(old(ctx)@, now as int),
        old(ctx).user_profile.wf() ==> final(ctx).user_profile.wf(),
        old(ctx).strategy_config.wf() ==> final(ctx).strategy_config.wf(),
        r is Err ==> *final(ctx) == *old(ctx),
{
    match check(&ctx.owner, &ctx.user_profile.owner) {
        Err(e) => {
            return Err(e);
        },
        Ok(_) => {},
    }
    match check_active(&ctx.user_profile) {
        Err(e) => {
            return Err(e);
        },
        Ok(_) => {},
    }
    match check(&ctx.owner, &ctx.strategy_config.owner) {
        Err(e) => {
            return Err(e);
        },
        Ok(_) => {},
    }
    instructions::rebalance_positions::process(ctx, strategy_id, now)
}

} // verus!
