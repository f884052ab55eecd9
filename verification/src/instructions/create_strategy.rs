//! Creating a strategy under a profile.

use vstd::prelude::*;
use crate::allocation::{validate, validation};
use crate::errors::ErrorCode;
use crate::guard::authorization;
use crate::instructions::Accounts;
use crate::state::{
    total_weight, Allocation, Identity, ProfileView, RebalanceCondition, StrategyConfig,
    StrategyView, UserProfile,
};

verus! {

/// The accounts of the instruction: the signer, the signer's profile, and the
/// record that the new strategy is written to.
#[derive(Debug, Clone, PartialEq, Eq)]
pub struct CreateStrategy {
    pub owner: Identity,
    pub user_profile: UserProfile,
    pub strategy_config: StrategyConfig,
}

impl View for CreateStrategy {
    type V = Accounts;

    open spec fn view(&self) -> Accounts {
        Accounts {
            owner: self.owner@,
            user_profile: self.user_profile@,
            strategy_config: self.strategy_config@,
        }
    }
}

/// What the accounts must meet before the handler runs: the signer owns the
/// profile.
pub open spec fn constraints(accounts: Accounts) -> Result<(), ErrorCode> {
    authorization(accounts.owner, accounts.user_profile.owner)
}

/// The accounts after a creation that was accepted: the strategy's record
/// holds the proposal under the profile's counter, and the counter has moved
/// on by one.
pub open spec fn created(
    accounts: Accounts,
    allocations: Seq<Allocation>,
    rebalance_condition: RebalanceCondition,
    max_slippage_bps: nat,
    now: int,
) -> Accounts {
    Accounts {
        owner: accounts.owner,
        user_profile: ProfileView {
            strategy_counter: accounts.user_profile.strategy_counter + 1,
            last_activity: now,
            ..accounts.user_profile
        },
        strategy_config: StrategyView {
            owner: accounts.owner,
            strategy_id: accounts.user_profile.strategy_counter,
            allocations,
            rebalance_condition,
            created_at: now,
            last_executed_at: 0,
            max_slippage_bps,
        },
    }
}

/// The accounts after the handler: changed iff the proposal is valid.
pub open spec fn handled(
    accounts: Accounts,
    allocations: Seq<Allocation>,
    rebalance_condition: RebalanceCondition,
    max_slippage_bps: nat,
    now: int,
) -> Accounts {
    if validation(allocations, max_slippage_bps) is Ok {
        created(accounts, allocations, rebalance_condition, max_slippage_bps, now)
    } else {
        accounts
    }
}

/// The decision of the whole instruction: the constraints first, then the
/// proposal.
pub open spec fn decision(accounts: Accounts, allocations: Seq<Allocation>, max_slippage_bps: nat)
    -> Result<(), ErrorCode> {
    match constraints(accounts) {
        Err(e) => Err(e),
        Ok(_) => validation(allocations, max_slippage_bps),
    }
}

/// The accounts after the whole instruction: changed iff it succeeds.
pub open spec fn effect(
    accounts: Accounts,
    allocations: Seq<Allocation>,
    rebalance_condition: RebalanceCondition,
    max_slippage_bps: nat,
    now: int,
) -> Accounts {
    if decision(accounts, allocations, max_slippage_bps) is Ok {
        created(accounts, allocations, rebalance_condition, max_slippage_bps, now)
    } else {
        accounts
    }
}

/// The handler. Validates the proposal; if it is valid, writes the strategy
/// under the identifier that the profile's counter holds, with the signer as
/// its owner, then moves the counter on and stamps the profile. A refused
/// proposal changes nothing.
pub fn process(
    ctx: &mut CreateStrategy,
    allocations: Vec<Allocation>,
    rebalance_condition: RebalanceCondition,
    max_slippage_bps: u16,
    now: i64,
) -> (r: Result<(), ErrorCode>)
    requires
        old(ctx).user_profile.strategy_counter < u64::MAX,
    ensures
        r == validation(allocations@, max_slippage_bps as nat),
        final(ctx)@ == handled(
            old(ctx)@,
            allocations@,
            rebalance_condition,
            max_slippage_bps as nat,
            now as int,
        ),
        r is Ok ==> final(ctx).strategy_config.wf(),
        old(ctx).user_profile.wf() ==> final(ctx).user_profile.wf(),
        r is Err ==> *final(ctx) == *old(ctx),
{
    match validate(&allocations, max_slippage_bps) {
        Err(e) => {
            return Err(e);
        },
        Ok(_) => {},
    }
    ctx.strategy_config.owner = ctx.owner;
    ctx.strategy_config.strategy_id = ctx.user_profile.strategy_counter;
    ctx.strategy_config.allocations = allocations;
    ctx.strategy_config.rebalance_condition = rebalance_condition;
    ctx.strategy_config.created_at = now;
    ctx.strategy_config.last_executed_at = 0;
    ctx.strategy_config.max_slippage_bps = max_slippage_bps;

    ctx.user_profile.strategy_counter = ctx.user_profile.strategy_counter + 1;
    ctx.user_profile.last_activity = now;
    Ok(())
}

/// For a signer who owns the profile, a creation succeeds iff the weights
/// add up to 10000 basis points and the slippage bound is at most 1000. A sum
/// that is off, be it by one basis point, is `InvalidAllocation` whatever the
/// slippage bound.
pub proof fn lemma_success_iff_valid(
    accounts: Accounts,
    allocations: Seq<Allocation>,
    max_slippage_bps: nat,
)
    requires
        accounts.owner == accounts.user_profile.owner,
    ensures
        decision(accounts, allocations, max_slippage_bps) is Ok <==> total_weight(allocations)
            == 10000 && max_slippage_bps <= 1000,
        total_weight(allocations) != 10000 ==> decision(accounts, allocations, max_slippage_bps)
            == Err::<(), ErrorCode>(ErrorCode::InvalidAllocation),
        total_weight(allocations) == 10000 && max_slippage_bps > 1000 ==> decision(
            accounts,
            allocations,
            max_slippage_bps,
        ) == Err::<(), ErrorCode>(ErrorCode::InvalidSlippage),
{
}

/// A creation that fails leaves the accounts as they were: the counter has
/// not moved, and the profile is not stamped.
pub proof fn lemma_failure_changes_nothing(
    accounts: Accounts,
    allocations: Seq<Allocation>,
    rebalance_condition: RebalanceCondition,
    max_slippage_bps: nat,
    now: int,
)
    requires
        decision(accounts, allocations, max_slippage_bps) is Err,
    ensures
        effect(accounts, allocations, rebalance_condition, max_slippage_bps, now) == accounts,
{
}

/// A creation that succeeds hands out the counter's value and moves the
/// counter on by one; the new strategy is well formed and is one of the
/// profile's.
pub proof fn lemma_success_hands_out_counter(
    accounts: Accounts,
    allocations: Seq<Allocation>,
    rebalance_condition: RebalanceCondition,
    max_slippage_bps: nat,
    now: int,
)
    requires
        decision(accounts, allocations, max_slippage_bps) is Ok,
    ensures
        ({
            let after = effect(accounts, allocations, rebalance_condition, max_slippage_bps, now);
            &&& after.strategy_config.strategy_id == accounts.user_profile.strategy_counter
            &&& after.user_profile.strategy_counter == accounts.user_profile.strategy_counter + 1
            &&& after.strategy_config.wf()
            &&& after.strategy_config.belongs_to(after.user_profile)
        }),
{
}

} // verus!
