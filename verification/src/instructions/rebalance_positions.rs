//! Rebalancing a strategy, which its time gate must allow.

use vstd::prelude::*;
use crate::errors::ErrorCode;
use crate::gate::{check_and_advance, clearance};
use crate::guard::{activity, authorization};
use crate::instructions::Accounts;
use crate::state::{Identity, StrategyConfig, UserProfile};

verus! {

/// The accounts of the instruction: the signer, the signer's profile, and the
/// strategy to rebalance.
#[derive(Debug, Clone, PartialEq, Eq)]
pub struct RebalancePositions {
    pub owner: Identity,
    pub user_profile: UserProfile,
    pub strategy_config: StrategyConfig,
}

impl View for RebalancePositions {
    type V = Accounts;

    open spec fn view(&self) -> Accounts {
        Accounts {
            owner: self.owner@,
            user_profile: self.user_profile@,
            strategy_config: self.strategy_config@,
        }
    }
}

/// What the accounts must meet before the handler runs, in the order in which
/// it is looked at: the signer owns the profile, the profile is not paused,
/// the signer owns the strategy.
pub open spec fn constraints(accounts: Accounts) -> Result<(), ErrorCode> {
    if authorization(accounts.owner, accounts.user_profile.owner) is Err {
        Err(ErrorCode::Unauthorized)
    } else if activity(accounts.user_profile) is Err {
        Err(ErrorCode::StrategyPaused)
    } else {
        authorization(accounts.owner, accounts.strategy_config.owner)
    }
}

/// The accounts after the handler: stamped iff the strategy is eligible.
pub open spec fn handled(accounts: Accounts, now: int) -> Accounts {
    if clearance(accounts.strategy_config, now) is Ok {
        accounts.executed_at(now)
    } else {
        accounts
    }
}

/// The decision of the whole instruction: the constraints first, then the
/// interval.
pub open spec fn decision(accounts: Accounts, now: int) -> Result<(), ErrorCode> {
    match constraints(accounts) {
        Err(e) => Err(e),
        Ok(_) => clearance(accounts.strategy_config, now),
    }
}

/// The accounts after the whole instruction: stamped iff it succeeds.
pub open spec fn effect(accounts: Accounts, now: int) -> Accounts {
    if decision(accounts, now) is Ok {
        accounts.executed_at(now)
    } else {
        accounts
    }
}

/// The handler. Asks the time gate; if the strategy is eligible, stamps the
/// strategy and the profile with `now`, from which the next interval runs. If
/// it is not yet due, nothing changes. `strategy_id`, under which the
/// strategy was looked up, is not read.
pub fn process(ctx: &mut RebalancePositions, strategy_id: u64, now: i64) -> (r: Result<
    (),
    ErrorCode,
>)
    ensures
        r == clearance(old(ctx)@.strategy_config, now as int),
        final(ctx)@ == handled(old(ctx)@, now as int),
        r is Err ==> *final(ctx) == *old(ctx),
        old(ctx).user_profile.wf() ==> final(ctx).user_profile.wf(),
        old(ctx).strategy_config.wf() ==> final(ctx).strategy_config.wf(),
{
    match check_and_advance(&ctx.strategy_config, now) {
        Err(e) => {
            return Err(e);
        },
        Ok(_) => {},
    }
    ctx.strategy_config.last_executed_at = now;
    ctx.user_profile.last_activity = now;
    Ok(())
}

/// After a rebalance at `now`, the accounts as it left them pass again from
/// one interval after `now` on, and not before.
pub proof fn lemma_next_rebalance(accounts: Accounts, now: int, later: int)
    requires
        decision(accounts, now) is Ok,
    ensures
        decision(effect(accounts, now), later) is Ok <==> later >= now
            + accounts.strategy_config.rebalance_condition.time_interval_seconds,
        later < now + accounts.strategy_config.rebalance_condition.time_interval_seconds
            ==> decision(effect(accounts, now), later) == Err::<(), ErrorCode>(
            ErrorCode::RebalanceConditionNotMet,
        ),
{
}

/// A rebalance that fails leaves the accounts as they were.
pub proof fn lemma_failure_changes_nothing(accounts: Accounts, now: int)
    requires
        decision(accounts, now) is Err,
    ensures
        effect(accounts, now) == accounts,
{
}

} // verus!
