//! Executing a strategy. What the execution does to positions is the
//! protocol adapter's business, after this step: here it leaves its moment on
//! both records.

use vstd::prelude::*;
use crate::errors::ErrorCode;
use crate::guard::{activity, authorization};
use crate::instructions::Accounts;
use crate::state::{Identity, StrategyConfig, UserProfile};

verus! {

/// The accounts of the instruction: the signer, the signer's profile, and the
/// strategy to execute.
#[derive(Debug, Clone, PartialEq, Eq)]
pub struct ExecuteStrategy {
    pub owner: Identity,
    pub user_profile: UserProfile,
    pub strategy_config: StrategyConfig,
}

impl View for ExecuteStrategy {
    type V = Accounts;

    open spec fn view(&self) -> Accounts {
        Accounts {
            owner: self.owner@,
            user_profile: self.user_profile@,
            strategy_config: self.strategy_config@,
        }
    }
}

/// What the accounts must meet before the handler runs, in the order in which
/// it is looked at: the signer owns the profile, the profile is not paused,
/// the signer owns the strategy.
pub open spec fn constraints(accounts: Accounts) -> Result<(), ErrorCode> {
    if authorization(accounts.owner, accounts.user_profile.owner) is Err {
        Err(ErrorCode::Unauthorized)
    } else if activity(accounts.user_profile) is Err {
        Err(ErrorCode::StrategyPaused)
    } else {
        authorization(accounts.owner, accounts.strategy_config.owner)
    }
}

/// The accounts after the whole instruction: stamped iff the constraints are
/// met.
pub open spec fn effect(accounts: Accounts, now: int) -> Accounts {
    if constraints(accounts) is Ok {
        accounts.executed_at(now)
    } else {
        accounts
    }
}

/// The handler: stamps the strategy and the profile with `now`. It refuses
/// nothing. `strategy_id`, under which the strategy was looked up, is not
/// read.
pub fn process(ctx: &mut ExecuteStrategy, strategy_id: u64, now: i64) -> (r: Result<(), ErrorCode>)
    ensures
        r == Ok::<(), ErrorCode>(()),
        final(ctx)@ == old(ctx)@.executed_at(now as int),
        old(ctx).user_profile.wf() ==> final(ctx).user_profile.wf(),
        old(ctx).strategy_config.wf() ==> final(ctx).strategy_config.wf(),
{
    ctx.strategy_config.last_executed_at = now;
    ctx.user_profile.last_activity = now;
    Ok(())
}

} // verus!
