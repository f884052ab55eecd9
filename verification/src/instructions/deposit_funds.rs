//! Depositing into a profile's custody.

use vstd::prelude::*;
use crate::errors::ErrorCode;
use crate::guard::{activity, authorization};
use crate::instructions::Accounts;
use crate::ledger::{deposit, deposit_decision, deposited};
use crate::state::{Identity, ProfileView, StrategyConfig, UserProfile};

verus! {

/// The accounts of the instruction: the signer, the signer's profile, and the
/// strategy that the deposit is made for.
#[derive(Debug, Clone, PartialEq, Eq)]
pub struct DepositFunds {
    pub owner: Identity,
    pub user_profile: UserProfile,
    pub strategy_config: StrategyConfig,
}

impl View for DepositFunds {
    type V = Accounts;

    open spec fn view(&self) -> Accounts {
        Accounts {
            owner: self.owner@,
            user_profile: self.user_profile@,
            strategy_config: self.strategy_config@,
        }
    }
}

/// What the accounts must meet before the handler runs, in the order in which
/// it is looked at: the signer owns the profile, the profile is not paused,
/// the signer owns the strategy.
pub open spec fn constraints(accounts: Accounts) -> Result<(), ErrorCode> {
    if authorization(accounts.owner, accounts.user_profile.owner) is Err {
        Err(ErrorCode::Unauthorized)
    } else if activity(accounts.user_profile) is Err {
        Err(ErrorCode::StrategyPaused)
    } else {
        authorization(accounts.owner, accounts.strategy_config.owner)
    }
}

/// The decision of the whole instruction: the constraints first, then the
/// ledger's.
pub open spec fn decision(accounts: Accounts, amount: nat) -> Result<(), ErrorCode> {
    match constraints(accounts) {
        Err(e) => Err(e),
        Ok(_) => deposit_decision(accounts.user_profile, amount),
    }
}

/// The accounts after the whole instruction: untouched where the constraints
/// refuse, else as the ledger leaves the profile.
pub open spec fn effect(accounts: Accounts, amount: nat, now: int) -> Accounts {
    if constraints(accounts) is Ok {
        accounts.with_profile(deposited(accounts.user_profile, amount, now))
    } else {
        accounts
    }
}

/// The handler. All value goes to the profile's one balance: the strategy is
/// not read, and `strategy_id`, under which it was looked up, is not either.
pub fn process(ctx: &mut DepositFunds, strategy_id: u64, amount: u64, now: i64) -> (r: Result<
    (),
    ErrorCode,
>)
    ensures
        r == deposit_decision(old(ctx)@.user_profile, amount as nat),
        final(ctx)@ == old(ctx)@.with_profile(
            deposited(old(ctx)@.user_profile, amount as nat, now as int),
        ),
        final(ctx).owner == old(ctx).owner,
        final(ctx).strategy_config == old(ctx).strategy_config,
        old(ctx).user_profile.wf() ==> final(ctx).user_profile.wf(),
        r is Err && r != Err::<(), ErrorCode>(ErrorCode::MathError) ==> *final(ctx) == *old(ctx),
{
    deposit(&mut ctx.user_profile, amount, now)
}

/// A deposit that fails leaves the counter and the balance as they were. It
/// leaves the stamp too, unless it fails with `MathError`: then the profile
/// is stamped and nothing else has changed.
pub proof fn lemma_failure_keeps_ledger(accounts: Accounts, amount: nat, now: int)
    requires
        decision(accounts, amount) is Err,
    ensures
        effect(accounts, amount, now).user_profile.strategy_counter
            == accounts.user_profile.strategy_counter,
        effect(accounts, amount, now).user_profile.total_value_lamports
            == accounts.user_profile.total_value_lamports,
        decision(accounts, amount) != Err::<(), ErrorCode>(ErrorCode::MathError) ==> effect(
            accounts,
            amount,
            now,
        ) == accounts,
        decision(accounts, amount) == Err::<(), ErrorCode>(ErrorCode::MathError) ==> effect(
            accounts,
            amount,
            now,
        ) == accounts.with_profile(
            ProfileView { last_activity: now, ..accounts.user_profile },
        ),
{
}

/// A paused profile takes no deposit from its owner.
pub proof fn lemma_paused_refuses(accounts: Accounts, amount: nat)
    requires
        accounts.owner == accounts.user_profile.owner,
        accounts.user_profile.is_paused,
    ensures
        decision(accounts, amount) == Err::<(), ErrorCode>(ErrorCode::StrategyPaused),
{
}

} // verus!
