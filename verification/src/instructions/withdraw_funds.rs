//! Withdrawing from a profile's custody. A paused profile still pays out:
//! its owner can always leave.

use vstd::prelude::*;
use crate::errors::ErrorCode;
use crate::guard::{authorization, check};
use crate::instructions::Accounts;
use crate::ledger::{withdraw, withdrawal_decision, withdrawn};
use crate::state::{Identity, ProfileView, StrategyConfig, UserProfile};

verus! {

/// The accounts of the instruction: the signer, the signer's profile, and the
/// strategy that the withdrawal is made from.
#[derive(Debug, Clone, PartialEq, Eq)]
pub struct WithdrawFunds {
    pub owner: Identity,
    pub user_profile: UserProfile,
    pub strategy_config: StrategyConfig,
}

impl View for WithdrawFunds {
    type V = Accounts;

    open spec fn view(&self) -> Accounts {
        Accounts {
            owner: self.owner@,
            user_profile: self.user_profile@,
            strategy_config: self.strategy_config@,
        }
    }
}

/// What the accounts must meet before the handler runs: the signer owns the
/// profile and the strategy. Whether the profile is paused is not asked.
pub open spec fn constraints(accounts: Accounts) -> Result<(), ErrorCode> {
    if authorization(accounts.owner, accounts.user_profile.owner) is Err {
        Err(ErrorCode::Unauthorized)
    } else {
        authorization(accounts.owner, accounts.strategy_config.owner)
    }
}

/// What the handler answers. The signer must own the profile; then the
/// ledger judges the amount.
pub open spec fn handler_decision(accounts: Accounts, amount: nat) -> Result<(), ErrorCode> {
    match authorization(accounts.owner, accounts.user_profile.owner) {
        Err(e) => Err(e),
        Ok(_) => withdrawal_decision(accounts.user_profile, amount),
    }
}

/// The accounts after the handler: as the ledger leaves the profile where the
/// signer owns it, else untouched.
pub open spec fn handled(accounts: Accounts, amount: nat, now: int) -> Accounts {
    if authorization(accounts.owner, accounts.user_profile.owner) is Ok {
        accounts.with_profile(withdrawn(accounts.user_profile, amount, now))
    } else {
        accounts
    }
}

/// The decision of the whole instruction: the constraints first, then the
/// ledger's.
pub open spec fn decision(accounts: Accounts, amount: nat) -> Result<(), ErrorCode> {
    match constraints(accounts) {
        Err(e) => Err(e),
        Ok(_) => withdrawal_decision(accounts.user_profile, amount),
    }
}

/// The accounts after the whole instruction: untouched where the constraints
/// refuse, else as the ledger leaves the profile.
pub open spec fn effect(accounts: Accounts, amount: nat, now: int) -> Accounts {
    if constraints(accounts) is Ok {
        accounts.with_profile(withdrawn(accounts.user_profile, amount, now))
    } else {
        accounts
    }
}

/// The handler. It asks for the profile's owner itself, then lets the ledger
/// pay out. The strategy is not read, and `strategy_id`, under which it was
/// looked up, is not either.
pub fn process(ctx: &mut WithdrawFunds, strategy_id: u64, amount: u64, now: i64) -> (r: Result<
    (),
    ErrorCode,
>)
    ensures
        r == handler_decision(old(ctx)@, amount as nat),
        final(ctx)@ == handled(old(ctx)@, amount as nat, now as int),
        final(ctx).owner == old(ctx).owner,
        final(ctx).strategy_config == old(ctx).strategy_config,
        r is Err ==> *final(ctx) == *old(ctx),
        old(ctx).user_profile.wf() ==> final(ctx).user_profile.wf(),
{
    match check(&ctx.owner, &ctx.user_profile.owner) {
        Err(e) => {
            return Err(e);
        },
        Ok(_) => {},
    }
    withdraw(&mut ctx.user_profile, amount, now)
}

/// A withdrawal that fails leaves the accounts as they were.
pub proof fn lemma_failure_changes_nothing(accounts: Accounts, amount: nat, now: int)
    requires
        decision(accounts, amount) is Err,
    ensures
        effect(accounts, amount, now) == accounts,
{
}

/// Whether the profile is paused makes no difference to a withdrawal.
pub proof fn lemma_pause_is_not_asked(accounts: Accounts, paused: bool, amount: nat)
    ensures
        decision(
            accounts.with_profile(ProfileView { is_paused: paused, ..accounts.user_profile }),
            amount,
        ) == decision(accounts, amount),
{
}

} // verus!
