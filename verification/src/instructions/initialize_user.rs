//! Creating the profile of an identity.

use vstd::prelude::*;
use crate::errors::ErrorCode;
use crate::state::{Identity, ProfileView, UserProfile, MAX_RISK_LEVEL, MIN_RISK_LEVEL};

verus! {

/// The accounts of the instruction: the signer, the record that the new
/// profile is written to, and the bump seed that the record's address was
/// found with.
#[derive(Debug, Clone, PartialEq, Eq)]
pub struct InitializeUser {
    pub owner: Identity,
    pub user_profile: UserProfile,
    pub bump: u8,
}

/// The accounts of the instruction as mathematical values.
pub struct InitializeUserView {
    pub owner: Seq<u8>,
    pub user_profile: ProfileView,
    pub bump: nat,
}

impl View for InitializeUser {
    type V = InitializeUserView;

    open spec fn view(&self) -> InitializeUserView {
        InitializeUserView {
            owner: self.owner@,
            user_profile: self.user_profile@,
            bump: self.bump as nat,
        }
    }
}

/// The decision on a risk level: it must lie within `1..=5`.
pub open spec fn decision(risk_level: nat) -> Result<(), ErrorCode> {
    if MIN_RISK_LEVEL <= risk_level <= MAX_RISK_LEVEL {
        Ok(())
    } else {
        Err(ErrorCode::InvalidRiskLevel)
    }
}

/// The profile that `owner` starts with at `now`: no strategies, no value,
/// not paused.
pub open spec fn fresh_profile(owner: Seq<u8>, risk_level: nat, vault_bump: nat, now: int)
    -> ProfileView {
    ProfileView {
        owner,
        risk_level,
        strategy_counter: 0,
        vault_bump,
        last_activity: now,
        total_value_lamports: 0,
        is_paused: false,
    }
}

/// The accounts after the instruction: the record holds the signer's fresh
/// profile iff the risk level is accepted.
pub open spec fn effect(accounts: InitializeUserView, risk_level: nat, now: int)
    -> InitializeUserView {
    if decision(risk_level) is Ok {
        InitializeUserView {
            user_profile: fresh_profile(accounts.owner, risk_level, accounts.bump, now),
            ..accounts
        }
    } else {
        accounts
    }
}

/// The handler. Accepts the risk levels 1 to 5 and writes the signer's fresh
/// profile over whatever the record held; refuses any other level with
/// `InvalidRiskLevel` and writes nothing. That an identity gets one profile
/// only is the record store's to enforce.
pub fn process(ctx: &mut InitializeUser, risk_level: u8, now: i64) -> (r: Result<(), ErrorCode>)
    ensures
        r == decision(risk_level as nat),
        r is Ok <==> 1 <= risk_level <= 5,
        r is Err ==> r == Err::<(), ErrorCode>(ErrorCode::InvalidRiskLevel),
        final(ctx)@ == effect(old(ctx)@, risk_level as nat, now as int),
        r is Ok ==> final(ctx).user_profile.wf(),
        r is Err ==> *final(ctx) == *old(ctx),
{
    if risk_level < MIN_RISK_LEVEL || risk_level > MAX_RISK_LEVEL {
        return Err(ErrorCode::InvalidRiskLevel);
    }
    ctx.user_profile.owner = ctx.owner;
    ctx.user_profile.risk_level = risk_level;
    ctx.user_profile.strategy_counter = 0;
    ctx.user_profile.vault_bump = ctx.bump;
    ctx.user_profile.last_activity = now;
    ctx.user_profile.total_value_lamports = 0;
    ctx.user_profile.is_paused = false;
    Ok(())
}

} // verus!
