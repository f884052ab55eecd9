//! Checked accounting of the value in a profile's custody. Amounts are whole
//! lamports, and a balance never leaves the range of `u64`.

use vstd::prelude::*;
use crate::errors::ErrorCode;
use crate::state::{ProfileView, UserProfile};

verus! {

/// The decision on a deposit: a zero amount is refused, and so is an amount
/// that would carry the balance past `u64::MAX`.
pub open spec fn deposit_decision(profile: ProfileView, amount: nat) -> Result<(), ErrorCode> {
    if amount == 0 {
        Err(ErrorCode::InsufficientFunds)
    } else if profile.total_value_lamports + amount > u64::MAX {
        Err(ErrorCode::MathError)
    } else {
        Ok(())
    }
}

/// The profile after a deposit at `now`. A zero amount leaves it as it was.
/// Any other amount stamps it, also where the sum overflows and the balance
/// stays.
pub open spec fn deposited(profile: ProfileView, amount: nat, now: int) -> ProfileView {
    if amount == 0 {
        profile
    } else if profile.total_value_lamports + amount > u64::MAX {
        ProfileView { last_activity: now, ..profile }
    } else {
        ProfileView {
            last_activity: now,
            total_value_lamports: profile.total_value_lamports + amount,
            ..profile
        }
    }
}

/// The decision on a withdrawal: a zero amount is refused, and so is an amount
/// above the balance.
pub open spec fn withdrawal_decision(profile: ProfileView, amount: nat) -> Result<(), ErrorCode> {
    if amount == 0 || amount > profile.total_value_lamports {
        Err(ErrorCode::InsufficientFunds)
    } else {
        Ok(())
    }
}

/// The profile after a withdrawal at `now`: stamped and lighter by `amount`
/// if the withdrawal is accepted, else as it was.
pub open spec fn withdrawn(profile: ProfileView, amount: nat, now: int) -> ProfileView {
    if withdrawal_decision(profile, amount) is Ok {
        ProfileView {
            last_activity: now,
            total_value_lamports: (profile.total_value_lamports - amount) as nat,
            ..profile
        }
    } else {
        profile
    }
}

/// Adds `amount` to the balance. The profile is stamped before the sum is
/// taken, so a deposit that overflows still refreshes `last_activity`.
pub fn deposit(profile: &mut UserProfile, amount: u64, now: i64) -> (r: Result<(), ErrorCode>)
    ensures
        r == deposit_decision(old(profile)@, amount as nat),
        final(profile)@ == deposited(old(profile)@, amount as nat, now as int),
        r is Err && r != Err::<(), ErrorCode>(ErrorCode::MathError) ==> *final(profile) == *old(
            profile,
        ),
        old(profile).wf() ==> final(profile).wf(),
{
    if amount == 0 {
        return Err(ErrorCode::InsufficientFunds);
    }
    profile.last_activity = now;
    match profile.total_value_lamports.checked_add(amount) {
        Some(total) => {
            profile.total_value_lamports = total;
            Ok(())
        },
        None => Err(ErrorCode::MathError),
    }
}

/// Takes `amount` from the balance. The amount is judged before anything is
/// written; the subtraction is checked all the same, and would report
/// `MathError`, which the decision shows it never does.
pub fn withdraw(profile: &mut UserProfile, amount: u64, now: i64) -> (r: Result<(), ErrorCode>)
    ensures
        r == withdrawal_decision(old(profile)@, amount as nat),
        final(profile)@ == withdrawn(old(profile)@, amount as nat, now as int),
        r is Err ==> *final(profile) == *old(profile),
        old(profile).wf() ==> final(profile).wf(),
{
    if amount == 0 || amount > profile.total_value_lamports {
        return Err(ErrorCode::InsufficientFunds);
    }
    match profile.total_value_lamports.checked_sub(amount) {
        Some(total) => {
            profile.last_activity = now;
            profile.total_value_lamports = total;
            Ok(())
        },
        None => Err(ErrorCode::MathError),
    }
}

/// A deposit or a withdrawal changes nothing but the balance and the stamp,
/// so it keeps a well-formed profile well formed.
pub proof fn lemma_ledger_keeps_wf(profile: ProfileView, amount: nat, now: int)
    requires
        profile.wf(),
    ensures
        deposited(profile, amount, now).wf(),
        withdrawn(profile, amount, now).wf(),
{
}

/// A refused withdrawal leaves the profile as it was, and so does a deposit
/// of nothing.
pub proof fn lemma_refusal_changes_nothing(profile: ProfileView, amount: nat, now: int)
    ensures
        withdrawal_decision(profile, amount) is Err ==> withdrawn(profile, amount, now) == profile,
        deposit_decision(profile, amount) == Err::<(), ErrorCode>(ErrorCode::InsufficientFunds)
            ==> deposited(profile, amount, now) == profile,
{
}

/// A deposit that overflows is refused with `MathError` and keeps the
/// balance, yet the profile is stamped.
pub proof fn lemma_overflowing_deposit_stamps(profile: ProfileView, amount: nat, now: int)
    requires
        amount > 0,
        profile.total_value_lamports + amount > u64::MAX,
    ensures
        deposit_decision(profile, amount) == Err::<(), ErrorCode>(ErrorCode::MathError),
        deposited(profile, amount, now).last_activity == now,
        deposited(profile, amount, now).total_value_lamports == profile.total_value_lamports,
        deposited(profile, amount, now) == (ProfileView { last_activity: now, ..profile }),
{
}

/// Depositing an amount that the balance has room for and withdrawing it
/// again brings the balance back to where it was.
pub proof fn lemma_deposit_then_withdraw(profile: ProfileView, amount: nat, t1: int, t2: int)
    requires
        profile.total_value_lamports + amount <= u64::MAX,
    ensures
        withdrawn(deposited(profile, amount, t1), amount, t2).total_value_lamports
            == profile.total_value_lamports,
        amount > 0 ==> deposit_decision(profile, amount) is Ok && withdrawal_decision(
            deposited(profile, amount, t1),
            amount,
        ) is Ok,
{
}

} // verus!
