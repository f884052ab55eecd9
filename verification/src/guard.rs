//! Who may act on a record, and whether the owning profile lets anyone act.

use vstd::prelude::*;
use crate::errors::ErrorCode;
use crate::state::{Identity, ProfileView, UserProfile};

verus! {

/// The caller may act on a record iff the caller is its recorded owner.
pub open spec fn authorization(caller: Seq<u8>, record_owner: Seq<u8>) -> Result<(), ErrorCode> {
    if caller == record_owner {
        Ok(())
    } else {
        Err(ErrorCode::Unauthorized)
    }
}

/// A paused profile refuses whatever enters or acts.
pub open spec fn activity(profile: ProfileView) -> Result<(), ErrorCode> {
    if profile.is_paused {
        Err(ErrorCode::StrategyPaused)
    } else {
        Ok(())
    }
}

/// Whether two identities are the same 32 bytes.
pub fn same_identity(a: &Identity, b: &Identity) -> (same: bool)
    ensures
        same == (a@ == b@),
{
    let mut i: usize = 0;
    while i < 32
        invariant
            i <= 32,
            forall|j: int| 0 <= j < i ==> a@[j] == b@[j],
        decreases 32 - i,
    {
        if a[i] != b[i] {
            return false;
        }
        i += 1;
    }
    assert(a@ =~= b@);
    true
}

/// Lets the recorded owner of a record through and nobody else.
pub fn check(caller: &Identity, record_owner: &Identity) -> (r: Result<(), ErrorCode>)
    ensures
        r == authorization(caller@, record_owner@),
{
    if same_identity(caller, record_owner) {
        Ok(())
    } else {
        Err(ErrorCode::Unauthorized)
    }
}

/// Lets a profile through unless it is paused.
pub fn check_active(profile: &UserProfile) -> (r: Result<(), ErrorCode>)
    ensures
        r == activity(profile@),
{
    if profile.is_paused {
        Err(ErrorCode::StrategyPaused)
    } else {
        Ok(())
    }
}

} // verus!
