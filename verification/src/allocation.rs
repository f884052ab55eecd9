//! What a proposed strategy must meet before it is created: weights that add
//! up to the whole, and a slippage bound within its limit.

use vstd::prelude::*;
use crate::errors::ErrorCode;
use crate::state::{total_weight, Allocation, MAX_SLIPPAGE_BPS, TOTAL_WEIGHT_BPS};

verus! {

/// The decision on a proposed target mix and slippage bound. The weights are
/// judged first, so a proposal that breaks both rules is refused for its
/// weights. The number of allocations is not limited.
pub open spec fn validation(allocations: Seq<Allocation>, max_slippage_bps: nat) -> Result<
    (),
    ErrorCode,
> {
    if total_weight(allocations) != TOTAL_WEIGHT_BPS {
        Err(ErrorCode::InvalidAllocation)
    } else if max_slippage_bps > MAX_SLIPPAGE_BPS {
        Err(ErrorCode::InvalidSlippage)
    } else {
        Ok(())
    }
}

/// The weight of the first `n + 1` allocations is that of the first `n` plus
/// the weight of the one at `n`.
pub proof fn lemma_total_weight_step(allocations: Seq<Allocation>, n: int)
    requires
        0 <= n < allocations.len(),
    ensures
        total_weight(allocations.take(n + 1)) == total_weight(allocations.take(n))
            + allocations[n].target_weight_bps,
{
    assert(allocations.take(n + 1).drop_last() =~= allocations.take(n));
}

/// No prefix of a target mix weighs more than the whole mix.
pub proof fn lemma_total_weight_prefix(allocations: Seq<Allocation>, n: int)
    requires
        0 <= n <= allocations.len(),
    ensures
        total_weight(allocations.take(n)) <= total_weight(allocations),
    decreases allocations.len() - n,
{
    if n == allocations.len() {
        assert(allocations.take(n) =~= allocations);
    } else {
        lemma_total_weight_step(allocations, n);
        lemma_total_weight_prefix(allocations, n + 1);
    }
}

/// Whether the weights add up to exactly the whole. The running sum never
/// leaves the range of the weights: the walk stops at the first allocation
/// that would carry it past the whole.
pub fn weights_add_up(allocations: &Vec<Allocation>) -> (whole: bool)
    ensures
        whole == (total_weight(allocations@) == TOTAL_WEIGHT_BPS),
{
    let mut sum: u16 = 0;
    let mut i: usize = 0;
    while i < allocations.len()
        invariant
            i <= allocations.len(),
            sum == total_weight(allocations@.take(i as int)),
            sum <= TOTAL_WEIGHT_BPS,
        decreases allocations.len() - i,
    {
        let weight: u16 = allocations[i].target_weight_bps;
        proof {
            lemma_total_weight_step(allocations@, i as int);
        }
        if weight > TOTAL_WEIGHT_BPS - sum {
            proof {
                lemma_total_weight_prefix(allocations@, i + 1);
            }
            return false;
        }
        sum = sum + weight;
        i = i + 1;
    }
    assert(allocations@.take(i as int) =~= allocations@);
    sum == TOTAL_WEIGHT_BPS
}

/// Accepts a proposal iff its weights add up to 10000 basis points and its
/// slippage bound is at most 1000; one basis point more or less in the sum is
/// `InvalidAllocation`.
pub fn validate(allocations: &Vec<Allocation>, max_slippage_bps: u16) -> (r: Result<(), ErrorCode>)
    ensures
        r == validation(allocations@, max_slippage_bps as nat),
        r is Ok <==> total_weight(allocations@) == 10000 && max_slippage_bps <= 1000,
        total_weight(allocations@) != 10000 ==> r == Err::<(), ErrorCode>(
            ErrorCode::InvalidAllocation,
        ),
{
    if !weights_add_up(allocations) {
        return Err(ErrorCode::InvalidAllocation);
    }
    if max_slippage_bps > MAX_SLIPPAGE_BPS {
        return Err(ErrorCode::InvalidSlippage);
    }
    Ok(())
}

} // verus!
