//! The time gate on rebalancing: a strategy may be rebalanced once its
//! interval has passed since it was last executed.

use vstd::prelude::*;
use crate::errors::ErrorCode;
use crate::state::{StrategyConfig, StrategyView};

verus! {

/// Where a strategy's time gate stands at some moment.
#[derive(Debug, Clone, Copy, PartialEq, Eq, Structural)]
pub enum RebalanceState {
    /// The interval has passed: the strategy may be rebalanced.
    Eligible,
    /// The interval has not passed yet.
    NotYetDue,
}

/// The state at `now`: eligible iff the time since the last execution
/// is at least the interval. The difference is taken over the integers, so it
/// neither wraps nor saturates.
pub open spec fn state_at(strategy: StrategyView, now: int) -> RebalanceState {
    if now - strategy.last_executed_at >= strategy.rebalance_condition.time_interval_seconds {
        RebalanceState::Eligible
    } else {
        RebalanceState::NotYetDue
    }
}

/// Whether rebalancing is cleared at `now`.
pub open spec fn clearance(strategy: StrategyView, now: int) -> Result<(), ErrorCode> {
    if state_at(strategy, now) == RebalanceState::Eligible {
        Ok(())
    } else {
        Err(ErrorCode::RebalanceConditionNotMet)
    }
}

/// Computes the state at `now`.
pub fn state(strategy: &StrategyConfig, now: i64) -> (s: RebalanceState)
    ensures
        s == state_at(strategy@, now as int),
{
    let elapsed: i128 = now as i128 - strategy.last_executed_at as i128;
    if elapsed >= strategy.rebalance_condition.time_interval_seconds as i128 {
        RebalanceState::Eligible
    } else {
        RebalanceState::NotYetDue
    }
}

/// Decides whether the strategy may be rebalanced at `now`. It only
/// decides: writing `now` to `last_executed_at` is left to the caller, who
/// does it in the same step.
pub fn check_and_advance(strategy: &StrategyConfig, now: i64) -> (r: Result<(), ErrorCode>)
    ensures
        r == clearance(strategy@, now as int),
        r is Ok <==> now - strategy.last_executed_at
            >= strategy.rebalance_condition.time_interval_seconds,
{
    match state(strategy, now) {
        RebalanceState::Eligible => Ok(()),
        RebalanceState::NotYetDue => Err(ErrorCode::RebalanceConditionNotMet),
    }
}

/// A strategy becomes eligible exactly when the interval has passed, and is
/// not yet one second before.
pub proof fn lemma_gate_boundary(strategy: StrategyView, now: int)
    ensures
        now - strategy.last_executed_at == strategy.rebalance_condition.time_interval_seconds
            ==> state_at(strategy, now) == RebalanceState::Eligible,
        now - strategy.last_executed_at == strategy.rebalance_condition.time_interval_seconds - 1
            ==> state_at(strategy, now) == RebalanceState::NotYetDue,
{
}

/// A strategy that was never executed is eligible at any moment that lies at
/// least one interval after the epoch.
pub proof fn lemma_never_executed(strategy: StrategyView, now: int)
    requires
        strategy.last_executed_at == 0,
        now >= strategy.rebalance_condition.time_interval_seconds,
    ensures
        state_at(strategy, now) == RebalanceState::Eligible,
        clearance(strategy, now) is Ok,
{
}

/// Once eligible, a strategy stays eligible as time goes on, until it is
/// executed.
pub proof fn lemma_gate_stays_open(strategy: StrategyView, now: int, later: int)
    requires
        state_at(strategy, now) == RebalanceState::Eligible,
        now <= later,
    ensures
        state_at(strategy, later) == RebalanceState::Eligible,
{
}

} // verus!
