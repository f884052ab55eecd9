use vstd::prelude::*;

verus! {

/// Why an operation was refused. Every kind is terminal for the operation
/// that reports it.
#[derive(Debug, Clone, Copy, PartialEq, Eq, Structural)]
pub enum ErrorCode {
    /// The caller is not the recorded owner of a record it tried to act on.
    Unauthorized,
    /// A risk level outside `1..=5`.
    InvalidRiskLevel,
    /// A strategy identifier that names no strategy.
    InvalidStrategyId,
    /// Allocation weights that do not add up to 10000 basis points.
    InvalidAllocation,
    /// A slippage bound above 1000 basis points.
    InvalidSlippage,
    /// The owning profile is paused.
    StrategyPaused,
    /// A zero amount, or a withdrawal larger than the balance.
    InsufficientFunds,
    /// A trade moved further than the strategy's slippage bound.
    SlippageExceeded,
    /// A protocol version this program cannot work with.
    IncompatibleProtocol,
    /// A protocol that is not in the registry.
    ProtocolNotRegistered,
    /// An operation that ran out of time.
    OperationTimeout,
    /// Checked arithmetic left the range of the balance.
    MathError,
    /// A position that is not tracked.
    PositionNotFound,
    /// The rebalance interval has not elapsed yet.
    RebalanceConditionNotMet,
    /// The emergency mode is on.
    EmergencyModeActive,
    /// The record store already holds a record under the key.
    AlreadyExists,
    /// The record store holds no record under the key.
    NotFound,
}

} // verus!
