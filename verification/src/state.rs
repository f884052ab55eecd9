use vstd::prelude::*;

verus! {

/// What the allocation weights of a strategy add up to, in basis points.
pub const TOTAL_WEIGHT_BPS: u16 = 10000;

/// The largest slippage bound a strategy may carry, in basis points.
pub const MAX_SLIPPAGE_BPS: u16 = 1000;

/// The most cautious risk level.
pub const MIN_RISK_LEVEL: u8 = 1;

/// The most tolerant risk level.
pub const MAX_RISK_LEVEL: u8 = 5;

/// The key of an identity: 32 bytes, compared byte by byte.
pub type Identity = [u8; 32];

/// One entry of a strategy's target mix.
#[derive(Debug, Clone, Copy, PartialEq, Eq, Structural)]
pub struct Allocation {
    /// The protocol slot, see [`Protocol::slot`].
    pub protocol: u8,
    /// The asset slot, see [`Asset::slot`].
    pub asset: u8,
    /// The share of the strategy's capital, in basis points.
    pub target_weight_bps: u16,
}

/// When a strategy may be rebalanced.
#[derive(Debug, Clone, Copy, PartialEq, Eq, Structural)]
pub struct RebalanceCondition {
    /// The least number of seconds between two executions.
    pub time_interval_seconds: u64,
    /// The deviation from the target mix that is tolerated, in basis points.
    pub max_deviation_bps: u16,
    /// Whether rebalancing runs without being asked for.
    pub auto_rebalance: bool,
}

/// The root record of an identity.
#[derive(Debug, Clone, PartialEq, Eq)]
pub struct UserProfile {
    /// The identity that owns the profile.
    pub owner: Identity,
    /// The risk preference, `1..=5`.
    pub risk_level: u8,
    /// The identifier that the owner's next strategy gets.
    pub strategy_counter: u64,
    /// The bump seed of the profile's vault address.
    pub vault_bump: u8,
    /// When the profile was last changed.
    pub last_activity: i64,
    /// The value in custody, in lamports.
    pub total_value_lamports: u64,
    /// Whether the profile is paused.
    pub is_paused: bool,
}

/// A profile as a mathematical value.
pub struct ProfileView {
    pub owner: Seq<u8>,
    pub risk_level: nat,
    pub strategy_counter: nat,
    pub vault_bump: nat,
    pub last_activity: int,
    pub total_value_lamports: nat,
    pub is_paused: bool,
}

impl View for UserProfile {
    type V = ProfileView;

    open spec fn view(&self) -> ProfileView {
        ProfileView {
            owner: self.owner@,
            risk_level: self.risk_level as nat,
            strategy_counter: self.strategy_counter as nat,
            vault_bump: self.vault_bump as nat,
            last_activity: self.last_activity as int,
            total_value_lamports: self.total_value_lamports as nat,
            is_paused: self.is_paused,
        }
    }
}

impl ProfileView {
    /// The risk level lies within its range.
    pub open spec fn wf(self) -> bool {
        MIN_RISK_LEVEL <= self.risk_level <= MAX_RISK_LEVEL
    }
}

impl UserProfile {
    /// The profile's invariant: its view is well formed.
    pub open spec fn wf(&self) -> bool {
        self@.wf()
    }
}

/// A named allocation plan of one owner.
#[derive(Debug, Clone, PartialEq, Eq)]
pub struct StrategyConfig {
    /// The identity that owns the strategy.
    pub owner: Identity,
    /// The strategy's number among its owner's strategies, from zero.
    pub strategy_id: u64,
    /// The target mix.
    pub allocations: Vec<Allocation>,
    /// When the strategy may be rebalanced.
    pub rebalance_condition: RebalanceCondition,
    /// When the strategy was created.
    pub created_at: i64,
    /// When the strategy was last executed or rebalanced; 0 before the first time.
    pub last_executed_at: i64,
    /// The slippage that a trade of the strategy may suffer, in basis points.
    pub max_slippage_bps: u16,
}

/// A strategy as a mathematical value.
pub struct StrategyView {
    pub owner: Seq<u8>,
    pub strategy_id: nat,
    pub allocations: Seq<Allocation>,
    pub rebalance_condition: RebalanceCondition,
    pub created_at: int,
    pub last_executed_at: int,
    pub max_slippage_bps: nat,
}

impl View for StrategyConfig {
    type V = StrategyView;

    open spec fn view(&self) -> StrategyView {
        StrategyView {
            owner: self.owner@,
            strategy_id: self.strategy_id as nat,
            allocations: self.allocations@,
            rebalance_condition: self.rebalance_condition,
            created_at: self.created_at as int,
            last_executed_at: self.last_executed_at as int,
            max_slippage_bps: self.max_slippage_bps as nat,
        }
    }
}

/// The sum of the weights of `allocations`, in basis points.
pub open spec fn total_weight(allocations: Seq<Allocation>) -> nat
    decreases allocations.len(),
{
    if allocations.len() == 0 {
        0
    } else {
        total_weight(allocations.drop_last()) + allocations.last().target_weight_bps as nat
    }
}

impl StrategyView {
    /// The weights add up to the whole and the slippage bound is within its limit.
    pub open spec fn wf(self) -> bool {
        &&& total_weight(self.allocations) == TOTAL_WEIGHT_BPS
        &&& self.max_slippage_bps <= MAX_SLIPPAGE_BPS
    }

    /// The strategy is one of `profile`'s: same owner, and an identifier that
    /// the profile's counter has already handed out.
    pub open spec fn belongs_to(self, profile: ProfileView) -> bool {
        &&& self.owner == profile.owner
        &&& self.strategy_id < profile.strategy_counter
    }
}

impl StrategyConfig {
    /// The strategy's invariant: its view is well formed.
    pub open spec fn wf(&self) -> bool {
        self@.wf()
    }
}

/// The position of one strategy in one asset of one protocol.
#[derive(Debug, Clone, PartialEq, Eq)]
pub struct PositionTracker {
    pub strategy_id: u64,
    pub protocol: [u8; 32],
    pub asset: [u8; 32],
    pub position_value_lamports: u64,
    pub initial_apy_bps: u32,
    pub current_apy_bps: u32,
    pub last_updated_at: i64,
}

/// A protocol that strategies may allocate to.
#[derive(Debug, Clone, PartialEq, Eq)]
pub struct ProtocolRegistry {
    pub name: [u8; 32],
    pub program_id: Identity,
    pub version: [u8; 16],
    pub min_compatible_version: [u8; 16],
    pub active: bool,
    /// From 0, the safest, to 100.
    pub risk_score: u8,
}

/// The protocols that an allocation can name.
#[derive(Debug, Clone, Copy, PartialEq, Eq, Structural)]
pub enum Protocol {
    Raydium,
    Solend,
    Orca,
    Mango,
}

impl Protocol {
    /// The number that stands for the protocol in [`Allocation::protocol`].
    pub fn slot(&self) -> (s: u8)
        ensures
            s == match *self {
                Protocol::Raydium => 0u8,
                Protocol::Solend => 1u8,
                Protocol::Orca => 2u8,
                Protocol::Mango => 3u8,
            },
    {
        match self {
            Protocol::Raydium => 0,
            Protocol::Solend => 1,
            Protocol::Orca => 2,
            Protocol::Mango => 3,
        }
    }
}

/// The assets that an allocation can name.
#[derive(Debug, Clone, Copy, PartialEq, Eq, Structural)]
pub enum Asset {
    SOL,
    USDC,
    USDT,
}

impl Asset {
    /// The number that stands for the asset in [`Allocation::asset`].
    pub fn slot(&self) -> (s: u8)
        ensures
            s == match *self {
                Asset::SOL => 0u8,
                Asset::USDC => 1u8,
                Asset::USDT => 2u8,
            },
    {
        match self {
            Asset::SOL => 0,
            Asset::USDC => 1,
            Asset::USDT => 2,
        }
    }
}

} // verus!
