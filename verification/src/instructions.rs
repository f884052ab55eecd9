//! The handlers of the instructions, one module each. A handler works on the
//! accounts of its instruction: the signer and the records that the
//! instruction names, already looked up. What the accounts must meet before
//! the handler runs is each module's `constraints`; the crate's root puts the
//! two together.

use vstd::prelude::*;
use crate::state::{ProfileView, StrategyView};

pub mod create_strategy;
pub mod deposit_funds;
pub mod execute_strategy;
pub mod initialize_user;
pub mod rebalance_positions;
pub mod withdraw_funds;

verus! {

/// The accounts of an instruction on one strategy, as mathematical values.
pub struct Accounts {
    /// The signer.
    pub owner: Seq<u8>,
    /// The signer's profile.
    pub user_profile: ProfileView,
    /// The strategy that the instruction names.
    pub strategy_config: StrategyView,
}

impl Accounts {
    /// The accounts with another profile.
    pub open spec fn with_profile(self, user_profile: ProfileView) -> Accounts {
        Accounts { user_profile, ..self }
    }

    /// The accounts after the strategy ran at `now`: both records carry the
    /// moment, and nothing else has changed.
    pub open spec fn executed_at(self, now: int) -> Accounts {
        Accounts {
            owner: self.owner,
            user_profile: ProfileView { last_activity: now, ..self.user_profile },
            strategy_config: StrategyView { last_executed_at: now, ..self.strategy_config },
        }
    }
}

/// What no instruction on an existing strategy ever changes: who owns the
/// records, the profile's risk level and counter, and what the strategy was
/// created with.
pub open spec fn same_records(before: Accounts, after: Accounts) -> bool {
    &&& after.owner == before.owner
    &&& after.user_profile.owner == before.user_profile.owner
    &&& after.user_profile.risk_level == before.user_profile.risk_level
    &&& after.user_profile.strategy_counter == before.user_profile.strategy_counter
    &&& after.user_profile.vault_bump == before.user_profile.vault_bump
    &&& after.user_profile.is_paused == before.user_profile.is_paused
    &&& after.strategy_config.owner == before.strategy_config.owner
    &&& after.strategy_config.strategy_id == before.strategy_config.strategy_id
    &&& after.strategy_config.allocations == before.strategy_config.allocations
    &&& after.strategy_config.rebalance_condition == before.strategy_config.rebalance_condition
    &&& after.strategy_config.created_at == before.strategy_config.created_at
    &&& after.strategy_config.max_slippage_bps == before.strategy_config.max_slippage_bps
}

/// Depositing, withdrawing, executing and rebalancing keep the records what
/// they are: they write balances and moments only. So they keep both records
/// well formed, and a strategy with its profile.
pub proof fn lemma_records_stay_the_same(accounts: Accounts, amount: nat, now: int)
    ensures
        same_records(accounts, deposit_funds::effect(accounts, amount, now)),
        same_records(accounts, withdraw_funds::effect(accounts, amount, now)),
        same_records(accounts, execute_strategy::effect(accounts, now)),
        same_records(accounts, rebalance_positions::effect(accounts, now)),
{
}

/// A deposit that is accepted can be withdrawn again at once, and the balance
/// is then what it was before the deposit.
pub proof fn lemma_deposit_then_withdraw(accounts: Accounts, amount: nat, t1: int, t2: int)
    requires
        deposit_funds::decision(accounts, amount) is Ok,
    ensures
        withdraw_funds::decision(deposit_funds::effect(accounts, amount, t1), amount) is Ok,
        withdraw_funds::effect(
            deposit_funds::effect(accounts, amount, t1),
            amount,
            t2,
        ).user_profile.total_value_lamports == accounts.user_profile.total_value_lamports,
{
}

/// Records that only balances and moments tell apart are well formed
/// together, and the strategy of the one is the profile's iff that of the
/// other is.
pub proof fn lemma_same_records_same_wf(before: Accounts, after: Accounts)
    requires
        same_records(before, after),
    ensures
        after.user_profile.wf() == before.user_profile.wf(),
        after.strategy_config.wf() == before.strategy_config.wf(),
        after.strategy_config.belongs_to(after.user_profile) == before.strategy_config.belongs_to(
            before.user_profile,
        ),
{
}

} // verus!
