//! The persisted record, the notices that announce a change to it, and the
//! reasons for which an operation is refused.

use crate::address::Address;
use vstd::prelude::*;

verus! {

/// The record of a strategy, as it is persisted between calls.
#[derive(Debug)]
pub struct StrategyState {
    /// The strategy score, in hundredths: 870 stands for 8.70.
    pub score: u32,
    /// How many trades were counted; every refinement counts as one.
    pub total_trades: u32,
    /// The time of the last refinement in seconds, zero before the first.
    pub last_refinement: u64,
    /// The only identity that may refine the strategy.
    pub admin: Address,
}

/// The mathematical content of a `StrategyState`.
pub struct StrategyModel {
    pub admin: Seq<char>,
    pub score: nat,
    pub total_trades: nat,
    pub last_refinement: nat,
}

impl View for StrategyState {
    type V = StrategyModel;

    open spec fn view(&self) -> StrategyModel {
        StrategyModel {
            admin: self.admin@,
            score: self.score as nat,
            total_trades: self.total_trades as nat,
            last_refinement: self.last_refinement as nat,
        }
    }
}

/// Why an operation was refused. A refused operation changes nothing.
#[derive(Debug, Clone, Copy, PartialEq, Eq, Structural)]
pub enum AgentError {
    /// `initialize` was called on a strategy that already exists.
    AlreadyInitialized,
    /// The operation needs a strategy and none exists yet.
    NotInitialized,
    /// The call was not authorized by the identity it names, or that
    /// identity is not the administrator.
    Unauthorized,
    /// The cooldown since the last refinement has not elapsed.
    CooldownActive {
        /// The seconds still to wait.
        remaining: u64,
    },
}

/// The notice that a strategy has been initialized.
#[derive(Debug)]
pub struct Initialized {
    pub admin: Address,
    pub initial_score: u32,
    pub initial_trades: u32,
}

/// The notice that a strategy has been refined.
#[derive(Debug)]
pub struct StrategyRefined {
    pub old_score: u32,
    pub new_score: u32,
    pub timestamp: u64,
    pub admin: Address,
}

} // verus!
