//! The strategy as a state machine over mathematical values.
//!
//! A strategy either does not exist yet (`None`) or holds a
//! `StrategyModel`. The functions here say, for each operation, when it is
//! refused and what state a successful call leaves behind.

use crate::score::{adjusted_score, SCORE_MAX};
use crate::state::{AgentError, StrategyModel};
use vstd::prelude::*;

verus! {

/// The seconds that must pass between two refinements.
pub const COOLDOWN_PERIOD: u64 = 3600;

/// The highest value the trade counter can hold. A full counter stays full.
pub const TRADES_MAX: u32 = u32::MAX;

/// The first moment at which a strategy last refined at `last_refinement`
/// may be refined again.
pub open spec fn next_allowed(last_refinement: nat) -> nat {
    last_refinement + COOLDOWN_PERIOD as nat
}

/// The seconds to wait at `now` before the next refinement: none from
/// `next_allowed` on. A wait too long for a `u64` is reported as
/// `u64::MAX`; that takes a clock that reads earlier than the last
/// refinement.
pub open spec fn cooldown_remaining(last_refinement: nat, now: nat) -> nat {
    if now >= next_allowed(last_refinement) {
        0
    } else if next_allowed(last_refinement) - now > u64::MAX {
        u64::MAX as nat
    } else {
        (next_allowed(last_refinement) - now) as nat
    }
}

/// The time of the last refinement of a strategy, zero where there is none.
pub open spec fn last_refinement_of(state: Option<StrategyModel>) -> nat {
    match state {
        Some(s) => s.last_refinement,
        None => 0,
    }
}

/// Why `initialize` is refused in state `pre`, if it is. An existing
/// strategy is reported before a missing authorization.
pub open spec fn initialize_refusal(pre: Option<StrategyModel>, authorized: bool) -> Option<
    AgentError,
> {
    if pre is Some {
        Some(AgentError::AlreadyInitialized)
    } else if !authorized {
        Some(AgentError::Unauthorized)
    } else {
        None
    }
}

/// The state that a successful `initialize` creates. The score is taken as
/// given, also where it exceeds `SCORE_MAX`.
pub open spec fn initialized(admin: Seq<char>, score: nat, trades: nat) -> StrategyModel {
    StrategyModel { admin, score, total_trades: trades, last_refinement: 0 }
}

/// Why `refine_strategy` is refused in state `pre`, if it is. The checks
/// are made in this order: the call is authorized, the strategy exists, the
/// caller is its administrator, the cooldown has elapsed.
pub open spec fn refine_refusal(
    pre: Option<StrategyModel>,
    caller: Seq<char>,
    authorized: bool,
    now: nat,
) -> Option<AgentError> {
    if !authorized {
        Some(AgentError::Unauthorized)
    } else {
        match pre {
            None => Some(AgentError::NotInitialized),
            Some(s) => if caller != s.admin {
                Some(AgentError::Unauthorized)
            } else if now < next_allowed(s.last_refinement) {
                Some(
                    AgentError::CooldownActive {
                        remaining: cooldown_remaining(s.last_refinement, now) as u64,
                    },
                )
            } else {
                None
            },
        }
    }
}

/// The trade counter after one more trade: one higher, unless it is full.
pub open spec fn counted(total_trades: nat) -> nat {
    if total_trades < TRADES_MAX {
        total_trades + 1
    } else {
        total_trades
    }
}

/// The state that a successful refinement of `pre` at `now` leaves behind.
pub open spec fn refined(pre: StrategyModel, now: nat, metric: int) -> StrategyModel {
    StrategyModel {
        admin: pre.admin,
        score: adjusted_score(pre.score as int, metric) as nat,
        total_trades: counted(pre.total_trades),
        last_refinement: now,
    }
}

/// The score of a strategy, zero where there is none.
pub open spec fn score_of(state: Option<StrategyModel>) -> nat {
    match state {
        Some(s) => s.score,
        None => 0,
    }
}

/// Whether the score of a strategy, where one exists, is within
/// `0..=SCORE_MAX`.
pub open spec fn score_in_range(state: Option<StrategyModel>) -> bool {
    state matches Some(s) ==> s.score <= SCORE_MAX
}

/// The state after a call of `initialize` in state `pre`, refused or not.
pub open spec fn after_initialize(
    pre: Option<StrategyModel>,
    admin: Seq<char>,
    authorized: bool,
    score: nat,
    trades: nat,
) -> Option<StrategyModel> {
    if initialize_refusal(pre, authorized) is None {
        Some(initialized(admin, score, trades))
    } else {
        pre
    }
}

/// The state after a call of `refine_strategy` in state `pre`, refused or
/// not.
pub open spec fn after_refine(
    pre: Option<StrategyModel>,
    caller: Seq<char>,
    authorized: bool,
    now: nat,
    metric: int,
) -> Option<StrategyModel> {
    match pre {
        Some(s) => if refine_refusal(pre, caller, authorized, now) is None {
            Some(refined(s, now, metric))
        } else {
            pre
        },
        None => pre,
    }
}

/// One call that may change the state of an agent, with the facts that its
/// host supplied.
pub enum Call {
    Initialize { admin: Seq<char>, authorized: bool, score: nat, trades: nat },
    Refine { caller: Seq<char>, authorized: bool, now: nat, metric: int },
}

/// Whether `call`, made in state `pre`, takes effect.
pub open spec fn accepted(pre: Option<StrategyModel>, call: Call) -> bool {
    match call {
        Call::Initialize { authorized, .. } => initialize_refusal(pre, authorized) is None,
        Call::Refine { caller, authorized, now, .. } => refine_refusal(
            pre,
            caller,
            authorized,
            now,
        ) is None,
    }
}

/// The state after `call` has been made in state `pre`.
pub open spec fn step(pre: Option<StrategyModel>, call: Call) -> Option<StrategyModel> {
    match call {
        Call::Initialize { admin, authorized, score, trades } => after_initialize(
            pre,
            admin,
            authorized,
            score,
            trades,
        ),
        Call::Refine { caller, authorized, now, metric } => after_refine(
            pre,
            caller,
            authorized,
            now,
            metric,
        ),
    }
}

/// The state that a fresh agent reaches through `calls`, made in order.
pub open spec fn run(calls: Seq<Call>) -> Option<StrategyModel>
    decreases calls.len(),
{
    if calls.len() == 0 {
        None
    } else {
        step(run(calls.drop_last()), calls.last())
    }
}

} // verus!
