//! The agent: the executable state machine that keeps a strategy.

use crate::address::Address;
use crate::model::{
    after_initialize, after_refine, cooldown_remaining, initialize_refusal, last_refinement_of,
    refine_refusal, score_in_range, score_of, COOLDOWN_PERIOD,
};
use crate::score::{
    adjusted_score, metric_magnitude, scaled_adjustment, NEGATIVE_ADJUSTMENT,
    POSITIVE_ADJUSTMENT, SCORE_MAX,
};
use crate::state::{AgentError, Initialized, StrategyModel, StrategyRefined, StrategyState};
use vstd::prelude::*;

verus! {

/// The keeper of one strategy: nothing before `initialize`, its record
/// from then on.
#[derive(Debug)]
pub struct PortfolioAgent {
    state: Option<StrategyState>,
}

impl View for PortfolioAgent {
    type V = Option<StrategyModel>;

    closed spec fn view(&self) -> Option<StrategyModel> {
        match self.state {
            Some(state) => Some(state@),
            None => None,
        }
    }
}

/// Computes the seconds to wait at `now` after a refinement at
/// `last_refinement`.
fn cooldown_left(last_refinement: u64, now: u64) -> (r: u64)
    ensures
        r == cooldown_remaining(last_refinement as nat, now as nat),
{
    if now >= last_refinement {
        let elapsed: u64 = now - last_refinement;
        if elapsed >= COOLDOWN_PERIOD {
            0
        } else {
            COOLDOWN_PERIOD - elapsed
        }
    } else {
        (last_refinement - now).saturating_add(COOLDOWN_PERIOD)
    }
}

impl PortfolioAgent {
    /// An agent that keeps no strategy yet.
    pub fn new() -> (r: PortfolioAgent)
        ensures
            r@ is None,
    {
        PortfolioAgent { state: None }
    }

    /// An agent that keeps the strategy found in a persisted record.
    pub fn restore(state: StrategyState) -> (r: PortfolioAgent)
        ensures
            r@ == Some(state@),
    {
        PortfolioAgent { state: Some(state) }
    }

    /// The record to persist, where a strategy exists.
    pub fn state(&self) -> (r: Option<&StrategyState>)
        ensures
            match r {
                Some(state) => self@ == Some(state@),
                None => self@ is None,
            },
    {
        match &self.state {
            Some(state) => Some(state),
            None => None,
        }
    }

    /// Whether a strategy exists.
    pub fn is_initialized(&self) -> (r: bool)
        ensures
            r == self@ is Some,
    {
        self.state.is_some()
    }

    /// Refines the strategy by `performance_metric` on behalf of `caller`
    /// at time `now`, and returns the new score with the notice to send.
    ///
    /// `authorized` says whether `caller` has authorized this call. The
    /// call is refused, and nothing changes, exactly where `refine_refusal`
    /// gives a reason. Otherwise the score moves by the metric, the time of
    /// the refinement is recorded and the refinement counts as one trade.
    pub fn refine_strategy(
        &mut self,
        caller: Address,
        authorized: bool,
        now: u64,
        performance_metric: i32,
    ) -> (r: Result<(u32, StrategyRefined), AgentError>)
        ensures
            final(self)@ == after_refine(
                old(self)@,
                caller@,
                authorized,
                now as nat,
                performance_metric as int,
            ),
            score_in_range(old(self)@) ==> score_in_range(final(self)@),
            match refine_refusal(old(self)@, caller@, authorized, now as nat) {
                Some(refusal) => r matches Err(e) && e == refusal,
                None => {
                    &&& r matches Ok((new_score, notice))
                    &&& new_score == adjusted_score(
                        score_of(old(self)@) as int,
                        performance_metric as int,
                    )
                    &&& new_score == score_of(final(self)@)
                    &&& new_score <= SCORE_MAX
                    &&& notice.old_score == score_of(old(self)@)
                    &&& notice.new_score == new_score
                    &&& notice.timestamp == now
                    &&& notice.admin@ == caller@
                },
            },
    {
        if !authorized {
            return Err(AgentError::Unauthorized);
        }
        match &mut self.state {
            None => Err(AgentError::NotInitialized),
            Some(state) => {
                if caller != state.admin {
                    return Err(AgentError::Unauthorized);
                }
                let remaining: u64 = cooldown_left(state.last_refinement, now);
                if remaining > 0 {
                    return Err(AgentError::CooldownActive { remaining });
                }
                let old_score: u32 = state.score;
                let new_score: u32 = Self::calculate_new_score(old_score, performance_metric);
                state.score = new_score;
                state.last_refinement = now;
                state.total_trades = state.total_trades.saturating_add(1);
                Ok((new_score, StrategyRefined { old_score, new_score, timestamp: now, admin: caller }))
            },
        }
    }

    /// Reports the score, the trade counter, the time of the last
    /// refinement and the administrator.
    ///
    /// Fails with `NotInitialized` exactly when no strategy exists: there
    /// is no administrator to report then, and the call fails as a whole
    /// rather than answer with zeros as `get_score` does.
    pub fn get_metrics(&self) -> (r: Result<(u32, u32, u64, Address), AgentError>)
        ensures
            match self@ {
                Some(s) => {
                    &&& r matches Ok((score, trades, last_refinement, admin))
                    &&& score == s.score
                    &&& trades == s.total_trades
                    &&& last_refinement == s.last_refinement
                    &&& admin@ == s.admin
                },
                None => r matches Err(e) && e == AgentError::NotInitialized,
            },
    {
        match &self.state {
            Some(state) => Ok(
                (state.score, state.total_trades, state.last_refinement, state.admin.clone()),
            ),
            None => Err(AgentError::NotInitialized),
        }
    }

    /// Creates the strategy with `admin` as its administrator, and returns
    /// the notice to send.
    ///
    /// `authorized` says whether `admin` has authorized this call. The call
    /// is refused, and nothing changes, exactly where `initialize_refusal`
    /// gives a reason. The initial score is stored as given: one above
    /// `SCORE_MAX` stays until the first refinement brings it into range.
    pub fn initialize(
        &mut self,
        admin: Address,
        authorized: bool,
        initial_score: u32,
        initial_trades: u32,
    ) -> (r: Result<Initialized, AgentError>)
        ensures
            final(self)@ == after_initialize(
                old(self)@,
                admin@,
                authorized,
                initial_score as nat,
                initial_trades as nat,
            ),
            score_in_range(old(self)@) && initial_score <= SCORE_MAX ==> score_in_range(
                final(self)@,
            ),
            match initialize_refusal(old(self)@, authorized) {
                Some(refusal) => r matches Err(e) && e == refusal,
                None => {
                    &&& r matches Ok(notice)
                    &&& notice.admin@ == admin@
                    &&& notice.initial_score == initial_score
                    &&& notice.initial_trades == initial_trades
                },
            },
    {
        if self.state.is_some() {
            return Err(AgentError::AlreadyInitialized);
        }
        if !authorized {
            return Err(AgentError::Unauthorized);
        }
        let notice = Initialized { admin: admin.clone(), initial_score, initial_trades };
        self.state = Some(
            StrategyState {
                score: initial_score,
                total_trades: initial_trades,
                last_refinement: 0,
                admin,
            },
        );
        Ok(notice)
    }

    /// Reports the seconds to wait at `now` before the next refinement is
    /// allowed. A strategy that does not exist counts as last refined at
    /// time zero.
    pub fn get_cooldown_remaining(&self, now: u64) -> (r: u64)
        ensures
            r == cooldown_remaining(last_refinement_of(self@), now as nat),
    {
        let last_refinement: u64 = match &self.state {
            Some(state) => state.last_refinement,
            None => 0,
        };
        cooldown_left(last_refinement, now)
    }

    /// Reports the score, zero where no strategy exists.
    pub fn get_score(&self) -> (r: u32)
        ensures
            r == score_of(self@),
    {
        match &self.state {
            Some(state) => state.score,
            None => 0,
        }
    }

    /// Computes the score that follows `current_score` once
    /// `performance_metric` has been applied.
    pub fn calculate_new_score(current_score: u32, performance_metric: i32) -> (new_score: u32)
        ensures
            new_score == adjusted_score(current_score as int, performance_metric as int),
            new_score <= SCORE_MAX,
    {
        let moved: u32 = if performance_metric > 0 {
            let increase: u32 = scaled_adjustment(
                metric_magnitude(performance_metric),
                POSITIVE_ADJUSTMENT,
            );
            current_score.saturating_add(increase)
        } else if performance_metric < 0 {
            let decrease: u32 = scaled_adjustment(
                metric_magnitude(performance_metric),
                NEGATIVE_ADJUSTMENT,
            );
            current_score.saturating_sub(decrease)
        } else {
            current_score
        };
        if moved > SCORE_MAX {
            SCORE_MAX
        } else {
            moved
        }
    }
}

} // verus!
