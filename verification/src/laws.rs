//! What holds of every strategy, whatever calls were made.

use crate::model::{
    accepted, after_initialize, after_refine, cooldown_remaining, initialize_refusal,
    last_refinement_of, next_allowed, refine_refusal, refined, run, score_in_range, step,
    Call, COOLDOWN_PERIOD, TRADES_MAX,
};
use crate::score::{
    adjusted_score, adjustment, NEGATIVE_ADJUSTMENT, POSITIVE_ADJUSTMENT, SCORE_MAX,
};
use crate::state::{AgentError, StrategyModel};
use vstd::prelude::*;

verus! {

/// Whether every call of `calls` that creates a strategy gives it a score
/// within `0..=SCORE_MAX`.
pub open spec fn created_in_range(calls: Seq<Call>) -> bool {
    forall|i: int|
        0 <= i < calls.len() && (#[trigger] calls[i]) is Initialize && accepted(
            run(calls.take(i)),
            calls[i],
        ) ==> calls[i]->score <= SCORE_MAX
}

/// An adjusted score lies within `0..=SCORE_MAX`, however far out of range
/// the score was and whatever the metric.
pub proof fn lemma_adjusted_score_in_range(score: int, metric: int)
    requires
        0 <= score,
    ensures
        0 <= adjusted_score(score, metric) <= SCORE_MAX,
{
}

/// A metric too small to be worth a point leaves a score within range as
/// it is: below 200 upwards, below 334 downwards.
pub proof fn lemma_small_metric_changes_nothing(score: int, metric: int)
    requires
        0 <= score <= SCORE_MAX,
        -334 < metric < 200,
    ensures
        adjusted_score(score, metric) == score,
{
}

/// A metric moves a score in its own direction or not at all: a positive
/// one never lowers a score within range, a negative one never raises it.
pub proof fn lemma_metric_sets_direction(score: int, metric: int)
    requires
        0 <= score <= SCORE_MAX,
    ensures
        metric > 0 ==> adjusted_score(score, metric) >= score,
        metric < 0 ==> adjusted_score(score, metric) <= score,
        metric == 0 ==> adjusted_score(score, metric) == score,
{
}

/// A gain is worth at least as many points as a loss of the same
/// magnitude.
pub proof fn lemma_gains_outweigh_losses(magnitude: int)
    requires
        0 <= magnitude,
    ensures
        adjustment(magnitude, POSITIVE_ADJUSTMENT as int) >= adjustment(
            magnitude,
            NEGATIVE_ADJUSTMENT as int,
        ),
{
}

/// A step keeps the score within range, provided that a call which creates
/// the strategy gives it a score within range.
pub proof fn lemma_step_keeps_score_in_range(pre: Option<StrategyModel>, call: Call)
    requires
        score_in_range(pre),
        call is Initialize && accepted(pre, call) ==> call->score <= SCORE_MAX,
    ensures
        score_in_range(step(pre, call)),
{
    if let Call::Refine { metric, .. } = call {
        if let Some(s) = pre {
            lemma_adjusted_score_in_range(s.score as int, metric);
        }
    }
}

/// In every state that a fresh agent passes through, the score is within
/// `0..=SCORE_MAX`, provided that the strategy was created with a score
/// within that range.
pub proof fn lemma_score_always_in_range(calls: Seq<Call>, n: int)
    requires
        created_in_range(calls),
        0 <= n <= calls.len(),
    ensures
        score_in_range(run(calls.take(n))),
    decreases n,
{
    let prefix = calls.take(n);
    if n > 0 {
        lemma_score_always_in_range(calls, n - 1);
        assert(prefix.drop_last() == calls.take(n - 1));
        assert(prefix.last() == calls[n - 1]);
        lemma_step_keeps_score_in_range(run(calls.take(n - 1)), calls[n - 1]);
    }
}

/// A refinement brings the score within range, whatever it was before.
pub proof fn lemma_refinement_restores_range(
    pre: Option<StrategyModel>,
    caller: Seq<char>,
    authorized: bool,
    now: nat,
    metric: int,
)
    requires
        refine_refusal(pre, caller, authorized, now) is None,
    ensures
        score_in_range(after_refine(pre, caller, authorized, now, metric)),
{
    lemma_adjusted_score_in_range(pre->Some_0.score as int, metric);
}

/// Once a strategy exists, every call leaves one in place, with the same
/// administrator, and neither the trade counter nor the time of the last
/// refinement goes back.
pub proof fn lemma_step_preserves_strategy(pre: StrategyModel, call: Call)
    ensures
        step(Some(pre), call) matches Some(post) && post.admin == pre.admin
            && post.total_trades >= pre.total_trades && post.last_refinement
            >= pre.last_refinement,
{
}

/// A strategy that exists after the first `n` calls of a run exists after
/// every longer part of the run, with the same administrator, and neither
/// its trade counter nor the time of its last refinement has gone back.
pub proof fn lemma_strategy_persists(calls: Seq<Call>, n: int, m: int)
    requires
        0 <= n <= m <= calls.len(),
        run(calls.take(n)) is Some,
    ensures
        run(calls.take(n)) matches Some(earlier) && run(calls.take(m)) matches Some(later)
            && later.admin == earlier.admin && later.total_trades >= earlier.total_trades
            && later.last_refinement >= earlier.last_refinement,
    decreases m - n,
{
    if n < m {
        lemma_strategy_persists(calls, n, m - 1);
        let prefix = calls.take(m);
        assert(prefix.drop_last() == calls.take(m - 1));
        assert(prefix.last() == calls[m - 1]);
        lemma_step_preserves_strategy(run(calls.take(m - 1))->Some_0, calls[m - 1]);
    }
}

/// `initialize` succeeds at most once: right after a successful call, a
/// second one is refused as `AlreadyInitialized` and changes nothing,
/// whatever its arguments.
pub proof fn lemma_second_initialize_refused(
    pre: Option<StrategyModel>,
    admin: Seq<char>,
    authorized: bool,
    score: nat,
    trades: nat,
    admin2: Seq<char>,
    authorized2: bool,
    score2: nat,
    trades2: nat,
)
    requires
        initialize_refusal(pre, authorized) is None,
    ensures
        ({
            let created = after_initialize(pre, admin, authorized, score, trades);
            &&& initialize_refusal(created, authorized2) == Some(AgentError::AlreadyInitialized)
            &&& after_initialize(created, admin2, authorized2, score2, trades2) == created
        }),
{
}

/// In any run of calls, once one `initialize` has taken effect, every
/// later `initialize` is refused as `AlreadyInitialized`, whatever its
/// arguments and whatever was called in between.
pub proof fn lemma_initialize_at_most_once(calls: Seq<Call>, i: int, j: int)
    requires
        0 <= i < j < calls.len(),
        calls[i] is Initialize,
        accepted(run(calls.take(i)), calls[i]),
        calls[j] is Initialize,
    ensures
        initialize_refusal(run(calls.take(j)), calls[j]->Initialize_authorized) == Some(
            AgentError::AlreadyInitialized,
        ),
        !accepted(run(calls.take(j)), calls[j]),
{
    let prefix = calls.take(i + 1);
    assert(prefix.drop_last() == calls.take(i));
    assert(prefix.last() == calls[i]);
    assert(run(prefix) is Some);
    lemma_strategy_persists(calls, i + 1, j);
}

/// `refine_strategy` succeeds exactly when the call is authorized, a
/// strategy exists, the caller is its administrator and the cooldown has
/// elapsed; the moment `next_allowed` itself is late enough.
pub proof fn lemma_refine_succeeds_exactly_when(
    pre: Option<StrategyModel>,
    caller: Seq<char>,
    authorized: bool,
    now: nat,
)
    ensures
        refine_refusal(pre, caller, authorized, now) is None <==> {
            &&& authorized
            &&& pre matches Some(s)
            &&& caller == s.admin
            &&& now >= next_allowed(s.last_refinement)
        },
{
}

/// Only the administrator refines: from any other caller the call is
/// refused as `Unauthorized` and changes nothing.
pub proof fn lemma_only_admin_refines(
    pre: StrategyModel,
    caller: Seq<char>,
    authorized: bool,
    now: nat,
    metric: int,
)
    requires
        caller != pre.admin,
    ensures
        refine_refusal(Some(pre), caller, authorized, now) == Some(AgentError::Unauthorized),
        after_refine(Some(pre), caller, authorized, now, metric) == Some(pre),
{
}

/// The cooldown is enforced to the second: one second before
/// `next_allowed` the administrator is refused with one second left to
/// wait, and at `next_allowed` the refinement goes through.
pub proof fn lemma_cooldown_boundary(pre: StrategyModel, metric: int)
    ensures
        refine_refusal(
            Some(pre),
            pre.admin,
            true,
            (next_allowed(pre.last_refinement) - 1) as nat,
        ) == Some(AgentError::CooldownActive { remaining: 1 }),
        refine_refusal(Some(pre), pre.admin, true, next_allowed(pre.last_refinement)) is None,
        after_refine(Some(pre), pre.admin, true, next_allowed(pre.last_refinement), metric)
            == Some(refined(pre, next_allowed(pre.last_refinement), metric)),
{
}

/// Two refinements of one run that both take effect lie at least one
/// cooldown period apart: no period sees more than one.
pub proof fn lemma_one_refinement_per_period(calls: Seq<Call>, i: int, j: int)
    requires
        0 <= i < j < calls.len(),
        calls[i] is Refine,
        accepted(run(calls.take(i)), calls[i]),
        calls[j] is Refine,
        accepted(run(calls.take(j)), calls[j]),
    ensures
        calls[j]->now >= calls[i]->now + COOLDOWN_PERIOD,
{
    let prefix = calls.take(i + 1);
    assert(prefix.drop_last() == calls.take(i));
    assert(prefix.last() == calls[i]);
    assert(run(prefix) matches Some(s) && s.last_refinement == calls[i]->now);
    lemma_strategy_persists(calls, i + 1, j);
}

/// A successful refinement counts as exactly one trade, as long as the
/// counter has not reached `TRADES_MAX`.
pub proof fn lemma_refinement_counts_one_trade(
    pre: StrategyModel,
    caller: Seq<char>,
    authorized: bool,
    now: nat,
    metric: int,
)
    requires
        refine_refusal(Some(pre), caller, authorized, now) is None,
        pre.total_trades < TRADES_MAX,
    ensures
        after_refine(Some(pre), caller, authorized, now, metric) matches Some(post)
            && post.total_trades == pre.total_trades + 1,
{
}

/// A call that is refused changes nothing, the trade counter included.
pub proof fn lemma_refused_call_changes_nothing(pre: Option<StrategyModel>, call: Call)
    requires
        !accepted(pre, call),
    ensures
        step(pre, call) == pre,
{
}

/// A strategy that was just created has no cooldown left, provided that
/// one cooldown period has passed since time zero.
pub proof fn lemma_no_cooldown_after_initialize(
    pre: Option<StrategyModel>,
    admin: Seq<char>,
    authorized: bool,
    score: nat,
    trades: nat,
    now: nat,
)
    requires
        initialize_refusal(pre, authorized) is None,
        now >= COOLDOWN_PERIOD,
    ensures
        cooldown_remaining(
            last_refinement_of(after_initialize(pre, admin, authorized, score, trades)),
            now,
        ) == 0,
{
}

/// Right after a refinement the whole cooldown period is left to wait: a
/// positive time of at most 3600 seconds.
pub proof fn lemma_full_cooldown_after_refine(
    pre: Option<StrategyModel>,
    caller: Seq<char>,
    authorized: bool,
    now: nat,
    metric: int,
)
    requires
        refine_refusal(pre, caller, authorized, now) is None,
    ensures
        cooldown_remaining(
            last_refinement_of(after_refine(pre, caller, authorized, now, metric)),
            now,
        ) == COOLDOWN_PERIOD,
        0 < cooldown_remaining(
            last_refinement_of(after_refine(pre, caller, authorized, now, metric)),
            now,
        ) <= 3600,
{
}

/// From a refinement on, the cooldown left shrinks by one with every
/// second and is zero from `next_allowed` on.
pub proof fn lemma_cooldown_runs_down(last_refinement: nat, earlier: nat, later: nat)
    requires
        last_refinement <= earlier < later,
    ensures
        cooldown_remaining(last_refinement, earlier) <= COOLDOWN_PERIOD,
        later <= next_allowed(last_refinement) ==> cooldown_remaining(last_refinement, later)
            < cooldown_remaining(last_refinement, earlier),
        later <= next_allowed(last_refinement) ==> cooldown_remaining(last_refinement, later)
            == next_allowed(last_refinement) - later,
        later >= next_allowed(last_refinement) ==> cooldown_remaining(last_refinement, later)
            == 0,
{
}

/// The cooldown left is zero exactly when the cooldown does not stand in
/// the way of a refinement.
pub proof fn lemma_cooldown_zero_exactly_when_elapsed(last_refinement: nat, now: nat)
    ensures
        cooldown_remaining(last_refinement, now) == 0 <==> now >= next_allowed(last_refinement),
{
}

} // verus!
