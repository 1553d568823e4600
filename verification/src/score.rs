//! The scoring function: how a performance metric moves a score.

use vstd::prelude::*;

verus! {

/// Points gained per `SCORE_SCALE` points of a positive metric.
pub const POSITIVE_ADJUSTMENT: u32 = 5;

/// Points lost per `SCORE_SCALE` points of a negative metric.
pub const NEGATIVE_ADJUSTMENT: u32 = 3;

/// The divisor that turns a weighted metric into score points.
pub const SCORE_SCALE: u32 = 1000;

/// The highest score; the lowest is zero.
pub const SCORE_MAX: u32 = 1000;

/// The absolute value of a metric.
pub open spec fn magnitude(metric: int) -> int {
    if metric < 0 {
        -metric
    } else {
        metric
    }
}

/// The score points that a metric of the given magnitude is worth under
/// `factor`: the product, held at `u32::MAX`, divided by `SCORE_SCALE` and
/// rounded down.
pub open spec fn adjustment(magnitude: int, factor: int) -> int {
    let product: int = magnitude * factor;
    let held: int = if product > u32::MAX {
        u32::MAX as int
    } else {
        product
    };
    held / (SCORE_SCALE as int)
}

/// The score that follows `score` once `metric` has been applied.
///
/// A positive metric raises the score by its adjustment under
/// `POSITIVE_ADJUSTMENT`, a negative one lowers it by its adjustment under
/// `NEGATIVE_ADJUSTMENT` but not below zero, and zero leaves it alone. The
/// result never exceeds `SCORE_MAX`.
pub open spec fn adjusted_score(score: int, metric: int) -> int {
    let moved: int = if metric > 0 {
        score + adjustment(magnitude(metric), POSITIVE_ADJUSTMENT as int)
    } else if metric < 0 {
        let lowered: int = score - adjustment(magnitude(metric), NEGATIVE_ADJUSTMENT as int);
        if lowered < 0 {
            0
        } else {
            lowered
        }
    } else {
        score
    };
    if moved > SCORE_MAX {
        SCORE_MAX as int
    } else {
        moved
    }
}

/// Computes the absolute value of `metric`, which always fits a `u32`.
pub fn metric_magnitude(metric: i32) -> (r: u32)
    ensures
        r == magnitude(metric as int),
{
    if metric >= 0 {
        metric as u32
    } else {
        let widened: i64 = metric as i64;
        (-widened) as u32
    }
}

/// Computes the score points that `magnitude` is worth under `factor`: a
/// saturating product, divided by `SCORE_SCALE`.
pub fn scaled_adjustment(magnitude: u32, factor: u32) -> (r: u32)
    ensures
        r == adjustment(magnitude as int, factor as int),
{
    let held: u32 = match magnitude.checked_mul(factor) {
        Some(product) => product,
        None => u32::MAX,
    };
    held / SCORE_SCALE
}

} // verus!
