//! The linear ramp: the sole interpolation primitive. Every stage transition
//! value of the envelope is a query on a straight line between two
//! (time, value) points, with a degenerate zero-duration ramp collapsing to
//! an instantaneous step at its end time.

use vstd::arithmetic::div_mod::{
    lemma_div_is_ordered,
    lemma_div_multiples_vanish,
    lemma_div_pos_is_pos,
};
use vstd::arithmetic::mul::lemma_mul_inequality;
use vstd::prelude::*;

use crate::params::UNIT_VALUE;

verus! {

/// The value at time `query_time` of the line from `(start_time, start_value)`
/// to `(end_time, end_value)`. A start time at or past the end time collapses
/// to the end time (a step); queries at or before the (collapsed) start yield
/// `start_value`, queries at or past the end yield `end_value`, and in
/// between the value is interpolated, rounding the slope contribution toward
/// the start value.
pub open spec fn spec_ramp(
    start_value: int,
    start_time: int,
    end_value: int,
    end_time: int,
    query_time: int,
) -> int {
    let start = if start_time >= end_time {
        end_time
    } else {
        start_time
    };
    if query_time <= start {
        start_value
    } else if query_time >= end_time {
        end_value
    } else if end_value >= start_value {
        start_value + (query_time - start) * (end_value - start_value) / (end_time - start)
    } else {
        start_value - (query_time - start) * (start_value - end_value) / (end_time - start)
    }
}

/// The elapsed-time-by-level-difference product of the interpolation stays
/// far inside the `i64` range.
proof fn lemma_mul_product_fits(x: int, y: int)
    requires
        0 <= x < 9_000_000_000_000,
        0 <= y <= 1_000_000,
    ensures
        0 <= x * y <= 9_000_000_000_000_000_000,
{
    assert(0 <= x * y <= 9_000_000_000_000 * 1_000_000) by (nonlinear_arith)
        requires
            0 <= x < 9_000_000_000_000,
            0 <= y <= 1_000_000,
    ;
}

/// The interpolated value never leaves the closed interval spanned by the
/// two endpoint values, whatever the query time.
pub proof fn lemma_ramp_bounds(
    start_value: int,
    start_time: int,
    end_value: int,
    end_time: int,
    query_time: int,
)
    ensures
        start_value <= end_value ==> start_value <= spec_ramp(
            start_value,
            start_time,
            end_value,
            end_time,
            query_time,
        ) <= end_value,
        end_value <= start_value ==> end_value <= spec_ramp(
            start_value,
            start_time,
            end_value,
            end_time,
            query_time,
        ) <= start_value,
{
    let start = if start_time >= end_time {
        end_time
    } else {
        start_time
    };
    if query_time <= start || query_time >= end_time {
    } else {
        let d = end_time - start;
        let x = query_time - start;
        let y = if end_value >= start_value {
            end_value - start_value
        } else {
            start_value - end_value
        };
        lemma_mul_inequality(x, d, y);
        lemma_div_is_ordered(x * y, d * y, d);
        lemma_div_multiples_vanish(y, d);
        if x * y > 0 {
            lemma_div_pos_is_pos(x * y, d);
        } else {
            assert(x * y == 0);
            assert(x * y / d == 0) by {
                lemma_div_multiples_vanish(0, d);
            }
        }
    }
}

/// Away from the degenerate case the ramp meets its endpoints exactly:
/// queried at the start time it returns the start value, queried at the end
/// time it returns the end value.
pub proof fn lemma_ramp_endpoints(start_value: int, start_time: int, end_value: int, end_time: int)
    requires
        start_time < end_time,
    ensures
        spec_ramp(start_value, start_time, end_value, end_time, start_time) == start_value,
        spec_ramp(start_value, start_time, end_value, end_time, end_time) == end_value,
{
}

/// Replaying the ramp at the same query time yields the same value: the
/// ramp is a function of its five inputs alone, and the executable
/// `linear_interp` is pinned to it, so two equal queries can never
/// disagree.
pub proof fn lemma_ramp_replay(
    start_value: int,
    start_time: int,
    end_value: int,
    end_time: int,
    query_time: int,
    replayed_query_time: int,
)
    requires
        replayed_query_time == query_time,
    ensures
        spec_ramp(start_value, start_time, end_value, end_time, replayed_query_time) == spec_ramp(
            start_value,
            start_time,
            end_value,
            end_time,
            query_time,
        ),
{
}

/// Computes `spec_ramp` exactly: linear interpolation between
/// `(start_time, start_value)` and `(end_time, end_value)` at `query_time`,
/// with the degenerate collapse of `start_time >= end_time` to a step.
/// The result stays between the two endpoint values.
pub fn linear_interp(
    start_value: i64,
    start_time: i64,
    end_value: i64,
    end_time: i64,
    query_time: i64,
) -> (r: i64)
    requires
        0 <= start_value <= UNIT_VALUE,
        0 <= end_value <= UNIT_VALUE,
        0 <= start_time,
        0 <= end_time <= 9_000_000_000_000,
        0 <= query_time,
    ensures
        r == spec_ramp(
            start_value as int,
            start_time as int,
            end_value as int,
            end_time as int,
            query_time as int,
        ),
        start_value <= end_value ==> start_value <= r <= end_value,
        end_value <= start_value ==> end_value <= r <= start_value,
{
    proof {
        lemma_ramp_bounds(
            start_value as int,
            start_time as int,
            end_value as int,
            end_time as int,
            query_time as int,
        );
    }
    let start = if start_time >= end_time {
        end_time
    } else {
        start_time
    };
    if query_time <= start {
        start_value
    } else if query_time >= end_time {
        end_value
    } else if end_value >= start_value {
        proof {
            lemma_mul_product_fits(
                query_time as int - start as int,
                end_value as int - start_value as int,
            );
        }
        let rise = (query_time - start) * (end_value - start_value) / (end_time - start);
        start_value + rise
    } else {
        proof {
            lemma_mul_product_fits(
                query_time as int - start as int,
                start_value as int - end_value as int,
            );
        }
        let fall = (query_time - start) * (start_value - end_value) / (end_time - start);
        start_value - fall
    }
}

} // verus!
