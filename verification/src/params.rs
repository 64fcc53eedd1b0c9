//! Fixed-point units and per-sample parameter resolution.
//!
//! A control parameter arrives either as a single scalar (broadcast to every
//! sample of a render block), as one value per sample, or not at all (an
//! empty array, read as 0). Whatever arrives is clamped into the parameter's
//! range, never rejected.

use vstd::prelude::*;

verus! {

/// One second, in the microsecond time unit used for every duration.
pub const MICROS_PER_SECOND: i64 = 1_000_000;

/// Upper bound of every stage-duration parameter: ten seconds.
pub const MAX_STAGE_TIME_MICROS: i64 = 10_000_000;

/// The fixed-point level 1.0; levels live in `[0, UNIT_VALUE]`.
pub const UNIT_VALUE: i64 = 1_000_000;

/// Wide sentinel bound for the raw gate level; only its sign matters.
pub const GATE_LIMIT: i64 = 1_000_000_000;

/// Cap on the free-running stage clocks (Rest and Sustain accumulate time
/// without a terminal duration); far beyond any real session, and small
/// enough that every sum in the per-sample path fits an `i64`.
pub const TIME_SATURATION_MICROS: i64 = 4_000_000_000_000_000;

/// `value` bounded into `[min_value, max_value]`, testing the lower bound
/// first (so for a reversed range the lower bound wins on small inputs).
pub open spec fn spec_clamp(min_value: int, max_value: int, value: int) -> int {
    if value < min_value {
        min_value
    } else if value > max_value {
        max_value
    } else {
        value
    }
}

/// The value a parameter array yields at `index`: the entry itself when one
/// value per sample was supplied, the broadcast scalar when exactly one was,
/// and 0 when none was -- always clamped into `[min_value, max_value]`.
pub open spec fn spec_resolved(
    values: Seq<i64>,
    min_value: int,
    max_value: int,
    index: int,
) -> int {
    if values.len() > 1 {
        spec_clamp(min_value, max_value, values[index] as int)
    } else if values.len() == 0 {
        spec_clamp(min_value, max_value, 0)
    } else {
        spec_clamp(min_value, max_value, values[0] as int)
    }
}

/// Bounds `value` into `[min_value, max_value]`; out-of-range input is
/// silently clipped, never an error.
pub fn clamp(min_value: i64, max_value: i64, value: i64) -> (r: i64)
    ensures
        r == spec_clamp(min_value as int, max_value as int, value as int),
{
    if value < min_value {
        min_value
    } else if value > max_value {
        max_value
    } else {
        value
    }
}

/// Resolves one parameter for the sample at `index`: a per-sample array is
/// indexed, a one-element array is broadcast, an empty array reads as 0,
/// and the result is clamped into `[min_value, max_value]`.
pub fn get_parameter(param: &Vec<i64>, min_value: i64, max_value: i64, index: usize) -> (r: i64)
    requires
        param@.len() > 1 ==> index < param@.len(),
    ensures
        r == spec_resolved(param@, min_value as int, max_value as int, index as int),
{
    if param.len() > 1 {
        clamp(min_value, max_value, param[index])
    } else if param.len() == 0 {
        clamp(min_value, max_value, 0)
    } else {
        clamp(min_value, max_value, param[0])
    }
}

} // verus!
