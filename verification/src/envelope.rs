//! The envelope state machine: one pure step per sample. Given the current
//! stage, the time spent on it, the resolved boundary parameters and whether
//! its gate is effectively open, it yields the next stage, the new elapsed
//! time, a normalized stage progress, the level remembered at the last gate
//! flip (the anchor that keeps transitions click-free), and the output
//! sample.
//!
//! Stage boundaries carry their overshoot: when a stage's duration is
//! crossed inside a sample, the excess time seeds the next stage, so no time
//! is lost or double-counted. A gate closing captures the exact level the
//! envelope had reached and ramps the release down from it; a gate
//! re-opening during release seeds the new attack from the in-flight
//! release level (legato retrigger).

use vstd::arithmetic::div_mod::{
    lemma_div_is_ordered,
    lemma_div_multiples_vanish,
    lemma_div_nonincreasing,
    lemma_div_pos_is_pos,
    lemma_fundamental_div_mod,
    lemma_mod_bound,
};
use vstd::arithmetic::mul::{lemma_mul_inequality, lemma_mul_nonnegative};
use vstd::prelude::*;

use crate::params::{MAX_STAGE_TIME_MICROS, MICROS_PER_SECOND, TIME_SATURATION_MICROS, UNIT_VALUE};
use crate::ramp::{linear_interp, spec_ramp};

verus! {

/// The envelope's stage. `Rest` is the initial stage; the state machine
/// moves forward through `Attack`, `Hold`, `Decay` and `Sustain` while the
/// gate is open, and through `Release` back to `Rest` when it closes.
#[derive(Copy, Clone, Debug, PartialEq, Eq, Structural)]
pub enum EnvelopeStage {
    Rest,
    Attack,
    Hold,
    Decay,
    Sustain,
    Release,
}

/// The stage's position in the forward order, `Rest` being 0 -- the shape
/// the host's telemetry reports a stage in.
pub open spec fn spec_stage_ordinal(stage: EnvelopeStage) -> int {
    match stage {
        EnvelopeStage::Rest => 0,
        EnvelopeStage::Attack => 1,
        EnvelopeStage::Hold => 2,
        EnvelopeStage::Decay => 3,
        EnvelopeStage::Sustain => 4,
        EnvelopeStage::Release => 5,
    }
}

impl EnvelopeStage {
    /// The stage's ordinal, `Rest` being 0 and `Release` 5.
    pub fn ordinal(&self) -> (r: i32)
        ensures
            r == spec_stage_ordinal(*self),
    {
        match self {
            EnvelopeStage::Rest => 0,
            EnvelopeStage::Attack => 1,
            EnvelopeStage::Hold => 2,
            EnvelopeStage::Decay => 3,
            EnvelopeStage::Sustain => 4,
            EnvelopeStage::Release => 5,
        }
    }
}

/// The mathematical model of the state a step yields: stage, elapsed time
/// on it (microseconds), normalized progress (millionths), the level
/// captured at the last gate flip, and the output sample (millionths).
pub ghost struct EnvModel {
    pub stage: EnvelopeStage,
    pub seconds_on_stage: int,
    pub stage_progress: int,
    pub value_on_trigger_change: int,
    pub output_value: int,
}

/// The executable result of one state-machine step; `@` gives its
/// mathematical model.
pub struct StageStep {
    pub stage: EnvelopeStage,
    pub seconds_on_stage: i64,
    pub stage_progress: i64,
    pub value_on_trigger_change: i64,
    pub output_value: i64,
}

impl View for StageStep {
    type V = EnvModel;

    open spec fn view(&self) -> EnvModel {
        EnvModel {
            stage: self.stage,
            seconds_on_stage: self.seconds_on_stage as int,
            stage_progress: self.stage_progress as int,
            value_on_trigger_change: self.value_on_trigger_change as int,
            output_value: self.output_value as int,
        }
    }
}

/// The duration of one sample for a generator running at `sample_rate`
/// samples per second, in microseconds (rounded down).
pub open spec fn spec_sample_period(sample_rate: int) -> int {
    MICROS_PER_SECOND as int / sample_rate
}

/// Time accumulation on the stages without a terminal duration (Rest,
/// Sustain): plain addition until the saturation cap, then the cap.
pub open spec fn spec_sat_add_time(seconds: int, delta: int) -> int {
    if seconds + delta > TIME_SATURATION_MICROS as int {
        TIME_SATURATION_MICROS as int
    } else {
        seconds + delta
    }
}

/// Sustain has no duration to normalize against, so its progress is a
/// free-running sawtooth: the fractional second of the elapsed time, in
/// millionths.
pub open spec fn spec_frac_progress(seconds: int) -> int {
    seconds % (MICROS_PER_SECOND as int)
}

/// Well-formedness of the persistent state: the trigger anchor is a valid
/// level, elapsed time is non-negative, bounded by each finite stage's
/// maximal duration on Attack/Hold/Decay/Release and by the saturation cap
/// (plus at most one second of overshoot) on Rest/Sustain.
pub open spec fn spec_state_wf(stage: EnvelopeStage, seconds: int, trigger: int) -> bool {
    &&& 0 <= trigger <= UNIT_VALUE as int
    &&& 0 <= seconds
    &&& stage is Rest ==> seconds <= TIME_SATURATION_MICROS as int + MICROS_PER_SECOND as int
    &&& stage is Sustain ==> seconds <= TIME_SATURATION_MICROS as int
    &&& (stage is Attack || stage is Hold || stage is Decay || stage is Release) ==> seconds
        < MAX_STAGE_TIME_MICROS as int
}

/// `value` lies in the closed interval spanned by `a` and `b`, whichever
/// way round they are.
pub open spec fn spec_between(a: int, b: int, value: int) -> bool {
    &&& a <= b ==> a <= value <= b
    &&& b <= a ==> b <= value <= a
}

/// Forward chain entered at Decay: `elapsed` microseconds after the decay
/// began, the envelope is still decaying if the decay duration has not
/// passed, otherwise it sustains, carrying the overshoot.
pub open spec fn spec_from_decay(
    elapsed: int,
    trigger: int,
    attack_value: int,
    decay_time: int,
    sustain_value: int,
) -> EnvModel {
    if elapsed < decay_time {
        EnvModel {
            stage: EnvelopeStage::Decay,
            seconds_on_stage: elapsed,
            stage_progress: elapsed * (UNIT_VALUE as int) / decay_time,
            value_on_trigger_change: trigger,
            output_value: spec_ramp(attack_value, 0, sustain_value, decay_time, elapsed),
        }
    } else {
        EnvModel {
            stage: EnvelopeStage::Sustain,
            seconds_on_stage: elapsed - decay_time,
            stage_progress: spec_frac_progress(elapsed - decay_time),
            value_on_trigger_change: trigger,
            output_value: sustain_value,
        }
    }
}

/// Forward chain entered at Hold: constant at `attack_value` until the hold
/// duration passes, then on into the decay chain with the overshoot.
pub open spec fn spec_from_hold(
    elapsed: int,
    trigger: int,
    attack_value: int,
    hold_time: int,
    decay_time: int,
    sustain_value: int,
) -> EnvModel {
    if elapsed < hold_time {
        EnvModel {
            stage: EnvelopeStage::Hold,
            seconds_on_stage: elapsed,
            stage_progress: elapsed * (UNIT_VALUE as int) / hold_time,
            value_on_trigger_change: trigger,
            output_value: attack_value,
        }
    } else {
        spec_from_decay(elapsed - hold_time, trigger, attack_value, decay_time, sustain_value)
    }
}

/// Forward chain entered at Attack, `elapsed` microseconds after the input gate
/// (re)opened: an attack ramp from `attack_seed` toward `attack_value` while
/// the attack duration lasts (the seed becomes the remembered trigger
/// level), then on into the hold chain. On the later branches the previous
/// trigger level is kept.
pub open spec fn spec_advance_open(
    elapsed: int,
    prev_trigger: int,
    attack_seed: int,
    attack_time: int,
    attack_value: int,
    hold_time: int,
    decay_time: int,
    sustain_value: int,
) -> EnvModel {
    if elapsed < attack_time {
        EnvModel {
            stage: EnvelopeStage::Attack,
            seconds_on_stage: elapsed,
            stage_progress: elapsed * (UNIT_VALUE as int) / attack_time,
            value_on_trigger_change: attack_seed,
            output_value: spec_ramp(attack_seed, 0, attack_value, attack_time, elapsed),
        }
    } else {
        spec_from_hold(
            elapsed - attack_time,
            prev_trigger,
            attack_value,
            hold_time,
            decay_time,
            sustain_value,
        )
    }
}

/// The level the envelope has reached `elapsed` microseconds into the decay
/// chain: the decay ramp while it lasts, the sustain level after.
pub open spec fn spec_level_from_decay(
    elapsed: int,
    attack_value: int,
    decay_time: int,
    sustain_value: int,
) -> int {
    if elapsed < decay_time {
        spec_ramp(attack_value, 0, sustain_value, decay_time, elapsed)
    } else {
        sustain_value
    }
}

/// The level the envelope has reached `elapsed` microseconds into the hold
/// chain.
pub open spec fn spec_level_from_hold(
    elapsed: int,
    attack_value: int,
    hold_time: int,
    decay_time: int,
    sustain_value: int,
) -> int {
    if elapsed < hold_time {
        attack_value
    } else {
        spec_level_from_decay(elapsed - hold_time, attack_value, decay_time, sustain_value)
    }
}

/// The level the envelope has reached `elapsed` microseconds into the
/// attack chain, with the attack ramp anchored at `trigger`.
pub open spec fn spec_level_from_attack(
    elapsed: int,
    trigger: int,
    attack_time: int,
    attack_value: int,
    hold_time: int,
    decay_time: int,
    sustain_value: int,
) -> int {
    if elapsed < attack_time {
        spec_ramp(trigger, 0, attack_value, attack_time, elapsed)
    } else {
        spec_level_from_hold(
            elapsed - attack_time,
            attack_value,
            hold_time,
            decay_time,
            sustain_value,
        )
    }
}

/// The input gate has closed at level `level`: a release ramp from that level
/// down to zero begins, unless the whole release fits inside one sample, in
/// which case the envelope falls straight back to Rest (with
/// `degenerate_seconds` as the new elapsed time and the trigger level left
/// as it was).
pub open spec fn spec_release_from(
    level: int,
    degenerate_seconds: int,
    prev_trigger: int,
    sample_period: int,
    release_time: int,
) -> EnvModel {
    if sample_period < release_time {
        EnvModel {
            stage: EnvelopeStage::Release,
            seconds_on_stage: sample_period,
            stage_progress: sample_period * (UNIT_VALUE as int) / release_time,
            value_on_trigger_change: level,
            output_value: spec_ramp(level, 0, 0, release_time, sample_period),
        }
    } else {
        EnvModel {
            stage: EnvelopeStage::Rest,
            seconds_on_stage: degenerate_seconds,
            stage_progress: 0,
            value_on_trigger_change: prev_trigger,
            output_value: 0,
        }
    }
}

/// One step of the envelope state machine. Exactly one branch -- the one
/// matching the previous stage -- is evaluated per call.
pub open spec fn spec_step(
    sample_period: int,
    gate_open: bool,
    attack_time: int,
    attack_value: int,
    hold_time: int,
    decay_time: int,
    sustain_value: int,
    release_time: int,
    prev_stage: EnvelopeStage,
    prev_seconds: int,
    prev_trigger: int,
) -> EnvModel {
    match prev_stage {
        EnvelopeStage::Rest => {
            if gate_open {
                spec_advance_open(
                    sample_period,
                    prev_trigger,
                    0,
                    attack_time,
                    attack_value,
                    hold_time,
                    decay_time,
                    sustain_value,
                )
            } else {
                EnvModel {
                    stage: EnvelopeStage::Rest,
                    seconds_on_stage: spec_sat_add_time(prev_seconds, sample_period),
                    stage_progress: 0,
                    value_on_trigger_change: prev_trigger,
                    output_value: 0,
                }
            }
        },
        EnvelopeStage::Attack => {
            if gate_open {
                spec_advance_open(
                    prev_seconds + sample_period,
                    prev_trigger,
                    prev_trigger,
                    attack_time,
                    attack_value,
                    hold_time,
                    decay_time,
                    sustain_value,
                )
            } else {
                spec_release_from(
                    spec_level_from_attack(
                        prev_seconds,
                        prev_trigger,
                        attack_time,
                        attack_value,
                        hold_time,
                        decay_time,
                        sustain_value,
                    ),
                    sample_period - release_time,
                    prev_trigger,
                    sample_period,
                    release_time,
                )
            }
        },
        EnvelopeStage::Hold => {
            if gate_open {
                spec_from_hold(
                    prev_seconds + sample_period,
                    prev_trigger,
                    attack_value,
                    hold_time,
                    decay_time,
                    sustain_value,
                )
            } else {
                spec_release_from(
                    spec_level_from_hold(
                        prev_seconds,
                        attack_value,
                        hold_time,
                        decay_time,
                        sustain_value,
                    ),
                    sample_period - release_time,
                    prev_trigger,
                    sample_period,
                    release_time,
                )
            }
        },
        EnvelopeStage::Decay => {
            if gate_open {
                spec_from_decay(
                    prev_seconds + sample_period,
                    prev_trigger,
                    attack_value,
                    decay_time,
                    sustain_value,
                )
            } else {
                spec_release_from(
                    spec_level_from_decay(prev_seconds, attack_value, decay_time, sustain_value),
                    sample_period - release_time,
                    prev_trigger,
                    sample_period,
                    release_time,
                )
            }
        },
        EnvelopeStage::Sustain => {
            if gate_open {
                EnvModel {
                    stage: EnvelopeStage::Sustain,
                    seconds_on_stage: spec_sat_add_time(prev_seconds, sample_period),
                    stage_progress: spec_frac_progress(
                        spec_sat_add_time(prev_seconds, sample_period),
                    ),
                    value_on_trigger_change: prev_trigger,
                    output_value: sustain_value,
                }
            } else {
                spec_release_from(
                    sustain_value,
                    prev_seconds + sample_period - release_time,
                    prev_trigger,
                    sample_period,
                    release_time,
                )
            }
        },
        EnvelopeStage::Release => {
            if gate_open {
                spec_advance_open(
                    sample_period,
                    prev_trigger,
                    spec_ramp(prev_trigger, 0, 0, release_time, prev_seconds),
                    attack_time,
                    attack_value,
                    hold_time,
                    decay_time,
                    sustain_value,
                )
            } else {
                if prev_seconds + sample_period < release_time {
                    EnvModel {
                        stage: EnvelopeStage::Release,
                        seconds_on_stage: prev_seconds + sample_period,
                        stage_progress: (prev_seconds + sample_period) * (UNIT_VALUE as int)
                            / release_time,
                        value_on_trigger_change: prev_trigger,
                        output_value: spec_ramp(
                            prev_trigger,
                            0,
                            0,
                            release_time,
                            prev_seconds + sample_period,
                        ),
                    }
                } else {
                    EnvModel {
                        stage: EnvelopeStage::Rest,
                        seconds_on_stage: prev_seconds + sample_period - release_time,
                        stage_progress: 0,
                        value_on_trigger_change: prev_trigger,
                        output_value: 0,
                    }
                }
            }
        },
    }
}

/// The magnitude of `x`.
pub open spec fn spec_abs(x: int) -> int {
    if x < 0 {
        -x
    } else {
        x
    }
}

/// Retrigger continuity: when the input gate re-opens during Release and the
/// attack outlasts the sample, the step lands in Attack, its remembered
/// trigger level is exactly the level the release ramp had reached at that
/// instant (the previous sample's output, while the release parameter is
/// unchanged), and the first attack output moves away from that seed by no
/// more than one sample period's worth of the attack ramp's slope -- so a
/// legato re-attack cannot click.
pub proof fn lemma_retrigger_continuity(
    sample_period: int,
    attack_time: int,
    attack_value: int,
    hold_time: int,
    decay_time: int,
    sustain_value: int,
    release_time: int,
    prev_seconds: int,
    prev_trigger: int,
)
    requires
        1 <= sample_period < attack_time,
        0 <= release_time,
        0 <= prev_seconds,
        0 <= prev_trigger,
    ensures
        ({
            let seed = spec_ramp(prev_trigger, 0, 0, release_time, prev_seconds);
            let next = spec_step(
                sample_period,
                true,
                attack_time,
                attack_value,
                hold_time,
                decay_time,
                sustain_value,
                release_time,
                EnvelopeStage::Release,
                prev_seconds,
                prev_trigger,
            );
            &&& next.stage is Attack
            &&& next.value_on_trigger_change == seed
            &&& next.output_value == spec_ramp(seed, 0, attack_value, attack_time, sample_period)
            &&& spec_abs(next.output_value - seed) * attack_time <= sample_period * spec_abs(
                attack_value - seed,
            )
        }),
{
    let seed = spec_ramp(prev_trigger, 0, 0, release_time, prev_seconds);
    let out = spec_ramp(seed, 0, attack_value, attack_time, sample_period);
    let x = if attack_value >= seed {
        sample_period * (attack_value - seed)
    } else {
        sample_period * (seed - attack_value)
    };
    assert(x >= 0) by {
        if attack_value >= seed {
            lemma_mul_nonnegative(sample_period, attack_value - seed);
        } else {
            lemma_mul_nonnegative(sample_period, seed - attack_value);
        }
    }
    assert(spec_abs(out - seed) == x / attack_time);
    lemma_div_pos_is_pos(x, attack_time);
    lemma_fundamental_div_mod(x, attack_time);
    lemma_mod_bound(x, attack_time);
    assert(attack_time * (x / attack_time) == x - x % attack_time);
    assert(spec_abs(out - seed) * attack_time <= x);
}

/// A normalized progress quotient stays within `[0, UNIT_VALUE]` while the
/// elapsed time has not passed the stage duration.
proof fn lemma_progress_bounds(elapsed: int, duration: int)
    requires
        0 <= elapsed < duration,
    ensures
        0 <= elapsed * (UNIT_VALUE as int) / duration <= UNIT_VALUE as int,
{
    let unit = UNIT_VALUE as int;
    lemma_div_pos_is_pos(elapsed * unit, duration);
    lemma_mul_inequality(elapsed, duration, unit);
    lemma_div_is_ordered(elapsed * unit, duration * unit, duration);
    lemma_div_multiples_vanish(unit, duration);
}

/// The one sample duration, computed from the sample rate as the ratio of
/// one second to the rate, rounded down to whole microseconds.
pub fn sample_period_micros(sample_rate: i64) -> (r: i64)
    requires
        1 <= sample_rate <= MICROS_PER_SECOND,
    ensures
        r == spec_sample_period(sample_rate as int),
        1 <= r <= MICROS_PER_SECOND,
{
    proof {
        lemma_div_nonincreasing(MICROS_PER_SECOND as int, sample_rate as int);
        lemma_div_is_ordered(sample_rate as int, MICROS_PER_SECOND as int, sample_rate as int);
        assert(sample_rate as int / sample_rate as int == 1) by {
            lemma_div_multiples_vanish(1, sample_rate as int);
        }
    }
    MICROS_PER_SECOND / sample_rate
}

/// Accumulates elapsed time on a stage without a terminal duration,
/// saturating at the cap instead of growing without bound.
fn sat_add_time(seconds: i64, delta: i64) -> (r: i64)
    requires
        0 <= seconds <= TIME_SATURATION_MICROS + MICROS_PER_SECOND,
        0 <= delta <= MICROS_PER_SECOND,
    ensures
        r == spec_sat_add_time(seconds as int, delta as int),
        0 <= r <= TIME_SATURATION_MICROS,
{
    if seconds + delta > TIME_SATURATION_MICROS {
        TIME_SATURATION_MICROS
    } else {
        seconds + delta
    }
}

/// Computes the decay-chain entry of the forward advance: `spec_from_decay`
/// exactly.
fn from_decay(elapsed: i64, trigger: i64, attack_value: i64, decay_time: i64, sustain_value: i64)
    -> (r: StageStep)
    requires
        0 <= elapsed <= TIME_SATURATION_MICROS,
        0 <= trigger <= UNIT_VALUE,
        0 <= attack_value <= UNIT_VALUE,
        0 <= decay_time <= MAX_STAGE_TIME_MICROS,
        0 <= sustain_value <= UNIT_VALUE,
    ensures
        r@ == spec_from_decay(
            elapsed as int,
            trigger as int,
            attack_value as int,
            decay_time as int,
            sustain_value as int,
        ),
        spec_state_wf(r.stage, r.seconds_on_stage as int, r.value_on_trigger_change as int),
        0 <= r.output_value <= UNIT_VALUE,
        0 <= r.stage_progress <= UNIT_VALUE,
        r.stage is Decay ==> spec_between(
            attack_value as int,
            sustain_value as int,
            r.output_value as int,
        ),
        r.stage is Sustain ==> r.output_value == sustain_value,
{
    if elapsed < decay_time {
        proof {
            lemma_progress_bounds(elapsed as int, decay_time as int);
        }
        StageStep {
            stage: EnvelopeStage::Decay,
            seconds_on_stage: elapsed,
            stage_progress: elapsed * UNIT_VALUE / decay_time,
            value_on_trigger_change: trigger,
            output_value: linear_interp(attack_value, 0, sustain_value, decay_time, elapsed),
        }
    } else {
        proof {
            lemma_mod_bound(elapsed - decay_time, MICROS_PER_SECOND as int);
        }
        StageStep {
            stage: EnvelopeStage::Sustain,
            seconds_on_stage: elapsed - decay_time,
            stage_progress: (elapsed - decay_time) % MICROS_PER_SECOND,
            value_on_trigger_change: trigger,
            output_value: sustain_value,
        }
    }
}

/// Computes the hold-chain entry of the forward advance: `spec_from_hold`
/// exactly.
fn from_hold(
    elapsed: i64,
    trigger: i64,
    attack_value: i64,
    hold_time: i64,
    decay_time: i64,
    sustain_value: i64,
) -> (r: StageStep)
    requires
        0 <= elapsed <= TIME_SATURATION_MICROS,
        0 <= trigger <= UNIT_VALUE,
        0 <= attack_value <= UNIT_VALUE,
        0 <= hold_time <= MAX_STAGE_TIME_MICROS,
        0 <= decay_time <= MAX_STAGE_TIME_MICROS,
        0 <= sustain_value <= UNIT_VALUE,
    ensures
        r@ == spec_from_hold(
            elapsed as int,
            trigger as int,
            attack_value as int,
            hold_time as int,
            decay_time as int,
            sustain_value as int,
        ),
        spec_state_wf(r.stage, r.seconds_on_stage as int, r.value_on_trigger_change as int),
        0 <= r.output_value <= UNIT_VALUE,
        0 <= r.stage_progress <= UNIT_VALUE,
        r.stage is Hold ==> r.output_value == attack_value,
        r.stage is Decay ==> spec_between(
            attack_value as int,
            sustain_value as int,
            r.output_value as int,
        ),
        r.stage is Sustain ==> r.output_value == sustain_value,
{
    if elapsed < hold_time {
        proof {
            lemma_progress_bounds(elapsed as int, hold_time as int);
        }
        StageStep {
            stage: EnvelopeStage::Hold,
            seconds_on_stage: elapsed,
            stage_progress: elapsed * UNIT_VALUE / hold_time,
            value_on_trigger_change: trigger,
            output_value: attack_value,
        }
    } else {
        from_decay(elapsed - hold_time, trigger, attack_value, decay_time, sustain_value)
    }
}

/// Computes the whole forward advance of a freshly opened (or re-opened)
/// gate: `spec_advance_open` exactly.
fn advance_open(
    elapsed: i64,
    prev_trigger: i64,
    attack_seed: i64,
    attack_time: i64,
    attack_value: i64,
    hold_time: i64,
    decay_time: i64,
    sustain_value: i64,
) -> (r: StageStep)
    requires
        0 <= elapsed <= TIME_SATURATION_MICROS,
        0 <= prev_trigger <= UNIT_VALUE,
        0 <= attack_seed <= UNIT_VALUE,
        0 <= attack_time <= MAX_STAGE_TIME_MICROS,
        0 <= attack_value <= UNIT_VALUE,
        0 <= hold_time <= MAX_STAGE_TIME_MICROS,
        0 <= decay_time <= MAX_STAGE_TIME_MICROS,
        0 <= sustain_value <= UNIT_VALUE,
    ensures
        r@ == spec_advance_open(
            elapsed as int,
            prev_trigger as int,
            attack_seed as int,
            attack_time as int,
            attack_value as int,
            hold_time as int,
            decay_time as int,
            sustain_value as int,
        ),
        spec_state_wf(r.stage, r.seconds_on_stage as int, r.value_on_trigger_change as int),
        0 <= r.output_value <= UNIT_VALUE,
        0 <= r.stage_progress <= UNIT_VALUE,
        r.stage is Attack ==> spec_between(
            r.value_on_trigger_change as int,
            attack_value as int,
            r.output_value as int,
        ),
        r.stage is Hold ==> r.output_value == attack_value,
        r.stage is Decay ==> spec_between(
            attack_value as int,
            sustain_value as int,
            r.output_value as int,
        ),
        r.stage is Sustain ==> r.output_value == sustain_value,
{
    if elapsed < attack_time {
        proof {
            lemma_progress_bounds(elapsed as int, attack_time as int);
        }
        StageStep {
            stage: EnvelopeStage::Attack,
            seconds_on_stage: elapsed,
            stage_progress: elapsed * UNIT_VALUE / attack_time,
            value_on_trigger_change: attack_seed,
            output_value: linear_interp(attack_seed, 0, attack_value, attack_time, elapsed),
        }
    } else {
        from_hold(
            elapsed - attack_time,
            prev_trigger,
            attack_value,
            hold_time,
            decay_time,
            sustain_value,
        )
    }
}

/// The level reached within the decay chain: `spec_level_from_decay`
/// exactly.
fn level_from_decay(elapsed: i64, attack_value: i64, decay_time: i64, sustain_value: i64) -> (r:
    i64)
    requires
        0 <= elapsed,
        0 <= attack_value <= UNIT_VALUE,
        0 <= decay_time <= MAX_STAGE_TIME_MICROS,
        0 <= sustain_value <= UNIT_VALUE,
    ensures
        r == spec_level_from_decay(
            elapsed as int,
            attack_value as int,
            decay_time as int,
            sustain_value as int,
        ),
        0 <= r <= UNIT_VALUE,
{
    if elapsed < decay_time {
        linear_interp(attack_value, 0, sustain_value, decay_time, elapsed)
    } else {
        sustain_value
    }
}

/// The level reached within the hold chain: `spec_level_from_hold` exactly.
fn level_from_hold(
    elapsed: i64,
    attack_value: i64,
    hold_time: i64,
    decay_time: i64,
    sustain_value: i64,
) -> (r: i64)
    requires
        0 <= elapsed,
        0 <= attack_value <= UNIT_VALUE,
        0 <= hold_time <= MAX_STAGE_TIME_MICROS,
        0 <= decay_time <= MAX_STAGE_TIME_MICROS,
        0 <= sustain_value <= UNIT_VALUE,
    ensures
        r == spec_level_from_hold(
            elapsed as int,
            attack_value as int,
            hold_time as int,
            decay_time as int,
            sustain_value as int,
        ),
        0 <= r <= UNIT_VALUE,
{
    if elapsed < hold_time {
        attack_value
    } else {
        level_from_decay(elapsed - hold_time, attack_value, decay_time, sustain_value)
    }
}

/// The level reached within the attack chain: `spec_level_from_attack`
/// exactly.
fn level_from_attack(
    elapsed: i64,
    trigger: i64,
    attack_time: i64,
    attack_value: i64,
    hold_time: i64,
    decay_time: i64,
    sustain_value: i64,
) -> (r: i64)
    requires
        0 <= elapsed,
        0 <= trigger <= UNIT_VALUE,
        0 <= attack_time <= MAX_STAGE_TIME_MICROS,
        0 <= attack_value <= UNIT_VALUE,
        0 <= hold_time <= MAX_STAGE_TIME_MICROS,
        0 <= decay_time <= MAX_STAGE_TIME_MICROS,
        0 <= sustain_value <= UNIT_VALUE,
    ensures
        r == spec_level_from_attack(
            elapsed as int,
            trigger as int,
            attack_time as int,
            attack_value as int,
            hold_time as int,
            decay_time as int,
            sustain_value as int,
        ),
        0 <= r <= UNIT_VALUE,
{
    if elapsed < attack_time {
        linear_interp(trigger, 0, attack_value, attack_time, elapsed)
    } else {
        level_from_hold(elapsed - attack_time, attack_value, hold_time, decay_time, sustain_value)
    }
}

/// Enters the release (or falls straight back to Rest when the whole
/// release fits inside one sample): `spec_release_from` exactly.
fn release_from(
    level: i64,
    degenerate_seconds: i64,
    prev_trigger: i64,
    sample_period: i64,
    release_time: i64,
) -> (r: StageStep)
    requires
        0 <= level <= UNIT_VALUE,
        0 <= prev_trigger <= UNIT_VALUE,
        1 <= sample_period <= MICROS_PER_SECOND,
        0 <= release_time <= MAX_STAGE_TIME_MICROS,
        sample_period >= release_time ==> 0 <= degenerate_seconds <= TIME_SATURATION_MICROS
            + MICROS_PER_SECOND,
    ensures
        r@ == spec_release_from(
            level as int,
            degenerate_seconds as int,
            prev_trigger as int,
            sample_period as int,
            release_time as int,
        ),
        spec_state_wf(r.stage, r.seconds_on_stage as int, r.value_on_trigger_change as int),
        0 <= r.output_value <= UNIT_VALUE,
        0 <= r.stage_progress <= UNIT_VALUE,
        r.stage is Release ==> 0 <= r.output_value <= r.value_on_trigger_change,
        r.stage is Rest ==> r.output_value == 0,
{
    if sample_period < release_time {
        proof {
            lemma_progress_bounds(sample_period as int, release_time as int);
        }
        StageStep {
            stage: EnvelopeStage::Release,
            seconds_on_stage: sample_period,
            stage_progress: sample_period * UNIT_VALUE / release_time,
            value_on_trigger_change: level,
            output_value: linear_interp(level, 0, 0, release_time, sample_period),
        }
    } else {
        StageStep {
            stage: EnvelopeStage::Rest,
            seconds_on_stage: degenerate_seconds,
            stage_progress: 0,
            value_on_trigger_change: prev_trigger,
            output_value: 0,
        }
    }
}

/// One step of the envelope state machine, computing `spec_step` exactly.
///
/// The output sample never leaves the convex hull of the stage's endpoint
/// levels: zero on Rest, the attack ramp's two anchors on Attack, the
/// attack level on Hold, attack-to-sustain on Decay, the sustain level on
/// Sustain, and the captured trigger level down to zero on Release.
pub fn get_envelope_value(
    sample_rate: i64,
    input_gate_open: bool,
    attack_time: i64,
    attack_value: i64,
    hold_time: i64,
    decay_time: i64,
    sustain_value: i64,
    release_time: i64,
    seconds_on_stage: i64,
    envelope_stage: EnvelopeStage,
    value_on_trigger_change: i64,
) -> (r: StageStep)
    requires
        1 <= sample_rate <= MICROS_PER_SECOND,
        0 <= attack_time <= MAX_STAGE_TIME_MICROS,
        0 <= attack_value <= UNIT_VALUE,
        0 <= hold_time <= MAX_STAGE_TIME_MICROS,
        0 <= decay_time <= MAX_STAGE_TIME_MICROS,
        0 <= sustain_value <= UNIT_VALUE,
        0 <= release_time <= MAX_STAGE_TIME_MICROS,
        spec_state_wf(envelope_stage, seconds_on_stage as int, value_on_trigger_change as int),
    ensures
        r@ == spec_step(
            spec_sample_period(sample_rate as int),
            input_gate_open,
            attack_time as int,
            attack_value as int,
            hold_time as int,
            decay_time as int,
            sustain_value as int,
            release_time as int,
            envelope_stage,
            seconds_on_stage as int,
            value_on_trigger_change as int,
        ),
        spec_state_wf(r.stage, r.seconds_on_stage as int, r.value_on_trigger_change as int),
        0 <= r.output_value <= UNIT_VALUE,
        0 <= r.stage_progress <= UNIT_VALUE,
        r.stage is Rest ==> r.output_value == 0,
        r.stage is Attack ==> spec_between(
            r.value_on_trigger_change as int,
            attack_value as int,
            r.output_value as int,
        ),
        r.stage is Hold ==> r.output_value == attack_value,
        r.stage is Decay ==> spec_between(
            attack_value as int,
            sustain_value as int,
            r.output_value as int,
        ),
        r.stage is Sustain ==> r.output_value == sustain_value,
        r.stage is Release ==> 0 <= r.output_value <= r.value_on_trigger_change,
{
    let sample_period = sample_period_micros(sample_rate);
    let r = match envelope_stage {
        EnvelopeStage::Rest => {
            if input_gate_open {
                advance_open(
                    sample_period,
                    value_on_trigger_change,
                    0,
                    attack_time,
                    attack_value,
                    hold_time,
                    decay_time,
                    sustain_value,
                )
            } else {
                StageStep {
                    stage: EnvelopeStage::Rest,
                    seconds_on_stage: sat_add_time(seconds_on_stage, sample_period),
                    stage_progress: 0,
                    value_on_trigger_change,
                    output_value: 0,
                }
            }
        },
        EnvelopeStage::Attack => {
            if input_gate_open {
                advance_open(
                    seconds_on_stage + sample_period,
                    value_on_trigger_change,
                    value_on_trigger_change,
                    attack_time,
                    attack_value,
                    hold_time,
                    decay_time,
                    sustain_value,
                )
            } else {
                let level = level_from_attack(
                    seconds_on_stage,
                    value_on_trigger_change,
                    attack_time,
                    attack_value,
                    hold_time,
                    decay_time,
                    sustain_value,
                );
                release_from(
                    level,
                    sample_period - release_time,
                    value_on_trigger_change,
                    sample_period,
                    release_time,
                )
            }
        },
        EnvelopeStage::Hold => {
            if input_gate_open {
                from_hold(
                    seconds_on_stage + sample_period,
                    value_on_trigger_change,
                    attack_value,
                    hold_time,
                    decay_time,
                    sustain_value,
                )
            } else {
                let level = level_from_hold(
                    seconds_on_stage,
                    attack_value,
                    hold_time,
                    decay_time,
                    sustain_value,
                );
                release_from(
                    level,
                    sample_period - release_time,
                    value_on_trigger_change,
                    sample_period,
                    release_time,
                )
            }
        },
        EnvelopeStage::Decay => {
            if input_gate_open {
                from_decay(
                    seconds_on_stage + sample_period,
                    value_on_trigger_change,
                    attack_value,
                    decay_time,
                    sustain_value,
                )
            } else {
                let level = level_from_decay(
                    seconds_on_stage,
                    attack_value,
                    decay_time,
                    sustain_value,
                );
                release_from(
                    level,
                    sample_period - release_time,
                    value_on_trigger_change,
                    sample_period,
                    release_time,
                )
            }
        },
        EnvelopeStage::Sustain => {
            if input_gate_open {
                let seconds = sat_add_time(seconds_on_stage, sample_period);
                proof {
                    lemma_mod_bound(seconds as int, MICROS_PER_SECOND as int);
                }
                StageStep {
                    stage: EnvelopeStage::Sustain,
                    seconds_on_stage: seconds,
                    stage_progress: seconds % MICROS_PER_SECOND,
                    value_on_trigger_change,
                    output_value: sustain_value,
                }
            } else {
                release_from(
                    sustain_value,
                    seconds_on_stage + sample_period - release_time,
                    value_on_trigger_change,
                    sample_period,
                    release_time,
                )
            }
        },
        EnvelopeStage::Release => {
            if input_gate_open {
                let seed = linear_interp(
                    value_on_trigger_change,
                    0,
                    0,
                    release_time,
                    seconds_on_stage,
                );
                advance_open(
                    sample_period,
                    value_on_trigger_change,
                    seed,
                    attack_time,
                    attack_value,
                    hold_time,
                    decay_time,
                    sustain_value,
                )
            } else {
                if seconds_on_stage + sample_period < release_time {
                    proof {
                        lemma_progress_bounds(
                            seconds_on_stage as int + sample_period as int,
                            release_time as int,
                        );
                    }
                    StageStep {
                        stage: EnvelopeStage::Release,
                        seconds_on_stage: seconds_on_stage + sample_period,
                        stage_progress: (seconds_on_stage + sample_period) * UNIT_VALUE
                            / release_time,
                        value_on_trigger_change,
                        output_value: linear_interp(
                            value_on_trigger_change,
                            0,
                            0,
                            release_time,
                            seconds_on_stage + sample_period,
                        ),
                    }
                } else {
                    StageStep {
                        stage: EnvelopeStage::Rest,
                        seconds_on_stage: seconds_on_stage + sample_period - release_time,
                        stage_progress: 0,
                        value_on_trigger_change,
                        output_value: 0,
                    }
                }
            }
        },
    };
    r
}

} // verus!
