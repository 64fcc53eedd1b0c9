//! Unit tests for single steps of the envelope state machine: stage
//! transitions, overshoot carry across boundaries, the level captured on
//! gate close, and the convex-hull bound on the output.

use ahdsr::envelope::{get_envelope_value, sample_period_micros, EnvelopeStage};
use ahdsr::params::UNIT_VALUE;

// One step at 1000 samples per second: a sample lasts 1000 microseconds.
const RATE: i64 = 1_000;

#[test]
fn rest_stays_at_rest_while_gate_is_closed() {
    let step = get_envelope_value(
        RATE, false, 10_000, UNIT_VALUE, 0, 0, 500_000, 100_000, 42_000, EnvelopeStage::Rest,
        123_000,
    );
    assert_eq!(step.stage, EnvelopeStage::Rest);
    assert_eq!(step.seconds_on_stage, 43_000);
    assert_eq!(step.stage_progress, 0);
    assert_eq!(step.output_value, 0);
    assert_eq!(step.value_on_trigger_change, 123_000);
}

#[test]
fn rest_enters_attack_when_gate_opens() {
    let step = get_envelope_value(
        RATE, true, 10_000, UNIT_VALUE, 0, 0, 500_000, 100_000, 0, EnvelopeStage::Rest, 777,
    );
    assert_eq!(step.stage, EnvelopeStage::Attack);
    assert_eq!(step.seconds_on_stage, 1_000);
    // One tenth of the attack: progress 0.1, output 0.1.
    assert_eq!(step.stage_progress, 100_000);
    assert_eq!(step.output_value, 100_000);
    // The trigger anchor resets to 0 at the start of an attack from Rest.
    assert_eq!(step.value_on_trigger_change, 0);
}

#[test]
fn attack_advances_along_its_ramp() {
    let step = get_envelope_value(
        RATE, true, 10_000, UNIT_VALUE, 0, 0, 500_000, 100_000, 4_000, EnvelopeStage::Attack, 0,
    );
    assert_eq!(step.stage, EnvelopeStage::Attack);
    assert_eq!(step.seconds_on_stage, 5_000);
    assert_eq!(step.output_value, 500_000);
}

#[test]
fn attack_boundary_lands_in_the_later_stage() {
    // 9 ms on a 10 ms attack plus one 1 ms sample: exactly at the border,
    // which belongs to Hold.
    let step = get_envelope_value(
        RATE, true, 10_000, 800_000, 5_000, 0, 500_000, 100_000, 9_000, EnvelopeStage::Attack, 0,
    );
    assert_eq!(step.stage, EnvelopeStage::Hold);
    assert_eq!(step.seconds_on_stage, 0);
    assert_eq!(step.output_value, 800_000);
}

#[test]
fn stage_boundary_carries_the_overshoot() {
    // 9.5 ms on a 10 ms hold plus 1 ms: lands 0.5 ms into Decay.
    let step = get_envelope_value(
        RATE, true, 0, 800_000, 10_000, 8_000, 400_000, 100_000, 9_500, EnvelopeStage::Hold, 0,
    );
    assert_eq!(step.stage, EnvelopeStage::Decay);
    assert_eq!(step.seconds_on_stage, 500);
    // 500 of 8000 microseconds down the 0.8 -> 0.4 ramp: 0.8 - 0.025.
    assert_eq!(step.output_value, 775_000);
}

#[test]
fn decay_runs_down_to_sustain() {
    let step = get_envelope_value(
        RATE, true, 0, 800_000, 0, 8_000, 400_000, 100_000, 7_500, EnvelopeStage::Decay, 0,
    );
    assert_eq!(step.stage, EnvelopeStage::Sustain);
    assert_eq!(step.seconds_on_stage, 500);
    assert_eq!(step.output_value, 400_000);
}

#[test]
fn sustain_holds_its_level_and_saws_its_progress() {
    let step = get_envelope_value(
        RATE, true, 0, 800_000, 0, 0, 400_000, 100_000, 2_500_000, EnvelopeStage::Sustain, 0,
    );
    assert_eq!(step.stage, EnvelopeStage::Sustain);
    assert_eq!(step.seconds_on_stage, 2_501_000);
    // The fractional second, as a sawtooth in millionths.
    assert_eq!(step.stage_progress, 501_000);
    assert_eq!(step.output_value, 400_000);
}

#[test]
fn gate_close_captures_the_mid_attack_level() {
    // Closing 4 ms into a 10 ms attack toward 1.0: the release must start
    // from exactly 0.4, the level the envelope had reached.
    let step = get_envelope_value(
        RATE, false, 10_000, UNIT_VALUE, 0, 0, 500_000, 100_000, 4_000, EnvelopeStage::Attack, 0,
    );
    assert_eq!(step.stage, EnvelopeStage::Release);
    assert_eq!(step.value_on_trigger_change, 400_000);
    assert_eq!(step.seconds_on_stage, 1_000);
    // One hundredth of the release gone: 0.4 - 0.004.
    assert_eq!(step.output_value, 396_000);
}

#[test]
fn gate_close_captures_the_mid_decay_level() {
    let step = get_envelope_value(
        RATE, false, 0, 800_000, 0, 8_000, 400_000, 100_000, 4_000, EnvelopeStage::Decay, 0,
    );
    assert_eq!(step.stage, EnvelopeStage::Release);
    // Halfway down 0.8 -> 0.4.
    assert_eq!(step.value_on_trigger_change, 600_000);
    assert_eq!(step.output_value, 594_000);
}

#[test]
fn degenerate_release_falls_straight_to_rest() {
    // The whole release fits inside one sample.
    let step = get_envelope_value(
        RATE, false, 0, 800_000, 0, 0, 400_000, 500, 2_000_000, EnvelopeStage::Sustain, 0,
    );
    assert_eq!(step.stage, EnvelopeStage::Rest);
    assert_eq!(step.output_value, 0);
    assert_eq!(step.stage_progress, 0);
    assert_eq!(step.seconds_on_stage, 2_000_500);
}

#[test]
fn release_completes_into_rest_with_overshoot() {
    let step = get_envelope_value(
        RATE, false, 0, 800_000, 0, 0, 400_000, 3_200, 2_500, EnvelopeStage::Release, 600_000,
    );
    assert_eq!(step.stage, EnvelopeStage::Rest);
    assert_eq!(step.seconds_on_stage, 300);
    assert_eq!(step.output_value, 0);
}

#[test]
fn output_stays_in_the_stage_hull_across_a_parameter_sweep() {
    // The convex-hull guarantee, exercised over a grid of parameters and
    // elapsed times, for every stage and both gate states.
    let stages = [
        EnvelopeStage::Rest,
        EnvelopeStage::Attack,
        EnvelopeStage::Hold,
        EnvelopeStage::Decay,
        EnvelopeStage::Sustain,
        EnvelopeStage::Release,
    ];
    for &stage in stages.iter() {
        for &gate in [false, true].iter() {
            for &seconds in [0i64, 900, 5_000, 9_999].iter() {
                for &trigger in [0i64, 650_000].iter() {
                    let step = get_envelope_value(
                        RATE, gate, 4_000, 900_000, 2_000, 3_000, 300_000, 6_000, seconds, stage,
                        trigger,
                    );
                    assert!(step.output_value >= 0);
                    assert!(step.output_value <= UNIT_VALUE);
                    match step.stage {
                        EnvelopeStage::Rest => assert_eq!(step.output_value, 0),
                        EnvelopeStage::Hold => assert_eq!(step.output_value, 900_000),
                        EnvelopeStage::Sustain => assert_eq!(step.output_value, 300_000),
                        EnvelopeStage::Decay => {
                            assert!(step.output_value >= 300_000);
                            assert!(step.output_value <= 900_000);
                        }
                        EnvelopeStage::Release => {
                            assert!(step.output_value <= step.value_on_trigger_change);
                        }
                        EnvelopeStage::Attack => {
                            let lo = step.value_on_trigger_change.min(900_000);
                            let hi = step.value_on_trigger_change.max(900_000);
                            assert!(step.output_value >= lo);
                            assert!(step.output_value <= hi);
                        }
                    }
                }
            }
        }
    }
}

#[test]
fn sample_period_is_the_second_split_by_the_rate() {
    assert_eq!(sample_period_micros(1_000), 1_000);
    assert_eq!(sample_period_micros(100), 10_000);
    assert_eq!(sample_period_micros(44_100), 22);
    assert_eq!(sample_period_micros(1_000_000), 1);
    assert_eq!(sample_period_micros(1), 1_000_000);
}

#[test]
fn stage_ordinals_follow_the_forward_order() {
    assert_eq!(EnvelopeStage::Rest.ordinal(), 0);
    assert_eq!(EnvelopeStage::Attack.ordinal(), 1);
    assert_eq!(EnvelopeStage::Hold.ordinal(), 2);
    assert_eq!(EnvelopeStage::Decay.ordinal(), 3);
    assert_eq!(EnvelopeStage::Sustain.ordinal(), 4);
    assert_eq!(EnvelopeStage::Release.ordinal(), 5);
}
