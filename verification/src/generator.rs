//! The envelope generator: the stateful driver that owns the runtime state,
//! the seven parameter buffers of the current render block and the output
//! buffer. One `process` call walks the block strictly in sample order:
//! resolve the parameters, debounce the input gate, step the state machine, write
//! the output sample -- and hands back the debounced gate edges (at most one
//! "opened" and one "closed" per physical transition) for the host to act
//! on after its own fashion.

use vstd::prelude::*;

use crate::envelope::{
    get_envelope_value,
    spec_sample_period,
    spec_state_wf,
    spec_step,
    EnvModel,
    EnvelopeStage,
};
use crate::gate::{
    debounce_gate,
    spec_gate_active,
    spec_gate_event,
    spec_gate_next,
    spec_gate_open,
    InputGateStage,
};
use crate::params::{
    get_parameter,
    spec_resolved,
    GATE_LIMIT,
    MAX_STAGE_TIME_MICROS,
    MICROS_PER_SECOND,
    UNIT_VALUE,
};

verus! {

/// A debounced gate edge reported to the host: `active` is true on the
/// opening edge, false on the closing edge, at the sample it fired on.
#[derive(Copy, Clone, Debug, PartialEq, Eq, Structural)]
pub struct GateEvent {
    pub sample_index: usize,
    pub active: bool,
}

/// The render block's parameter arrays, as the model sees them: each one
/// empty (reads as 0), a single broadcast scalar, or one value per sample.
pub ghost struct BlockParams {
    pub input_gate: Seq<i64>,
    pub attack_value: Seq<i64>,
    pub attack_time: Seq<i64>,
    pub hold_time: Seq<i64>,
    pub decay_time: Seq<i64>,
    pub sustain_value: Seq<i64>,
    pub release_time: Seq<i64>,
}

/// The model of the whole persistent state: the envelope's runtime state
/// plus the debounced gate state.
pub ghost struct GenModel {
    pub env: EnvModel,
    pub gate: InputGateStage,
}

/// A time parameter resolved for sample `i`: clamped into zero to ten
/// seconds.
pub open spec fn spec_resolved_time(values: Seq<i64>, i: int) -> int {
    spec_resolved(values, 0, MAX_STAGE_TIME_MICROS as int, i)
}

/// A level parameter resolved for sample `i`: clamped into zero to one.
pub open spec fn spec_resolved_level(values: Seq<i64>, i: int) -> int {
    spec_resolved(values, 0, UNIT_VALUE as int, i)
}

/// The raw gate level resolved for sample `i`: clamped into a wide sentinel
/// range; only its sign matters.
pub open spec fn spec_resolved_gate(values: Seq<i64>, i: int) -> int {
    spec_resolved(values, -(GATE_LIMIT as int), GATE_LIMIT as int, i)
}

/// One sample of the driver: debounce the input gate on its resolved raw level,
/// then step the envelope on the resolved shaping parameters.
pub open spec fn spec_sample_update(
    p: BlockParams,
    sample_period: int,
    s: GenModel,
    i: int,
) -> GenModel {
    let gate = spec_gate_next(spec_gate_active(spec_resolved_gate(p.input_gate, i)), s.gate);
    let env = spec_step(
        sample_period,
        spec_gate_open(gate),
        spec_resolved_time(p.attack_time, i),
        spec_resolved_level(p.attack_value, i),
        spec_resolved_time(p.hold_time, i),
        spec_resolved_time(p.decay_time, i),
        spec_resolved_level(p.sustain_value, i),
        spec_resolved_time(p.release_time, i),
        s.env.stage,
        s.env.seconds_on_stage,
        s.env.value_on_trigger_change,
    );
    GenModel { env, gate }
}

/// The state after the first `n` samples of a block, starting from `s0`.
pub open spec fn spec_run(p: BlockParams, sample_period: int, s0: GenModel, n: nat) -> GenModel
    decreases n,
{
    if n == 0 {
        s0
    } else {
        spec_sample_update(p, sample_period, spec_run(p, sample_period, s0, (n - 1) as nat), n - 1)
    }
}

/// The input gate edge fired at sample `i` of a block, if any.
pub open spec fn spec_event_at(
    p: BlockParams,
    sample_period: int,
    s0: GenModel,
    i: int,
) -> Option<bool> {
    spec_gate_event(
        spec_gate_active(spec_resolved_gate(p.input_gate, i)),
        spec_run(p, sample_period, s0, i as nat).gate,
    )
}

/// The input gate edges fired over the first `n` samples of a block, in
/// order.
pub open spec fn spec_events(
    p: BlockParams,
    sample_period: int,
    s0: GenModel,
    n: nat,
) -> Seq<GateEvent>
    decreases n,
{
    if n == 0 {
        Seq::empty()
    } else {
        let pre = spec_events(p, sample_period, s0, (n - 1) as nat);
        match spec_event_at(p, sample_period, s0, n - 1) {
            Some(active) => pre.push(
                GateEvent { sample_index: (n - 1) as usize, active },
            ),
            None => pre,
        }
    }
}

/// How many "opened" edges a sequence of reported events holds.
pub open spec fn spec_opened_count(events: Seq<GateEvent>) -> int
    decreases events.len(),
{
    if events.len() == 0 {
        0
    } else {
        spec_opened_count(events.drop_last()) + if events.last().active {
            1int
        } else {
            0int
        }
    }
}

/// After at least one sample of an actively driven input gate, the
/// debounced state is effectively open.
proof fn lemma_run_gate_stays_open(p: BlockParams, sample_period: int, s0: GenModel, n: nat)
    requires
        n >= 1,
        forall|i: int| 0 <= i < n ==> spec_gate_active(spec_resolved_gate(p.input_gate, i)),
    ensures
        spec_gate_open(spec_run(p, sample_period, s0, n).gate),
    decreases n,
{
    if n > 1 {
        lemma_run_gate_stays_open(p, sample_period, s0, (n - 1) as nat);
    }
}

/// A raw gate level held active over a whole block fires exactly one
/// "opened" edge in the block's reported events when the block began
/// effectively closed, and none when it began effectively open --
/// independent of the block length.
pub proof fn lemma_block_single_opened_event(
    p: BlockParams,
    sample_period: int,
    s0: GenModel,
    n: nat,
)
    requires
        n >= 1,
        forall|i: int| 0 <= i < n ==> spec_gate_active(spec_resolved_gate(p.input_gate, i)),
    ensures
        spec_opened_count(spec_events(p, sample_period, s0, n)) == if spec_gate_open(s0.gate) {
            0int
        } else {
            1int
        },
    decreases n,
{
    let events = spec_events(p, sample_period, s0, n);
    let pre = spec_events(p, sample_period, s0, (n - 1) as nat);
    if n == 1 {
        assert(pre == Seq::<GateEvent>::empty());
        assert(spec_opened_count(pre) == 0);
        match spec_event_at(p, sample_period, s0, 0) {
            Some(active) => {
                assert(events.drop_last() =~= pre);
            },
            None => {},
        }
    } else {
        lemma_block_single_opened_event(p, sample_period, s0, (n - 1) as nat);
        lemma_run_gate_stays_open(p, sample_period, s0, (n - 1) as nat);
        assert(spec_event_at(p, sample_period, s0, n - 1) is None);
        assert(events == pre);
    }
}

/// A telemetry snapshot for the host: the current stage, its progress, the
/// last output sample, and the first-sample-resolved value of each shaping
/// parameter.
#[derive(Copy, Clone, Debug, PartialEq, Eq, Structural)]
pub struct EnvelopeStateSnapshot {
    pub stage: EnvelopeStage,
    pub stage_progress: i64,
    pub output_value: i64,
    pub attack_value: i64,
    pub attack_time: i64,
    pub hold_time: i64,
    pub decay_time: i64,
    pub sustain_value: i64,
    pub release_time: i64,
}

/// The envelope generator. The host writes the parameter buffers between
/// calls; `process` fills the output buffer, one sample per entry.
pub struct EnvelopeGenerator {
    pub input_gate: Vec<i64>,
    pub attack_value: Vec<i64>,
    pub attack_time: Vec<i64>,
    pub hold_time: Vec<i64>,
    pub decay_time: Vec<i64>,
    pub sustain_value: Vec<i64>,
    pub release_time: Vec<i64>,
    pub render_quantum_samples: usize,
    pub sample_rate: i64,
    pub output: Vec<i64>,
    pub seconds_on_stage: i64,
    pub stage_progress: i64,
    pub envelope_stage: EnvelopeStage,
    pub input_gate_stage: InputGateStage,
    pub output_value: i64,
    pub value_on_trigger_change: i64,
}

impl EnvelopeGenerator {
    /// The persistent state's model.
    pub open spec fn model(self) -> GenModel {
        GenModel {
            env: EnvModel {
                stage: self.envelope_stage,
                seconds_on_stage: self.seconds_on_stage as int,
                stage_progress: self.stage_progress as int,
                value_on_trigger_change: self.value_on_trigger_change as int,
                output_value: self.output_value as int,
            },
            gate: self.input_gate_stage,
        }
    }

    /// The current render block's parameter arrays, as the model sees them.
    pub open spec fn block_params(self) -> BlockParams {
        BlockParams {
            input_gate: self.input_gate@,
            attack_value: self.attack_value@,
            attack_time: self.attack_time@,
            hold_time: self.hold_time@,
            decay_time: self.decay_time@,
            sustain_value: self.sustain_value@,
            release_time: self.release_time@,
        }
    }

    /// Well-formedness: a usable sample rate, an output buffer of exactly
    /// one block, and runtime state within its invariant ranges.
    pub open spec fn wf(self) -> bool {
        &&& 1 <= self.sample_rate <= MICROS_PER_SECOND
        &&& self.output@.len() == self.render_quantum_samples
        &&& spec_state_wf(
            self.envelope_stage,
            self.seconds_on_stage as int,
            self.value_on_trigger_change as int,
        )
        &&& 0 <= self.output_value <= UNIT_VALUE
        &&& 0 <= self.stage_progress <= UNIT_VALUE
    }

    /// A parameter array is usable for this block when it is absent, a
    /// broadcast scalar, or exactly one value per sample.
    pub open spec fn spec_len_ok(self, values: Seq<i64>) -> bool {
        values.len() <= 1 || values.len() == self.render_quantum_samples
    }

    /// All seven parameter arrays are usable for this block.
    pub open spec fn params_len_ok(self) -> bool {
        &&& self.spec_len_ok(self.input_gate@)
        &&& self.spec_len_ok(self.attack_value@)
        &&& self.spec_len_ok(self.attack_time@)
        &&& self.spec_len_ok(self.hold_time@)
        &&& self.spec_len_ok(self.decay_time@)
        &&& self.spec_len_ok(self.sustain_value@)
        &&& self.spec_len_ok(self.release_time@)
    }

    /// A fresh generator: everything at rest, the input gate closed, an output
    /// buffer of `render_quantum_samples` zeros, no parameters yet.
    pub fn new(render_quantum_samples: usize, sample_rate: i64) -> (g: EnvelopeGenerator)
        requires
            1 <= sample_rate <= MICROS_PER_SECOND,
        ensures
            g.wf(),
            g.render_quantum_samples == render_quantum_samples,
            g.sample_rate == sample_rate,
            g.envelope_stage is Rest,
            g.input_gate_stage is Closed,
            g.seconds_on_stage == 0,
            g.stage_progress == 0,
            g.output_value == 0,
            g.value_on_trigger_change == 0,
            g.output@.len() == render_quantum_samples,
            forall|i: int| 0 <= i < render_quantum_samples ==> g.output@[i] == 0,
            g.input_gate@.len() == 0,
            g.attack_value@.len() == 0,
            g.attack_time@.len() == 0,
            g.hold_time@.len() == 0,
            g.decay_time@.len() == 0,
            g.sustain_value@.len() == 0,
            g.release_time@.len() == 0,
    {
        let mut output: Vec<i64> = Vec::new();
        let mut i: usize = 0;
        while i < render_quantum_samples
            invariant
                i <= render_quantum_samples,
                output@.len() == i,
                forall|j: int| 0 <= j < i ==> output@[j] == 0,
            decreases render_quantum_samples - i,
        {
            output.push(0);
            i = i + 1;
        }
        EnvelopeGenerator {
            input_gate: Vec::new(),
            attack_value: Vec::new(),
            attack_time: Vec::new(),
            hold_time: Vec::new(),
            decay_time: Vec::new(),
            sustain_value: Vec::new(),
            release_time: Vec::new(),
            render_quantum_samples,
            sample_rate,
            output,
            seconds_on_stage: 0,
            stage_progress: 0,
            envelope_stage: EnvelopeStage::Rest,
            input_gate_stage: InputGateStage::Closed,
            output_value: 0,
            value_on_trigger_change: 0,
        }
    }

    /// Runs one render block: for each sample index in order, resolves the
    /// seven parameters, debounces the input gate, steps the state machine,
    /// stores the new state and writes the output sample. Returns the input gate
    /// edges fired during the block, in order, for the host.
    #[verifier::rlimit(100)]
    pub fn process(&mut self) -> (events: Vec<GateEvent>)
        requires
            old(self).wf(),
            old(self).params_len_ok(),
        ensures
            final(self).wf(),
            final(self).model() == spec_run(
                old(self).block_params(),
                spec_sample_period(old(self).sample_rate as int),
                old(self).model(),
                old(self).render_quantum_samples as nat,
            ),
            final(self).output@.len() == old(self).render_quantum_samples,
            forall|i: int|
                0 <= i < old(self).render_quantum_samples ==> final(self).output@[i]
                    == spec_run(
                    old(self).block_params(),
                    spec_sample_period(old(self).sample_rate as int),
                    old(self).model(),
                    (i + 1) as nat,
                ).env.output_value,
            events@ == spec_events(
                old(self).block_params(),
                spec_sample_period(old(self).sample_rate as int),
                old(self).model(),
                old(self).render_quantum_samples as nat,
            ),
            final(self).input_gate@ == old(self).input_gate@,
            final(self).attack_value@ == old(self).attack_value@,
            final(self).attack_time@ == old(self).attack_time@,
            final(self).hold_time@ == old(self).hold_time@,
            final(self).decay_time@ == old(self).decay_time@,
            final(self).sustain_value@ == old(self).sustain_value@,
            final(self).release_time@ == old(self).release_time@,
            final(self).render_quantum_samples == old(self).render_quantum_samples,
            final(self).sample_rate == old(self).sample_rate,
    {
        let ghost p = self.block_params();
        let ghost s0 = self.model();
        let ghost period = spec_sample_period(self.sample_rate as int);
        let ghost rate0 = self.sample_rate;
        let n = self.render_quantum_samples;
        let mut events: Vec<GateEvent> = Vec::new();
        let mut sample_index: usize = 0;
        while sample_index < n
            invariant
                sample_index <= n,
                self.wf(),
                self.params_len_ok(),
                self.render_quantum_samples == n,
                self.block_params() == p,
                self.sample_rate == rate0,
                period == spec_sample_period(self.sample_rate as int),
                self.model() == spec_run(p, period, s0, sample_index as nat),
                self.output@.len() == n,
                forall|i: int|
                    0 <= i < sample_index ==> self.output@[i] == spec_run(
                        p,
                        period,
                        s0,
                        (i + 1) as nat,
                    ).env.output_value,
                events@ == spec_events(p, period, s0, sample_index as nat),
            decreases n - sample_index,
        {
            let attack_time = get_parameter(&self.attack_time, 0, MAX_STAGE_TIME_MICROS, sample_index);
            let attack_value = get_parameter(&self.attack_value, 0, UNIT_VALUE, sample_index);
            let hold_time = get_parameter(&self.hold_time, 0, MAX_STAGE_TIME_MICROS, sample_index);
            let decay_time = get_parameter(&self.decay_time, 0, MAX_STAGE_TIME_MICROS, sample_index);
            let sustain_value = get_parameter(&self.sustain_value, 0, UNIT_VALUE, sample_index);
            let release_time = get_parameter(&self.release_time, 0, MAX_STAGE_TIME_MICROS, sample_index);
            let input_value = get_parameter(&self.input_gate, -GATE_LIMIT, GATE_LIMIT, sample_index);

            let (gate_stage, edge) = debounce_gate(input_value, self.input_gate_stage);
            self.input_gate_stage = gate_stage;
            if let Some(active) = edge {
                events.push(GateEvent { sample_index, active });
            }

            let step = get_envelope_value(
                self.sample_rate,
                gate_stage == InputGateStage::Open || gate_stage == InputGateStage::Opening,
                attack_time,
                attack_value,
                hold_time,
                decay_time,
                sustain_value,
                release_time,
                self.seconds_on_stage,
                self.envelope_stage,
                self.value_on_trigger_change,
            );
            self.envelope_stage = step.stage;
            self.seconds_on_stage = step.seconds_on_stage;
            self.stage_progress = step.stage_progress;
            self.value_on_trigger_change = step.value_on_trigger_change;
            self.output_value = step.output_value;
            self.output.set(sample_index, step.output_value);

            proof {
                assert(self.model() == spec_sample_update(
                    p,
                    period,
                    spec_run(p, period, s0, sample_index as nat),
                    sample_index as int,
                ));
                assert(spec_run(p, period, s0, (sample_index + 1) as nat)
                    == spec_sample_update(
                    p,
                    period,
                    spec_run(p, period, s0, sample_index as nat),
                    sample_index as int,
                ));
                assert(events@ == spec_events(p, period, s0, (sample_index + 1) as nat));
            }
            sample_index = sample_index + 1;
        }
        events
    }

    /// The debugging/UI telemetry snapshot: the current stage, its
    /// progress, the last output sample, and each shaping parameter
    /// resolved for the block's first sample. Not part of the audio path.
    pub fn publish_state(&self) -> (s: EnvelopeStateSnapshot)
        ensures
            s.stage == self.envelope_stage,
            s.stage_progress == self.stage_progress,
            s.output_value == self.output_value,
            s.attack_value == spec_resolved_level(self.attack_value@, 0),
            s.attack_time == spec_resolved_time(self.attack_time@, 0),
            s.hold_time == spec_resolved_time(self.hold_time@, 0),
            s.decay_time == spec_resolved_time(self.decay_time@, 0),
            s.sustain_value == spec_resolved_level(self.sustain_value@, 0),
            s.release_time == spec_resolved_time(self.release_time@, 0),
    {
        EnvelopeStateSnapshot {
            stage: self.envelope_stage,
            stage_progress: self.stage_progress,
            output_value: self.output_value,
            attack_value: get_parameter(&self.attack_value, 0, UNIT_VALUE, 0),
            attack_time: get_parameter(&self.attack_time, 0, MAX_STAGE_TIME_MICROS, 0),
            hold_time: get_parameter(&self.hold_time, 0, MAX_STAGE_TIME_MICROS, 0),
            decay_time: get_parameter(&self.decay_time, 0, MAX_STAGE_TIME_MICROS, 0),
            sustain_value: get_parameter(&self.sustain_value, 0, UNIT_VALUE, 0),
            release_time: get_parameter(&self.release_time, 0, MAX_STAGE_TIME_MICROS, 0),
        }
    }
}

} // verus!
