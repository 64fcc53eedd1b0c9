//! Gate debouncing: a raw per-sample gate level (active when strictly
//! positive) plus the previous discrete gate state yield a new discrete
//! state and, on a transition edge, a single host notification. One-sample
//! hysteresis guarantees exactly one "opened" (or "closed") event per
//! physical transition, however long the input gate stays at the new level.

use vstd::prelude::*;

verus! {

/// The debounced view of the raw gate signal. `Opening` and `Open` count as
/// effectively open for the envelope; `Closing` and `Closed` as effectively
/// closed. The host hears an edge only on the transitions into `Opening`
/// ("gate opened") and into `Closing` ("gate closed").
#[derive(Copy, Clone, Debug, PartialEq, Eq, Structural)]
pub enum InputGateStage {
    Opening,
    Open,
    Closing,
    Closed,
}

/// A raw gate level counts as active exactly when it is strictly positive.
pub open spec fn spec_gate_active(level: int) -> bool {
    level > 0
}

/// Whether a debounced gate state is effectively open.
pub open spec fn spec_gate_open(stage: InputGateStage) -> bool {
    stage is Opening || stage is Open
}

/// The debouncer's transition table: an active level moves a closed-side
/// state to `Opening` and an open-side state to `Open`; an inactive level
/// moves an open-side state to `Closing` and a closed-side state to
/// `Closed`.
pub open spec fn spec_gate_next(active: bool, prev: InputGateStage) -> InputGateStage {
    if active {
        if spec_gate_open(prev) {
            InputGateStage::Open
        } else {
            InputGateStage::Opening
        }
    } else {
        if spec_gate_open(prev) {
            InputGateStage::Closing
        } else {
            InputGateStage::Closed
        }
    }
}

/// The edge the host is told about: `Some(true)` on the transition into
/// `Opening`, `Some(false)` on the transition into `Closing`, `None` when
/// the debounced state merely settles.
pub open spec fn spec_gate_event(active: bool, prev: InputGateStage) -> Option<bool> {
    if active && !spec_gate_open(prev) {
        Some(true)
    } else if !active && spec_gate_open(prev) {
        Some(false)
    } else {
        None
    }
}

/// One debouncer step: turns the resolved raw gate level for a sample and
/// the previous debounced state into the new state and the edge to report.
pub fn debounce_gate(level: i64, prev: InputGateStage) -> (r: (InputGateStage, Option<bool>))
    ensures
        r.0 == spec_gate_next(spec_gate_active(level as int), prev),
        r.1 == spec_gate_event(spec_gate_active(level as int), prev),
{
    if level > 0 {
        match prev {
            InputGateStage::Closed | InputGateStage::Closing => (
                InputGateStage::Opening,
                Some(true),
            ),
            InputGateStage::Opening | InputGateStage::Open => (InputGateStage::Open, None),
        }
    } else {
        match prev {
            InputGateStage::Opening | InputGateStage::Open => (
                InputGateStage::Closing,
                Some(false),
            ),
            InputGateStage::Closed | InputGateStage::Closing => (InputGateStage::Closed, None),
        }
    }
}

/// How many "opened" events the debouncer emits over `n` samples whose raw
/// level is held constantly active, starting from `prev`.
pub open spec fn spec_opened_events_held_active(prev: InputGateStage, n: nat) -> int
    decreases n,
{
    if n == 0 {
        0
    } else {
        (if spec_gate_event(true, prev) == Some(true) {
            1int
        } else {
            0int
        }) + spec_opened_events_held_active(spec_gate_next(true, prev), (n - 1) as nat)
    }
}

/// A gate held at a constant active level for `n` samples emits exactly one
/// "opened" event when it starts effectively closed, and none when it was
/// already effectively open -- independent of `n`.
pub proof fn lemma_single_opened_event(prev: InputGateStage, n: nat)
    requires
        n >= 1,
    ensures
        !spec_gate_open(prev) ==> spec_opened_events_held_active(prev, n) == 1,
        spec_gate_open(prev) ==> spec_opened_events_held_active(prev, n) == 0,
    decreases n,
{
    let next = spec_gate_next(true, prev);
    assert(spec_gate_open(next));
    if n == 1 {
        assert(spec_opened_events_held_active(next, 0) == 0);
    } else {
        lemma_single_opened_event(next, (n - 1) as nat);
    }
}

} // verus!
