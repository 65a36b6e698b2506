//! Sequencer playback timing: the eighth-note grid and per-step gate split.
//!
//! Steps fall on an eighth-note grid: a step lasts `30 / tempo` seconds,
//! computed here in whole microseconds. Each step's slot is split into a
//! sounding on-phase scaled by the step's own `gate_length` (or the global
//! one) and the complementary off-phase; the two always sum to exactly one
//! slot, so a pass over `N` steps takes `N` slots whatever lengths the steps
//! carry. The scheduler that sleeps through these phases lives in the
//! embedding program; this crate fixes every duration it uses.

use vstd::prelude::*;
use crate::step::SeqStep;

verus! {

/// Microseconds in one eighth-note slot at one beat per minute, so that a
/// slot at `tempo` lasts `SLOT_MICROS_AT_ONE / tempo` microseconds
/// (30 seconds at 1 BPM).
pub const SLOT_MICROS_AT_ONE: u64 = 30_000_000;

/// Length of one step slot in microseconds.
pub open spec fn step_micros(tempo: u32) -> int {
    SLOT_MICROS_AT_ONE as int / tempo as int
}

/// Length of the on-phase: the slot scaled by a `gate_length` in tenths.
pub open spec fn gate_on_micros(tempo: u32, gate_tenths: u8) -> int {
    step_micros(tempo) * gate_tenths as int / 10
}

/// Length of the off-phase: the remainder of the slot.
pub open spec fn gate_off_micros(tempo: u32, gate_tenths: u8) -> int {
    step_micros(tempo) - gate_on_micros(tempo, gate_tenths)
}

/// The `gate_length` a step plays with: its own override, or the global one.
pub open spec fn effective_gate_spec(step: SeqStep, global: u8) -> u8 {
    match step.gate_length {
        Some(g) => g,
        None => global,
    }
}

/// The `gate_length` a step plays with: its own override, or the global one.
pub fn effective_gate(step: &SeqStep, global: u8) -> (r: u8)
    ensures
        r == effective_gate_spec(*step, global),
{
    match step.gate_length {
        Some(g) => g,
        None => global,
    }
}

/// The on-phase and off-phase durations of one step slot, in microseconds.
/// They always sum to exactly one slot.
pub fn gate_times(tempo: u32, gate_tenths: u8) -> (r: (u64, u64))
    requires
        1 <= tempo,
        gate_tenths <= 10,
    ensures
        r.0 == gate_on_micros(tempo, gate_tenths),
        r.1 == gate_off_micros(tempo, gate_tenths),
        r.0 + r.1 == step_micros(tempo),
{
    let slot: u64 = SLOT_MICROS_AT_ONE / (tempo as u64);
    proof {
        assert(slot <= SLOT_MICROS_AT_ONE) by (nonlinear_arith)
            requires
                slot == SLOT_MICROS_AT_ONE as int / tempo as int,
                tempo >= 1,
        ;
        assert(slot * gate_tenths <= SLOT_MICROS_AT_ONE * 10) by (nonlinear_arith)
            requires
                slot <= SLOT_MICROS_AT_ONE,
                gate_tenths <= 10,
                slot >= 0,
        ;
    }
    let on: u64 = slot * (gate_tenths as u64) / 10;
    proof {
        assert(slot * gate_tenths <= slot * 10) by (nonlinear_arith)
            requires
                gate_tenths <= 10,
                slot >= 0,
        ;
        assert(slot * gate_tenths / 10 <= slot * 10 / 10) by (nonlinear_arith)
            requires
                slot * gate_tenths <= slot * 10,
        ;
        assert(slot * 10 / 10 == slot) by (nonlinear_arith);
    }
    let off: u64 = slot - on;
    (on, off)
}

/// Total duration of one full pass over a step sequence, each step split
/// into its gate-on and gate-off phases.
pub open spec fn pass_micros(steps: Seq<SeqStep>, tempo: u32, global: u8) -> int
    decreases steps.len(),
{
    if steps.len() == 0 {
        0
    } else {
        pass_micros(steps.drop_last(), tempo, global) + gate_on_micros(
            tempo,
            effective_gate_spec(steps.last(), global),
        ) + gate_off_micros(tempo, effective_gate_spec(steps.last(), global))
    }
}

/// One full pass over `N` steps takes exactly `N` eighth-note slots,
/// whatever gate lengths the steps carry: each slot's gate-on and gate-off
/// phases are complementary.
pub proof fn lemma_pass_duration(steps: Seq<SeqStep>, tempo: u32, global: u8)
    requires
        1 <= tempo,
    ensures
        pass_micros(steps, tempo, global) == steps.len() * step_micros(tempo),
    decreases steps.len(),
{
    if steps.len() == 0 {
    } else {
        lemma_pass_duration(steps.drop_last(), tempo, global);
        assert(steps.len() * step_micros(tempo) == (steps.len() - 1) * step_micros(tempo)
            + step_micros(tempo)) by (nonlinear_arith);
    }
}

} // verus!
