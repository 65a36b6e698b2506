//! Playback timing and step application.

use keystep::{effective_gate, gate_times, SeqStep, Sequencer, Synth};

fn empty_step() -> SeqStep {
    SeqStep {
        note: None,
        model: None,
        harmonic: None,
        timbre: None,
        morph: None,
        decay: None,
        gate_length: None,
        is_awaiting_note: false,
    }
}

#[test]
fn gate_times_split_an_eighth_note_slot() {
    // 30 / 120 BPM = 0.25 s per step; gate length 0.5 splits it evenly.
    let (on, off) = gate_times(120, 5);
    assert_eq!(on, 125_000);
    assert_eq!(off, 125_000);
    // 30 / 100 BPM = 0.3 s; gate length 0.3.
    let (on, off) = gate_times(100, 3);
    assert_eq!(on, 90_000);
    assert_eq!(off, 210_000);
}

#[test]
fn gate_extremes_use_the_whole_or_none_of_the_slot() {
    let (on, off) = gate_times(120, 10);
    assert_eq!(on, 250_000);
    assert_eq!(off, 0);
    let (on, off) = gate_times(120, 0);
    assert_eq!(on, 0);
    assert_eq!(off, 250_000);
}

#[test]
fn a_pass_of_n_steps_takes_n_slots() {
    // Whatever per-step gate lengths are, on + off is always one slot.
    let gates: [u8; 4] = [0, 3, 7, 10];
    let mut total: u64 = 0;
    for g in gates {
        let (on, off) = gate_times(96, g);
        total += on + off;
    }
    assert_eq!(total, 4 * (30_000_000 / 96));
}

#[test]
fn per_step_gate_overrides_the_global_one() {
    let mut step = empty_step();
    assert_eq!(effective_gate(&step, 5), 5);
    step.gate_length = Some(2);
    assert_eq!(effective_gate(&step, 5), 2);
}

#[test]
fn applying_a_note_step_opens_the_gate() {
    let mut synth = Synth::new();
    let mut step = empty_step();
    step.note = Some(31);
    synth.apply_step(&step);
    assert_eq!(synth.current_note(), 31);
    assert!(synth.gate_trigger());
    assert!(synth.gate_level());
    synth.end_gate();
    assert!(!synth.gate_trigger());
    assert!(!synth.gate_level());
    assert_eq!(synth.current_note(), 31);
}

#[test]
fn applied_parameters_jump_without_glide() {
    let mut synth = Synth::new();
    let mut step = empty_step();
    step.model = Some(13);
    step.harmonic = Some(9);
    step.timbre = Some(1);
    step.morph = Some(0);
    step.decay = Some(7);
    synth.apply_step(&step);
    assert_eq!(synth.engine(), 13);
    assert_eq!(synth.harmonic_tenths(), 9);
    assert_eq!(synth.smooth_harmonic_nanos(), 900_000_000);
    assert_eq!(synth.timbre_tenths(), 1);
    assert_eq!(synth.smooth_timbre_nanos(), 100_000_000);
    assert_eq!(synth.morph_tenths(), 0);
    assert_eq!(synth.smooth_morph_nanos(), 0);
    assert_eq!(synth.decay_tenths(), 7);
    // No note in the step: trigger and level stay down.
    assert!(!synth.gate_trigger());
}

#[test]
fn applying_an_empty_step_changes_nothing() {
    let seq = Sequencer::new();
    let mut synth = Synth::new();
    synth.note_on(10, &seq);
    synth.apply_step(&empty_step());
    assert_eq!(synth.current_note(), 10);
    assert_eq!(synth.engine(), 8);
    assert_eq!(synth.harmonic_tenths(), 5);
    assert!(synth.gate_trigger());
}
