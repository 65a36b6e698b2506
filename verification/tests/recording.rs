//! Sequence recording: step creation, merging, closing, backfill, undo.

use keystep::{SeqStatus, Sequencer, Synth};

fn recording() -> Sequencer {
    let mut seq = Sequencer::new();
    seq.start_recording();
    seq
}

#[test]
fn recorded_note_press_and_release() {
    let seq = recording();
    let mut synth = Synth::new();
    synth.note_on(0, &seq);
    assert!(synth.gate_trigger());
    assert!(synth.gate_level());
    let steps = synth.snapshot_steps();
    assert_eq!(steps.len(), 1);
    assert_eq!(steps[0].note, Some(0));
    assert!(!steps[0].is_awaiting_note);
    assert_eq!(steps[0].harmonic, None);
    synth.note_off(0);
    assert!(!synth.gate_trigger());
    assert!(!synth.gate_level());
    let after = synth.snapshot_steps();
    assert_eq!(after.len(), 1);
    assert_eq!(after[0], steps[0]);
}

#[test]
fn nothing_is_recorded_while_stopped() {
    let seq = Sequencer::new();
    let mut synth = Synth::new();
    synth.note_on(3, &seq);
    synth.harmonic_up(&seq);
    synth.add_rest(&seq);
    assert_eq!(synth.snapshot_steps().len(), 0);
}

#[test]
fn rest_closes_an_open_step() {
    let seq = recording();
    let mut synth = Synth::new();
    synth.harmonic_up(&seq);
    let open = synth.snapshot_steps();
    assert_eq!(open.len(), 1);
    assert!(open[0].is_awaiting_note);
    synth.add_rest(&seq);
    let closed = synth.snapshot_steps();
    assert_eq!(closed.len(), 1);
    assert!(!closed[0].is_awaiting_note);
    assert_eq!(closed[0].note, None);
    assert_eq!(closed[0].harmonic, Some(6));
}

#[test]
fn rest_on_empty_sequence_records_one_silent_step() {
    let seq = recording();
    let mut synth = Synth::new();
    synth.add_rest(&seq);
    let steps = synth.snapshot_steps();
    assert_eq!(steps.len(), 1);
    assert_eq!(steps[0].note, None);
    assert!(!steps[0].is_awaiting_note);
}

#[test]
fn consecutive_parameter_edits_merge_into_one_step() {
    let seq = recording();
    let mut synth = Synth::new();
    synth.harmonic_up(&seq);
    assert_eq!(synth.snapshot_steps().len(), 1);
    synth.timbre_up(&seq);
    let steps = synth.snapshot_steps();
    assert_eq!(steps.len(), 1);
    assert_eq!(steps[0].harmonic, Some(6));
    assert_eq!(steps[0].timbre, Some(6));
    assert!(steps[0].is_awaiting_note);
}

#[test]
fn a_note_after_an_edit_closes_the_same_step() {
    let seq = recording();
    let mut synth = Synth::new();
    synth.morph_down(&seq);
    synth.note_on(12, &seq);
    let steps = synth.snapshot_steps();
    assert_eq!(steps.len(), 1);
    assert_eq!(steps[0].morph, Some(4));
    assert_eq!(steps[0].note, Some(12));
    assert!(!steps[0].is_awaiting_note);
}

#[test]
fn first_step_backfill_restores_the_pre_edit_baseline() {
    let seq = recording();
    let mut synth = Synth::new();
    // Baseline before any edit: harmonic 5, timbre 5.
    synth.harmonic_up(&seq); // captures the baseline, opens step 1 with harmonic 6
    synth.note_on(0, &seq); // closes step 1
    synth.note_on(3, &seq); // creates step 2
    synth.timbre_up(&seq); // backfills timbre into step 1, opens step 3
    let steps = synth.snapshot_steps();
    assert_eq!(steps.len(), 3);
    assert_eq!(steps[0].harmonic, Some(6));
    assert_eq!(steps[0].timbre, Some(5)); // the baseline, not the new 6
    assert_eq!(steps[0].note, Some(0));
    assert_eq!(steps[2].timbre, Some(6));
}

#[test]
fn backfill_never_overwrites_a_recorded_value() {
    let seq = recording();
    let mut synth = Synth::new();
    synth.harmonic_up(&seq); // step 1: harmonic 6
    synth.note_on(0, &seq);
    synth.note_on(3, &seq);
    synth.harmonic_up(&seq); // step 1's harmonic is set; backfill must not touch it
    let steps = synth.snapshot_steps();
    assert_eq!(steps[0].harmonic, Some(6));
    assert_eq!(steps[2].harmonic, Some(7));
}

#[test]
fn undo_pops_the_last_step_while_recording() {
    let mut seq = recording();
    let mut synth = Synth::new();
    synth.note_on(1, &seq);
    synth.note_on(2, &seq);
    assert_eq!(synth.snapshot_steps().len(), 2);
    synth.start_recording_or_undo_last(&mut seq);
    assert_eq!(synth.snapshot_steps().len(), 1);
    assert_eq!(seq.status, SeqStatus::Recording);
}

#[test]
fn record_toggle_starts_recording_when_stopped() {
    let mut seq = Sequencer::new();
    let mut synth = Synth::new();
    assert_eq!(seq.status, SeqStatus::Stop);
    synth.start_recording_or_undo_last(&mut seq);
    assert_eq!(seq.status, SeqStatus::Recording);
    assert_eq!(synth.snapshot_steps().len(), 0);
}

#[test]
fn clear_empties_the_sequence() {
    let seq = recording();
    let mut synth = Synth::new();
    synth.note_on(1, &seq);
    synth.add_rest(&seq);
    assert_eq!(synth.snapshot_steps().len(), 2);
    synth.clear_notes();
    assert_eq!(synth.snapshot_steps().len(), 0);
}

#[test]
fn recorded_note_carries_the_recording_transpose() {
    let seq = recording();
    let mut synth = Synth::new();
    synth.transpose_up();
    assert_eq!(synth.rec_transpose(), 22);
    synth.note_on(5, &seq);
    assert_eq!(synth.current_note(), 27);
    let steps = synth.snapshot_steps();
    assert_eq!(steps[0].note, Some(27));
}

#[test]
fn rest_resets_the_recording_transpose() {
    let seq = recording();
    let mut synth = Synth::new();
    synth.transpose_up();
    assert_eq!(synth.rec_transpose(), 22);
    synth.add_rest(&seq);
    assert_eq!(synth.rec_transpose(), 0);
    // The live transpose keeps the octave move.
    assert_eq!(synth.transpose(), 110);
    assert_eq!(synth.info_octave(), 6);
}

#[test]
fn undo_resets_the_recording_transpose() {
    let mut seq = recording();
    let mut synth = Synth::new();
    synth.transpose_down();
    assert_eq!(synth.rec_transpose(), -22);
    synth.start_recording_or_undo_last(&mut seq);
    assert_eq!(synth.rec_transpose(), 0);
}
