//! One emulated scheduler pass over a recorded sequence: the same calls the
//! playback thread makes, without the sleeps.

use keystep::{effective_gate, gate_times, SeqStatus, Sequencer, Synth};

#[test]
fn a_recorded_pass_replays_notes_and_jumps_parameters() {
    let mut seq = Sequencer::new();
    seq.start_recording();
    let mut synth = Synth::new();
    synth.note_on(5, &seq);
    synth.note_off(5);
    synth.add_rest(&seq);
    synth.harmonic_up(&seq); // opens a step
    synth.note_on(12, &seq); // closes it
    seq.play_pause();
    assert_eq!(seq.status, SeqStatus::Play);

    let steps = synth.snapshot_steps();
    assert_eq!(steps.len(), 3);

    let mut total_micros: u64 = 0;
    for step in steps.iter() {
        assert!(step.check_wf());
        let gate = effective_gate(step, synth.gate_length_tenths());
        let (on, off) = gate_times(seq.tempo, gate);
        synth.apply_step(step);
        total_micros += on;
        synth.end_gate();
        assert!(!synth.gate_trigger());
        total_micros += off;
    }
    // Three steps at 120 BPM: 3 * 30/120 s.
    assert_eq!(total_micros, 750_000);
    // The last step replayed note 12 and the harmonic jump.
    assert_eq!(synth.current_note(), 12);
    assert_eq!(synth.harmonic_tenths(), 6);
    assert_eq!(synth.smooth_harmonic_nanos(), 600_000_000);
}

#[test]
fn a_rest_step_leaves_the_previous_note_silent() {
    let mut seq = Sequencer::new();
    seq.start_recording();
    let mut synth = Synth::new();
    synth.note_on(9, &seq);
    synth.note_off(9);
    synth.add_rest(&seq);
    let steps = synth.snapshot_steps();
    assert_eq!(steps.len(), 2);
    synth.apply_step(&steps[0]);
    assert!(synth.gate_trigger());
    synth.end_gate();
    synth.apply_step(&steps[1]); // the rest: no note, nothing rises
    assert!(!synth.gate_trigger());
    assert!(!synth.gate_level());
}

#[test]
fn undo_on_an_empty_sequence_is_harmless() {
    let mut seq = Sequencer::new();
    seq.start_recording();
    let mut synth = Synth::new();
    synth.start_recording_or_undo_last(&mut seq);
    assert_eq!(synth.snapshot_steps().len(), 0);
    assert_eq!(seq.status, SeqStatus::Recording);
}
