//! The abstract control dispatch and the transport's playing flag.

use keystep::{apply_control, Control, SeqStatus, Sequencer, Synth, Transport};

#[test]
fn note_controls_drive_the_tracker() {
    let mut synth = Synth::new();
    let mut seq = Sequencer::new();
    let mut transport = Transport::new();
    apply_control(&mut synth, &mut seq, &mut transport, Control::NoteOn(21));
    assert_eq!(synth.current_note(), 21);
    assert!(synth.gate_trigger());
    apply_control(&mut synth, &mut seq, &mut transport, Control::NoteOff(21));
    assert!(!synth.gate_trigger());
}

#[test]
fn play_pause_wakes_and_parks_the_scheduler() {
    let mut synth = Synth::new();
    let mut seq = Sequencer::new();
    let mut transport = Transport::new();
    assert!(!transport.is_playing);
    apply_control(&mut synth, &mut seq, &mut transport, Control::PlayPause);
    assert_eq!(seq.status, SeqStatus::Play);
    assert!(transport.is_playing);
    apply_control(&mut synth, &mut seq, &mut transport, Control::PlayPause);
    assert_eq!(seq.status, SeqStatus::Stop);
    assert!(!transport.is_playing);
}

#[test]
fn record_toggle_disengages_playback() {
    let mut synth = Synth::new();
    let mut seq = Sequencer::new();
    let mut transport = Transport::new();
    apply_control(&mut synth, &mut seq, &mut transport, Control::PlayPause);
    assert!(transport.is_playing);
    apply_control(&mut synth, &mut seq, &mut transport, Control::RecordOrUndo);
    assert_eq!(seq.status, SeqStatus::Recording);
    assert!(!transport.is_playing);
}

#[test]
fn edits_through_the_dispatch_are_recorded() {
    let mut synth = Synth::new();
    let mut seq = Sequencer::new();
    let mut transport = Transport::new();
    apply_control(&mut synth, &mut seq, &mut transport, Control::RecordOrUndo);
    apply_control(&mut synth, &mut seq, &mut transport, Control::HarmonicUp);
    apply_control(&mut synth, &mut seq, &mut transport, Control::NoteOn(2));
    let steps = synth.snapshot_steps();
    assert_eq!(steps.len(), 1);
    assert_eq!(steps[0].harmonic, Some(6));
    assert_eq!(steps[0].note, Some(2));
    apply_control(&mut synth, &mut seq, &mut transport, Control::ClearNotes);
    assert_eq!(synth.snapshot_steps().len(), 0);
}

#[test]
fn tempo_and_model_controls_dispatch() {
    let mut synth = Synth::new();
    let mut seq = Sequencer::new();
    let mut transport = Transport::new();
    apply_control(&mut synth, &mut seq, &mut transport, Control::TempoUp);
    assert_eq!(seq.tempo, 124);
    apply_control(&mut synth, &mut seq, &mut transport, Control::TempoDown);
    apply_control(&mut synth, &mut seq, &mut transport, Control::TempoDown);
    assert_eq!(seq.tempo, 116);
    apply_control(&mut synth, &mut seq, &mut transport, Control::ModelUp);
    assert_eq!(synth.engine(), 9);
    apply_control(&mut synth, &mut seq, &mut transport, Control::VibratoOn);
    assert_eq!(synth.vibrato_target_nanos(), 1_100_000_000);
    apply_control(&mut synth, &mut seq, &mut transport, Control::PitchBendNegative);
    assert_eq!(synth.bend_target_units(), -4);
    apply_control(&mut synth, &mut seq, &mut transport, Control::TransposeUp);
    assert_eq!(synth.info_octave(), 6);
}
