//! Note/gate tracker behavior: last-note priority, idempotent release.

use keystep::{Sequencer, Synth};

fn stopped() -> Sequencer {
    Sequencer::new()
}

#[test]
fn note_on_sets_note_and_opens_gate() {
    let seq = stopped();
    let mut synth = Synth::new();
    assert!(!synth.gate_trigger());
    assert!(!synth.gate_level());
    synth.note_on(7, &seq);
    assert_eq!(synth.current_note(), 7);
    assert!(synth.gate_trigger());
    assert!(synth.gate_level());
}

#[test]
fn last_pressed_key_wins_and_release_falls_back() {
    let seq = stopped();
    let mut synth = Synth::new();
    synth.note_on(1, &seq);
    synth.note_on(2, &seq);
    assert_eq!(synth.current_note(), 2);
    synth.note_off(2);
    assert_eq!(synth.current_note(), 1);
    assert!(synth.gate_trigger());
    synth.note_off(1);
    assert!(!synth.gate_trigger());
    assert!(!synth.gate_level());
}

#[test]
fn repressing_a_held_key_refreshes_its_recency() {
    let seq = stopped();
    let mut synth = Synth::new();
    synth.note_on(1, &seq);
    synth.note_on(2, &seq);
    synth.note_on(3, &seq);
    synth.note_on(1, &seq);
    assert_eq!(synth.current_note(), 1);
    synth.note_off(3);
    // 1 was re-pressed after 2, so it is the most recent still-held key.
    assert_eq!(synth.current_note(), 1);
    synth.note_off(1);
    assert_eq!(synth.current_note(), 2);
}

#[test]
fn releasing_an_unheld_key_is_a_noop() {
    let seq = stopped();
    let mut synth = Synth::new();
    synth.note_on(5, &seq);
    synth.note_off(7);
    assert_eq!(synth.current_note(), 5);
    assert!(synth.gate_trigger());
    assert!(synth.gate_level());
}

#[test]
fn releasing_on_an_empty_tracker_keeps_silence() {
    let seq = stopped();
    let mut synth = Synth::new();
    let note_before = synth.current_note();
    synth.note_off(3);
    assert_eq!(synth.current_note(), note_before);
    assert!(!synth.gate_trigger());
    assert!(!synth.gate_level());
}

#[test]
fn double_release_is_idempotent() {
    let seq = stopped();
    let mut synth = Synth::new();
    synth.note_on(4, &seq);
    synth.note_on(9, &seq);
    synth.note_off(9);
    synth.note_off(9);
    assert_eq!(synth.current_note(), 4);
    assert!(synth.gate_trigger());
}
