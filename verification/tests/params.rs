//! Parameter edits: clamping, transpose, bend and vibrato targets, tempo,
//! and the smoothing tick's exact arithmetic.

use keystep::{Sequencer, Synth};

fn stopped() -> Sequencer {
    Sequencer::new()
}

#[test]
fn model_up_thirty_times_from_zero_stops_at_23() {
    let seq = stopped();
    let mut synth = Synth::new();
    for _ in 0..10 {
        synth.model_down(&seq); // initial engine is 8; clamp at 0
    }
    assert_eq!(synth.engine(), 0);
    for _ in 0..30 {
        synth.model_up(&seq);
    }
    assert_eq!(synth.engine(), 23);
}

#[test]
fn harmonic_down_twenty_times_from_half_stops_at_zero() {
    let seq = stopped();
    let mut synth = Synth::new();
    assert_eq!(synth.harmonic_tenths(), 5);
    for _ in 0..20 {
        synth.harmonic_down(&seq);
    }
    assert_eq!(synth.harmonic_tenths(), 0);
}

#[test]
fn parameter_steps_move_by_one_tenth() {
    let seq = stopped();
    let mut synth = Synth::new();
    synth.timbre_up(&seq);
    assert_eq!(synth.timbre_tenths(), 6);
    synth.morph_down(&seq);
    assert_eq!(synth.morph_tenths(), 4);
    synth.decay_up(&seq);
    assert_eq!(synth.decay_tenths(), 6);
    synth.gate_length_down(&seq);
    assert_eq!(synth.gate_length_tenths(), 4);
}

#[test]
fn gate_length_clamps_inside_zero_to_one() {
    let seq = stopped();
    let mut synth = Synth::new();
    for _ in 0..15 {
        synth.gate_length_up(&seq);
    }
    assert_eq!(synth.gate_length_tenths(), 10);
    for _ in 0..15 {
        synth.gate_length_down(&seq);
    }
    assert_eq!(synth.gate_length_tenths(), 0);
}

#[test]
fn transpose_moves_in_octaves() {
    let mut synth = Synth::new();
    assert_eq!(synth.info_octave(), 5);
    assert_eq!(synth.transpose(), 88);
    synth.transpose_up();
    assert_eq!(synth.info_octave(), 6);
    assert_eq!(synth.transpose(), 110);
    assert_eq!(synth.rec_transpose(), 22);
    synth.transpose_down();
    synth.transpose_down();
    assert_eq!(synth.info_octave(), 4);
    assert_eq!(synth.transpose(), 66);
    assert_eq!(synth.rec_transpose(), -22);
}

#[test]
fn bend_and_vibrato_targets() {
    let mut synth = Synth::new();
    assert_eq!(synth.bend_target_units(), 0);
    synth.pitch_bend_positive();
    assert_eq!(synth.bend_target_units(), 4);
    synth.pitch_bend_negative();
    assert_eq!(synth.bend_target_units(), -4);
    synth.pitch_bend_neutral();
    assert_eq!(synth.bend_target_units(), 0);
    assert_eq!(synth.vibrato_target_nanos(), 0);
    synth.vibrato_on();
    assert_eq!(synth.vibrato_target_nanos(), 1_100_000_000);
    synth.vibrato_off();
    assert_eq!(synth.vibrato_target_nanos(), 0);
}

#[test]
fn tempo_steps_by_four_and_clamps() {
    let mut seq = Sequencer::new();
    assert_eq!(seq.tempo, 120);
    seq.tempo_up();
    assert_eq!(seq.tempo, 124);
    seq.tempo_down();
    seq.tempo_down();
    assert_eq!(seq.tempo, 116);
    for _ in 0..100 {
        seq.tempo_down();
    }
    assert_eq!(seq.tempo, 4);
    for _ in 0..300 {
        seq.tempo_up();
    }
    assert_eq!(seq.tempo, 996);
}

#[test]
fn play_pause_cycles_and_recording_goes_to_play() {
    let mut seq = Sequencer::new();
    assert!(seq.is_stopped());
    seq.play_pause();
    assert!(seq.is_playing());
    seq.play_pause();
    assert!(seq.is_stopped());
    seq.start_recording();
    assert!(seq.is_recording());
    seq.play_pause();
    assert!(seq.is_playing());
}

#[test]
fn control_tick_advances_smoothing_exactly() {
    let seq = stopped();
    let mut synth = Synth::new();
    assert_eq!(synth.smooth_harmonic_nanos(), 500_000_000);
    synth.harmonic_up(&seq); // target 0.6 = 600_000_000 nanounits
    synth.control_tick();
    // 500_000_000 + (600_000_000 - 500_000_000) / 1000
    assert_eq!(synth.smooth_harmonic_nanos(), 500_100_000);
    synth.control_tick();
    assert_eq!(synth.smooth_harmonic_nanos(), 500_199_900);
}

#[test]
fn control_tick_bend_glides_very_slowly() {
    let mut synth = Synth::new();
    synth.pitch_bend_positive(); // target 4 units = 4_000_000_000 nanounits
    synth.control_tick();
    // (4_000_000_000 - 0) / 100_000
    assert_eq!(synth.smooth_bend_nanos(), 40_000);
}

#[test]
fn control_tick_vibrato_takes_the_lesser_candidate() {
    let mut synth = Synth::new();
    synth.vibrato_on(); // target 1_100_000_000 nanounits
    synth.control_tick();
    // press candidate 1_100_000_000 / 500_000 = 2_200 beats the
    // release candidate 1_100_000_000 / 1_000 = 1_100_000
    assert_eq!(synth.smooth_vibrato_nanos(), 2_200);
    synth.vibrato_off();
    synth.control_tick();
    // now both candidates fall; the release one falls further
    // 2_200 - 2_200 / 1_000 = 2_198
    assert_eq!(synth.smooth_vibrato_nanos(), 2_198);
}

#[test]
fn pitch_base_combines_note_and_transpose() {
    let seq = stopped();
    let mut synth = Synth::new();
    synth.note_on(22, &seq);
    assert_eq!(synth.pitch_base_units(), 22 + 88);
    synth.transpose_up();
    assert_eq!(synth.pitch_base_units(), 22 + 110);
}
