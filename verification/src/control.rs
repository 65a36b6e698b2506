//! The abstract control dispatch: one recognized control input in, one
//! state transition out.
//!
//! The embedding program turns raw key transitions into [`Control`] values;
//! everything that happens to the shared state from that point on is decided
//! and verified here. Transport changes also refresh the [`Transport`]
//! playing flag, so the playback scheduler is woken exactly when Play is
//! engaged or disengaged.

use vstd::prelude::*;
use crate::model::{add_rest_spec, dec_model, dec_tenth, inc_model, inc_tenth, model_edit_spec,
    note_off_spec, note_on_spec, record_or_undo_spec, synth_wf, tenth_edit_spec,
    transpose_down_spec, transpose_up_spec, SynthView, BEND_NEGATIVE, BEND_NEUTRAL, BEND_POSITIVE,
    KEY_MAX, VIBRATO_DEPTH_NANO};
use crate::part::Synth;
use crate::step::{Param, SeqStatus};
use crate::transport::{Sequencer, Transport, TEMPO_MAX, TEMPO_MIN};

verus! {

/// One recognized control input, abstracted from the physical keyboard.
#[derive(Clone, Copy, Debug)]
pub enum Control {
    /// Press of the scale key with the given offset.
    NoteOn(i32),
    /// Release of the scale key with the given offset.
    NoteOff(i32),
    ModelUp,
    ModelDown,
    HarmonicUp,
    HarmonicDown,
    TimbreUp,
    TimbreDown,
    MorphUp,
    MorphDown,
    DecayUp,
    DecayDown,
    GateLengthUp,
    GateLengthDown,
    TransposeUp,
    TransposeDown,
    PitchBendPositive,
    PitchBendNeutral,
    PitchBendNegative,
    VibratoOn,
    VibratoOff,
    AddRest,
    RecordOrUndo,
    ClearNotes,
    PlayPause,
    TempoUp,
    TempoDown,
}

/// The transport cycle: Recording and Stop go to Play, Play goes to Stop.
pub open spec fn next_status(s: SeqStatus) -> SeqStatus {
    match s {
        SeqStatus::Recording => SeqStatus::Play,
        SeqStatus::Play => SeqStatus::Stop,
        SeqStatus::Stop => SeqStatus::Play,
    }
}

/// What one control does to the voice.
pub open spec fn control_synth_spec(v: SynthView, s: Sequencer, c: Control) -> SynthView {
    let rec = s.status == SeqStatus::Recording;
    match c {
        Control::NoteOn(k) => note_on_spec(v, rec, k),
        Control::NoteOff(k) => note_off_spec(v, k),
        Control::ModelUp => model_edit_spec(v, rec, inc_model(v.engine)),
        Control::ModelDown => model_edit_spec(v, rec, dec_model(v.engine)),
        Control::HarmonicUp => tenth_edit_spec(v, rec, Param::Harmonic, inc_tenth(v.target_harmonic)),
        Control::HarmonicDown => tenth_edit_spec(
            v,
            rec,
            Param::Harmonic,
            dec_tenth(v.target_harmonic),
        ),
        Control::TimbreUp => tenth_edit_spec(v, rec, Param::Timbre, inc_tenth(v.target_timbre)),
        Control::TimbreDown => tenth_edit_spec(v, rec, Param::Timbre, dec_tenth(v.target_timbre)),
        Control::MorphUp => tenth_edit_spec(v, rec, Param::Morph, inc_tenth(v.target_morph)),
        Control::MorphDown => tenth_edit_spec(v, rec, Param::Morph, dec_tenth(v.target_morph)),
        Control::DecayUp => tenth_edit_spec(v, rec, Param::Decay, inc_tenth(v.decay)),
        Control::DecayDown => tenth_edit_spec(v, rec, Param::Decay, dec_tenth(v.decay)),
        Control::GateLengthUp => tenth_edit_spec(
            v,
            rec,
            Param::GateLength,
            inc_tenth(v.gate_length),
        ),
        Control::GateLengthDown => tenth_edit_spec(
            v,
            rec,
            Param::GateLength,
            dec_tenth(v.gate_length),
        ),
        Control::TransposeUp => transpose_up_spec(v),
        Control::TransposeDown => transpose_down_spec(v),
        Control::PitchBendPositive => SynthView { target_bend: BEND_POSITIVE, ..v },
        Control::PitchBendNeutral => SynthView { target_bend: BEND_NEUTRAL, ..v },
        Control::PitchBendNegative => SynthView { target_bend: BEND_NEGATIVE, ..v },
        Control::VibratoOn => SynthView { target_vibrato: VIBRATO_DEPTH_NANO, ..v },
        Control::VibratoOff => SynthView { target_vibrato: 0i64, ..v },
        Control::AddRest => add_rest_spec(v, rec),
        Control::RecordOrUndo => record_or_undo_spec(v, s.status),
        Control::ClearNotes => SynthView { steps: Seq::empty(), ..v },
        Control::PlayPause | Control::TempoUp | Control::TempoDown => v,
    }
}

/// What one control does to the transport.
pub open spec fn control_seq_spec(s: Sequencer, c: Control) -> Sequencer {
    match c {
        Control::PlayPause => Sequencer { status: next_status(s.status), ..s },
        Control::RecordOrUndo => Sequencer { status: SeqStatus::Recording, ..s },
        Control::TempoUp => Sequencer {
            tempo: if s.tempo + 4 <= TEMPO_MAX {
                (s.tempo + 4) as u32
            } else {
                s.tempo
            },
            ..s
        },
        Control::TempoDown => Sequencer {
            tempo: if s.tempo >= TEMPO_MIN + 4 {
                (s.tempo - 4) as u32
            } else {
                s.tempo
            },
            ..s
        },
        _ => s,
    }
}

/// What one control leaves in the scheduler's playing flag: transport
/// changes refresh it, everything else leaves it alone.
pub open spec fn control_playing_spec(t: Transport, s: Sequencer, c: Control) -> bool {
    match c {
        Control::PlayPause => next_status(s.status) == SeqStatus::Play,
        Control::RecordOrUndo => false,
        _ => t.is_playing,
    }
}

/// Applies one recognized control input to the shared state: the voice, the
/// transport, and the scheduler's playing flag.
pub fn apply_control(synth: &mut Synth, seq: &mut Sequencer, transport: &mut Transport, c: Control)
    requires
        synth_wf(old(synth)@),
        old(seq).wf(),
        (c matches Control::NoteOn(k) ==> 0 <= k <= KEY_MAX),
    ensures
        final(synth)@ == control_synth_spec(old(synth)@, *old(seq), c),
        *final(seq) == control_seq_spec(*old(seq), c),
        final(transport).is_playing == control_playing_spec(
            *old(transport),
            *old(seq),
            c,
        ),
        synth_wf(final(synth)@),
        final(seq).wf(),
{
    match c {
        Control::NoteOn(k) => synth.note_on(k, seq),
        Control::NoteOff(k) => synth.note_off(k),
        Control::ModelUp => synth.model_up(seq),
        Control::ModelDown => synth.model_down(seq),
        Control::HarmonicUp => synth.harmonic_up(seq),
        Control::HarmonicDown => synth.harmonic_down(seq),
        Control::TimbreUp => synth.timbre_up(seq),
        Control::TimbreDown => synth.timbre_down(seq),
        Control::MorphUp => synth.morph_up(seq),
        Control::MorphDown => synth.morph_down(seq),
        Control::DecayUp => synth.decay_up(seq),
        Control::DecayDown => synth.decay_down(seq),
        Control::GateLengthUp => synth.gate_length_up(seq),
        Control::GateLengthDown => synth.gate_length_down(seq),
        Control::TransposeUp => synth.transpose_up(),
        Control::TransposeDown => synth.transpose_down(),
        Control::PitchBendPositive => synth.pitch_bend_positive(),
        Control::PitchBendNeutral => synth.pitch_bend_neutral(),
        Control::PitchBendNegative => synth.pitch_bend_negative(),
        Control::VibratoOn => synth.vibrato_on(),
        Control::VibratoOff => synth.vibrato_off(),
        Control::AddRest => synth.add_rest(seq),
        Control::RecordOrUndo => {
            synth.start_recording_or_undo_last(seq);
            let playing: bool = seq.is_playing();
            transport.update(playing);
        },
        Control::ClearNotes => synth.clear_notes(),
        Control::PlayPause => {
            seq.play_pause();
            let playing: bool = seq.is_playing();
            transport.update(playing);
        },
        Control::TempoUp => seq.tempo_up(),
        Control::TempoDown => seq.tempo_down(),
    }
}

} // verus!
