//! One synthesizer voice: the composition root of the controller.
//!
//! A [`Synth`] owns the live patch parameters, the trigger and level signals, the held-key
//! tracker, the fixed-point smoothing state and the recorded step sequence,
//! and exposes the operations the input-event handler, the smoothing tick and
//! the playback scheduler call. Every method lands exactly on the matching
//! transition of [`crate::model`], stated over the voice's view.

use vstd::prelude::*;
use linked_hash_set::LinkedHashSet;
use crate::held::{held_back, held_insert, held_is_empty, held_keys, held_new, held_remove,
    lemma_remove_value};
use crate::model::{add_rest_spec, apply_step_spec, dec_model, dec_tenth, first_step_updated,
    inc_model, inc_tenth, initial_view, model_edit_spec, model_val, note_of_key, note_on_spec,
    note_off_spec, note_val, one_pole, record_or_undo_spec, record_push, record_step_spec,
    rec_transpose_units, synth_wf, tenth_edit_spec, tenth_val, tick_spec, transpose_down_spec,
    transpose_units, transpose_up_spec, value_fits, SynthView, BEND_NEGATIVE, BEND_NEUTRAL,
    BEND_POSITIVE, BEND_SMOOTH_DIV, KEY_MAX, NANO, NANO_PER_TENTH, PARAM_SMOOTH_DIV,
    VIBRATO_DEPTH_NANO, VIBRATO_PRESS_SMOOTH_DIV, VIBRATO_RELEASE_SMOOTH_DIV};
use crate::step::{Param, SeqStatus, SeqStep, StepValue, NOTE_LIMIT};
use crate::transport::Sequencer;
use crate::util::{dec_tenths, dec_usize, inc_tenths, inc_usize, recover_param};

verus! {

/// One voice of the synthesizer controller.
pub struct Synth {
    engine: usize,
    decay: u8,
    note: i32,
    octave: i16,
    rec_anchor: i16,
    target_harmonic: u8,
    smooth_harmonic: i64,
    target_timbre: u8,
    smooth_timbre: i64,
    target_morph: u8,
    smooth_morph: i64,
    target_vibrato: i64,
    smooth_vibrato: i64,
    target_bend: i32,
    smooth_bend: i64,
    gate_length: u8,
    trigger: bool,
    level: bool,
    pressed_set: LinkedHashSet<i32>,
    seq_notes: Vec<SeqStep>,
    first_step_backup: SeqStep,
}

impl View for Synth {
    type V = SynthView;

    closed spec fn view(&self) -> SynthView {
        SynthView {
            engine: self.engine,
            decay: self.decay,
            note: self.note,
            octave: self.octave,
            rec_anchor: self.rec_anchor,
            target_harmonic: self.target_harmonic,
            smooth_harmonic: self.smooth_harmonic,
            target_timbre: self.target_timbre,
            smooth_timbre: self.smooth_timbre,
            target_morph: self.target_morph,
            smooth_morph: self.smooth_morph,
            target_vibrato: self.target_vibrato,
            smooth_vibrato: self.smooth_vibrato,
            target_bend: self.target_bend,
            smooth_bend: self.smooth_bend,
            gate_length: self.gate_length,
            trigger: self.trigger,
            level: self.level,
            held: held_keys(self.pressed_set),
            steps: self.seq_notes@,
            backup: self.first_step_backup,
        }
    }
}

/// Key-range bounds carry over to any sequence whose elements all occur in
/// the original.
proof fn lemma_held_range(s: Seq<i32>, t: Seq<i32>)
    requires
        forall|x: i32| t.contains(x) ==> s.contains(x),
        forall|i: int| 0 <= i < s.len() ==> 0 <= #[trigger] s[i] <= KEY_MAX,
    ensures
        forall|i: int| 0 <= i < t.len() ==> 0 <= #[trigger] t[i] <= KEY_MAX,
{
    assert forall|i: int| 0 <= i < t.len() implies 0 <= #[trigger] t[i] <= KEY_MAX by {
        assert(t.contains(t[i]));
        assert(s.contains(t[i]));
        let w = choose|w: int| 0 <= w < s.len() && s[w] == t[i];
        assert(0 <= s[w] <= KEY_MAX);
    }
}

/// One advance of an exponential one-pole filter in integer arithmetic.
fn one_pole_step(s: i64, t: i64, div: i64) -> (r: i64)
    requires
        div >= 1,
        -10 * (NANO as int) <= s <= 10 * (NANO as int),
        -10 * (NANO as int) <= t <= 10 * (NANO as int),
    ensures
        r == one_pole(s as int, t as int, div as int),
        s <= t ==> s <= r <= t,
        t <= s ==> t <= r <= s,
{
    if t >= s {
        let diff: i64 = t - s;
        let inc: i64 = diff / div;
        proof {
            assert(0 <= diff / div <= diff) by (nonlinear_arith)
                requires
                    diff >= 0,
                    div >= 1,
            ;
        }
        s + inc
    } else {
        let diff: i64 = s - t;
        let dec: i64 = diff / div;
        proof {
            assert(0 <= diff / div <= diff) by (nonlinear_arith)
                requires
                    diff >= 0,
                    div >= 1,
            ;
        }
        s - dec
    }
}

impl Synth {
    /// A fresh voice in its initial state.
    pub fn new() -> (r: Synth)
        ensures
            r@ == initial_view(),
            synth_wf(r@),
    {
        let r = Synth {
            engine: 8,
            decay: 5,
            note: 88,
            octave: 5,
            rec_anchor: 5,
            target_harmonic: 5,
            smooth_harmonic: 500_000_000,
            target_timbre: 5,
            smooth_timbre: 500_000_000,
            target_morph: 5,
            smooth_morph: 500_000_000,
            target_vibrato: 0,
            smooth_vibrato: 0,
            target_bend: 0,
            smooth_bend: 0,
            gate_length: 5,
            trigger: false,
            level: false,
            pressed_set: held_new(),
            seq_notes: Vec::new(),
            first_step_backup: SeqStep::default(),
        };
        proof {
            assert(r@ =~~= initial_view());
        }
        r
    }

    /// The first-step bookkeeping run before every recorded event: capture a
    /// fresh baseline while the sequence is empty, or backfill the edited
    /// parameter into the first step once the sequence has grown past it.
    fn update_first_step(&mut self, param: Param)
        requires
            synth_wf(old(self)@),
        ensures
            final(self)@ == first_step_updated(old(self)@, param),
            synth_wf(final(self)@),
    {
        if self.seq_notes.len() == 0 {
            self.first_step_backup = SeqStep {
                note: None,
                model: Some(self.engine),
                harmonic: Some(self.target_harmonic),
                timbre: Some(self.target_timbre),
                morph: Some(self.target_morph),
                decay: Some(self.decay),
                gate_length: Some(self.gate_length),
                is_awaiting_note: false,
            };
        }
        if self.seq_notes.len() > 1 {
            let mut first: SeqStep = self.seq_notes[0];
            match param {
                Param::Model => recover_param(&mut first.model, self.first_step_backup.model),
                Param::Harmonic => recover_param(
                    &mut first.harmonic,
                    self.first_step_backup.harmonic,
                ),
                Param::Timbre => recover_param(&mut first.timbre, self.first_step_backup.timbre),
                Param::Morph => recover_param(&mut first.morph, self.first_step_backup.morph),
                Param::Decay => recover_param(&mut first.decay, self.first_step_backup.decay),
                Param::GateLength => recover_param(
                    &mut first.gate_length,
                    self.first_step_backup.gate_length,
                ),
                _ => {},
            }
            self.seq_notes[0] = first;
        }
        proof {
            assert(final(self)@ =~~= first_step_updated(old(self)@, param));
        }
    }

    /// Writes one recorded event into the last (possibly fresh) step.
    fn record_step(&mut self, param: Param, value: StepValue)
        requires
            synth_wf(old(self)@),
            value_fits(param, value),
            -NOTE_LIMIT <= note_val(value) <= NOTE_LIMIT,
            model_val(value) <= 23,
            tenth_val(value) <= 10,
        ensures
            final(self)@ == (SynthView {
                steps: record_step_spec(old(self)@.steps, param, value),
                ..old(self)@
            }),
            synth_wf(final(self)@),
    {
        let len: usize = self.seq_notes.len();
        if len == 0 || !self.seq_notes[len - 1].is_awaiting_note {
            self.seq_notes.push(SeqStep::default());
        }
        proof {
            assert(self.seq_notes@ =~= record_push(old(self)@.steps));
        }
        let idx: usize = self.seq_notes.len() - 1;
        let mut last: SeqStep = self.seq_notes[idx];
        match param {
            Param::Rest => {
                last.note = None;
                last.is_awaiting_note = false;
            },
            Param::Note => {
                last.note = Some(
                    match value {
                        StepValue::NoteVal(n) => n,
                        _ => 0,
                    },
                );
                last.is_awaiting_note = false;
            },
            Param::Model => {
                last.model = Some(
                    match value {
                        StepValue::ModelVal(m) => m,
                        _ => 0,
                    },
                );
                last.is_awaiting_note = true;
            },
            Param::Harmonic => {
                last.harmonic = Some(
                    match value {
                        StepValue::TenthVal(x) => x,
                        _ => 0,
                    },
                );
                last.is_awaiting_note = true;
            },
            Param::Timbre => {
                last.timbre = Some(
                    match value {
                        StepValue::TenthVal(x) => x,
                        _ => 0,
                    },
                );
                last.is_awaiting_note = true;
            },
            Param::Morph => {
                last.morph = Some(
                    match value {
                        StepValue::TenthVal(x) => x,
                        _ => 0,
                    },
                );
                last.is_awaiting_note = true;
            },
            Param::Decay => {
                last.decay = Some(
                    match value {
                        StepValue::TenthVal(x) => x,
                        _ => 0,
                    },
                );
                last.is_awaiting_note = true;
            },
            Param::GateLength => {
                last.gate_length = Some(
                    match value {
                        StepValue::TenthVal(x) => x,
                        _ => 0,
                    },
                );
                last.is_awaiting_note = true;
            },
        }
        self.seq_notes[idx] = last;
        proof {
            assert(final(self)@ =~~= SynthView {
                steps: record_step_spec(old(self)@.steps, param, value),
                ..old(self)@
            });
        }
    }

    /// A key press: last-note priority note-on, recorded while recording.
    pub fn note_on(&mut self, key: i32, seq: &Sequencer)
        requires
            synth_wf(old(self)@),
            0 <= key <= KEY_MAX,
        ensures
            final(self)@ == note_on_spec(
                old(self)@,
                old(self).is_recording_with(*seq),
                key,
            ),
            synth_wf(final(self)@),
    {
        let recording: bool = seq.is_recording();
        let rec_units: i32 = 22 * (self.octave as i32 - self.rec_anchor as i32);
        let note: i32 = key + rec_units;
        if recording {
            self.update_first_step(Param::Note);
        }
        self.note = note;
        if recording {
            self.record_step(Param::Note, StepValue::NoteVal(note));
        }
        self.trigger = true;
        self.level = true;
        let ghost held_before = held_keys(self.pressed_set);
        let _ = held_insert(&mut self.pressed_set, key);
        proof {
            lemma_remove_value(held_before, key);
            let rv = held_before.remove_value(key);
            lemma_held_range(held_before, rv);
            assert forall|i: int| 0 <= i < rv.push(key).len() implies 0 <= #[trigger] rv.push(
                key,
            )[i] <= KEY_MAX by {
                if i < rv.len() {
                    assert(rv.push(key)[i] == rv[i]);
                }
            }
            assert(final(self)@ =~~= note_on_spec(
                old(self)@,
                old(self).is_recording_with(*seq),
                key,
            ));
        }
    }

    /// A key release: removes the key; trigger and level fall when nothing is held,
    /// otherwise the most recently pressed remaining key sounds. Releasing a
    /// key that is not held never changes the sounding note or the held set.
    pub fn note_off(&mut self, key: i32)
        requires
            synth_wf(old(self)@),
        ensures
            final(self)@ == note_off_spec(old(self)@, key),
            synth_wf(final(self)@),
    {
        let ghost held_before = held_keys(self.pressed_set);
        let _ = held_remove(&mut self.pressed_set, key);
        proof {
            lemma_remove_value(held_before, key);
            lemma_held_range(held_before, held_before.remove_value(key));
        }
        if held_is_empty(&self.pressed_set) {
            self.trigger = false;
            self.level = false;
        } else {
            let back: Option<i32> = held_back(&self.pressed_set);
            match back {
                Some(k) => {
                    proof {
                        let rv = held_before.remove_value(key);
                        assert(rv.len() > 0);
                        assert(rv.contains(rv.last()));
                        assert(held_before.contains(rv.last()));
                        let w = choose|w: int|
                            0 <= w < held_before.len() && held_before[w] == rv.last();
                        assert(0 <= held_before[w] <= KEY_MAX);
                    }
                    self.note = k;
                },
                None => {},
            }
        }
        proof {
            assert(final(self)@ =~~= note_off_spec(old(self)@, key));
        }
    }

    /// Records a rest, closing the open step, and resets the recording
    /// transpose.
    pub fn add_rest(&mut self, seq: &Sequencer)
        requires
            synth_wf(old(self)@),
        ensures
            final(self)@ == add_rest_spec(old(self)@, old(self).is_recording_with(*seq)),
            synth_wf(final(self)@),
    {
        let recording: bool = seq.is_recording();
        self.rec_anchor = self.octave;
        if recording {
            self.update_first_step(Param::Rest);
            self.record_step(Param::Rest, StepValue::NoValue);
        }
        proof {
            assert(final(self)@ =~~= add_rest_spec(
                old(self)@,
                old(self).is_recording_with(*seq),
            ));
        }
    }

    /// Whether a transport value means this voice records its edits.
    pub open spec fn is_recording_with(&self, seq: Sequencer) -> bool {
        seq.status == SeqStatus::Recording
    }

    /// The current value of one tenth-scaled parameter.
    spec fn tenth_field(&self, param: Param) -> u8 {
        match param {
            Param::Harmonic => self.target_harmonic,
            Param::Timbre => self.target_timbre,
            Param::Morph => self.target_morph,
            Param::Decay => self.decay,
            Param::GateLength => self.gate_length,
            _ => 0,
        }
    }

    /// One clamped step of a tenth-scaled parameter, recorded while
    /// recording.
    fn tenth_edit(&mut self, recording: bool, param: Param, up: bool)
        requires
            synth_wf(old(self)@),
            crate::model::is_tenth_param(param),
        ensures
            final(self)@ == tenth_edit_spec(
                old(self)@,
                recording,
                param,
                if up {
                    inc_tenth(old(self).tenth_field(param))
                } else {
                    dec_tenth(old(self).tenth_field(param))
                },
            ),
            synth_wf(final(self)@),
    {
        if recording {
            self.update_first_step(param);
        }
        let new_val: u8 = match param {
            Param::Harmonic => {
                if up {
                    inc_tenths(&mut self.target_harmonic);
                } else {
                    dec_tenths(&mut self.target_harmonic);
                }
                self.target_harmonic
            },
            Param::Timbre => {
                if up {
                    inc_tenths(&mut self.target_timbre);
                } else {
                    dec_tenths(&mut self.target_timbre);
                }
                self.target_timbre
            },
            Param::Morph => {
                if up {
                    inc_tenths(&mut self.target_morph);
                } else {
                    dec_tenths(&mut self.target_morph);
                }
                self.target_morph
            },
            Param::Decay => {
                if up {
                    inc_tenths(&mut self.decay);
                } else {
                    dec_tenths(&mut self.decay);
                }
                self.decay
            },
            Param::GateLength => {
                if up {
                    inc_tenths(&mut self.gate_length);
                } else {
                    dec_tenths(&mut self.gate_length);
                }
                self.gate_length
            },
            _ => 0,
        };
        if recording {
            self.record_step(param, StepValue::TenthVal(new_val));
        }
        proof {
            assert(final(self)@ =~~= tenth_edit_spec(
                old(self)@,
                recording,
                param,
                if up {
                    inc_tenth(old(self).tenth_field(param))
                } else {
                    dec_tenth(old(self).tenth_field(param))
                },
            ));
        }
    }

    /// Steps the harmonic content up one tenth, recorded while recording.
    pub fn harmonic_up(&mut self, seq: &Sequencer)
        requires
            synth_wf(old(self)@),
        ensures
            final(self)@ == tenth_edit_spec(
                old(self)@,
                old(self).is_recording_with(*seq),
                Param::Harmonic,
                inc_tenth(old(self)@.target_harmonic),
            ),
            synth_wf(final(self)@),
    {
        let recording: bool = seq.is_recording();
        self.tenth_edit(recording, Param::Harmonic, true);
    }

    /// Steps the harmonic content down one tenth, recorded while recording.
    pub fn harmonic_down(&mut self, seq: &Sequencer)
        requires
            synth_wf(old(self)@),
        ensures
            final(self)@ == tenth_edit_spec(
                old(self)@,
                old(self).is_recording_with(*seq),
                Param::Harmonic,
                dec_tenth(old(self)@.target_harmonic),
            ),
            synth_wf(final(self)@),
    {
        let recording: bool = seq.is_recording();
        self.tenth_edit(recording, Param::Harmonic, false);
    }

    /// Steps the timbre up one tenth, recorded while recording.
    pub fn timbre_up(&mut self, seq: &Sequencer)
        requires
            synth_wf(old(self)@),
        ensures
            final(self)@ == tenth_edit_spec(
                old(self)@,
                old(self).is_recording_with(*seq),
                Param::Timbre,
                inc_tenth(old(self)@.target_timbre),
            ),
            synth_wf(final(self)@),
    {
        let recording: bool = seq.is_recording();
        self.tenth_edit(recording, Param::Timbre, true);
    }

    /// Steps the timbre down one tenth, recorded while recording.
    pub fn timbre_down(&mut self, seq: &Sequencer)
        requires
            synth_wf(old(self)@),
        ensures
            final(self)@ == tenth_edit_spec(
                old(self)@,
                old(self).is_recording_with(*seq),
                Param::Timbre,
                dec_tenth(old(self)@.target_timbre),
            ),
            synth_wf(final(self)@),
    {
        let recording: bool = seq.is_recording();
        self.tenth_edit(recording, Param::Timbre, false);
    }

    /// Steps the morph up one tenth, recorded while recording.
    pub fn morph_up(&mut self, seq: &Sequencer)
        requires
            synth_wf(old(self)@),
        ensures
            final(self)@ == tenth_edit_spec(
                old(self)@,
                old(self).is_recording_with(*seq),
                Param::Morph,
                inc_tenth(old(self)@.target_morph),
            ),
            synth_wf(final(self)@),
    {
        let recording: bool = seq.is_recording();
        self.tenth_edit(recording, Param::Morph, true);
    }

    /// Steps the morph down one tenth, recorded while recording.
    pub fn morph_down(&mut self, seq: &Sequencer)
        requires
            synth_wf(old(self)@),
        ensures
            final(self)@ == tenth_edit_spec(
                old(self)@,
                old(self).is_recording_with(*seq),
                Param::Morph,
                dec_tenth(old(self)@.target_morph),
            ),
            synth_wf(final(self)@),
    {
        let recording: bool = seq.is_recording();
        self.tenth_edit(recording, Param::Morph, false);
    }

    /// Steps the envelope decay up one tenth, recorded while recording.
    pub fn decay_up(&mut self, seq: &Sequencer)
        requires
            synth_wf(old(self)@),
        ensures
            final(self)@ == tenth_edit_spec(
                old(self)@,
                old(self).is_recording_with(*seq),
                Param::Decay,
                inc_tenth(old(self)@.decay),
            ),
            synth_wf(final(self)@),
    {
        let recording: bool = seq.is_recording();
        self.tenth_edit(recording, Param::Decay, true);
    }

    /// Steps the envelope decay down one tenth, recorded while recording.
    pub fn decay_down(&mut self, seq: &Sequencer)
        requires
            synth_wf(old(self)@),
        ensures
            final(self)@ == tenth_edit_spec(
                old(self)@,
                old(self).is_recording_with(*seq),
                Param::Decay,
                dec_tenth(old(self)@.decay),
            ),
            synth_wf(final(self)@),
    {
        let recording: bool = seq.is_recording();
        self.tenth_edit(recording, Param::Decay, false);
    }

    /// Steps the global gate length up one tenth, recorded while recording.
    /// Gate lengths cover the whole `[0, 1]` range in tenths.
    pub fn gate_length_up(&mut self, seq: &Sequencer)
        requires
            synth_wf(old(self)@),
        ensures
            final(self)@ == tenth_edit_spec(
                old(self)@,
                old(self).is_recording_with(*seq),
                Param::GateLength,
                inc_tenth(old(self)@.gate_length),
            ),
            synth_wf(final(self)@),
    {
        let recording: bool = seq.is_recording();
        self.tenth_edit(recording, Param::GateLength, true);
    }

    /// Steps the global gate length down one tenth, recorded while
    /// recording.
    pub fn gate_length_down(&mut self, seq: &Sequencer)
        requires
            synth_wf(old(self)@),
        ensures
            final(self)@ == tenth_edit_spec(
                old(self)@,
                old(self).is_recording_with(*seq),
                Param::GateLength,
                dec_tenth(old(self)@.gate_length),
            ),
            synth_wf(final(self)@),
    {
        let recording: bool = seq.is_recording();
        self.tenth_edit(recording, Param::GateLength, false);
    }

    /// Raises live play by one octave; the recording transpose follows.
    pub fn transpose_up(&mut self)
        requires
            synth_wf(old(self)@),
        ensures
            final(self)@ == transpose_up_spec(old(self)@),
            synth_wf(final(self)@),
    {
        if self.octave < i16::MAX {
            self.octave = self.octave + 1;
        }
        proof {
            assert(final(self)@ =~~= transpose_up_spec(old(self)@));
        }
    }

    /// Lowers live play by one octave; the recording transpose follows.
    pub fn transpose_down(&mut self)
        requires
            synth_wf(old(self)@),
        ensures
            final(self)@ == transpose_down_spec(old(self)@),
            synth_wf(final(self)@),
    {
        if self.octave > i16::MIN {
            self.octave = self.octave - 1;
        }
        proof {
            assert(final(self)@ =~~= transpose_down_spec(old(self)@));
        }
    }

    /// While recording, undoes the last recorded step; otherwise starts
    /// recording. Either way the recording transpose resets and the
    /// transport ends up Recording.
    pub fn start_recording_or_undo_last(&mut self, seq: &mut Sequencer)
        requires
            synth_wf(old(self)@),
        ensures
            final(self)@ == record_or_undo_spec(old(self)@, old(seq).status),
            synth_wf(final(self)@),
            final(seq).status == SeqStatus::Recording,
            final(seq).tempo == old(seq).tempo,
    {
        self.rec_anchor = self.octave;
        if seq.is_recording() {
            let _ = self.seq_notes.pop();
        } else {
            seq.start_recording();
        }
        proof {
            if old(seq).status == SeqStatus::Recording && old(self)@.steps.len() > 0 {
                assert(final(self)@.steps =~= old(self)@.steps.drop_last());
            }
            assert(final(self)@ =~~= record_or_undo_spec(old(self)@, old(seq).status));
        }
    }

    /// Clears the whole recorded sequence.
    pub fn clear_notes(&mut self)
        requires
            synth_wf(old(self)@),
        ensures
            final(self)@ == (SynthView { steps: Seq::empty(), ..old(self)@ }),
            synth_wf(final(self)@),
    {
        self.seq_notes.clear();
        proof {
            assert(final(self)@ =~~= (SynthView { steps: Seq::empty(), ..old(self)@ }));
        }
    }

    /// Sets the pitch-bend target one notch up.
    pub fn pitch_bend_positive(&mut self)
        requires
            synth_wf(old(self)@),
        ensures
            final(self)@ == (SynthView { target_bend: BEND_POSITIVE, ..old(self)@ }),
            synth_wf(final(self)@),
    {
        self.target_bend = BEND_POSITIVE;
    }

    /// Sets the pitch-bend target back to rest.
    pub fn pitch_bend_neutral(&mut self)
        requires
            synth_wf(old(self)@),
        ensures
            final(self)@ == (SynthView { target_bend: BEND_NEUTRAL, ..old(self)@ }),
            synth_wf(final(self)@),
    {
        self.target_bend = BEND_NEUTRAL;
    }

    /// Sets the pitch-bend target one notch down.
    pub fn pitch_bend_negative(&mut self)
        requires
            synth_wf(old(self)@),
        ensures
            final(self)@ == (SynthView { target_bend: BEND_NEGATIVE, ..old(self)@ }),
            synth_wf(final(self)@),
    {
        self.target_bend = BEND_NEGATIVE;
    }

    /// Engages vibrato: the depth target jumps to its full value and the
    /// smoothed depth glides after it.
    pub fn vibrato_on(&mut self)
        requires
            synth_wf(old(self)@),
        ensures
            final(self)@ == (SynthView { target_vibrato: VIBRATO_DEPTH_NANO, ..old(self)@ }),
            synth_wf(final(self)@),
    {
        self.target_vibrato = VIBRATO_DEPTH_NANO;
    }

    /// Releases vibrato: the depth target drops to zero.
    pub fn vibrato_off(&mut self)
        requires
            synth_wf(old(self)@),
        ensures
            final(self)@ == (SynthView { target_vibrato: 0i64, ..old(self)@ }),
            synth_wf(final(self)@),
    {
        self.target_vibrato = 0;
    }

    /// One control tick of the parameter-smoothing unit.
    pub fn control_tick(&mut self)
        requires
            synth_wf(old(self)@),
        ensures
            final(self)@ == tick_spec(old(self)@),
            synth_wf(final(self)@),
    {
        let bend_t: i64 = (self.target_bend as i64) * NANO;
        self.smooth_bend = one_pole_step(self.smooth_bend, bend_t, BEND_SMOOTH_DIV);
        let press: i64 = one_pole_step(
            self.smooth_vibrato,
            self.target_vibrato,
            VIBRATO_PRESS_SMOOTH_DIV,
        );
        let release: i64 = one_pole_step(
            self.smooth_vibrato,
            self.target_vibrato,
            VIBRATO_RELEASE_SMOOTH_DIV,
        );
        self.smooth_vibrato = if press <= release {
            press
        } else {
            release
        };
        self.smooth_harmonic = one_pole_step(
            self.smooth_harmonic,
            (self.target_harmonic as i64) * NANO_PER_TENTH,
            PARAM_SMOOTH_DIV,
        );
        self.smooth_timbre = one_pole_step(
            self.smooth_timbre,
            (self.target_timbre as i64) * NANO_PER_TENTH,
            PARAM_SMOOTH_DIV,
        );
        self.smooth_morph = one_pole_step(
            self.smooth_morph,
            (self.target_morph as i64) * NANO_PER_TENTH,
            PARAM_SMOOTH_DIV,
        );
        proof {
            assert(final(self)@ =~~= tick_spec(old(self)@));
        }
    }

    /// Applies one playback step to the live state: a present note sounds with
    /// trigger and level raised; present parameter overrides land on both target
    /// and smoothed value, so sequenced changes jump instead of gliding.
    pub fn apply_step(&mut self, step: &SeqStep)
        requires
            synth_wf(old(self)@),
            step.wf(),
        ensures
            final(self)@ == apply_step_spec(old(self)@, *step),
            synth_wf(final(self)@),
    {
        match step.note {
            Some(n) => {
                self.note = n;
                self.trigger = true;
                self.level = true;
            },
            None => {},
        }
        match step.model {
            Some(m) => {
                self.engine = m;
            },
            None => {},
        }
        match step.harmonic {
            Some(h) => {
                self.target_harmonic = h;
                self.smooth_harmonic = (h as i64) * NANO_PER_TENTH;
            },
            None => {},
        }
        match step.timbre {
            Some(t) => {
                self.target_timbre = t;
                self.smooth_timbre = (t as i64) * NANO_PER_TENTH;
            },
            None => {},
        }
        match step.morph {
            Some(m) => {
                self.target_morph = m;
                self.smooth_morph = (m as i64) * NANO_PER_TENTH;
            },
            None => {},
        }
        match step.decay {
            Some(d) => {
                self.decay = d;
            },
            None => {},
        }
        proof {
            assert(final(self)@ =~~= apply_step_spec(old(self)@, *step));
        }
    }

    /// Drops trigger and level at the end of a playback step's on-phase.
    pub fn end_gate(&mut self)
        requires
            synth_wf(old(self)@),
        ensures
            final(self)@ == (SynthView { trigger: false, level: false, ..old(self)@ }),
            synth_wf(final(self)@),
    {
        self.trigger = false;
        self.level = false;
    }

    /// A copy of the recorded sequence, for the playback scheduler and the
    /// display.
    pub fn snapshot_steps(&self) -> (r: Vec<SeqStep>)
        ensures
            r@ == self@.steps,
    {
        let mut out: Vec<SeqStep> = Vec::new();
        let mut i: usize = 0;
        while i < self.seq_notes.len()
            invariant
                i <= self.seq_notes.len(),
                out@ == self@.steps.subrange(0, i as int),
            decreases self.seq_notes.len() - i,
        {
            out.push(self.seq_notes[i]);
            proof {
                assert(out@ =~= self@.steps.subrange(0, i + 1));
            }
            i = i + 1;
        }
        proof {
            assert(out@ =~= self@.steps);
        }
        out
    }

    /// Number of recorded steps.
    pub fn steps_len(&self) -> (r: usize)
        ensures
            r == self@.steps.len(),
    {
        self.seq_notes.len()
    }

    /// The sounding base pitch in 22-per-octave units, before transpose.
    pub fn current_note(&self) -> (r: i32)
        ensures
            r == self@.note,
    {
        self.note
    }

    /// The trigger edge of the on/off signal.
    pub fn gate_trigger(&self) -> (r: bool)
        ensures
            r == self@.trigger,
    {
        self.trigger
    }

    /// The level of the on/off signal.
    pub fn gate_level(&self) -> (r: bool)
        ensures
            r == self@.level,
    {
        self.level
    }

    /// The engine model index.
    pub fn engine(&self) -> (r: usize)
        ensures
            r == self@.engine,
    {
        self.engine
    }

    /// The envelope decay in tenths.
    pub fn decay_tenths(&self) -> (r: u8)
        ensures
            r == self@.decay,
    {
        self.decay
    }

    /// The harmonic target in tenths.
    pub fn harmonic_tenths(&self) -> (r: u8)
        ensures
            r == self@.target_harmonic,
    {
        self.target_harmonic
    }

    /// The timbre target in tenths.
    pub fn timbre_tenths(&self) -> (r: u8)
        ensures
            r == self@.target_timbre,
    {
        self.target_timbre
    }

    /// The morph target in tenths.
    pub fn morph_tenths(&self) -> (r: u8)
        ensures
            r == self@.target_morph,
    {
        self.target_morph
    }

    /// The global gate length in tenths.
    pub fn gate_length_tenths(&self) -> (r: u8)
        ensures
            r == self@.gate_length,
    {
        self.gate_length
    }

    /// The octave display counter.
    pub fn info_octave(&self) -> (r: i16)
        ensures
            r == self@.octave,
    {
        self.octave
    }

    /// The live transpose in pitch units.
    pub fn transpose(&self) -> (r: i32)
        ensures
            r == transpose_units(self@),
    {
        22 * (self.octave as i32 - 1)
    }

    /// The recording transpose in pitch units.
    pub fn rec_transpose(&self) -> (r: i32)
        ensures
            r == rec_transpose_units(self@),
    {
        22 * (self.octave as i32 - self.rec_anchor as i32)
    }

    /// The smoothed harmonic in nanounits.
    pub fn smooth_harmonic_nanos(&self) -> (r: i64)
        ensures
            r == self@.smooth_harmonic,
    {
        self.smooth_harmonic
    }

    /// The smoothed timbre in nanounits.
    pub fn smooth_timbre_nanos(&self) -> (r: i64)
        ensures
            r == self@.smooth_timbre,
    {
        self.smooth_timbre
    }

    /// The smoothed morph in nanounits.
    pub fn smooth_morph_nanos(&self) -> (r: i64)
        ensures
            r == self@.smooth_morph,
    {
        self.smooth_morph
    }

    /// The smoothed pitch bend in nano pitch units.
    pub fn smooth_bend_nanos(&self) -> (r: i64)
        ensures
            r == self@.smooth_bend,
    {
        self.smooth_bend
    }

    /// The smoothed vibrato depth in nanounits.
    pub fn smooth_vibrato_nanos(&self) -> (r: i64)
        ensures
            r == self@.smooth_vibrato,
    {
        self.smooth_vibrato
    }

    /// The pitch-bend target in pitch units.
    pub fn bend_target_units(&self) -> (r: i32)
        ensures
            r == self@.target_bend,
    {
        self.target_bend
    }

    /// The vibrato depth target in nanounits.
    pub fn vibrato_target_nanos(&self) -> (r: i64)
        ensures
            r == self@.target_vibrato,
    {
        self.target_vibrato
    }

    /// The sounding pitch with live transpose applied, in pitch units, as
    /// the smoothing tick feeds it to the renderer (before bend and
    /// vibrato).
    pub fn pitch_base_units(&self) -> (r: i32)
        requires
            synth_wf(self@),
        ensures
            r == self@.note + transpose_units(self@),
    {
        self.note + 22 * (self.octave as i32 - 1)
    }

    /// Steps the engine model up, recorded while recording.
    pub fn model_up(&mut self, seq: &Sequencer)
        requires
            synth_wf(old(self)@),
        ensures
            final(self)@ == model_edit_spec(
                old(self)@,
                old(self).is_recording_with(*seq),
                inc_model(old(self)@.engine),
            ),
            synth_wf(final(self)@),
    {
        let recording: bool = seq.is_recording();
        if recording {
            self.update_first_step(Param::Model);
        }
        inc_usize(&mut self.engine);
        if recording {
            self.record_step(Param::Model, StepValue::ModelVal(self.engine));
        }
        proof {
            assert(final(self)@ =~~= model_edit_spec(
                old(self)@,
                old(self).is_recording_with(*seq),
                inc_model(old(self)@.engine),
            ));
        }
    }

    /// Steps the engine model down, recorded while recording.
    pub fn model_down(&mut self, seq: &Sequencer)
        requires
            synth_wf(old(self)@),
        ensures
            final(self)@ == model_edit_spec(
                old(self)@,
                old(self).is_recording_with(*seq),
                dec_model(old(self)@.engine),
            ),
            synth_wf(final(self)@),
    {
        let recording: bool = seq.is_recording();
        if recording {
            self.update_first_step(Param::Model);
        }
        dec_usize(&mut self.engine);
        if recording {
            self.record_step(Param::Model, StepValue::ModelVal(self.engine));
        }
        proof {
            assert(final(self)@ =~~= model_edit_spec(
                old(self)@,
                old(self).is_recording_with(*seq),
                dec_model(old(self)@.engine),
            ));
        }
    }
}

} // verus!
