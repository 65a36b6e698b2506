//! The mathematical model of the synthesizer state and the transition
//! functions of every event-driven operation.
//!
//! [`SynthView`] is the abstract value of a [`crate::part::Synth`]: plain
//! integers, the held-key sequence and the recorded step sequence. Each
//! public operation of the controller is specified as a function from view
//! to view here; the executable methods promise to land exactly on these
//! transitions, and the crate's laws are proved about them.
//!
//! Transpose state is derived: the live transpose is `22 * (octave - 1)`
//! pitch units and the recording transpose is `22 * (octave - rec_anchor)`,
//! where `rec_anchor` is the octave at the last rest/undo/record action.
//! Keeping the anchor instead of a running sum makes the two counters move
//! in lockstep by construction.

use vstd::prelude::*;
use crate::step::{Param, SeqStep, StepValue, NOTE_LIMIT};

verus! {

/// Nanounits in one parameter unit.
pub const NANO: i64 = 1_000_000_000;

/// Nanounits in one tenth of a unit.
pub const NANO_PER_TENTH: i64 = 100_000_000;

/// Vibrato depth target when vibrato is engaged: 0.6 semitone, which is
/// exactly 1.1 pitch units of the 22-per-octave grid.
pub const VIBRATO_DEPTH_NANO: i64 = 1_100_000_000;

/// Pitch-bend target one notch up: 4 pitch units.
pub const BEND_POSITIVE: i32 = 4;

/// Pitch-bend target at rest.
pub const BEND_NEUTRAL: i32 = 0;

/// Pitch-bend target one notch down: -4 pitch units.
pub const BEND_NEGATIVE: i32 = -4;

/// Largest key offset of the scale-key table.
pub const KEY_MAX: i32 = 43;

/// Reciprocal of the harmonic/timbre/morph smoothing factor.
pub const PARAM_SMOOTH_DIV: i64 = 1_000;

/// Reciprocal of the pitch-bend smoothing factor.
pub const BEND_SMOOTH_DIV: i64 = 100_000;

/// Reciprocal of the vibrato press smoothing factor.
pub const VIBRATO_PRESS_SMOOTH_DIV: i64 = 500_000;

/// Reciprocal of the vibrato release smoothing factor.
pub const VIBRATO_RELEASE_SMOOTH_DIV: i64 = 1_000;

/// The abstract state of one synthesizer voice.
#[verifier::ext_equal]
pub ghost struct SynthView {
    /// Engine model index in `[0, 23]`.
    pub engine: usize,
    /// Envelope decay in tenths.
    pub decay: u8,
    /// Sounding base pitch in 22-per-octave units, before transpose.
    pub note: i32,
    /// Octave display counter.
    pub octave: i16,
    /// Octave value at the last recording-transpose reset.
    pub rec_anchor: i16,
    /// Harmonic target in tenths.
    pub target_harmonic: u8,
    /// Smoothed harmonic in nanounits.
    pub smooth_harmonic: i64,
    /// Timbre target in tenths.
    pub target_timbre: u8,
    /// Smoothed timbre in nanounits.
    pub smooth_timbre: i64,
    /// Morph target in tenths.
    pub target_morph: u8,
    /// Smoothed morph in nanounits.
    pub smooth_morph: i64,
    /// Vibrato depth target in nanounits: 0 or [`VIBRATO_DEPTH_NANO`].
    pub target_vibrato: i64,
    /// Smoothed vibrato depth in nanounits.
    pub smooth_vibrato: i64,
    /// Pitch-bend target in pitch units: -4, 0 or 4.
    pub target_bend: i32,
    /// Smoothed pitch bend in nano pitch units.
    pub smooth_bend: i64,
    /// Global gate length in tenths.
    pub gate_length: u8,
    /// Gate trigger edge.
    pub trigger: bool,
    /// Gate level.
    pub level: bool,
    /// Currently held keys in press order, oldest first.
    pub held: Seq<i32>,
    /// The recorded step sequence.
    pub steps: Seq<SeqStep>,
    /// Baseline snapshot used by the first-step backfill.
    pub backup: SeqStep,
}

/// Live transpose in pitch units.
pub open spec fn transpose_units(v: SynthView) -> int {
    22 * (v.octave - 1)
}

/// Recording transpose in pitch units: what the octave moved since the last
/// rest/undo/record action.
pub open spec fn rec_transpose_units(v: SynthView) -> int {
    22 * (v.octave - v.rec_anchor)
}

/// The pitch a pressed key plays and records: its offset plus the recording
/// transpose.
pub open spec fn note_of_key(v: SynthView, key: i32) -> i32 {
    (key + rec_transpose_units(v)) as i32
}

/// Every field of the state is inside its documented range, the held keys
/// are distinct scale keys, and every recorded step is well formed.
pub open spec fn synth_wf(v: SynthView) -> bool {
    &&& v.engine <= 23
    &&& v.decay <= 10
    &&& v.target_harmonic <= 10
    &&& v.target_timbre <= 10
    &&& v.target_morph <= 10
    &&& v.gate_length <= 10
    &&& 0 <= v.smooth_harmonic <= NANO
    &&& 0 <= v.smooth_timbre <= NANO
    &&& 0 <= v.smooth_morph <= NANO
    &&& (v.target_bend == BEND_NEGATIVE || v.target_bend == BEND_NEUTRAL || v.target_bend
        == BEND_POSITIVE)
    &&& -4 * (NANO as int) <= v.smooth_bend <= 4 * (NANO as int)
    &&& (v.target_vibrato == 0 || v.target_vibrato == VIBRATO_DEPTH_NANO)
    &&& 0 <= v.smooth_vibrato <= VIBRATO_DEPTH_NANO
    &&& -NOTE_LIMIT <= v.note <= NOTE_LIMIT
    &&& v.held.no_duplicates()
    &&& forall|i: int| 0 <= i < v.held.len() ==> 0 <= #[trigger] v.held[i] <= KEY_MAX
    &&& forall|i: int| 0 <= i < v.steps.len() ==> (#[trigger] v.steps[i]).wf()
    &&& v.backup.wf()
}

/// The live parameter baseline, as captured into the first-step backup.
pub open spec fn live_backup(v: SynthView) -> SeqStep {
    SeqStep {
        note: None,
        model: Some(v.engine),
        harmonic: Some(v.target_harmonic),
        timbre: Some(v.target_timbre),
        morph: Some(v.target_morph),
        decay: Some(v.decay),
        gate_length: Some(v.gate_length),
        is_awaiting_note: false,
    }
}

/// Fills the backed-up value of one parameter into a step iff that field is
/// still unset. Note and rest events have no backed-up field.
pub open spec fn backfill_field(step: SeqStep, param: Param, backup: SeqStep) -> SeqStep {
    match param {
        Param::Model => if step.model is None {
            SeqStep { model: backup.model, ..step }
        } else {
            step
        },
        Param::Harmonic => if step.harmonic is None {
            SeqStep { harmonic: backup.harmonic, ..step }
        } else {
            step
        },
        Param::Timbre => if step.timbre is None {
            SeqStep { timbre: backup.timbre, ..step }
        } else {
            step
        },
        Param::Morph => if step.morph is None {
            SeqStep { morph: backup.morph, ..step }
        } else {
            step
        },
        Param::Decay => if step.decay is None {
            SeqStep { decay: backup.decay, ..step }
        } else {
            step
        },
        Param::GateLength => if step.gate_length is None {
            SeqStep { gate_length: backup.gate_length, ..step }
        } else {
            step
        },
        _ => step,
    }
}

/// The first-step bookkeeping run before every recorded event: on an empty
/// sequence a fresh baseline snapshot is captured; once the sequence has
/// grown past one step, the edited parameter is backfilled into the first
/// step iff it is still unset there.
pub open spec fn first_step_updated(v: SynthView, param: Param) -> SynthView {
    let v1 = if v.steps.len() == 0 {
        SynthView { backup: live_backup(v), ..v }
    } else {
        v
    };
    if v1.steps.len() > 1 {
        SynthView { steps: v1.steps.update(0, backfill_field(v1.steps[0], param, v1.backup)), ..v1 }
    } else {
        v1
    }
}

/// Appends a fresh empty step iff the sequence is empty or its last step is
/// closed; an open (awaiting-note) last step keeps accepting merges.
pub open spec fn record_push(steps: Seq<SeqStep>) -> Seq<SeqStep> {
    if steps.len() == 0 || !steps.last().is_awaiting_note {
        steps.push(SeqStep::empty_spec())
    } else {
        steps
    }
}

/// The note carried by a recorded value.
pub open spec fn note_val(value: StepValue) -> i32 {
    match value {
        StepValue::NoteVal(n) => n,
        _ => 0,
    }
}

/// The engine index carried by a recorded value.
pub open spec fn model_val(value: StepValue) -> usize {
    match value {
        StepValue::ModelVal(m) => m,
        _ => 0,
    }
}

/// The tenths carried by a recorded value.
pub open spec fn tenth_val(value: StepValue) -> u8 {
    match value {
        StepValue::TenthVal(x) => x,
        _ => 0,
    }
}

/// A value is of the kind its parameter tag records.
pub open spec fn value_fits(param: Param, value: StepValue) -> bool {
    match param {
        Param::Note => value is NoteVal,
        Param::Rest => value is NoValue,
        Param::Model => value is ModelVal,
        Param::Harmonic | Param::Timbre | Param::Morph | Param::Decay | Param::GateLength => value
            is TenthVal,
    }
}

/// Writes one recorded event into the last (possibly fresh) step of the
/// sequence. A note or rest closes the step; any other parameter leaves it
/// open for further merges.
pub open spec fn record_step_spec(steps: Seq<SeqStep>, param: Param, value: StepValue) -> Seq<
    SeqStep,
> {
    let s = record_push(steps);
    let last = s.last();
    let written = match param {
        Param::Rest => SeqStep { note: None, is_awaiting_note: false, ..last },
        Param::Note => SeqStep { note: Some(note_val(value)), is_awaiting_note: false, ..last },
        Param::Model => SeqStep { model: Some(model_val(value)), is_awaiting_note: true, ..last },
        Param::Harmonic => SeqStep {
            harmonic: Some(tenth_val(value)),
            is_awaiting_note: true,
            ..last
        },
        Param::Timbre => SeqStep { timbre: Some(tenth_val(value)), is_awaiting_note: true, ..last },
        Param::Morph => SeqStep { morph: Some(tenth_val(value)), is_awaiting_note: true, ..last },
        Param::Decay => SeqStep { decay: Some(tenth_val(value)), is_awaiting_note: true, ..last },
        Param::GateLength => SeqStep {
            gate_length: Some(tenth_val(value)),
            is_awaiting_note: true,
            ..last
        },
    };
    s.update(s.len() - 1, written)
}

/// Sets the live value of one tenth-scaled parameter.
pub open spec fn set_live_tenth(v: SynthView, param: Param, x: u8) -> SynthView {
    match param {
        Param::Harmonic => SynthView { target_harmonic: x, ..v },
        Param::Timbre => SynthView { target_timbre: x, ..v },
        Param::Morph => SynthView { target_morph: x, ..v },
        Param::Decay => SynthView { decay: x, ..v },
        Param::GateLength => SynthView { gate_length: x, ..v },
        _ => v,
    }
}

/// A tenth-scaled parameter tag.
pub open spec fn is_tenth_param(param: Param) -> bool {
    match param {
        Param::Harmonic | Param::Timbre | Param::Morph | Param::Decay | Param::GateLength => true,
        _ => false,
    }
}

/// One edit of a tenth-scaled parameter to a new value: while recording, the
/// first-step bookkeeping runs before the edit and the applied value is
/// recorded after it.
pub open spec fn tenth_edit_spec(v: SynthView, recording: bool, param: Param, x: u8) -> SynthView {
    let v1 = if recording {
        first_step_updated(v, param)
    } else {
        v
    };
    let v2 = set_live_tenth(v1, param, x);
    if recording {
        SynthView { steps: record_step_spec(v2.steps, param, StepValue::TenthVal(x)), ..v2 }
    } else {
        v2
    }
}

/// One edit of the engine model to a new index, recorded the same way.
pub open spec fn model_edit_spec(v: SynthView, recording: bool, m: usize) -> SynthView {
    let v1 = if recording {
        first_step_updated(v, Param::Model)
    } else {
        v
    };
    let v2 = SynthView { engine: m, ..v1 };
    if recording {
        SynthView { steps: record_step_spec(v2.steps, Param::Model, StepValue::ModelVal(m)), ..v2 }
    } else {
        v2
    }
}

/// A model index stepped up by one, clamped to 23.
pub open spec fn inc_model(m: usize) -> usize {
    if m < 23 {
        (m + 1) as usize
    } else {
        23
    }
}

/// A model index stepped down by one, clamped to zero.
pub open spec fn dec_model(m: usize) -> usize {
    if m > 0 {
        (m - 1) as usize
    } else {
        0
    }
}

/// A tenth-scaled value stepped up by one tenth, clamped to 10.
pub open spec fn inc_tenth(x: u8) -> u8 {
    if x < 10 {
        (x + 1) as u8
    } else {
        10
    }
}

/// A tenth-scaled value stepped down by one tenth, clamped to zero.
pub open spec fn dec_tenth(x: u8) -> u8 {
    if x > 0 {
        (x - 1) as u8
    } else {
        0
    }
}

/// Octave up: transpose rises one octave (22 units), clamped at the counter
/// type's bound; the recording transpose follows because it is derived.
pub open spec fn transpose_up_spec(v: SynthView) -> SynthView {
    if v.octave < i16::MAX {
        SynthView { octave: (v.octave + 1) as i16, ..v }
    } else {
        v
    }
}

/// Octave down: transpose falls one octave, clamped likewise.
pub open spec fn transpose_down_spec(v: SynthView) -> SynthView {
    if v.octave > i16::MIN {
        SynthView { octave: (v.octave - 1) as i16, ..v }
    } else {
        v
    }
}

/// The record-or-undo action: the recording transpose resets; while already
/// recording the last step is popped, otherwise recording starts (the
/// transport side of that is on [`crate::transport::Sequencer`]).
pub open spec fn record_or_undo_spec(v: SynthView, status: crate::step::SeqStatus) -> SynthView {
    let v0 = SynthView { rec_anchor: v.octave, ..v };
    if status == crate::step::SeqStatus::Recording && v0.steps.len() > 0 {
        SynthView { steps: v0.steps.drop_last(), ..v0 }
    } else {
        v0
    }
}

/// The state of a fresh voice: engine 8, every continuous parameter at one
/// half (five tenths), base pitch and transpose four octaves up (88 units
/// each), octave display at 5, nothing held, nothing recorded.
pub open spec fn initial_view() -> SynthView {
    SynthView {
        engine: 8,
        decay: 5,
        note: 88,
        octave: 5,
        rec_anchor: 5,
        target_harmonic: 5,
        smooth_harmonic: 500_000_000,
        target_timbre: 5,
        smooth_timbre: 500_000_000,
        target_morph: 5,
        smooth_morph: 500_000_000,
        target_vibrato: 0,
        smooth_vibrato: 0,
        target_bend: 0,
        smooth_bend: 0,
        gate_length: 5,
        trigger: false,
        level: false,
        held: Seq::empty(),
        steps: Seq::empty(),
        backup: SeqStep::empty_spec(),
    }
}

/// A key press: the key's pitch (with recording transpose) becomes the
/// sounding note and is recorded while recording, trigger and level rise, and the
/// key moves to the back of the held-key order.
pub open spec fn note_on_spec(v: SynthView, recording: bool, key: i32) -> SynthView {
    let n = note_of_key(v, key);
    let v1 = if recording {
        first_step_updated(v, Param::Note)
    } else {
        v
    };
    let v2 = SynthView { note: n, ..v1 };
    let v3 = if recording {
        SynthView { steps: record_step_spec(v2.steps, Param::Note, StepValue::NoteVal(n)), ..v2 }
    } else {
        v2
    };
    SynthView { trigger: true, level: true, held: v3.held.remove_value(key).push(key), ..v3 }
}

/// A key release: the key leaves the held set; if no key remains, trigger
/// and level fall, otherwise the most recently pressed remaining key sounds.
pub open spec fn note_off_spec(v: SynthView, key: i32) -> SynthView {
    let h = v.held.remove_value(key);
    if h.len() == 0 {
        SynthView { held: h, trigger: false, level: false, ..v }
    } else {
        SynthView { held: h, note: h.last(), ..v }
    }
}

/// A rest: the recording transpose resets, and while recording a rest event
/// is recorded, closing the open step.
pub open spec fn add_rest_spec(v: SynthView, recording: bool) -> SynthView {
    let v0 = SynthView { rec_anchor: v.octave, ..v };
    let v1 = if recording {
        first_step_updated(v0, Param::Rest)
    } else {
        v0
    };
    if recording {
        SynthView { steps: record_step_spec(v1.steps, Param::Rest, StepValue::NoValue), ..v1 }
    } else {
        v1
    }
}

/// One advance of an exponential one-pole filter toward the target, with
/// blend factor `1/div`, in integer arithmetic truncating toward zero.
pub open spec fn one_pole(s: int, t: int, div: int) -> int {
    if t >= s {
        s + (t - s) / div
    } else {
        s - (s - t) / div
    }
}

/// One control tick: pitch bend glides slowly toward its target; vibrato
/// takes the lesser of its press-rate and release-rate candidates; harmonic,
/// timbre and morph glide at the parameter rate. Targets are unchanged.
pub open spec fn tick_spec(v: SynthView) -> SynthView {
    let bend_t = (v.target_bend as int) * (NANO as int);
    let vib_press = one_pole(
        v.smooth_vibrato as int,
        v.target_vibrato as int,
        VIBRATO_PRESS_SMOOTH_DIV as int,
    );
    let vib_release = one_pole(
        v.smooth_vibrato as int,
        v.target_vibrato as int,
        VIBRATO_RELEASE_SMOOTH_DIV as int,
    );
    SynthView {
        smooth_bend: one_pole(v.smooth_bend as int, bend_t, BEND_SMOOTH_DIV as int) as i64,
        smooth_vibrato: (if vib_press <= vib_release {
            vib_press
        } else {
            vib_release
        }) as i64,
        smooth_harmonic: one_pole(
            v.smooth_harmonic as int,
            (v.target_harmonic as int) * (NANO_PER_TENTH as int),
            PARAM_SMOOTH_DIV as int,
        ) as i64,
        smooth_timbre: one_pole(
            v.smooth_timbre as int,
            (v.target_timbre as int) * (NANO_PER_TENTH as int),
            PARAM_SMOOTH_DIV as int,
        ) as i64,
        smooth_morph: one_pole(
            v.smooth_morph as int,
            (v.target_morph as int) * (NANO_PER_TENTH as int),
            PARAM_SMOOTH_DIV as int,
        ) as i64,
        ..v
    }
}

/// Applying one playback step: a present note sounds at its pitch with
/// trigger and level raised;
/// present parameter overrides land on both target and smoothed value, so
/// sequenced changes jump instead of gliding.
pub open spec fn apply_step_spec(v: SynthView, step: SeqStep) -> SynthView {
    let v1 = match step.note {
        Some(n) => SynthView { note: n, trigger: true, level: true, ..v },
        None => v,
    };
    let v2 = match step.model {
        Some(m) => SynthView { engine: m, ..v1 },
        None => v1,
    };
    let v3 = match step.harmonic {
        Some(h) => SynthView {
            target_harmonic: h,
            smooth_harmonic: ((h as int) * (NANO_PER_TENTH as int)) as i64,
            ..v2
        },
        None => v2,
    };
    let v4 = match step.timbre {
        Some(t) => SynthView {
            target_timbre: t,
            smooth_timbre: ((t as int) * (NANO_PER_TENTH as int)) as i64,
            ..v3
        },
        None => v3,
    };
    let v5 = match step.morph {
        Some(m) => SynthView {
            target_morph: m,
            smooth_morph: ((m as int) * (NANO_PER_TENTH as int)) as i64,
            ..v4
        },
        None => v4,
    };
    match step.decay {
        Some(d) => SynthView { decay: d, ..v5 },
        None => v5,
    }
}

} // verus!
