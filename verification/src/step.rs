//! The recorded sequence's data model: transport status, parameter tags and
//! the per-step record.
//!
//! A [`SeqStep`] is one slot of the recorded sequence. Every field is
//! optional: a step only overrides what was explicitly recorded into it.
//! `is_awaiting_note` marks a step opened by a continuous-parameter edit that
//! has not yet been paired with a note or rest; such a step keeps accepting
//! parameter merges and is closed exactly when a note or rest is recorded.

use vstd::prelude::*;

verus! {

/// Transport status: the single authoritative Recording/Play/Stop value.
#[derive(Clone, Copy, Debug, PartialEq, Eq, Structural)]
pub enum SeqStatus {
    Recording,
    Play,
    Stop,
}

/// Tags the kind of event recorded into a step.
#[derive(Clone, Copy, Debug)]
pub enum Param {
    Note,
    Rest,
    Model,
    Harmonic,
    Timbre,
    Morph,
    Decay,
    GateLength,
}

/// The value recorded along a [`Param`] tag: notes are pitch units, the
/// model is an engine index, the continuous parameters are tenths. A rest
/// carries no value.
#[derive(Clone, Copy, Debug)]
pub enum StepValue {
    NoValue,
    NoteVal(i32),
    ModelVal(usize),
    TenthVal(u8),
}

/// Pitch magnitude bound, in 22-per-octave units, for any note the
/// controller can produce (key offset plus accumulated octave transpose).
pub const NOTE_LIMIT: i32 = 1_500_000;

/// One slot in the recorded sequence.
#[derive(Clone, Copy, Debug, PartialEq, Eq)]
pub struct SeqStep {
    /// Pitch in 22-per-octave units; `None` on a rest or parameter-only step.
    pub note: Option<i32>,
    /// Engine model index in `[0, 23]`.
    pub model: Option<usize>,
    /// Harmonic content in tenths.
    pub harmonic: Option<u8>,
    /// Timbre in tenths.
    pub timbre: Option<u8>,
    /// Morph in tenths.
    pub morph: Option<u8>,
    /// Envelope decay in tenths.
    pub decay: Option<u8>,
    /// Per-step gate length in tenths, overriding the global one.
    pub gate_length: Option<u8>,
    /// True while the step still accepts parameter merges.
    pub is_awaiting_note: bool,
}

impl SeqStep {
    /// The empty placeholder step: nothing recorded, not awaiting a note.
    pub open spec fn empty_spec() -> SeqStep {
        SeqStep {
            note: None,
            model: None,
            harmonic: None,
            timbre: None,
            morph: None,
            decay: None,
            gate_length: None,
            is_awaiting_note: false,
        }
    }

    /// Every recorded field is inside its documented range.
    pub open spec fn wf(self) -> bool {
        &&& match self.note {
            Some(n) => -NOTE_LIMIT <= n <= NOTE_LIMIT,
            None => true,
        }
        &&& match self.model {
            Some(m) => m <= 23,
            None => true,
        }
        &&& match self.harmonic {
            Some(x) => x <= 10,
            None => true,
        }
        &&& match self.timbre {
            Some(x) => x <= 10,
            None => true,
        }
        &&& match self.morph {
            Some(x) => x <= 10,
            None => true,
        }
        &&& match self.decay {
            Some(x) => x <= 10,
            None => true,
        }
        &&& match self.gate_length {
            Some(x) => x <= 10,
            None => true,
        }
    }

    /// Runtime check for [`SeqStep::wf`], for callers outside verified code.
    pub fn check_wf(&self) -> (r: bool)
        ensures
            r == self.wf(),
    {
        let note_ok = match self.note {
            Some(n) => -NOTE_LIMIT <= n && n <= NOTE_LIMIT,
            None => true,
        };
        let model_ok = match self.model {
            Some(m) => m <= 23,
            None => true,
        };
        let harmonic_ok = match self.harmonic {
            Some(x) => x <= 10,
            None => true,
        };
        let timbre_ok = match self.timbre {
            Some(x) => x <= 10,
            None => true,
        };
        let morph_ok = match self.morph {
            Some(x) => x <= 10,
            None => true,
        };
        let decay_ok = match self.decay {
            Some(x) => x <= 10,
            None => true,
        };
        let gate_ok = match self.gate_length {
            Some(x) => x <= 10,
            None => true,
        };
        note_ok && model_ok && harmonic_ok && timbre_ok && morph_ok && decay_ok && gate_ok
    }
}

impl Default for SeqStep {
    /// The empty placeholder step.
    fn default() -> (r: SeqStep)
        ensures
            r == SeqStep::empty_spec(),
    {
        SeqStep {
            note: None,
            model: None,
            harmonic: None,
            timbre: None,
            morph: None,
            decay: None,
            gate_length: None,
            is_awaiting_note: false,
        }
    }
}

} // verus!
