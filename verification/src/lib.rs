//! A keyboard-driven monophonic synthesizer controller with a live
//! step-sequencer/looper.
//!
//! The crate models the event-to-state translation engine of the controller:
//! the note-stack/gate logic, the step-sequence recording and editing state
//! machine (including its first-step backfill correction), the fixed-point
//! parameter-smoothing control tick, and the sequencer playback timing.
//!
//! Pitch is measured in steps of a 22-tone equal-tempered octave (one unit is
//! 12/22 of a semitone); continuous parameters move on a tenth grid in
//! `[0, 1]`, so they are stored as integer tenths in `[0, 10]`; smoothed
//! parameter values are stored in nanounits (one unit is `1_000_000_000`
//! nanounits). Audio rendering, the output device, raw input capture and the
//! console display are external collaborators and live outside this crate.

pub mod control;
pub mod held;
pub mod laws;
pub mod model;
pub mod part;
pub mod playback;
pub mod step;
pub mod transport;
pub mod util;

pub use control::{apply_control, Control};
pub use part::Synth;
pub use playback::{effective_gate, gate_times};
pub use step::{Param, SeqStatus, SeqStep, StepValue};
pub use transport::{Sequencer, Transport};
pub use util::{dec_usize, inc_usize, recover_param};
