//! Laws of the controller, proved over the model transitions.
//!
//! Each proof function here states one property the library promises across
//! several operations: last-note priority of the note tracker, idempotence
//! of releasing an unheld key, the closing of open steps by a rest, the
//! merging of consecutive parameter edits into one step, and the first-step
//! backfill. The playback-duration law lives beside the timing functions in
//! [`crate::playback`].

use vstd::prelude::*;
use crate::held::lemma_remove_value;
use crate::model::{add_rest_spec, first_step_updated, initial_view, is_tenth_param, note_of_key,
    note_off_spec, note_on_spec, record_push, synth_wf, tenth_edit_spec, SynthView, KEY_MAX};
use crate::step::Param;

verus! {

/// The note tracker's invariant: trigger and level are raised iff a key is
/// held, and while one is, the sounding note is the most recently pressed
/// held key.
pub open spec fn last_note_priority(v: SynthView) -> bool {
    &&& (v.held.len() == 0 ==> !v.trigger && !v.level)
    &&& (v.held.len() > 0 ==> v.note == v.held.last() && v.trigger && v.level)
}

/// A fresh voice satisfies last-note priority: nothing is held and nothing
/// sounds.
pub proof fn lemma_initial_last_note_priority()
    ensures
        last_note_priority(initial_view()),
{
}

/// What the note tracker's laws assume of a state: distinct held keys, a
/// neutral recording transpose (the octave anchor at the octave), and the
/// invariant itself.
pub open spec fn tracker_ok(v: SynthView) -> bool {
    &&& v.held.no_duplicates()
    &&& v.rec_anchor == v.octave
    &&& last_note_priority(v)
}

/// Pressing a key preserves the tracker's invariant, whatever was held
/// before: the key moves to the back of the press order and becomes the
/// sounding note, and trigger and level rise.
pub proof fn lemma_note_on_keeps_last_note_priority(v: SynthView, recording: bool, key: i32)
    requires
        tracker_ok(v),
    ensures
        tracker_ok(note_on_spec(v, recording, key)),
{
    lemma_remove_value(v.held, key);
    let v2 = note_on_spec(v, recording, key);
    assert(note_of_key(v, key) == key);
    assert(v2.held == v.held.remove_value(key).push(key));
    assert(v2.held.last() == key);
    assert(v2.held.no_duplicates());
}

/// Releasing a key preserves the tracker's invariant: if the last held key
/// leaves, trigger and level fall; otherwise the most recently pressed
/// remaining key sounds.
pub proof fn lemma_note_off_keeps_last_note_priority(v: SynthView, key: i32)
    requires
        tracker_ok(v),
    ensures
        tracker_ok(note_off_spec(v, key)),
{
    lemma_remove_value(v.held, key);
    let h = v.held.remove_value(key);
    if h.len() > 0 {
        assert(v.held.len() > 0);
    }
}

/// One key press or release, as the input collaborator delivers them.
pub ghost enum KeyEvent {
    Press(i32),
    Release(i32),
}

/// Folds a stream of key events over the state, oldest first.
pub open spec fn run_key_events(v: SynthView, recording: bool, events: Seq<KeyEvent>) -> SynthView
    decreases events.len(),
{
    if events.len() == 0 {
        v
    } else {
        let v1 = match events[0] {
            KeyEvent::Press(k) => note_on_spec(v, recording, k),
            KeyEvent::Release(k) => note_off_spec(v, k),
        };
        run_key_events(v1, recording, events.drop_first())
    }
}

/// Last-note priority holds after every sequence of key presses and
/// releases — and hence after any prefix of a longer one: the sounding note
/// is the most recently pressed key still held, or silence when nothing is
/// held.
pub proof fn lemma_last_note_priority_all_sequences(
    v: SynthView,
    recording: bool,
    events: Seq<KeyEvent>,
)
    requires
        tracker_ok(v),
    ensures
        tracker_ok(run_key_events(v, recording, events)),
        last_note_priority(run_key_events(v, recording, events)),
    decreases events.len(),
{
    if events.len() > 0 {
        let v1 = match events[0] {
            KeyEvent::Press(k) => note_on_spec(v, recording, k),
            KeyEvent::Release(k) => note_off_spec(v, k),
        };
        match events[0] {
            KeyEvent::Press(k) => lemma_note_on_keeps_last_note_priority(v, recording, k),
            KeyEvent::Release(k) => lemma_note_off_keeps_last_note_priority(v, k),
        }
        lemma_last_note_priority_all_sequences(v1, recording, events.drop_first());
    }
}

/// Releasing a key that is not held changes nothing: not the sounding note,
/// not the held set, not trigger or level.
pub proof fn lemma_release_unheld_is_noop(v: SynthView, key: i32)
    requires
        v.held.no_duplicates(),
        last_note_priority(v),
        !v.held.contains(key),
    ensures
        note_off_spec(v, key) == v,
{
    lemma_remove_value(v.held, key);
    assert(note_off_spec(v, key) =~~= v);
}

/// Recording a rest always leaves the sequence non-empty with a closed last
/// step, even if a parameter edit had left a step open, and never grows the
/// sequence by more than the one step a rest on an empty or closed sequence
/// creates.
pub proof fn lemma_rest_closes_step(v: SynthView)
    requires
        synth_wf(v),
    ensures
        add_rest_spec(v, true).steps.len() > 0,
        !add_rest_spec(v, true).steps.last().is_awaiting_note,
        v.steps.len() > 0 && v.steps.last().is_awaiting_note ==> add_rest_spec(
            v,
            true,
        ).steps.len() == v.steps.len(),
{
    let v1 = first_step_updated(SynthView { rec_anchor: v.octave, ..v }, Param::Rest);
    assert(v1.steps.len() == v.steps.len());
    if v.steps.len() > 0 {
        assert(v1.steps.last() == v.steps.last());
    }
}

/// Two consecutive continuous-parameter edits with no intervening note or
/// rest land in the same step: the second edit does not grow the sequence,
/// and the last step stays open.
pub proof fn lemma_consecutive_edits_merge(v: SynthView, p: Param, x: u8, q: Param, y: u8)
    requires
        synth_wf(v),
        is_tenth_param(p),
        is_tenth_param(q),
    ensures
        tenth_edit_spec(tenth_edit_spec(v, true, p, x), true, q, y).steps.len()
            == tenth_edit_spec(v, true, p, x).steps.len(),
        tenth_edit_spec(tenth_edit_spec(v, true, p, x), true, q, y).steps.last().is_awaiting_note,
{
    let v1 = tenth_edit_spec(v, true, p, x);
    assert(v1.steps.len() > 0);
    assert(v1.steps.last().is_awaiting_note);
    let v1b = first_step_updated(v1, q);
    assert(v1b.steps.len() == v1.steps.len());
    if v1.steps.len() > 1 {
        assert(v1b.steps.last() == v1.steps.last());
    }
    assert(record_push(v1b.steps) == v1b.steps);
}

/// The first-step backfill: a parameter edit on the empty sequence captures
/// the pre-edit baseline; after a first and a second note, an edit of a
/// parameter the first step never recorded fills that parameter's baseline
/// value into the first step — it is neither absent nor any post-edit
/// target.
pub proof fn lemma_first_step_backfill(v: SynthView, h1: u8, k1: i32, k2: i32, t4: u8)
    requires
        synth_wf(v),
        v.steps.len() == 0,
        0 <= k1 <= KEY_MAX,
        0 <= k2 <= KEY_MAX,
    ensures
        ({
            let v1 = tenth_edit_spec(v, true, Param::Harmonic, h1);
            let v2 = note_on_spec(v1, true, k1);
            let v3 = note_on_spec(v2, true, k2);
            let v4 = tenth_edit_spec(v3, true, Param::Timbre, t4);
            &&& v4.steps.len() == 3
            &&& v4.steps[0].harmonic == Some(h1)
            &&& v4.steps[0].timbre == Some(v.target_timbre)
            &&& v4.steps[0].note == Some(note_of_key(v, k1))
        }),
{
    let v1 = tenth_edit_spec(v, true, Param::Harmonic, h1);
    let v2 = note_on_spec(v1, true, k1);
    let v3 = note_on_spec(v2, true, k2);
    let v4 = tenth_edit_spec(v3, true, Param::Timbre, t4);
    assert(v1.backup.timbre == Some(v.target_timbre));
    assert(v1.steps.len() == 1);
    assert(v1.steps[0].harmonic == Some(h1));
    assert(v1.steps[0].is_awaiting_note);
    assert(v2.steps.len() == 1);
    assert(v2.steps[0].harmonic == Some(h1));
    assert(v2.steps[0].note == Some(note_of_key(v1, k1)));
    assert(note_of_key(v1, k1) == note_of_key(v, k1));
    assert(!v2.steps[0].is_awaiting_note);
    assert(v2.backup == v1.backup);
    assert(v3.steps.len() == 2);
    assert(v3.steps[0] == v2.steps[0]);
    assert(v3.backup == v1.backup);
    assert(v4.steps[0].timbre == v1.backup.timbre);
    assert(v4.steps[0].harmonic == Some(h1));
    assert(v4.steps.len() == 3);
}

} // verus!
