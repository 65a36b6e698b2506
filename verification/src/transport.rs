//! The transport: tempo and the authoritative Recording/Play/Stop status,
//! plus the playing flag that wakes the playback scheduler.
//!
//! The status lives in exactly one place, the [`Sequencer`]; every other
//! component asks it. The [`Transport`] struct is the value observed through
//! the scheduler's wake-up primitive: the embedding program pairs it with a
//! condition variable and calls [`Transport::update`] whenever playback is
//! engaged or disengaged, so the scheduler can block instead of busy-polling.

use vstd::prelude::*;
use crate::step::SeqStatus;

verus! {

/// Slowest selectable tempo, in beats per minute.
pub const TEMPO_MIN: u32 = 4;

/// Fastest selectable tempo, in beats per minute.
pub const TEMPO_MAX: u32 = 996;

/// Tempo and transport status.
pub struct Sequencer {
    /// Tempo in beats per minute, kept inside `[TEMPO_MIN, TEMPO_MAX]`.
    pub tempo: u32,
    /// The authoritative Recording/Play/Stop value.
    pub status: SeqStatus,
}

impl Sequencer {
    /// The tempo is inside its documented range.
    pub open spec fn wf(self) -> bool {
        TEMPO_MIN <= self.tempo <= TEMPO_MAX
    }

    /// A stopped sequencer at the default 120 beats per minute.
    pub fn new() -> (r: Sequencer)
        ensures
            r == (Sequencer { tempo: 120u32, status: SeqStatus::Stop }),
            r.wf(),
    {
        Sequencer { tempo: 120, status: SeqStatus::Stop }
    }

    /// Raises the tempo by 4 beats per minute, clamped to [`TEMPO_MAX`].
    pub fn tempo_up(&mut self)
        requires
            old(self).wf(),
        ensures
            final(self).tempo == if old(self).tempo + 4 <= TEMPO_MAX {
                old(self).tempo + 4
            } else {
                old(self).tempo as int
            },
            final(self).status == old(self).status,
            final(self).wf(),
    {
        if self.tempo + 4 <= TEMPO_MAX {
            self.tempo = self.tempo + 4;
        }
    }

    /// Lowers the tempo by 4 beats per minute, clamped to [`TEMPO_MIN`].
    pub fn tempo_down(&mut self)
        requires
            old(self).wf(),
        ensures
            final(self).tempo == if old(self).tempo >= TEMPO_MIN + 4 {
                old(self).tempo - 4
            } else {
                old(self).tempo as int
            },
            final(self).status == old(self).status,
            final(self).wf(),
    {
        if self.tempo >= TEMPO_MIN + 4 {
            self.tempo = self.tempo - 4;
        }
    }

    /// Forces the status to Recording unconditionally.
    pub fn start_recording(&mut self)
        ensures
            final(self).status == SeqStatus::Recording,
            final(self).tempo == old(self).tempo,
    {
        self.status = SeqStatus::Recording;
    }

    /// Cycles the status: Recording and Stop go to Play, Play goes to Stop.
    pub fn play_pause(&mut self)
        ensures
            final(self).status == match old(self).status {
                SeqStatus::Recording => SeqStatus::Play,
                SeqStatus::Play => SeqStatus::Stop,
                SeqStatus::Stop => SeqStatus::Play,
            },
            final(self).tempo == old(self).tempo,
    {
        self.status = match self.status {
            SeqStatus::Recording => SeqStatus::Play,
            SeqStatus::Play => SeqStatus::Stop,
            SeqStatus::Stop => SeqStatus::Play,
        };
    }

    /// True iff the status is Recording.
    pub fn is_recording(&self) -> (r: bool)
        ensures
            r == (self.status == SeqStatus::Recording),
    {
        self.status == SeqStatus::Recording
    }

    /// True iff the status is Play.
    pub fn is_playing(&self) -> (r: bool)
        ensures
            r == (self.status == SeqStatus::Play),
    {
        self.status == SeqStatus::Play
    }

    /// True iff the status is Stop.
    pub fn is_stopped(&self) -> (r: bool)
        ensures
            r == (self.status == SeqStatus::Stop),
    {
        self.status == SeqStatus::Stop
    }
}

/// The value the playback scheduler blocks on. The embedding program guards
/// it with a lock and a condition variable; this crate fixes what an update
/// leaves in it.
pub struct Transport {
    /// True while the transport status is Play.
    pub is_playing: bool,
}

impl Transport {
    /// A transport that is not playing.
    pub fn new() -> (r: Transport)
        ensures
            !r.is_playing,
    {
        Transport { is_playing: false }
    }

    /// Records whether playback is engaged; the embedding program follows
    /// this call with a condition-variable broadcast.
    pub fn update(&mut self, status: bool)
        ensures
            final(self).is_playing == status,
    {
        self.is_playing = status;
    }
}

} // verus!
