//! Mirror of the external player's live state.
//!
//! A background listener subscribes to the player's property-change events
//! and applies them here; every other component only reads the mirror.

use vstd::prelude::*;

verus! {

/// Whether the external player is playing, paused, or gone.
#[derive(Clone, Copy, Debug, PartialEq, Eq, Structural)]
pub enum PauseState {
    Paused,
    Playing,
    Stopped,
}

/// One property-change event read from the player's control socket,
/// already reduced to plain values.
#[derive(Clone, Copy, Debug, PartialEq, Eq, Structural)]
pub enum PlayerEvent {
    /// Playback position in permille of the track, as reported (may overshoot).
    Progress(u32),
    /// The player's pause flag: `true` means paused.
    PauseFlag(bool),
    /// The player's volume in percent, as reported (may overshoot).
    Volume(u32),
}

/// Upper bound of the mirrored playback position, in permille.
pub const PROGRESS_MAX: u32 = 1000;

/// Upper bound of the mirrored volume.
pub const VOLUME_MAX: u8 = 130;

/// Locally held copy of the external player's state.
pub struct PlaybackMirror {
    /// Playback position in permille of the track: 0 ..= 1000.
    pub progress: u32,
    pub pause_state: PauseState,
    /// Current volume, clamped to 0 ..= 130.
    pub volume: u8,
}

impl PlaybackMirror {
    /// The mirror never holds values outside the documented ranges.
    pub open spec fn wf(self) -> bool {
        self.progress <= PROGRESS_MAX && self.volume <= VOLUME_MAX
    }

    /// Initial mirror: nothing playing, default volume.
    pub fn new() -> (r: PlaybackMirror)
        ensures
            r.wf(),
            r.progress == 0,
            r.pause_state == PauseState::Stopped,
            r.volume == 100,
    {
        PlaybackMirror { progress: 0, pause_state: PauseState::Stopped, volume: 100 }
    }

    /// Apply one property-change event: positions and volumes are clamped
    /// to their documented ranges, the pause flag maps to Paused/Playing.
    pub fn apply_event(&mut self, event: PlayerEvent)
        requires
            old(self).wf(),
        ensures
            final(self).wf(),
            match event {
                PlayerEvent::Progress(p) => {
                    &&& final(self).progress == (if p <= PROGRESS_MAX { p } else { PROGRESS_MAX })
                    &&& final(self).pause_state == old(self).pause_state
                    &&& final(self).volume == old(self).volume
                },
                PlayerEvent::PauseFlag(f) => {
                    &&& final(self).pause_state == (if f { PauseState::Paused } else {
                        PauseState::Playing
                    })
                    &&& final(self).progress == old(self).progress
                    &&& final(self).volume == old(self).volume
                },
                PlayerEvent::Volume(v) => {
                    &&& final(self).volume == (if v <= VOLUME_MAX as u32 { v as u8 } else {
                        VOLUME_MAX
                    })
                    &&& final(self).progress == old(self).progress
                    &&& final(self).pause_state == old(self).pause_state
                },
            },
    {
        match event {
            PlayerEvent::Progress(p) => {
                self.progress = if p <= PROGRESS_MAX { p } else { PROGRESS_MAX };
            },
            PlayerEvent::PauseFlag(f) => {
                self.pause_state = if f { PauseState::Paused } else { PauseState::Playing };
            },
            PlayerEvent::Volume(v) => {
                self.volume = if v <= VOLUME_MAX as u32 { v as u8 } else { VOLUME_MAX };
            },
        }
    }

    /// Reset on a listener boundary (listener started, the socket closed, or
    /// the player exited): position drops to zero, the state is Stopped, the
    /// volume is kept. Whatever pause flag was observed last, after this the
    /// mirror reports Stopped.
    pub fn reset_stopped(&mut self)
        requires
            old(self).wf(),
        ensures
            final(self).wf(),
            *final(self) == spec_reset(*old(self)),
    {
        self.progress = 0;
        self.pause_state = PauseState::Stopped;
    }
}

/// What a listener-boundary reset leaves: position zero, Stopped, the
/// volume kept.
pub open spec fn spec_reset(m: PlaybackMirror) -> PlaybackMirror {
    PlaybackMirror { progress: 0, pause_state: PauseState::Stopped, volume: m.volume }
}

/// Resetting the mirror is idempotent: running the shutdown path twice in
/// a row leaves the same mirror as running it once.
pub proof fn lemma_reset_stopped_idempotent(m: PlaybackMirror)
    ensures
        spec_reset(spec_reset(m)) == spec_reset(m),
{
}

} // verus!
