//! Replay playback: a cursor over the recorded keystrokes of a session,
//! with play/pause, seeking and a playback speed.

use vstd::prelude::*;

use crate::analytics::{ReplayEvent, SessionReplay};

verus! {

/// Playback state.
#[derive(Debug, Clone, Copy, PartialEq, Eq, Structural)]
pub enum ReplayState {
    Paused,
    Playing,
}

/// Playback speed.
#[derive(Debug, Clone, Copy, PartialEq, Eq, Structural)]
pub enum ReplaySpeed {
    Half,
    Normal,
    Double,
    Quad,
}

/// A loaded replay with its frame count and duration.
#[derive(Debug, Clone)]
pub struct LoadedReplay {
    pub replay: SessionReplay,
    pub total_frames: usize,
    pub total_duration_ms: u64,
}

/// Position of the playback cursor after seeking to `frame` in a replay of
/// `len` frames: the requested frame, clamped to the last one (0 when there
/// is none).
pub open spec fn clamp_frame(frame: usize, len: nat) -> usize {
    let last: int = if len == 0 {
        0
    } else {
        len - 1
    };
    if frame <= last {
        frame
    } else {
        last as usize
    }
}

/// Plays a replay back frame by frame.
pub struct ReplayEngine {
    replay: SessionReplay,
    current_frame: usize,
    state: ReplayState,
    speed: ReplaySpeed,
}

impl ReplayEngine {
    /// The cursor stays on a frame of the replay, or at 0 when it is empty.
    #[verifier::type_invariant]
    spec fn cursor_in_range(&self) -> bool {
        self.current_frame == 0 || self.current_frame < self.replay.events@.len()
    }

    /// The replay being played.
    pub closed spec fn replay_spec(&self) -> SessionReplay {
        self.replay
    }

    /// The recorded events.
    pub closed spec fn events_spec(&self) -> Seq<ReplayEvent> {
        self.replay.events@
    }

    /// Position of the cursor.
    pub closed spec fn frame_spec(&self) -> usize {
        self.current_frame
    }

    /// Playback state.
    pub closed spec fn state_spec(&self) -> ReplayState {
        self.state
    }

    /// Playback speed.
    pub closed spec fn speed_spec(&self) -> ReplaySpeed {
        self.speed
    }

    /// A paused player at the first frame, at normal speed.
    pub fn new(replay: SessionReplay) -> (e: ReplayEngine)
        ensures
            e.replay_spec() == replay,
            e.events_spec() == replay.events@,
            e.frame_spec() == 0,
            e.state_spec() == ReplayState::Paused,
            e.speed_spec() == ReplaySpeed::Normal,
    {
        ReplayEngine { replay, current_frame: 0, state: ReplayState::Paused, speed: ReplaySpeed::Normal }
    }

    /// Starts playing.
    pub fn play(&mut self)
        ensures
            final(self).state_spec() == ReplayState::Playing,
            final(self).replay_spec() == old(self).replay_spec(),
            final(self).events_spec() == old(self).events_spec(),
            final(self).frame_spec() == old(self).frame_spec(),
            final(self).speed_spec() == old(self).speed_spec(),
    {
        proof {
            use_type_invariant(&*self);
        }
        self.state = ReplayState::Playing;
    }

    /// Pauses.
    pub fn pause(&mut self)
        ensures
            final(self).state_spec() == ReplayState::Paused,
            final(self).replay_spec() == old(self).replay_spec(),
            final(self).events_spec() == old(self).events_spec(),
            final(self).frame_spec() == old(self).frame_spec(),
            final(self).speed_spec() == old(self).speed_spec(),
    {
        proof {
            use_type_invariant(&*self);
        }
        self.state = ReplayState::Paused;
    }

    /// Moves the cursor to `frame`, clamped to the last frame.
    pub fn seek(&mut self, frame: usize)
        ensures
            final(self).frame_spec() == clamp_frame(frame, old(self).events_spec().len()),
            final(self).replay_spec() == old(self).replay_spec(),
            final(self).events_spec() == old(self).events_spec(),
            final(self).state_spec() == old(self).state_spec(),
            final(self).speed_spec() == old(self).speed_spec(),
    {
        let len = self.replay.events.len();
        let last = if len == 0 {
            0
        } else {
            len - 1
        };
        self.current_frame = if frame <= last {
            frame
        } else {
            last
        };
    }

    /// Sets the playback speed.
    pub fn set_speed(&mut self, speed: ReplaySpeed)
        ensures
            final(self).speed_spec() == speed,
            final(self).replay_spec() == old(self).replay_spec(),
            final(self).events_spec() == old(self).events_spec(),
            final(self).frame_spec() == old(self).frame_spec(),
            final(self).state_spec() == old(self).state_spec(),
    {
        proof {
            use_type_invariant(&*self);
        }
        self.speed = speed;
    }

    /// Position of the cursor.
    pub fn current_frame(&self) -> (f: usize)
        ensures
            f == self.frame_spec(),
            f == 0 || f < self.events_spec().len(),
    {
        proof {
            use_type_invariant(self);
        }
        self.current_frame
    }

    /// The event under the cursor; none for an empty replay.
    pub fn current_event(&self) -> (e: Option<&ReplayEvent>)
        ensures
            e is Some == (self.frame_spec() < self.events_spec().len()),
            e matches Some(ev) ==> *ev == self.events_spec()[self.frame_spec() as int],
    {
        if self.current_frame < self.replay.events.len() {
            Some(&self.replay.events[self.current_frame])
        } else {
            None
        }
    }

    /// Playback state.
    pub fn state(&self) -> (s: &ReplayState)
        ensures
            *s == self.state_spec(),
    {
        &self.state
    }

    /// Playback speed.
    pub fn speed(&self) -> (s: ReplaySpeed)
        ensures
            s == self.speed_spec(),
    {
        self.speed
    }

    /// Number of recorded frames.
    pub fn total_frames(&self) -> (n: usize)
        ensures
            n == self.events_spec().len(),
    {
        self.replay.events.len()
    }

    /// Duration of the replay.
    pub fn total_duration_ms(&self) -> (d: u64)
        ensures
            d == self.replay_spec().total_duration_ms,
    {
        self.replay.total_duration_ms
    }

    /// Moves to the next frame; at the last frame it pauses and reports
    /// that nothing is left.
    pub fn advance_frame(&mut self) -> (moved: bool)
        ensures
            moved == (old(self).frame_spec() + 1 < old(self).events_spec().len()),
            moved ==> final(self).frame_spec() == old(self).frame_spec() + 1,
            moved ==> final(self).state_spec() == old(self).state_spec(),
            !moved ==> final(self).frame_spec() == old(self).frame_spec(),
            !moved ==> final(self).state_spec() == ReplayState::Paused,
            final(self).replay_spec() == old(self).replay_spec(),
            final(self).events_spec() == old(self).events_spec(),
            final(self).speed_spec() == old(self).speed_spec(),
    {
        proof {
            use_type_invariant(&*self);
        }
        if self.current_frame < self.replay.events.len() && self.current_frame + 1
            < self.replay.events.len() {
            self.current_frame = self.current_frame + 1;
            true
        } else {
            self.state = ReplayState::Paused;
            false
        }
    }
}

/// Seeking always lands on a frame of the replay (or 0 when it is empty),
/// lands exactly on any existing frame, and seeking again to where the
/// cursor stands does not move it.
pub proof fn seek_lands_inside_replay(frame: usize, len: nat)
    ensures
        clamp_frame(frame, len) == 0 || clamp_frame(frame, len) < len,
        frame < len ==> clamp_frame(frame, len) == frame,
        clamp_frame(clamp_frame(frame, len), len) == clamp_frame(frame, len),
{
}

} // verus!
