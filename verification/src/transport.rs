//! Playback session and transport control.
//!
//! The transport owns the description of the currently open track and a
//! position model that reconciles wall-clock time with the playback
//! position. All instants and durations are microsecond counts; the caller
//! samples its monotonic clock and passes the reading in, so every
//! transition here is a pure, verified function of state and event.
//!
//! Seeking is performed by the caller as a file reopen plus decode-skip;
//! the transport only decides whether a seek is warranted, clamps the
//! target, and commits the resulting clock state.

use vstd::prelude::*;

verus! {

/// A seek whose target lies closer than this to the current position is
/// skipped, so that a dragged seek bar does not trigger reopen churn.
pub const SEEK_EPSILON_US: u64 = 10_000;

/// Clock state of the session.
///
/// The session is either idle, running (position grows with wall-clock
/// time), or paused (position frozen at a snapshot). Holding the running
/// instant and the paused snapshot in one tagged variant makes their mutual
/// exclusion structural: no state can carry both.
#[derive(Clone, Copy)]
pub enum PlayState {
    /// No file is open.
    Idle,
    /// Audio is flowing: the position is `offset_us` plus the wall-clock
    /// time elapsed since `started_at_us`.
    Running { offset_us: u64, started_at_us: u64 },
    /// Playback is suspended; the position is frozen at `at_us`.
    Paused { at_us: u64 },
}

/// The playback session: current track, resolved duration, clock state.
pub struct Transport {
    /// Filesystem path of the open track, if any.
    pub track_path: Option<String>,
    /// Display name of the open track, if any.
    pub track_name: Option<String>,
    /// Total track duration, if it could be resolved.
    pub duration_us: Option<u64>,
    /// Position model.
    pub state: PlayState,
}

impl Transport {
    /// A track is open exactly when the clock is not idle, the name
    /// accompanies the path, and a duration is only recorded for an open
    /// track.
    pub open spec fn wf(self) -> bool {
        &&& self.track_path is Some <==> !(self.state is Idle)
        &&& self.track_name is Some <==> self.track_path is Some
        &&& self.duration_us is Some ==> self.track_path is Some
    }

    /// The empty session.
    pub open spec fn spec_idle() -> Transport {
        Transport {
            track_path: None,
            track_name: None,
            duration_us: None,
            state: PlayState::Idle,
        }
    }

    /// Playback position at wall-clock instant `now_us`.
    pub open spec fn spec_position(self, now_us: int) -> int {
        match self.state {
            PlayState::Idle => 0,
            PlayState::Running { offset_us, started_at_us } => offset_us + now_us - started_at_us,
            PlayState::Paused { at_us } => at_us as int,
        }
    }

    /// The position at `now_us` is representable: the clock has not run
    /// backwards past the running instant and the sum stays within `u64`.
    pub open spec fn position_fits(self, now_us: int) -> bool {
        self.state matches PlayState::Running { offset_us, started_at_us }
            ==> started_at_us <= now_us && offset_us + now_us - started_at_us <= u64::MAX
    }

    /// State after a pause request at `now_us`: a running session freezes
    /// at its current position, any other session is untouched.
    pub open spec fn spec_paused_at(self, now_us: int) -> Transport {
        if self.state is Running {
            Transport { state: PlayState::Paused { at_us: self.spec_position(now_us) as u64 }, ..self }
        } else {
            self
        }
    }

    /// State after a resume request at `now_us`: a paused session starts
    /// running from its snapshot, any other session is untouched.
    pub open spec fn spec_resumed(self, now_us: u64) -> Transport {
        match self.state {
            PlayState::Paused { at_us } => Transport {
                state: PlayState::Running { offset_us: at_us, started_at_us: now_us },
                ..self
            },
            _ => self,
        }
    }

    /// Seek target clamped to the known duration.
    pub open spec fn spec_seek_target(self, target_us: int) -> int {
        match self.duration_us {
            Some(d) => if target_us <= d { target_us } else { d as int },
            None => target_us,
        }
    }

    /// Whether a seek to `target_us` issued at `now_us` must reopen the
    /// stream, and if so at which clamped position. `None` means nothing to
    /// do: no track is open, or the target is within `SEEK_EPSILON_US` of
    /// the current position.
    pub open spec fn spec_seek_plan(self, target_us: int, now_us: int) -> Option<u64> {
        if self.track_path is None {
            None
        } else {
            let clamped = self.spec_seek_target(target_us);
            let pos = self.spec_position(now_us);
            if -(SEEK_EPSILON_US as int) < pos - clamped < SEEK_EPSILON_US as int {
                None
            } else {
                Some(clamped as u64)
            }
        }
    }

    /// State after a seek to `target_us` at `now_us`. A reopening seek
    /// keeps the paused or running disposition the session had before it.
    pub open spec fn spec_after_seek(self, target_us: int, now_us: int) -> Transport {
        match self.spec_seek_plan(target_us, now_us) {
            None => self,
            Some(c) => Transport {
                state: if self.state is Paused {
                    PlayState::Paused { at_us: c }
                } else {
                    PlayState::Running { offset_us: c, started_at_us: now_us as u64 }
                },
                ..self
            },
        }
    }

    /// Creates an idle session.
    pub fn new() -> (t: Transport)
        ensures
            t == Transport::spec_idle(),
    {
        Transport {
            track_path: None,
            track_name: None,
            duration_us: None,
            state: PlayState::Idle,
        }
    }

    /// Discards all session state, returning to idle. The caller tears the
    /// output sink down alongside.
    pub fn stop(&mut self)
        ensures
            *final(self) == Transport::spec_idle(),
    {
        self.track_path = None;
        self.track_name = None;
        self.duration_us = None;
        self.state = PlayState::Idle;
    }

    /// Records a successful (re)open of `path`, decoded from `start_us`
    /// onward, at wall-clock instant `now_us`. When `start_paused` the new
    /// stream was handed to the sink already suspended, so the session is
    /// paused at the start position rather than running.
    pub fn opened(
        &mut self,
        path: String,
        name: String,
        duration_us: Option<u64>,
        start_us: u64,
        now_us: u64,
        start_paused: bool,
    )
        ensures
            final(self).track_path == Some(path),
            final(self).track_name == Some(name),
            final(self).duration_us == duration_us,
            final(self).state == (if start_paused {
                PlayState::Paused { at_us: start_us }
            } else {
                PlayState::Running { offset_us: start_us, started_at_us: now_us }
            }),
            final(self).wf(),
    {
        self.track_path = Some(path);
        self.track_name = Some(name);
        self.duration_us = duration_us;
        self.state = if start_paused {
            PlayState::Paused { at_us: start_us }
        } else {
            PlayState::Running { offset_us: start_us, started_at_us: now_us }
        };
    }

    /// Playback position at wall-clock instant `now_us`: the snapshot while
    /// paused, offset plus elapsed time while running, zero when idle.
    pub fn current_position(&self, now_us: u64) -> (pos: u64)
        requires
            self.position_fits(now_us as int),
        ensures
            pos == self.spec_position(now_us as int),
    {
        match self.state {
            PlayState::Idle => 0,
            PlayState::Running { offset_us, started_at_us } => offset_us + (now_us - started_at_us),
            PlayState::Paused { at_us } => at_us,
        }
    }

    /// Freezes a running session at its current position. Pausing an
    /// already-paused or idle session is a no-op.
    pub fn pause(&mut self, now_us: u64)
        requires
            old(self).position_fits(now_us as int),
        ensures
            *final(self) == old(self).spec_paused_at(now_us as int),
            old(self).wf() ==> final(self).wf(),
    {
        match self.state {
            PlayState::Running { offset_us, started_at_us } => {
                let at_us: u64 = offset_us + (now_us - started_at_us);
                self.state = PlayState::Paused { at_us };
            },
            _ => {},
        }
    }

    /// Restarts a paused session from its snapshot with a fresh running
    /// instant. Resuming an already-running or idle session is a no-op.
    pub fn resume(&mut self, now_us: u64)
        ensures
            *final(self) == old(self).spec_resumed(now_us),
            old(self).wf() ==> final(self).wf(),
    {
        match self.state {
            PlayState::Paused { at_us } => {
                self.state = PlayState::Running { offset_us: at_us, started_at_us: now_us };
            },
            _ => {},
        }
    }

    /// Decides a seek to `target_us` at `now_us` and commits the resulting
    /// clock state. Returns the clamped position the caller must reopen the
    /// stream at, or `None` when the seek is skipped (no open track, or the
    /// target is within `SEEK_EPSILON_US` of the current position). If the
    /// reopen then fails, the caller reports the error and calls `stop`.
    pub fn seek_commit(&mut self, target_us: u64, now_us: u64) -> (plan: Option<u64>)
        requires
            old(self).position_fits(now_us as int),
        ensures
            plan == old(self).spec_seek_plan(target_us as int, now_us as int),
            *final(self) == old(self).spec_after_seek(target_us as int, now_us as int),
            old(self).wf() ==> final(self).wf(),
    {
        if self.track_path.is_none() {
            return None;
        }
        let clamped: u64 = match self.duration_us {
            Some(d) => if target_us <= d { target_us } else { d },
            None => target_us,
        };
        let pos: u64 = self.current_position(now_us);
        let near: bool = if pos >= clamped {
            pos - clamped < SEEK_EPSILON_US
        } else {
            clamped - pos < SEEK_EPSILON_US
        };
        if near {
            return None;
        }
        self.state = match self.state {
            PlayState::Paused { .. } => PlayState::Paused { at_us: clamped },
            _ => PlayState::Running { offset_us: clamped, started_at_us: now_us },
        };
        Some(clamped)
    }

    /// True only while audio is actively being produced: the session runs
    /// and the sink still holds queued audio. `sink_has_audio` is the
    /// caller's reading of the output sink; a paused session reports false
    /// even if audio remains, and a drained sink reports false even while
    /// the clock runs, which distinguishes a natural end of track from a
    /// pause.
    pub fn is_playing(&self, sink_has_audio: bool) -> (r: bool)
        ensures
            r == (self.state is Running && sink_has_audio),
    {
        match self.state {
            PlayState::Running { .. } => sink_has_audio,
            _ => false,
        }
    }

    /// True while the session is paused.
    pub fn is_paused(&self) -> (r: bool)
        ensures
            r == (self.state is Paused),
    {
        match self.state {
            PlayState::Paused { .. } => true,
            _ => false,
        }
    }

    /// True while a track is open.
    pub fn has_track(&self) -> (r: bool)
        ensures
            r == (self.track_path is Some),
    {
        self.track_path.is_some()
    }

    /// The resolved total duration, if known.
    pub fn total_duration(&self) -> (r: Option<u64>)
        ensures
            r == self.duration_us,
    {
        self.duration_us
    }

    /// Display name of the open track.
    pub fn now_playing_name(&self) -> (r: Option<String>)
        ensures
            r == self.track_name,
    {
        match &self.track_name {
            Some(n) => Some(n.clone()),
            None => None,
        }
    }

    /// Path of the open track.
    pub fn current_track_path(&self) -> (r: Option<String>)
        ensures
            r == self.track_path,
    {
        match &self.track_path {
            Some(p) => Some(p.clone()),
            None => None,
        }
    }

    /// Whether the duration resolver must run for an open of `path`: a
    /// reopen of the same track with an already-known duration keeps the
    /// cached value.
    pub fn needs_duration_probe(&self, path: &String) -> (r: bool)
        ensures
            r == !(self.track_path matches Some(p) && p@ == path@ && self.duration_us is Some),
    {
        match &self.track_path {
            Some(p) => !(*p == *path && self.duration_us.is_some()),
            None => true,
        }
    }
}

/// Law: pausing and then resuming, with no seek in between, preserves the
/// playback position. The position read at any instant after the resume
/// equals the position at the instant of the pause, exactly.
pub proof fn lemma_pause_resume_continuity(t: Transport, pause_us: u64, resume_us: u64)
    requires
        t.position_fits(pause_us as int),
    ensures
        t.spec_paused_at(pause_us as int).spec_resumed(resume_us).spec_position(resume_us as int)
            == t.spec_position(pause_us as int),
{
}

/// Law: a seek to `target_us` followed immediately by a position read
/// returns the clamped target to within `SEEK_EPSILON_US`; and when the
/// target lies within the known duration (or none is known) the clamped
/// target is the requested one. A reopening seek also preserves the paused
/// disposition.
pub proof fn lemma_seek_then_position(t: Transport, target_us: u64, now_us: u64)
    requires
        t.wf(),
        t.track_path is Some,
        t.position_fits(now_us as int),
    ensures
        ({
            let after = t.spec_after_seek(target_us as int, now_us as int);
            let goal = t.spec_seek_target(target_us as int);
            &&& after.spec_position(now_us as int) - goal < SEEK_EPSILON_US as int
            &&& goal - after.spec_position(now_us as int) < SEEK_EPSILON_US as int
            &&& (t.duration_us matches Some(d) && target_us <= d ==> goal == target_us)
            &&& (t.duration_us is None ==> goal == target_us)
            &&& (t.spec_seek_plan(target_us as int, now_us as int) is Some
                ==> (after.state is Paused <==> t.state is Paused))
        }),
{
}

} // verus!
