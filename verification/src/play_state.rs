//! Transport state of the project and of each audio file.

use vstd::prelude::*;

verus! {

/// Where playback stands. Times are nanoseconds on a monotonic clock whose
/// origin the caller chooses and keeps for the life of the process.
///
/// `Playing` holds the time at which playback would have started had it
/// never been paused; `Paused` holds that time and the time of the pause.
#[derive(Clone, Copy, PartialEq, Eq, Structural, Debug)]
pub enum PlayState {
    Stopped,
    Paused { start_time: u64, pause_time: u64 },
    Playing { start_time: u64 },
}

/// `later - earlier`, or zero where `later` lies before `earlier`.
pub open spec fn span(later: u64, earlier: u64) -> u64 {
    if later >= earlier {
        (later - earlier) as u64
    } else {
        0
    }
}

impl PlayState {
    /// Whether playback is running.
    pub open spec fn playing(self) -> bool {
        self is Playing
    }

    /// Transport time at `now`: the time played so far. It runs while
    /// playing, stands still while paused and is zero when stopped.
    pub open spec fn position(self, now: u64) -> u64 {
        match self {
            PlayState::Stopped => 0,
            PlayState::Paused { start_time, pause_time } => span(pause_time, start_time),
            PlayState::Playing { start_time } => span(now, start_time),
        }
    }

    /// The state after play is pressed at `now`: a stopped transport
    /// starts at `now`, a paused one goes on from where it stood, a
    /// playing one is left alone.
    pub open spec fn played(self, now: u64) -> PlayState {
        match self {
            PlayState::Stopped => PlayState::Playing { start_time: now },
            PlayState::Paused { start_time, pause_time } => PlayState::Playing {
                start_time: span(now, span(pause_time, start_time)),
            },
            PlayState::Playing { .. } => self,
        }
    }

    /// The state after pause is pressed at `now`: a playing transport
    /// stands still from `now` on, any other is left alone.
    pub open spec fn paused(self, now: u64) -> PlayState {
        match self {
            PlayState::Playing { start_time } => PlayState::Paused {
                start_time,
                pause_time: if now >= start_time {
                    now
                } else {
                    start_time
                },
            },
            _ => self,
        }
    }

    pub fn is_playing(&self) -> (playing: bool)
        ensures
            playing == self.playing(),
    {
        match self {
            PlayState::Playing { .. } => true,
            _ => false,
        }
    }

    /// Transport time at `now`.
    pub fn position_at(&self, now: u64) -> (position: u64)
        ensures
            position == self.position(now),
    {
        match self {
            PlayState::Stopped => 0,
            PlayState::Paused { start_time, pause_time } => pause_time.saturating_sub(*start_time),
            PlayState::Playing { start_time } => now.saturating_sub(*start_time),
        }
    }

    /// Starts or resumes playback at `now`.
    pub fn play(&self, now: u64) -> (next: PlayState)
        ensures
            next == self.played(now),
    {
        match self {
            PlayState::Stopped => PlayState::Playing { start_time: now },
            PlayState::Paused { start_time, pause_time } => {
                let position = pause_time.saturating_sub(*start_time);
                PlayState::Playing { start_time: now.saturating_sub(position) }
            },
            PlayState::Playing { start_time } => PlayState::Playing { start_time: *start_time },
        }
    }

    /// Pauses playback at `now`.
    pub fn pause(&self, now: u64) -> (next: PlayState)
        ensures
            next == self.paused(now),
    {
        match self {
            PlayState::Playing { start_time } => PlayState::Paused {
                start_time: *start_time,
                pause_time: if now >= *start_time {
                    now
                } else {
                    *start_time
                },
            },
            PlayState::Paused { start_time, pause_time } => PlayState::Paused {
                start_time: *start_time,
                pause_time: *pause_time,
            },
            PlayState::Stopped => PlayState::Stopped,
        }
    }

    /// Stops playback: transport time goes back to zero.
    pub fn stop(&self) -> (next: PlayState)
        ensures
            next == PlayState::Stopped,
    {
        PlayState::Stopped
    }
}

/// Pausing keeps the transport time: a transport paused at `now` stands,
/// at every later time, where it stood at `now`.
pub proof fn lemma_pause_keeps_position(state: PlayState, now: u64, later: u64)
    requires
        state is Playing,
    ensures
        state.paused(now).position(later) == state.position(now),
{
}

/// Resuming keeps the transport time: a paused transport resumed at `now`
/// stands at `now` where it stood while paused, provided the clock has run
/// at least that long.
pub proof fn lemma_resume_keeps_position(state: PlayState, now: u64)
    requires
        state is Paused,
        now >= state.position(now),
    ensures
        state.played(now) is Playing,
        state.played(now).position(now) == state.position(now),
{
}

/// While playing, transport time runs with the clock.
pub proof fn lemma_position_runs(state: PlayState, now: u64, later: u64)
    requires
        state is Playing,
        state->Playing_start_time <= now <= later,
    ensures
        state.position(later) - state.position(now) == later - now,
{
}

} // verus!
