//! The session clock: how long the current song has been playing, with the
//! time spent paused left out.
//!
//! Instants and durations are whole nanoseconds. The caller reads a clock
//! that never runs backwards and hands in the instant as `now`.

use vstd::prelude::*;

verus! {

/// The state of the session clock.
#[derive(Clone, Copy, Debug)]
pub struct Clock {
    /// When the current song would have started, had it played without a
    /// pause from its beginning. `None` while nothing plays.
    pub playback_start: Option<u64>,
    /// Time spent paused since `playback_start`, pauses that have ended only.
    pub pause_duration: u64,
    /// True while paused.
    pub paused: bool,
    /// When the pause began that is going on. `None` while not paused.
    pub pause_start: Option<u64>,
}

/// `a - b`, and 0 where that would be negative.
pub open spec fn minus(a: int, b: int) -> int {
    if a >= b {
        a - b
    } else {
        0
    }
}

/// `a + b`, and the largest 64-bit number where the sum is above it.
pub open spec fn plus(a: int, b: int) -> int {
    if a + b <= u64::MAX {
        a + b
    } else {
        u64::MAX as int
    }
}

impl Clock {
    /// The clock's invariant: it is paused exactly while it holds the start
    /// of a pause.
    pub open spec fn wf(&self) -> bool {
        self.paused <==> self.pause_start is Some
    }

    /// True where none of the clock's instants lies after `now`.
    pub open spec fn not_after(&self, now: u64) -> bool {
        &&& match self.playback_start {
            Some(start) => start <= now,
            None => true,
        }
        &&& match self.pause_start {
            Some(since) => since <= now,
            None => true,
        }
    }

    /// The instant up to which playing time is counted at `now`: `now` while
    /// playing, the start of the pause while paused.
    pub open spec fn counted_until(&self, now: u64) -> int {
        if self.paused {
            match self.pause_start {
                Some(since) => since as int,
                None => match self.playback_start {
                    Some(start) => start as int,
                    None => 0,
                },
            }
        } else {
            now as int
        }
    }

    /// Effective elapsed time of the current song at `now`: the time from its
    /// start up to `now`, or up to the start of the pause that is going on,
    /// less the time spent in earlier pauses. 0 while nothing plays, and
    /// never negative.
    pub open spec fn elapsed_at(&self, now: u64) -> int {
        match self.playback_start {
            None => 0,
            Some(start) => minus(minus(self.counted_until(now), start as int), self.pause_duration as int),
        }
    }

    /// The clock of a session in which nothing plays.
    pub open spec fn stopped() -> Clock {
        Clock { playback_start: None, pause_duration: 0, paused: false, pause_start: None }
    }

    /// The clock after `reset(now, offset)`: running, with the song taken to
    /// have started `offset` before `now` (at instant 0 where `offset` is
    /// more than `now`).
    pub open spec fn reset_at(now: u64, offset: u64) -> Clock {
        Clock {
            playback_start: Some(minus(now as int, offset as int) as u64),
            pause_duration: 0,
            paused: false,
            pause_start: None,
        }
    }

    /// The clock after `pause(now)`: a clock that runs is paused from `now`
    /// on, one that is paused stays as it is.
    pub open spec fn paused_at(&self, now: u64) -> Clock {
        if self.paused {
            *self
        } else {
            Clock { paused: true, pause_start: Some(now), ..*self }
        }
    }

    /// The clock after `resume(now)`: the pause that was going on ends at
    /// `now` and its length is added to the time spent paused. A clock that
    /// runs stays as it is.
    pub open spec fn resumed_at(&self, now: u64) -> Clock {
        if self.paused {
            Clock {
                paused: false,
                pause_start: None,
                pause_duration: match self.pause_start {
                    Some(since) => plus(self.pause_duration as int, minus(now as int, since as int)) as u64,
                    None => self.pause_duration,
                },
                ..*self
            }
        } else {
            *self
        }
    }

    /// A clock for a session in which nothing plays.
    pub fn new() -> (clock: Clock)
        ensures
            clock == Clock::stopped(),
            clock.wf(),
    {
        Clock { playback_start: None, pause_duration: 0, paused: false, pause_start: None }
    }

    /// Effective elapsed time of the current song at `now`, in nanoseconds.
    pub fn effective_elapsed(&self, now: u64) -> (elapsed: u64)
        ensures
            elapsed == self.elapsed_at(now),
    {
        match self.playback_start {
            None => 0,
            Some(start) => {
                let until: u64 = if self.paused {
                    match self.pause_start {
                        Some(since) => since,
                        None => start,
                    }
                } else {
                    now
                };
                until.saturating_sub(start).saturating_sub(self.pause_duration)
            },
        }
    }

    /// Starts the clock anew for a song that is `offset` into its playing
    /// time at `now`. Ends any pause.
    pub fn reset(&mut self, now: u64, offset: u64)
        ensures
            *final(self) == Clock::reset_at(now, offset),
            final(self).wf(),
    {
        self.playback_start = Some(now.saturating_sub(offset));
        self.pause_duration = 0;
        self.paused = false;
        self.pause_start = None;
    }

    /// Stops the clock: nothing plays.
    pub fn clear(&mut self)
        ensures
            *final(self) == Clock::stopped(),
            final(self).wf(),
    {
        self.playback_start = None;
        self.pause_duration = 0;
        self.paused = false;
        self.pause_start = None;
    }

    /// Pauses a running clock at `now`.
    pub fn pause(&mut self, now: u64)
        ensures
            *final(self) == old(self).paused_at(now),
            old(self).wf() ==> final(self).wf(),
    {
        if !self.paused {
            self.paused = true;
            self.pause_start = Some(now);
        }
    }

    /// Ends the pause of a paused clock at `now`.
    pub fn resume(&mut self, now: u64)
        ensures
            *final(self) == old(self).resumed_at(now),
            old(self).wf() ==> final(self).wf(),
    {
        if self.paused {
            match self.pause_start {
                Some(since) => {
                    self.pause_duration = self.pause_duration.saturating_add(
                        now.saturating_sub(since),
                    );
                },
                None => {},
            }
            self.paused = false;
            self.pause_start = None;
        }
    }
}

/// Elapsed time is never negative.
pub proof fn lemma_elapsed_not_negative(clock: Clock, now: u64)
    ensures
        0 <= clock.elapsed_at(now) <= u64::MAX,
{
}

/// On a clock none of whose instants lies after `now`, no more time has
/// elapsed at `now` than `now` itself, nor at any later instant.
pub proof fn lemma_elapsed_within_now(clock: Clock, now: u64, later: u64)
    requires
        clock.not_after(now),
        now <= later,
    ensures
        clock.elapsed_at(now) <= now,
        clock.elapsed_at(now) <= later,
{
}

/// While the clock is paused the elapsed time stands still: whenever it is
/// read, it is the same.
pub proof fn lemma_paused_clock_is_frozen(clock: Clock, earlier: u64, later: u64)
    requires
        clock.paused,
    ensures
        clock.elapsed_at(earlier) == clock.elapsed_at(later),
{
}

/// Pausing does not change the elapsed time at the instant of the pause, and
/// from then on it stands still.
pub proof fn lemma_pause_keeps_elapsed(clock: Clock, now: u64, later: u64)
    requires
        clock.wf(),
    ensures
        clock.paused_at(now).elapsed_at(later) == clock.elapsed_at(
            if clock.paused {
                later
            } else {
                now
            },
        ),
{
}

/// Right after `reset(now, offset)` the elapsed time is `offset`, and a
/// running clock then advances with `now`.
pub proof fn lemma_reset_reads_offset(now: u64, offset: u64, later: u64)
    requires
        offset <= now <= later,
    ensures
        Clock::reset_at(now, offset).elapsed_at(now) == offset,
        Clock::reset_at(now, offset).elapsed_at(later) == offset + (later - now),
{
}

/// Resuming does not change the elapsed time at the instant of the resume:
/// the song goes on from where it was paused.
pub proof fn lemma_resume_keeps_elapsed(clock: Clock, now: u64)
    requires
        clock.wf(),
        clock.paused,
        clock.not_after(now),
        clock.pause_duration + now <= u64::MAX,
    ensures
        clock.resumed_at(now).elapsed_at(now) == clock.elapsed_at(now),
{
}

} // verus!
