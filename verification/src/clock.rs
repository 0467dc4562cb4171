//! The virtual clock: elapsed / delta time with play, pause and restart.
//!
//! Timestamps are host-supplied wall-clock milliseconds. The host's clock is
//! assumed monotone: every method takes the current time `now_ms` and asks
//! (`requires`) that it is not behind any timestamp the clock has seen, which
//! is what `hi()` records.
//!
//! Elapsed time is `now - start`; rather than accumulating paused intervals,
//! `play` shifts `start` forward by exactly the time spent paused, so that
//! `now - start` resumes from the value it had when `pause` was called.

use vstd::prelude::*;

verus! {

/// Virtual-time state: `start` is the reference point of elapsed time,
/// `last_frame` the timestamp of the most recent frame tick, `pause_at`
/// the timestamp of the most recent pause, and `frames` the number of
/// frames ticked since construction or the last restart.
pub struct Clock {
    pub start: u64,
    pub last_frame: u64,
    pub pause_at: u64,
    pub playing: bool,
    pub frames: u64,
}

impl Clock {
    /// While paused, the elapsed reference must not be ahead of the pause
    /// point: `play` relies on this to shift `start` without wrapping.
    pub open spec fn wf(self) -> bool {
        !self.playing ==> self.start <= self.pause_at
    }

    /// The largest timestamp this clock has stored; a later call with
    /// `now_ms >= hi()` can subtract any stored field from `now_ms` safely.
    pub open spec fn hi(self) -> u64 {
        let a = if self.start >= self.last_frame {
            self.start
        } else {
            self.last_frame
        };
        if a >= self.pause_at {
            a
        } else {
            self.pause_at
        }
    }

    /// Elapsed virtual milliseconds as perceived at wall time `now`:
    /// frozen at `pause_at - start` while paused.
    pub open spec fn elapsed_at(self, now: u64) -> int {
        if self.playing {
            now - self.start
        } else {
            self.pause_at - self.start
        }
    }

    /// The clock after `pause(now)`: a no-op when already paused.
    pub open spec fn paused_at(self, now: u64) -> Clock {
        if self.playing {
            Clock { pause_at: now, playing: false, ..self }
        } else {
            self
        }
    }

    /// The clock after `play(now)`: a no-op when already playing, otherwise
    /// the elapsed reference moves forward by the paused interval.
    pub open spec fn resumed_at(self, now: u64) -> Clock {
        if self.playing {
            self
        } else {
            Clock { start: (self.start + (now - self.pause_at)) as u64, playing: true, ..self }
        }
    }

    /// The clock after `restart(now)`: all references reset to `now`, the
    /// frame counter to zero; the play/pause state is kept.
    pub open spec fn restarted_at(self, now: u64) -> Clock {
        Clock { start: now, last_frame: now, pause_at: now, frames: 0, ..self }
    }

    /// The clock after `tick(now)`: the frame reference moves to `now` and
    /// the frame counter advances (saturating at the type's maximum).
    pub open spec fn ticked(self, now: u64) -> Clock {
        Clock {
            last_frame: now,
            frames: if self.frames < u64::MAX {
                (self.frames + 1) as u64
            } else {
                u64::MAX
            },
            ..self
        }
    }

    /// A fresh clock: playing, with every time reference at `now_ms` and no
    /// frames ticked yet.
    pub fn new(now_ms: u64) -> (c: Clock)
        ensures
            c == (Clock {
                start: now_ms,
                last_frame: now_ms,
                pause_at: now_ms,
                playing: true,
                frames: 0,
            }),
            c.wf(),
            c.hi() == now_ms,
    {
        Clock { start: now_ms, last_frame: now_ms, pause_at: now_ms, playing: true, frames: 0 }
    }

    /// Freeze elapsed time: record the pause point and leave `Playing`.
    /// Already paused: a no-op.
    pub fn pause(&mut self, now_ms: u64)
        requires
            old(self).wf(),
            now_ms >= old(self).hi(),
        ensures
            *final(self) == old(self).paused_at(now_ms),
            final(self).wf(),
            final(self).hi() <= now_ms,
            !final(self).playing,
    {
        if self.playing {
            self.pause_at = now_ms;
            self.playing = false;
        }
    }

    /// Resume: shift the elapsed reference forward by the paused interval,
    /// so elapsed time continues from its value at the pause point.
    /// Already playing: a no-op.
    pub fn play(&mut self, now_ms: u64)
        requires
            old(self).wf(),
            now_ms >= old(self).hi(),
        ensures
            *final(self) == old(self).resumed_at(now_ms),
            final(self).wf(),
            final(self).hi() <= now_ms,
            final(self).playing,
            final(self).elapsed_at(now_ms) == old(self).elapsed_at(now_ms),
    {
        if !self.playing {
            self.start = self.start + (now_ms - self.pause_at);
            self.playing = true;
        }
    }

    /// Reset elapsed time to zero and the frame counter to zero; the
    /// play/pause state is unchanged.
    pub fn restart(&mut self, now_ms: u64)
        requires
            now_ms >= old(self).hi(),
        ensures
            *final(self) == old(self).restarted_at(now_ms),
            final(self).wf(),
            final(self).hi() == now_ms,
            final(self).elapsed_at(now_ms) == 0,
    {
        self.start = now_ms;
        self.last_frame = now_ms;
        self.pause_at = now_ms;
        self.frames = 0;
    }

    /// One frame step while playing: returns the elapsed and delta
    /// milliseconds at `now_ms`, moves the frame reference to `now_ms`
    /// and advances the frame counter.
    pub fn tick(&mut self, now_ms: u64) -> (r: (u64, u64))
        requires
            old(self).wf(),
            old(self).playing,
            now_ms >= old(self).hi(),
        ensures
            *final(self) == old(self).ticked(now_ms),
            final(self).wf(),
            final(self).hi() <= now_ms,
            r.0 == old(self).elapsed_at(now_ms),
            r.1 == now_ms - old(self).last_frame,
    {
        let elapsed: u64 = now_ms - self.start;
        let delta: u64 = now_ms - self.last_frame;
        self.last_frame = now_ms;
        if self.frames < u64::MAX {
            self.frames = self.frames + 1;
        }
        (elapsed, delta)
    }
}

/// Pause/resume continuity: for a playing clock paused at `pause_now` and
/// resumed at any later `resume_now`, the elapsed time immediately after the
/// resume equals the elapsed time at the moment of the pause — pausing never
/// advances perceived elapsed time. While paused, the perceived elapsed time
/// is the same at every wall time.
pub proof fn lemma_pause_resume_continuity(c: Clock, pause_now: u64, resume_now: u64)
    requires
        c.wf(),
        c.playing,
        pause_now >= c.hi(),
        resume_now >= pause_now,
    ensures
        c.paused_at(pause_now).resumed_at(resume_now).elapsed_at(resume_now) == c.elapsed_at(
            pause_now,
        ),
        forall|t: u64| c.paused_at(pause_now).elapsed_at(t) == c.elapsed_at(pause_now),
{
}

/// Pausing an already-paused clock is a no-op: a second `pause`, at any
/// later time, leaves the clock exactly as the first left it.
pub proof fn lemma_pause_idempotent(c: Clock, t1: u64, t2: u64)
    ensures
        c.paused_at(t1).paused_at(t2) == c.paused_at(t1),
{
}

/// Resuming an already-playing clock is a no-op: a second `play`, at any
/// later time, leaves the clock exactly as the first left it.
pub proof fn lemma_play_idempotent(c: Clock, t1: u64, t2: u64)
    ensures
        c.resumed_at(t1).resumed_at(t2) == c.resumed_at(t1),
{
}

/// Restart resets: whatever the clock's prior play/pause state and history,
/// right after `restart(t)` the perceived elapsed time is zero, the frame
/// counter is zero, and the play/pause state is what it was before.
pub proof fn lemma_restart_resets(c: Clock, t: u64)
    ensures
        c.restarted_at(t).elapsed_at(t) == 0,
        c.restarted_at(t).frames == 0,
        c.restarted_at(t).playing == c.playing,
{
}

} // verus!
