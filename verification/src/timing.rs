//! Frame pacing: when the next frame is due and how many were drawn.
//!
//! The loop around the views reads a millisecond clock, asks the pacer what
//! to do with the reading, and either sleeps or runs one frame. The pacer
//! never accumulates debt: a late frame is simply given the time that really
//! passed.

use vstd::prelude::*;

verus! {

/// Milliseconds between two frames at sixty frames per second.
pub const INTERVAL: u32 = 1_000 / 60;

/// Milliseconds after which the frame count is reported and reset.
pub const REPORT_AFTER: u32 = 1_000;

/// What the loop does with one clock reading.
#[derive(Clone, Copy, Debug, PartialEq, Eq)]
pub enum Tick {
    /// Too early: sleep this many milliseconds and read the clock again.
    Wait(u32),
    /// Run one frame. `elapsed_ms` is the measured time since the previous
    /// frame; `fps` holds the number of frames drawn since the last report
    /// when a report is due.
    Frame { elapsed_ms: u32, fps: Option<u16> },
}

/// The pacing state of the loop.
#[derive(Clone, Copy, Debug, PartialEq, Eq)]
pub struct FrameTimer {
    /// Clock reading at the previous frame.
    pub before: u32,
    /// Clock reading at the previous report.
    pub last_second: u32,
    /// Frames drawn since the previous report.
    pub fps: u16,
}

impl FrameTimer {
    /// Frames are at least `INTERVAL` apart and a report follows the first
    /// frame that comes more than `REPORT_AFTER` after the previous report, so
    /// the frames counted in between are few.
    pub open spec fn wf(self) -> bool {
        self.fps >= 1 ==> {
            &&& self.last_second <= self.before
            &&& (self.fps - 1) * INTERVAL <= self.before - self.last_second
            &&& self.before - self.last_second <= REPORT_AFTER
        }
    }

    /// The state after the clock reads `now`.
    pub open spec fn next(self, now: u32) -> FrameTimer {
        if now - self.before < INTERVAL {
            self
        } else if now - self.last_second > REPORT_AFTER {
            FrameTimer { before: now, last_second: now, fps: 0 }
        } else {
            FrameTimer { before: now, last_second: self.last_second, fps: (self.fps + 1) as u16 }
        }
    }

    /// What the loop is told to do when the clock reads `now`.
    pub open spec fn verdict(self, now: u32) -> Tick {
        if now - self.before < INTERVAL {
            Tick::Wait((INTERVAL - (now - self.before)) as u32)
        } else {
            Tick::Frame {
                elapsed_ms: (now - self.before) as u32,
                fps: if now - self.last_second > REPORT_AFTER {
                    Some((self.fps + 1) as u16)
                } else {
                    None
                },
            }
        }
    }

    /// Tests `wf`.
    pub fn is_wf(&self) -> (out: bool)
        ensures
            out == self.wf(),
    {
        self.fps == 0 || (self.last_second <= self.before && self.before - self.last_second
            <= REPORT_AFTER && (self.fps - 1) as u32 <= (self.before - self.last_second) / INTERVAL)
    }

    /// Starts pacing from two readings of the clock taken at startup.
    pub fn new(before: u32, last_second: u32) -> (out: FrameTimer)
        ensures
            out == (FrameTimer { before, last_second, fps: 0 }),
            out.wf(),
    {
        FrameTimer { before, last_second, fps: 0 }
    }

    /// Takes one clock reading. The clock must not run backwards.
    pub fn tick(&mut self, now: u32) -> (out: Tick)
        requires
            old(self).wf(),
            old(self).before <= now,
            old(self).last_second <= now,
        ensures
            final(self).wf(),
            *final(self) == old(self).next(now),
            out == old(self).verdict(now),
    {
        let dt: u32 = now - self.before;
        if dt < INTERVAL {
            return Tick::Wait(INTERVAL - dt);
        }
        self.before = now;
        self.fps += 1;
        let mut report: Option<u16> = None;
        if now - self.last_second > REPORT_AFTER {
            report = Some(self.fps);
            self.last_second = now;
            self.fps = 0;
        }
        Tick::Frame { elapsed_ms: dt, fps: report }
    }
}

/// The frame counter never passes 63: frames are 16 ms apart and a report
/// resets the count once more than a second has gone by.
pub proof fn lemma_frame_count_bounded(timer: FrameTimer)
    requires
        timer.wf(),
    ensures
        timer.fps <= 63,
{
}

/// Sleeping as long as told is enough: a reading taken right after the wait
/// gets a frame, and that frame is given exactly one interval.
pub proof fn lemma_frame_follows_wait(timer: FrameTimer, now: u32, ms: u32)
    requires
        timer.before <= now,
        timer.verdict(now) == Tick::Wait(ms),
        now + ms <= u32::MAX,
    ensures
        timer.next(now) == timer,
        timer.verdict((now + ms) as u32) is Frame,
        timer.verdict((now + ms) as u32)->elapsed_ms == INTERVAL,
{
}

} // verus!
