//! Frame statistics: every so many frames, how many of them there were a second.
use crate::clock::elapsed_millis;
use vstd::prelude::*;

verus! {

/// Frames between two reports.
pub const FRAMES_PER_REPORT: u32 = 30;

/// Counts frames and remembers the tick of the last report.
#[derive(Clone, Copy, Debug, PartialEq, Eq, Structural)]
pub struct FrameStats {
    pub frame_counter: u32,
    pub last_report: u64,
}

/// A report after `frame` frames.
#[derive(Clone, Copy, Debug, PartialEq, Eq, Structural)]
pub struct FrameReport {
    pub frame: u32,
    /// Frames per second since the last report, rounded down; zero where less than
    /// a millisecond went by.
    pub fps: u64,
}

/// The frames per second where `FRAMES_PER_REPORT` frames took `millis`.
pub open spec fn frame_rate(millis: int) -> int {
    if millis > 0 {
        30_000int / millis
    } else {
        0
    }
}

impl FrameStats {
    /// No frame yet; the clock stands at the tick `now`.
    pub fn new(now: u64) -> (stats: FrameStats)
        ensures
            stats == (FrameStats { frame_counter: 0, last_report: now }),
    {
        FrameStats { frame_counter: 0, last_report: now }
    }

    /// Counts a frame that was sent and tells whether a report is due. The count
    /// starts over after the largest value.
    pub fn frame_sent(&mut self) -> (report_due: bool)
        ensures
            final(self).frame_counter == crate::counters::count_after(old(self).frame_counter),
            final(self).last_report == old(self).last_report,
            old(self).frame_counter < u32::MAX ==> final(self).frame_counter == old(
                self,
            ).frame_counter + 1,
            old(self).frame_counter == u32::MAX ==> final(self).frame_counter == 0,
            report_due == (final(self).frame_counter % FRAMES_PER_REPORT == 0),
            report_due <==> final(self).frame_counter as int % 30 == 0,
    {
        self.frame_counter = self.frame_counter.wrapping_add(1);
        self.frame_counter % FRAMES_PER_REPORT == 0
    }

    /// Reports at the tick `now`, and starts to measure anew.
    pub fn report(&mut self, now: u64) -> (report: FrameReport)
        requires
            old(self).last_report <= now,
        ensures
            report.frame == old(self).frame_counter,
            report.fps == frame_rate(crate::clock::millis(now - old(self).last_report)),
            final(self).frame_counter == old(self).frame_counter,
            final(self).last_report == now,
            now - old(self).last_report < 1000 ==> report.fps == 0,
            now - old(self).last_report >= 1000 ==> {
                let ms = (now - old(self).last_report) / 1000;
                report.fps * ms <= 30_000 < (report.fps + 1) * ms
            },
    {
        proof {
            let ms = crate::clock::millis(now - self.last_report);
            if ms > 0 {
                law_frame_rate_fits(ms);
            }
        }
        let dt_ms: u64 = elapsed_millis(now, self.last_report);
        self.last_report = now;
        let fps: u64 = if dt_ms > 0 {
            30_000 / dt_ms
        } else {
            0
        };
        FrameReport { frame: self.frame_counter, fps }
    }
}

/// The rate is the one that fits the time: at `fps` frames a second the frames of
/// a report would take no longer than they did, at one more they would.
pub proof fn law_frame_rate_fits(millis: int)
    requires
        millis > 0,
    ensures
        frame_rate(millis) * millis <= FRAMES_PER_REPORT * 1000 < (frame_rate(millis) + 1) * millis,
        frame_rate(millis) * millis <= 30_000 < (frame_rate(millis) + 1) * millis,
{
    vstd::arithmetic::div_mod::lemma_fundamental_div_mod(30_000, millis);
    vstd::arithmetic::div_mod::lemma_mod_bound(30_000, millis);
    assert((frame_rate(millis) + 1) * millis == millis * frame_rate(millis) + millis)
        by (nonlinear_arith);
    assert(frame_rate(millis) * millis == millis * frame_rate(millis)) by (nonlinear_arith);
}

} // verus!
