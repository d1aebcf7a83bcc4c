//! The bookkeeping of the frame loop: which frames refresh the picture, how
//! many frame times are remembered, and when the frame rate is reported.
//!
//! Frame times are counted in nanoseconds. What the report says of them is
//! left to the caller; the clock decides when a report is due and which frame
//! times it covers.

use std::collections::VecDeque;
use vstd::prelude::*;

verus! {

/// The number of frame times that the clock remembers.
pub const WINDOW: usize = 30;

/// Every frame whose count is a multiple of this refreshes the picture.
pub const REFRESH_EVERY: u32 = 4;

/// A report is due on the frame whose count exceeds this.
pub const REPORT_AFTER: u32 = 30;

/// What is due on a frame.
#[derive(Clone, Copy, PartialEq, Eq, Structural, Debug)]
pub struct FramePlan {
    /// The picture is to be refreshed from the grid.
    pub refresh: bool,
    /// The frame rate is to be reported from the remembered frame times.
    pub report: bool,
}

/// The clock as contracts see it.
pub struct ClockView {
    /// The frames counted since the last report.
    pub frames: nat,
    /// The remembered frame times, oldest first.
    pub samples: Seq<u128>,
}

impl ClockView {
    /// The count and the memory are within their bounds.
    pub open spec fn wf(self) -> bool {
        self.frames <= REPORT_AFTER + 1 && self.samples.len() <= WINDOW
    }

    /// The frame times that are remembered once `elapsed` has been added: the
    /// newest comes last, and the oldest is forgotten where the window is
    /// full.
    pub open spec fn remembered(self, elapsed: u128) -> Seq<u128> {
        let all = self.samples.push(elapsed);
        if all.len() > WINDOW {
            all.subrange(1, all.len() as int)
        } else {
            all
        }
    }

    /// What is due on the frame that is counted next.
    pub open spec fn plan(self) -> FramePlan {
        FramePlan {
            refresh: self.frames % (REFRESH_EVERY as nat) == 0,
            report: self.frames > REPORT_AFTER,
        }
    }

    /// The clock after a frame that took `elapsed`: the frame time is
    /// remembered, and the count goes up by one, from zero where a report was
    /// due.
    pub open spec fn ticked(self, elapsed: u128) -> ClockView {
        ClockView {
            frames: if self.frames > REPORT_AFTER {
                1
            } else {
                self.frames + 1
            },
            samples: self.remembered(elapsed),
        }
    }
}

/// Counts frames and remembers the latest frame times.
#[derive(Debug)]
pub struct FrameClock {
    frames: u32,
    samples: VecDeque<u128>,
}

impl View for FrameClock {
    type V = ClockView;

    closed spec fn view(&self) -> ClockView {
        ClockView { frames: self.frames as nat, samples: self.samples@ }
    }
}

impl FrameClock {
    /// The count and the memory are within their bounds.
    pub open spec fn wf(&self) -> bool {
        self@.wf()
    }

    /// A clock that has counted no frame and remembers none.
    pub fn new() -> (c: FrameClock)
        ensures
            c.wf(),
            c@.frames == 0,
            c@.samples == Seq::<u128>::empty(),
    {
        FrameClock { frames: 0, samples: VecDeque::new() }
    }

    /// The frames counted since the last report.
    pub fn frames(&self) -> (n: u32)
        ensures
            n == self@.frames,
    {
        self.frames
    }

    /// The remembered frame times, oldest first.
    pub fn samples(&self) -> (v: Vec<u128>)
        ensures
            v@ == self@.samples,
    {
        let mut out: Vec<u128> = Vec::new();
        let mut i: usize = 0;
        while i < self.samples.len()
            invariant
                i <= self.samples@.len(),
                out@ == self.samples@.subrange(0, i as int),
            decreases self.samples@.len() - i,
        {
            out.push(self.samples[i]);
            assert(out@ =~= self.samples@.subrange(0, i + 1));
            i += 1;
        }
        assert(out@ =~= self.samples@);
        out
    }

    /// Counts a frame that took `elapsed` nanoseconds and tells what is due
    /// on it.
    ///
    /// The plan is made from the count before the frame, and a report that is
    /// due covers the frame times that are remembered after it.
    pub fn on_frame(&mut self, elapsed: u128) -> (plan: FramePlan)
        requires
            old(self).wf(),
        ensures
            final(self).wf(),
            plan == old(self)@.plan(),
            final(self)@ == old(self)@.ticked(elapsed),
    {
        let refresh = self.frames % REFRESH_EVERY == 0;
        self.samples.push_back(elapsed);
        if self.samples.len() > WINDOW {
            let _ = self.samples.pop_front();
        }
        let report = self.frames > REPORT_AFTER;
        if report {
            self.frames = 0;
        }
        self.frames += 1;
        FramePlan { refresh, report }
    }
}

} // verus!
