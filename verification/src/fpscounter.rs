//! Frame counting for the example frame-rate plugin.
//!
//! The counter tallies one frame per `OnPrepareFrame` event. Once a full
//! second has elapsed it hands the tally back and starts over; the caller,
//! who owns the clock, divides the tally by the exact elapsed time.

use vstd::prelude::*;

verus! {

/// Counts the frames delivered since the last report.
pub struct FPSCounter {
    frame_count: u32,
}

impl FPSCounter {
    /// The frames counted since the last report.
    pub closed spec fn frames(&self) -> u32 {
        self.frame_count
    }

    /// A fresh counter with nothing counted.
    pub fn new() -> (r: Self)
        ensures
            r.frames() == 0,
    {
        FPSCounter { frame_count: 0 }
    }

    /// Counts one more frame. Once at least a second has passed since the
    /// last report, returns the number of frames it covers and starts a new
    /// count; otherwise keeps counting.
    pub fn update(&mut self, elapsed_ms: u64) -> (r: Option<u32>)
        requires
            old(self).frames() < u32::MAX,
        ensures
            if elapsed_ms >= 1000 {
                r == Some((old(self).frames() + 1) as u32) && final(self).frames() == 0
            } else {
                r is None && final(self).frames() == old(self).frames() + 1
            },
    {
        self.frame_count = self.frame_count + 1;
        if elapsed_ms >= 1000 {
            let frames = self.frame_count;
            self.frame_count = 0;
            Some(frames)
        } else {
            None
        }
    }
}

} // verus!
