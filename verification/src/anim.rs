//! Sprite-sheet animation: a repeating frame timer that steps the sprite
//! index.

use vstd::prelude::*;

verus! {

/// A repeating timer driving a sprite-sheet animation. Time is in
/// milliseconds; `frame` indexes the sheet's strip of `frame_count` frames.
#[derive(Clone, Copy, PartialEq, Eq, Structural, Debug)]
pub struct FrameTimer {
    pub period_ms: u32,
    pub elapsed_ms: u32,
    pub frame: u32,
    pub frame_count: u32,
}

impl FrameTimer {
    /// A frame timer is well formed when its period and frame count are
    /// positive and its running values lie below them.
    pub open spec fn wf(self) -> bool {
        &&& self.period_ms > 0
        &&& self.elapsed_ms < self.period_ms
        &&& self.frame_count > 0
        &&& self.frame < self.frame_count
    }

    pub fn new(period_ms: u32, frame_count: u32) -> (t: FrameTimer)
        requires
            period_ms > 0,
            frame_count > 0,
        ensures
            t.wf(),
            t.period_ms == period_ms,
            t.frame_count == frame_count,
            t.elapsed_ms == 0,
            t.frame == 0,
    {
        FrameTimer { period_ms, elapsed_ms: 0, frame: 0, frame_count }
    }

    /// Advances the timer by one frame's delta. When the accumulated time
    /// reaches the period the timer fires: the elapsed time wraps around the
    /// period and the sprite steps to the next frame of the strip, itself
    /// wrapping at the end of the strip. Otherwise only the elapsed time
    /// grows.
    pub fn tick(&mut self, delta_ms: u32)
        requires
            old(self).wf(),
        ensures
            final(self).wf(),
            final(self).period_ms == old(self).period_ms,
            final(self).frame_count == old(self).frame_count,
            final(self).elapsed_ms == (old(self).elapsed_ms + delta_ms) % (old(self).period_ms as int),
            old(self).elapsed_ms + delta_ms >= old(self).period_ms ==> final(self).frame == (old(
                self,
            ).frame + 1) % (old(self).frame_count as int),
            old(self).elapsed_ms + delta_ms < old(self).period_ms ==> final(self).frame == old(
                self,
            ).frame,
    {
        proof {
            vstd::arithmetic::div_mod::lemma_mod_bound(
                old(self).elapsed_ms + delta_ms,
                old(self).period_ms as int,
            );
            if old(self).elapsed_ms + delta_ms < old(self).period_ms {
                vstd::arithmetic::div_mod::lemma_small_mod(
                    (old(self).elapsed_ms + delta_ms) as nat,
                    old(self).period_ms as nat,
                );
            }
        }
        let total: u64 = self.elapsed_ms as u64 + delta_ms as u64;
        if total >= self.period_ms as u64 {
            self.elapsed_ms = (total % self.period_ms as u64) as u32;
            self.frame = (self.frame + 1) % self.frame_count;
        } else {
            self.elapsed_ms = total as u32;
        }
    }
}

} // verus!
