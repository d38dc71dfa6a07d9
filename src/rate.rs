use vstd::prelude::*;

verus! {

/// Time at which a frame may end, given the end of the previous one `prev`,
/// the minimum spacing `target` and the time `now` at which it is ready.
pub open spec fn frame_end(prev: int, target: Option<u64>, now: int) -> int {
    match target {
        Some(d) => if now < prev + d {
            prev + d
        } else {
            now
        },
        None => now,
    }
}

/// Frame pacing: the minimum spacing between the ends of consecutive frames.
pub struct UpdateRate {
    /// Minimum spacing in microseconds; `None` disables pacing.
    pub target: Option<u64>,
    /// End of the previous frame, in microseconds of a monotonic clock.
    pub prev: u64,
}

impl UpdateRate {
    /// Pacing disabled.
    pub fn new() -> (r: UpdateRate)
        ensures
            r.target is None,
            r.prev == 0,
    {
        UpdateRate { target: None, prev: 0 }
    }

    /// Sets the minimum spacing, in microseconds; `None` disables pacing.
    pub fn set_rate(&mut self, rate: Option<u64>)
        ensures
            final(self).target == rate,
            final(self).prev == old(self).prev,
    {
        self.target = rate;
    }

    /// Ends a frame that is ready at `now`: returns how long to sleep, in
    /// microseconds, so that the frame ends no sooner than the configured
    /// spacing after the previous one, and records that end.
    pub fn update(&mut self, now: u64) -> (wait: u64)
        requires
            old(self).prev <= now,
            old(self).target matches Some(d) ==> old(self).prev + d <= u64::MAX,
        ensures
            now + wait == frame_end(old(self).prev as int, old(self).target, now as int),
            final(self).prev == now + wait,
            final(self).target == old(self).target,
    {
        match self.target {
            Some(d) => {
                let deadline = self.prev + d;
                let wait = if now < deadline {
                    deadline - now
                } else {
                    0
                };
                self.prev = now + wait;
                wait
            },
            None => {
                self.prev = now;
                0
            },
        }
    }
}

/// The ends of two consecutive paced frames are at least the configured
/// spacing apart, and no frame ends before it is ready.
pub proof fn law_frame_spacing(prev: int, d: u64, now1: int, now2: int)
    requires
        prev <= now1,
        frame_end(prev, Some(d), now1) <= now2,
    ensures
        frame_end(prev, Some(d), now1) >= now1,
        frame_end(frame_end(prev, Some(d), now1), Some(d), now2) >= frame_end(prev, Some(d), now1)
            + d,
        frame_end(frame_end(prev, Some(d), now1), Some(d), now2) >= now2,
{
}

} // verus!
