use vstd::prelude::*;
use std::time::Instant;

verus! {

#[verifier::external_type_specification]
#[verifier::external_body]
pub struct ExInstant(Instant);

/// Relies on std::time::Instant::now for the current reading of the
/// monotonic clock; nothing is promised of the value.
#[verifier::external_body]
fn now() -> (r: Instant) {
    Instant::now()
}

/// Relies on std::time::Instant::elapsed for the time since `t`, read in
/// whole seconds; nothing is promised of the value.
#[verifier::external_body]
fn whole_seconds_since(t: &Instant) -> (r: u64) {
    t.elapsed().as_secs()
}

/// Counts frames and reports how many were counted in the last full second.
pub struct FpsCounter {
    /// When the current one-second window began.
    pub last_time: Instant,
    /// Frames counted in the current window.
    pub frames: u32,
    /// Frames counted in the last completed window.
    pub fps: u32,
}

/// One more frame, held at `u32::MAX` rather than wrapping.
pub open spec fn one_more(frames: u32) -> u32 {
    if frames == u32::MAX {
        frames
    } else {
        (frames + 1) as u32
    }
}

impl FpsCounter {
    /// A counter whose window starts now, with nothing counted.
    pub fn new() -> (r: FpsCounter)
        ensures
            r.frames == 0,
            r.fps == 0,
    {
        FpsCounter { last_time: now(), frames: 0, fps: 0 }
    }

    /// Counts one frame. When `window_over` holds, the frames of the window,
    /// this one included, become the reported rate and the count restarts.
    /// Returns the reported rate.
    pub fn count_frame(&mut self, window_over: bool) -> (r: u32)
        ensures
            r == final(self).fps,
            final(self).last_time == old(self).last_time,
            window_over ==> final(self).fps == one_more(old(self).frames) && final(self).frames == 0,
            !window_over ==> final(self).fps == old(self).fps && final(self).frames == one_more(
                old(self).frames,
            ),
    {
        self.frames = self.frames.saturating_add(1);
        if window_over {
            self.fps = self.frames;
            self.frames = 0;
        }
        self.fps
    }

    /// Counts one frame; once a second or more has passed since the window
    /// began, reports the window's count and starts a new window.
    pub fn get_fps(&mut self) -> (r: u32)
        ensures
            r == final(self).fps,
            (final(self).fps == one_more(old(self).frames) && final(self).frames == 0) || (
            final(self).fps == old(self).fps && final(self).frames == one_more(old(self).frames)
                && final(self).last_time == old(self).last_time),
    {
        let window_over = whole_seconds_since(&self.last_time) >= 1;
        let r = self.count_frame(window_over);
        if window_over {
            self.last_time = now();
        }
        r
    }
}

} // verus!
