use vstd::prelude::*;

verus! {

/// The fixed-step physics clock (not used yet).
pub struct PhysicsTimer {}

/// Nanoseconds from `then` to `now`, or 0 when `now` comes first.
pub open spec fn elapsed(now: u64, then: u64) -> u64 {
    if now >= then {
        (now - then) as u64
    } else {
        0
    }
}

/// Counts frames and times them. Instants are nanoseconds on one monotonic clock.
pub struct FrameTimer {
    start: u64,
    num_frames: u32,
    last_frame_time: u64,
    last_disp_time: u64,
    disp_interval: u64,
    num_frames_disp_interval: u32,
}

/// What one tick of the frame timer reports.
pub struct Tic {
    /// Nanoseconds since the timer's reference frame time.
    pub frame_time: u64,
    /// The whole seconds of the display interval, when it is longer than the one set.
    pub display_interval_secs: Option<u64>,
}

impl FrameTimer {
    /// A timer started at `now` that reports display intervals longer than
    /// `disp_interval` nanoseconds.
    pub fn new(now: u64, disp_interval: u64) -> (t: FrameTimer)
        ensures
            t.frames() == 0,
            t.frames_in_interval() == 0,
            t.start_time() == now,
            t.last_frame_time() == now,
            t.last_disp_time() == now,
            t.disp_interval() == disp_interval,
    {
        FrameTimer {
            start: now,
            num_frames: 0,
            last_frame_time: now,
            last_disp_time: now,
            disp_interval,
            num_frames_disp_interval: 0,
        }
    }

    pub closed spec fn frames(&self) -> u32 {
        self.num_frames
    }

    pub closed spec fn frames_in_interval(&self) -> u32 {
        self.num_frames_disp_interval
    }

    pub closed spec fn start_time(&self) -> u64 {
        self.start
    }

    pub closed spec fn last_frame_time(&self) -> u64 {
        self.last_frame_time
    }

    pub closed spec fn last_disp_time(&self) -> u64 {
        self.last_disp_time
    }

    pub closed spec fn disp_interval(&self) -> u64 {
        self.disp_interval
    }

    /// Frames counted so far, and frames counted in the current display interval.
    pub fn frame_counts(&self) -> (r: (u32, u32))
        ensures
            r.0 == self.frames(),
            r.1 == self.frames_in_interval(),
    {
        (self.num_frames, self.num_frames_disp_interval)
    }

    /// Counts a frame at `now`. Reports the time since the reference frame time, and the
    /// display interval in whole seconds when it has grown past the one set.
    pub fn tic(&mut self, now: u64) -> (r: Tic)
        requires
            old(self).frames() < u32::MAX,
            old(self).frames_in_interval() < u32::MAX,
        ensures
            final(self).frames() == old(self).frames() + 1,
            final(self).frames_in_interval() == old(self).frames_in_interval() + 1,
            final(self).start_time() == old(self).start_time(),
            final(self).last_frame_time() == old(self).last_frame_time(),
            final(self).last_disp_time() == old(self).last_disp_time(),
            final(self).disp_interval() == old(self).disp_interval(),
            r.frame_time == elapsed(now, old(self).last_frame_time()),
            r.display_interval_secs == if elapsed(now, old(self).last_disp_time()) > old(
                self,
            ).disp_interval() {
                Some(elapsed(now, old(self).last_disp_time()) / 1_000_000_000)
            } else {
                None::<u64>
            },
    {
        self.num_frames = self.num_frames + 1;
        self.num_frames_disp_interval = self.num_frames_disp_interval + 1;
        let disp_interval = now.saturating_sub(self.last_disp_time);
        let frame_time = now.saturating_sub(self.last_frame_time);
        let display_interval_secs = if disp_interval > self.disp_interval {
            Some(disp_interval / 1_000_000_000)
        } else {
            None
        };
        Tic { frame_time, display_interval_secs }
    }
}

} // verus!
