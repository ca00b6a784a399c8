use vstd::prelude::*;

use crate::timer::elapsed;

verus! {

/// Counts frames, times each one, and asks for a progress report once per update
/// period. Instants are nanoseconds on one monotonic clock.
pub struct FrameTimer {
    num_frames: u32,
    game_start: u64,
    frame_start: u64,
    update_duration: u64,
    last_update: u64,
    app_name: String,
}

/// What one kick of the frame timer reports.
pub struct Kick {
    /// Nanoseconds the frame took.
    pub frame_time: u64,
    /// Whether an update period has passed: progress is reported and debug output updated.
    pub update_debug: bool,
    /// Frames counted so far, this one included.
    pub num_frames: u32,
    /// Nanoseconds since the game started.
    pub elapsed: u64,
}

impl FrameTimer {
    /// A timer created at `now` that reports every `update_duration` nanoseconds.
    pub fn new(now: u64, update_duration: u64, app_name: &str) -> (t: FrameTimer)
        ensures
            t.frames() == 0,
            t.game_start() == now,
            t.frame_start() == now,
            t.last_update() == now,
            t.update_duration() == update_duration,
            t.app_name() == app_name@,
    {
        FrameTimer {
            num_frames: 0,
            game_start: now,
            frame_start: now,
            update_duration,
            last_update: now,
            app_name: app_name.to_owned(),
        }
    }

    pub closed spec fn frames(&self) -> u32 {
        self.num_frames
    }

    pub closed spec fn game_start(&self) -> u64 {
        self.game_start
    }

    pub closed spec fn frame_start(&self) -> u64 {
        self.frame_start
    }

    pub closed spec fn last_update(&self) -> u64 {
        self.last_update
    }

    pub closed spec fn update_duration(&self) -> u64 {
        self.update_duration
    }

    pub closed spec fn app_name(&self) -> Seq<char> {
        self.app_name@
    }

    /// The application name the timer reports under.
    pub fn name(&self) -> (r: &str)
        ensures
            r@ == self.app_name(),
    {
        self.app_name.as_str()
    }

    /// Frames counted so far.
    pub fn num_frames(&self) -> (r: u32)
        ensures
            r == self.frames(),
    {
        self.num_frames
    }

    /// Nanoseconds from the start of the game to `now` (0 when `now` comes first).
    pub fn game_time(&self, now: u64) -> (r: u64)
        ensures
            r == elapsed(now, self.game_start()),
    {
        now.saturating_sub(self.game_start)
    }

    /// Restarts the clock at `now`.
    pub fn start(&mut self, now: u64)
        ensures
            final(self).frames() == old(self).frames(),
            final(self).game_start() == now,
            final(self).frame_start() == now,
            final(self).last_update() == now,
            final(self).update_duration() == old(self).update_duration(),
            final(self).app_name() == old(self).app_name(),
    {
        self.game_start = now;
        self.frame_start = now;
        self.last_update = now;
    }

    /// Ends the frame that started at the last kick, at `now`: counts it, times it, and
    /// tells whether a full update period has passed since the last report (the report
    /// time then moves to `now`). The next frame starts at `now`.
    pub fn kick(&mut self, now: u64) -> (r: Kick)
        requires
            old(self).frames() < u32::MAX,
        ensures
            final(self).frames() == old(self).frames() + 1,
            r.num_frames == final(self).frames(),
            r.frame_time == elapsed(now, old(self).frame_start()),
            r.update_debug == (elapsed(now, old(self).last_update()) >= old(self).update_duration()),
            r.elapsed == elapsed(now, old(self).game_start()),
            final(self).last_update() == if r.update_debug {
                now
            } else {
                old(self).last_update()
            },
            final(self).frame_start() == now,
            final(self).game_start() == old(self).game_start(),
            final(self).update_duration() == old(self).update_duration(),
            final(self).app_name() == old(self).app_name(),
    {
        let mut update_debug = false;
        self.num_frames = self.num_frames + 1;
        let frame_time = now.saturating_sub(self.frame_start);
        if now.saturating_sub(self.last_update) >= self.update_duration {
            self.last_update = now;
            update_debug = true;
        }
        self.frame_start = now;
        Kick {
            frame_time,
            update_debug,
            num_frames: self.num_frames,
            elapsed: now.saturating_sub(self.game_start),
        }
    }
}

} // verus!
