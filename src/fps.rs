use vstd::prelude::*;

verus! {

/// Time between two reports unless another is chosen: two seconds.
pub const DEFAULT_COOLDOWN_NANOS: u64 = 2_000_000_000;

/// Frames counted over a span of time; the rate is `frames / elapsed_nanos`.
#[derive(Clone, Copy, Debug, PartialEq, Eq, Structural)]
pub struct FpsReport {
    pub frames: u64,
    pub elapsed_nanos: u64,
}

/// Counts redraws and reports the frame rate at most once per cooldown.
pub struct FpsModule {
    last_print: Option<u64>,
    frame_count: u64,
    cooldown_nanos: u64,
}

impl FpsModule {
    pub closed spec fn last_print(self) -> Option<u64> {
        self.last_print
    }

    pub closed spec fn frame_count(self) -> u64 {
        self.frame_count
    }

    pub closed spec fn cooldown_nanos(self) -> u64 {
        self.cooldown_nanos
    }

    pub fn new(cooldown_nanos: u64) -> (r: FpsModule)
        ensures
            (r.last_print() is None),
            r.frame_count() == 0,
            r.cooldown_nanos() == cooldown_nanos,
    {
        FpsModule { last_print: None, frame_count: 0, cooldown_nanos }
    }

    /// Counts a redraw at `now` (nanoseconds of a monotonic clock). The first
    /// redraw starts the span; once a span has lasted the cooldown, it is
    /// reported and a new one starts at `now` with no frames counted.
    pub fn on_redraw(&mut self, now: u64) -> (r: Option<FpsReport>)
        ensures
            final(self).cooldown_nanos() == old(self).cooldown_nanos(),
            ({
                let frames = if old(self).frame_count() == u64::MAX {
                    u64::MAX
                } else {
                    (old(self).frame_count() + 1) as u64
                };
                match old(self).last_print() {
                    None => {
                        &&& r is None
                        &&& final(self).last_print() == Some(now)
                        &&& final(self).frame_count() == frames
                    },
                    Some(last) => {
                        let elapsed = if now >= last { (now - last) as u64 } else { 0 };
                        if elapsed >= old(self).cooldown_nanos() {
                            &&& r == Some(FpsReport { frames, elapsed_nanos: elapsed })
                            &&& final(self).last_print() == Some(now)
                            &&& final(self).frame_count() == 0
                        } else {
                            &&& r is None
                            &&& final(self).last_print() == old(self).last_print()
                            &&& final(self).frame_count() == frames
                        }
                    },
                }
            }),
    {
        self.frame_count = self.frame_count.saturating_add(1);
        match self.last_print {
            None => {
                self.last_print = Some(now);
                None
            },
            Some(last) => {
                let elapsed: u64 = if now >= last { now - last } else { 0 };
                if elapsed >= self.cooldown_nanos {
                    let report = FpsReport { frames: self.frame_count, elapsed_nanos: elapsed };
                    self.frame_count = 0;
                    self.last_print = Some(now);
                    Some(report)
                } else {
                    None
                }
            },
        }
    }
}

impl Default for FpsModule {
    fn default() -> (r: FpsModule)
        ensures
            (r.last_print() is None),
            r.frame_count() == 0,
            r.cooldown_nanos() == DEFAULT_COOLDOWN_NANOS,
    {
        FpsModule::new(DEFAULT_COOLDOWN_NANOS)
    }
}

} // verus!
