use vstd::prelude::*;

verus! {

/// Nanoseconds in one second: the length of the window over which frames
/// are counted before the rate is reported.
pub const NANOS_PER_SECOND: u64 = 1_000_000_000;

/// Frames counted over a window of at least one second; the rate shown in
/// the title is `frames / (nanos / 10^9)` frames per second.
#[derive(Clone, Copy, Debug, PartialEq, Eq, Structural)]
pub struct FpsReport {
    pub frames: u32,
    pub nanos: u64,
}

/// Counts frames and the time they took until a full second has gone by.
#[derive(Clone, Copy, Debug)]
pub struct FpsCounter {
    frame_count: u32,
    accum_nanos: u64,
}

/// The time accumulated after adding `elapsed` to `accum`, saturating at the
/// largest representable duration.
pub open spec fn accumulate(accum: u64, elapsed: u64) -> u64 {
    if accum + elapsed <= u64::MAX {
        (accum + elapsed) as u64
    } else {
        u64::MAX
    }
}

impl FpsCounter {
    /// The window never holds a full second: once it does, it is reported
    /// and emptied.
    #[verifier::type_invariant]
    spec fn window_below_one_second(self) -> bool {
        self.accum_nanos < NANOS_PER_SECOND
    }

    /// Frames counted in the current window.
    pub closed spec fn frames(self) -> u32 {
        self.frame_count
    }

    /// Nanoseconds accumulated in the current window.
    pub closed spec fn nanos(self) -> u64 {
        self.accum_nanos
    }

    /// An empty window.
    pub fn new() -> (c: FpsCounter)
        ensures
            c.frames() == 0,
            c.nanos() == 0,
    {
        FpsCounter { frame_count: 0, accum_nanos: 0 }
    }

    /// Frames counted in the current window.
    pub fn frame_count(&self) -> (n: u32)
        ensures
            n == self.frames(),
    {
        self.frame_count
    }

    /// Nanoseconds accumulated in the current window.
    pub fn accum_nanos(&self) -> (n: u64)
        ensures
            n == self.nanos(),
            n < NANOS_PER_SECOND,
    {
        proof {
            use_type_invariant(self);
        }
        self.accum_nanos
    }

    /// Counts one frame that took `elapsed_nanos`. Once the window holds at
    /// least a second, returns the frames and time of the window and empties
    /// it; otherwise returns `None`.
    pub fn tick(&mut self, elapsed_nanos: u64) -> (report: Option<FpsReport>)
        requires
            old(self).frames() < u32::MAX,
        ensures
            ({
                let total = accumulate(old(self).nanos(), elapsed_nanos);
                if total >= NANOS_PER_SECOND {
                    &&& report == Some(
                        FpsReport { frames: (old(self).frames() + 1) as u32, nanos: total },
                    )
                    &&& final(self).frames() == 0
                    &&& final(self).nanos() == 0
                } else {
                    &&& report.is_none()
                    &&& final(self).frames() == old(self).frames() + 1
                    &&& final(self).nanos() == total
                }
            }),
            final(self).nanos() < NANOS_PER_SECOND,
    {
        proof {
            use_type_invariant(&*self);
        }
        let total = self.accum_nanos.saturating_add(elapsed_nanos);
        let frames = self.frame_count + 1;
        if total >= NANOS_PER_SECOND {
            *self = FpsCounter { frame_count: 0, accum_nanos: 0 };
            Some(FpsReport { frames, nanos: total })
        } else {
            *self = FpsCounter { frame_count: frames, accum_nanos: total };
            None
        }
    }
}

/// Replays `tick` over the frame times `elapsed`, starting from a window
/// with `frames` frames and `nanos` nanoseconds: the frames and nanoseconds
/// left in the window at the end, and the total of the frames reported.
pub open spec fn replay(frames: int, nanos: u64, elapsed: Seq<u64>) -> (int, u64, int)
    decreases elapsed.len(),
{
    if elapsed.len() == 0 {
        (frames, nanos, 0)
    } else {
        let total = accumulate(nanos, elapsed[0]);
        if total >= NANOS_PER_SECOND {
            let rest = replay(0, 0, elapsed.drop_first());
            (rest.0, rest.1, rest.2 + frames + 1)
        } else {
            replay(frames + 1, total, elapsed.drop_first())
        }
    }
}

/// Every frame is counted exactly once: over any run of frames, the frames
/// reported plus those still in the window equal those in the window at the
/// start plus the frames of the run, and the window still holds less than a
/// second.
pub proof fn lemma_every_frame_counted_once(frames: int, nanos: u64, elapsed: Seq<u64>)
    requires
        nanos < NANOS_PER_SECOND,
    ensures
        replay(frames, nanos, elapsed).2 + replay(frames, nanos, elapsed).0 == frames
            + elapsed.len(),
        replay(frames, nanos, elapsed).1 < NANOS_PER_SECOND,
    decreases elapsed.len(),
{
    if elapsed.len() > 0 {
        let total = accumulate(nanos, elapsed[0]);
        if total >= NANOS_PER_SECOND {
            lemma_every_frame_counted_once(0, 0, elapsed.drop_first());
        } else {
            lemma_every_frame_counted_once(frames + 1, total, elapsed.drop_first());
        }
    }
}

/// Every frame's time is added to the window: the accumulated time is the
/// sum of the window so far and the frame's time, or the largest duration
/// when that sum does not fit.
pub proof fn lemma_accumulate_adds_every_frame(accum: u64, elapsed: u64)
    ensures
        accum + elapsed <= u64::MAX ==> accumulate(accum, elapsed) == accum + elapsed,
        accum + elapsed > u64::MAX ==> accumulate(accum, elapsed) == u64::MAX,
        accumulate(accum, elapsed) >= accum,
        accumulate(accum, elapsed) >= elapsed,
{
}

/// A window reports exactly when the time of its frames reaches a second:
/// from a window of `frames` frames and `nanos` nanoseconds, a frame of
/// `elapsed` nanoseconds is reported together with the others, with the
/// whole time of the window, once `nanos + elapsed` is at least a second, and
/// otherwise joins the window.
pub proof fn lemma_tick_reports_full_second(frames: int, nanos: u64, elapsed: u64)
    requires
        nanos < NANOS_PER_SECOND,
    ensures
        nanos + elapsed >= NANOS_PER_SECOND ==> replay(frames, nanos, seq![elapsed])
            == (0int, 0u64, frames + 1),
        nanos + elapsed < NANOS_PER_SECOND ==> replay(frames, nanos, seq![elapsed])
            == (frames + 1, (nanos + elapsed) as u64, 0int),
{
    let es = seq![elapsed];
    assert(es.drop_first() =~= Seq::<u64>::empty());
    assert(replay(0, 0, es.drop_first()) == (0int, 0u64, 0int));
    assert(replay(frames + 1, (nanos + elapsed) as u64, es.drop_first()) == (
        frames + 1,
        (nanos + elapsed) as u64,
        0int,
    ));
}

} // verus!
