//! The frame counters behind the stats panel: every frame is counted, and
//! the frames of the current measuring window are counted apart so that
//! a frame rate can be taken when the window closes.

use vstd::prelude::*;

verus! {

/// Counts frames: all of them, and those since the current measuring
/// window opened.
pub struct FrameCounter {
    frames: u64,
    window_frames: u32,
}

impl FrameCounter {
    #[verifier::type_invariant]
    spec fn window_within_total(self) -> bool {
        self.window_frames <= self.frames
    }

    /// The number of frames counted so far.
    pub closed spec fn total(self) -> nat {
        self.frames as nat
    }

    /// The number of frames counted in the open window.
    pub closed spec fn in_window(self) -> nat {
        self.window_frames as nat
    }

    /// A counter that has counted nothing.
    pub fn new() -> (counter: Self)
        ensures
            counter.total() == 0,
            counter.in_window() == 0,
    {
        FrameCounter { frames: 0, window_frames: 0 }
    }

    /// The number of frames counted so far.
    pub fn frames(&self) -> (n: u64)
        ensures
            n == self.total(),
    {
        self.frames
    }

    /// The number of frames counted in the open window.
    pub fn window_frames(&self) -> (n: u32)
        ensures
            n == self.in_window(),
    {
        self.window_frames
    }

    /// Counts one frame. When `window_elapsed`, the window closes with this
    /// frame: its frame count is returned and a new, empty window opens.
    /// The window never holds more frames than the total.
    pub fn record_frame(&mut self, window_elapsed: bool) -> (closed: Option<u32>)
        requires
            old(self).total() < u64::MAX,
            old(self).in_window() < u32::MAX,
        ensures
            final(self).total() == old(self).total() + 1,
            window_elapsed ==> closed == Some((old(self).in_window() + 1) as u32),
            window_elapsed ==> final(self).in_window() == 0,
            !window_elapsed ==> closed == None::<u32>,
            !window_elapsed ==> final(self).in_window() == old(self).in_window() + 1,
            final(self).in_window() <= final(self).total(),
            is_frame_step(*old(self), *final(self)),
    {
        proof {
            use_type_invariant(&*self);
        }
        let frames = self.frames + 1;
        let window = self.window_frames + 1;
        if window_elapsed {
            *self = FrameCounter { frames, window_frames: 0 };
            proof {
                use_type_invariant(&*self);
            }
            Some(window)
        } else {
            *self = FrameCounter { frames, window_frames: window };
            proof {
                use_type_invariant(&*self);
            }
            None
        }
    }
}

/// One call of `record_frame` can lead from counter `a` to counter `b`:
/// the total grows by one and the window stays within the total.
pub open spec fn is_frame_step(a: FrameCounter, b: FrameCounter) -> bool {
    &&& b.total() == a.total() + 1
    &&& b.in_window() <= b.total()
}

/// Between two polls of a counter the total grows by exactly the number of
/// frames recorded in between: along any run of `record_frame` calls, the
/// last counter's total is the first one's plus the number of calls.
pub proof fn lemma_frames_between_polls(run: Seq<FrameCounter>)
    requires
        run.len() > 0,
        forall|i: int| 0 <= i < run.len() - 1 ==> is_frame_step(#[trigger] run[i], run[i + 1]),
    ensures
        run.last().total() == run[0].total() + (run.len() - 1),
    decreases run.len(),
{
    if run.len() > 1 {
        let prefix = run.drop_last();
        assert forall|i: int| 0 <= i < prefix.len() - 1 implies is_frame_step(
            #[trigger] prefix[i],
            prefix[i + 1],
        ) by {
            assert(prefix[i] == run[i]);
            assert(prefix[i + 1] == run[i + 1]);
        }
        lemma_frames_between_polls(prefix);
        assert(is_frame_step(run[run.len() - 2], run[run.len() - 1]));
    }
}

} // verus!
