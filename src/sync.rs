//! Ordering of frame submissions: each frame's completion token is chained
//! after the previous frame's.
use vstd::prelude::*;

verus! {

/// One frame handed to the GPU queue.
///
/// Its completion token signals once its own work is done, once the acquired
/// swapchain image is available, and once the token of `waits_on` has signalled.
#[derive(Clone, Copy, Debug, PartialEq, Eq, Structural)]
pub struct Submission {
    /// The frame's number in submission order, from 0.
    pub frame: u64,
    /// The swapchain image the frame renders into.
    pub image: u32,
    /// The frame whose completion this one waits for.
    pub waits_on: Option<u64>,
}

/// The chain of submissions: how many frames have been submitted so far.
#[derive(Clone, Copy, Debug, PartialEq, Eq, Structural)]
pub struct SubmissionChain {
    pub submitted: u64,
}

/// Token `a` signals strictly before token `b`: `b` comes later in the chain.
/// Every frame waits for its predecessor, so tokens signal in submission order.
pub open spec fn signals_before(a: Submission, b: Submission) -> bool {
    a.frame < b.frame
}

/// The next frame is chained after the last one submitted.
pub open spec fn next_submission(c: SubmissionChain, image: u32) -> Submission {
    Submission {
        frame: c.submitted,
        image,
        waits_on: if c.submitted == 0 {
            None
        } else {
            Some((c.submitted - 1) as u64)
        },
    }
}

/// The chain after one more submission.
pub open spec fn after_submit(c: SubmissionChain) -> SubmissionChain {
    SubmissionChain { submitted: (c.submitted + 1) as u64 }
}

impl SubmissionChain {
    /// A chain with nothing submitted yet.
    pub fn new() -> (r: SubmissionChain)
        ensures
            r.submitted == 0,
    {
        SubmissionChain { submitted: 0 }
    }

    /// Another frame can still be numbered.
    pub fn can_submit(&self) -> (r: bool)
        ensures
            r == (self.submitted < u64::MAX),
    {
        self.submitted < u64::MAX
    }

    /// Chains the next frame, rendering into `image`, after the last one.
    pub fn submit(&mut self, image: u32) -> (r: Submission)
        requires
            old(self).submitted < u64::MAX,
        ensures
            r == next_submission(*old(self), image),
            *final(self) == after_submit(*old(self)),
    {
        let waits_on = if self.submitted == 0 {
            None
        } else {
            Some(self.submitted - 1)
        };
        let r = Submission { frame: self.submitted, image, waits_on };
        self.submitted = self.submitted + 1;
        r
    }
}

/// Of two frames submitted one after the other, the second waits for the
/// first, so the first one's completion token signals strictly before the
/// second one's.
pub proof fn lemma_consecutive_frames_ordered(c: SubmissionChain, image1: u32, image2: u32)
    requires
        c.submitted < u64::MAX - 1,
    ensures
        ({
            let first = next_submission(c, image1);
            let second = next_submission(after_submit(c), image2);
            &&& second.waits_on == Some(first.frame)
            &&& signals_before(first, second)
        }),
{
}

} // verus!
