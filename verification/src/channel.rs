//! Frame channel: the bounded hand-off of completed frames from the
//! analysis side to a single consumer, with an explicit overflow policy.
//!
//! Configured latest-only, the buffer holds a single frame and a send onto
//! a full buffer drops the oldest unconsumed frame in favor of the newest —
//! live visualization prefers freshness over completeness, and never blocks
//! the producer. Without the flag the buffer is unbounded, for playback
//! where the consumer keeps pace by construction.

use crate::audio::AudioFrame;
use vstd::prelude::*;

verus! {

/// The frame buffer and its overflow policy.
pub struct FrameChannel {
    pub frames: Vec<AudioFrame>,
    pub drop_oldest_on_full: bool,
}

impl FrameChannel {
    /// Latest-only configuration never holds more than one frame.
    pub open spec fn wf(self) -> bool {
        self.drop_oldest_on_full ==> self.frames@.len() <= 1
    }

    /// An empty channel with the chosen overflow policy.
    pub fn new(drop_oldest_on_full: bool) -> (r: FrameChannel)
        ensures
            r.wf(),
            r.frames@.len() == 0,
            r.drop_oldest_on_full == drop_oldest_on_full,
    {
        FrameChannel { frames: Vec::new(), drop_oldest_on_full }
    }

    /// How many frames are waiting to be consumed.
    pub fn len(&self) -> (r: usize)
        ensures
            r == self.frames@.len(),
    {
        self.frames.len()
    }

    /// Hands one frame over. A full latest-only channel drops its waiting
    /// frame in favor of the new one; an unbounded channel appends.
    pub fn send(&mut self, frame: AudioFrame)
        requires
            old(self).wf(),
        ensures
            final(self).wf(),
            final(self).drop_oldest_on_full == old(self).drop_oldest_on_full,
            final(self).frames@ == if old(self).drop_oldest_on_full
                && old(self).frames@.len() == 1 {
                seq![frame]
            } else {
                old(self).frames@.push(frame)
            },
    {
        if self.drop_oldest_on_full && self.frames.len() >= 1 {
            self.frames.remove(0);
        }
        self.frames.push(frame);
        proof {
            if old(self).drop_oldest_on_full && old(self).frames@.len() == 1 {
                assert(self.frames@ =~= seq![frame]);
            }
        }
    }

    /// Takes the oldest waiting frame, or nothing when the channel is
    /// empty (the consumer then blocks or retries outside this crate).
    pub fn recv(&mut self) -> (r: Option<AudioFrame>)
        requires
            old(self).wf(),
        ensures
            final(self).wf(),
            final(self).drop_oldest_on_full == old(self).drop_oldest_on_full,
            old(self).frames@.len() == 0 ==> r is None && final(self).frames@ == old(self).frames@,
            old(self).frames@.len() > 0 ==> r == Some(old(self).frames@[0])
                && final(self).frames@ == old(self).frames@.subrange(
                1,
                old(self).frames@.len() as int,
            ),
    {
        if self.frames.len() == 0 {
            None
        } else {
            let frame = self.frames.remove(0);
            proof {
                assert(self.frames@ =~= old(self).frames@.subrange(
                    1,
                    old(self).frames@.len() as int,
                ));
            }
            Some(frame)
        }
    }
}

} // verus!
