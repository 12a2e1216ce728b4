//! Single-slot, overwrite-latest mailbox for decoded display frames.
//!
//! The capture thread publishes into the slot unconditionally (newest wins,
//! no queue), and the renderer pulls with a non-blocking take. Any frames
//! published between two takes are coalesced: only the most recent survives.
//! The slot holds whole frames only, so a take yields a complete prior frame
//! or nothing, never a partial one.

use vstd::prelude::*;
use crate::frame::DisplayFrame;

verus! {

/// Mailbox holding at most one display frame of a fixed resolution.
pub struct FrameBuffer {
    width: u32,
    height: u32,
    slot: Option<DisplayFrame>,
}

impl FrameBuffer {
    /// The frame the slot currently holds, if any.
    pub closed spec fn spec_slot(self) -> Option<DisplayFrame> {
        self.slot
    }

    /// The fixed frame width this buffer was made for.
    pub closed spec fn spec_width(self) -> u32 {
        self.width
    }

    /// The fixed frame height this buffer was made for.
    pub closed spec fn spec_height(self) -> u32 {
        self.height
    }

    /// The buffer is well formed: a held frame is complete and of the fixed
    /// resolution.
    pub open spec fn wf(self) -> bool {
        self.spec_slot() matches Some(f) ==> {
            &&& f.wf()
            &&& f.width == self.spec_width()
            &&& f.height == self.spec_height()
        }
    }

    /// The buffer as it stands after a publish: the slot holds exactly the
    /// new frame, whatever it held before, and the resolution is unchanged.
    pub closed spec fn publish_spec(self, f: DisplayFrame) -> FrameBuffer {
        FrameBuffer { width: self.width, height: self.height, slot: Some(f) }
    }

    /// What a publish does, spelled out over the slot and the resolution.
    pub proof fn lemma_publish_spec(self, f: DisplayFrame)
        ensures
            self.publish_spec(f).spec_slot() == Some(f),
            self.publish_spec(f).spec_width() == self.spec_width(),
            self.publish_spec(f).spec_height() == self.spec_height(),
    {
    }

    /// The fixed frame width this buffer was made for.
    pub fn width(&self) -> (w: u32)
        ensures
            w == self.spec_width(),
    {
        self.width
    }

    /// The fixed frame height this buffer was made for.
    pub fn height(&self) -> (h: u32)
        ensures
            h == self.spec_height(),
    {
        self.height
    }

    /// An empty mailbox for frames of the given resolution.
    pub fn new(width: u32, height: u32) -> (b: FrameBuffer)
        ensures
            b.spec_slot() is None,
            b.spec_width() == width,
            b.spec_height() == height,
            b.wf(),
    {
        FrameBuffer { width, height, slot: None }
    }

    /// Publish a frame, overwriting any frame already held: newest wins, and
    /// the producer is never made to wait.
    pub fn publish(&mut self, f: DisplayFrame)
        requires
            old(self).wf(),
            f.wf(),
            f.width == old(self).spec_width(),
            f.height == old(self).spec_height(),
        ensures
            *final(self) == old(self).publish_spec(f),
            final(self).spec_slot() == Some(f),
            final(self).wf(),
    {
        self.slot = Some(f);
    }

    /// Take the latest frame, leaving the slot empty: the result is the most
    /// recently published frame, or `None` if none arrived since the last
    /// take. A returned frame is always complete.
    pub fn take_latest(&mut self) -> (r: Option<DisplayFrame>)
        requires
            old(self).wf(),
        ensures
            r == old(self).spec_slot(),
            final(self).spec_slot() is None,
            final(self).spec_width() == old(self).spec_width(),
            final(self).spec_height() == old(self).spec_height(),
            final(self).wf(),
            r matches Some(f) ==> f.wf() && f.width == old(self).spec_width() && f.height
                == old(self).spec_height(),
    {
        self.slot.take()
    }
}

/// Two publishes coalesce: after publishing `f1` and then `f2`, the slot
/// holds exactly `f2`, complete and at the buffer's resolution — a reader
/// never sees a torn or stale mixture of the two.
pub proof fn lemma_newest_wins(b: FrameBuffer, f1: DisplayFrame, f2: DisplayFrame)
    requires
        b.wf(),
        f2.wf(),
        f2.width == b.spec_width(),
        f2.height == b.spec_height(),
    ensures
        b.publish_spec(f1).publish_spec(f2).spec_slot() == Some(f2),
        b.publish_spec(f1).publish_spec(f2).wf(),
{
}

} // verus!
