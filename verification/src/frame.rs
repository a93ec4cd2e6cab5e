//! Frame objects that alias caller-owned pixel memory.
//!
//! A frame object normally owns its own plane memory. Here, construction
//! records the frame's own three plane addresses and then installs the
//! caller's buffer addresses in their place, so the encoder reads the
//! caller's pixels without a copy. Before the frame object's native cleanup
//! is allowed to run, the recorded original addresses must be put back —
//! otherwise that cleanup would free the caller's memory, or leak the frame's
//! genuine allocation.

use vstd::prelude::*;

verus! {

/// The three plane addresses of one pixel-buffer set: a luma plane and two
/// chroma planes at full (4:4:4) resolution. Addresses are carried as plain
/// words; the memory behind them is owned and synchronized by the caller.
#[derive(Clone, Copy, PartialEq, Eq, Structural, Debug)]
pub struct PlaneSet {
    pub y: usize,
    pub u: usize,
    pub v: usize,
}

/// A frame object of fixed size whose plane addresses have been swapped to
/// point at caller-owned memory, with the frame's own original addresses kept
/// aside for restoration at teardown.
#[derive(Clone, Copy, PartialEq, Eq, Debug)]
pub struct AliasedFrame {
    pub width: u32,
    pub height: u32,
    /// The plane addresses currently installed in the frame object: the ones
    /// the encoder reads, and the ones the frame's native cleanup would free.
    pub data: PlaneSet,
    /// The frame object's own allocation, recorded at construction so it can
    /// be put back before the native cleanup runs.
    pub original: PlaneSet,
    /// The presentation timestamp most recently stamped onto the frame.
    pub pts: Option<i64>,
}

impl AliasedFrame {
    /// The frame as `create` leaves it: the caller's buffers installed, the
    /// original allocation remembered, no timestamp yet.
    pub open spec fn aliasing(width: u32, height: u32, original: PlaneSet, buffers: PlaneSet) -> AliasedFrame {
        AliasedFrame { width, height, data: buffers, original, pts: None }
    }

    /// The frame with a presentation timestamp stamped on; nothing else moves.
    pub open spec fn stamped(self, pts: i64) -> AliasedFrame {
        AliasedFrame { pts: Some(pts), ..self }
    }

    /// The frame after `release`: the original plane addresses restored,
    /// everything else untouched.
    pub open spec fn released(self) -> AliasedFrame {
        AliasedFrame { data: self.original, ..self }
    }

    /// Wrap one caller-owned buffer set as a frame: remember the frame
    /// object's own plane addresses (`original`), then install the caller's
    /// (`buffers`). No pixel data is copied.
    pub fn create(width: u32, height: u32, original: PlaneSet, buffers: PlaneSet) -> (f: AliasedFrame)
        ensures
            f == AliasedFrame::aliasing(width, height, original, buffers),
    {
        AliasedFrame { width, height, data: buffers, original, pts: None }
    }

    /// Stamp the frame with the presentation timestamp it will be encoded at.
    pub fn set_pts(&mut self, pts: i64)
        ensures
            *final(self) == old(self).stamped(pts),
    {
        self.pts = Some(pts);
    }

    /// Put the recorded original plane addresses back, so the frame's native
    /// cleanup frees only memory it genuinely allocated and never touches the
    /// caller's buffers. Must run before the frame object is torn down, on
    /// every exit path.
    pub fn release(&mut self)
        ensures
            *final(self) == old(self).released(),
    {
        self.data = self.original;
    }
}

/// Round trip of the aliasing: after `create` then `release`, the frame holds
/// exactly the plane addresses recorded at construction — wherever a caller
/// buffer address differs from the frame's own, it does not survive the
/// release.
pub proof fn lemma_release_restores_originals(
    width: u32,
    height: u32,
    original: PlaneSet,
    buffers: PlaneSet,
)
    ensures
        AliasedFrame::aliasing(width, height, original, buffers).released().data == original,
        original.y != buffers.y
            ==> AliasedFrame::aliasing(width, height, original, buffers).released().data.y != buffers.y,
        original.u != buffers.u
            ==> AliasedFrame::aliasing(width, height, original, buffers).released().data.u != buffers.u,
        original.v != buffers.v
            ==> AliasedFrame::aliasing(width, height, original, buffers).released().data.v != buffers.v,
{
}

} // verus!
