//! The encode session: double-buffered frame slots, monotone frame
//! sequencing, and the per-frame submit pipeline's decisions.
//!
//! A session owns two aliased frame slots (A and B — the caller picks one per
//! submission, nothing alternates implicitly), a frame index that only ever
//! grows, the fixed frame rate, and the stream time base the container
//! negotiated. The encoder and container handles live with the unverified
//! shell that performs the actual calls; it stages each submission here, does
//! the outside work, and reports the outcome back, so every decision — which
//! timestamp, which slot, whether the index advances — is made and verified
//! here.

use crate::frame::{AliasedFrame, PlaneSet};
use crate::rational::{lemma_rescale_strictly_increasing, rescale_q, rescale_spec, Rational};
use vstd::prelude::*;

verus! {

/// One open encode session's sequencing state.
#[derive(Clone, Copy, PartialEq, Eq, Debug)]
pub struct EncodeSession {
    /// Frame slot A.
    pub frame_a: AliasedFrame,
    /// Frame slot B.
    pub frame_b: AliasedFrame,
    /// Index of the next frame to submit; starts at 0 and only grows, by one
    /// per successful submission.
    pub frame_index: u64,
    /// Frames per second, fixed at open.
    pub frame_rate: Rational,
    /// The container's negotiated time base for the video stream.
    pub stream_time_base: Rational,
}

impl EncodeSession {
    /// Both rationals a session carries are positive.
    pub open spec fn wf(self) -> bool {
        self.frame_rate.valid() && self.stream_time_base.valid()
    }

    /// The presentation timestamp owed to the next submitted frame: the frame
    /// index — a tick count in the frame-duration time base `1/frame_rate` —
    /// rescaled exactly into the stream's time base.
    pub open spec fn next_pts(self) -> int {
        rescale_spec(self.frame_index as int, self.frame_rate.inverted(), self.stream_time_base)
    }

    /// The frame slot a submission with this flag works on.
    pub open spec fn selected(self, use_buffer_b: bool) -> AliasedFrame {
        if use_buffer_b {
            self.frame_b
        } else {
            self.frame_a
        }
    }

    /// The plane addresses the encoder reads for a submission from the given
    /// slot: always that slot's own aliased buffers, looked up at call time —
    /// nothing is cached across submissions.
    pub open spec fn submission_source(self, use_buffer_b: bool) -> PlaneSet {
        self.selected(use_buffer_b).data
    }

    /// The session after a submission has been staged on one slot: that
    /// slot's frame carries the timestamp, and nothing else moves.
    pub open spec fn staged(self, use_buffer_b: bool, pts: i64) -> EncodeSession {
        if use_buffer_b {
            EncodeSession { frame_b: self.frame_b.stamped(pts), ..self }
        } else {
            EncodeSession { frame_a: self.frame_a.stamped(pts), ..self }
        }
    }

    /// The session after a successful submission: the frame index one higher,
    /// everything else untouched.
    pub open spec fn advanced(self) -> EncodeSession
        recommends
            self.frame_index < u64::MAX,
    {
        EncodeSession { frame_index: (self.frame_index + 1) as u64, ..self }
    }

    /// A fresh session, as the open sequence leaves it: the two aliased frame
    /// slots, a frame index of zero, and the rates the open negotiated.
    pub fn new(
        frame_a: AliasedFrame,
        frame_b: AliasedFrame,
        frame_rate: Rational,
        stream_time_base: Rational,
    ) -> (s: EncodeSession)
        requires
            frame_rate.valid(),
            stream_time_base.valid(),
        ensures
            s == (EncodeSession { frame_a, frame_b, frame_index: 0, frame_rate, stream_time_base }),
            s.wf(),
    {
        EncodeSession { frame_a, frame_b, frame_index: 0, frame_rate, stream_time_base }
    }

    /// Stage one frame submission: compute the next presentation timestamp by
    /// exact rational rescale and stamp it onto the requested slot's frame.
    /// The other slot is untouched, and the frame index does not move until
    /// the outcome is known.
    pub fn begin_frame(&mut self, use_buffer_b: bool) -> (pts: i64)
        requires
            old(self).wf(),
            old(self).next_pts() <= i64::MAX as int,
        ensures
            pts == old(self).next_pts(),
            *final(self) == old(self).staged(use_buffer_b, pts),
            final(self).wf(),
    {
        let pts = rescale_q(self.frame_index, self.frame_rate.invert(), self.stream_time_base);
        if use_buffer_b {
            self.frame_b.set_pts(pts);
        } else {
            self.frame_a.set_pts(pts);
        }
        pts
    }

    /// Record the outcome of the outside work for a staged frame — whether
    /// the encoder accepted it and whether every drained packet was written.
    /// On success the frame index advances by exactly one; on any failure the
    /// session is left exactly as it was, the failure surfacing to the
    /// caller's next decision with nothing retried.
    pub fn complete_frame(&mut self, encoder_accepted: bool, writes_ok: bool) -> (ok: bool)
        requires
            old(self).frame_index < u64::MAX,
        ensures
            ok == (encoder_accepted && writes_ok),
            ok ==> *final(self) == old(self).advanced(),
            !ok ==> *final(self) == *old(self),
    {
        if encoder_accepted && writes_ok {
            self.frame_index = self.frame_index + 1;
            true
        } else {
            false
        }
    }

    /// Release both frame slots: run at teardown, before either frame
    /// object's native cleanup, on every exit path.
    pub fn detach_frames(&mut self)
        ensures
            *final(self) == (EncodeSession {
                frame_a: old(self).frame_a.released(),
                frame_b: old(self).frame_b.released(),
                ..*old(self)
            }),
    {
        self.frame_a.release();
        self.frame_b.release();
    }
}

/// The overall result of the end-of-stream sequence: sending the end-of-stream
/// marker to the encoder, draining and writing every remaining packet, and
/// writing the container trailer. The first failure decides the result and
/// nothing is retried; a failure here leaves the file incomplete, which is
/// reported, not repaired.
pub fn finish_result(eof_sent: bool, drained_writes_ok: bool, trailer_written: bool) -> (ok: bool)
    ensures
        ok == (eof_sent && drained_writes_ok && trailer_written),
{
    eof_sent && drained_writes_ok && trailer_written
}

/// The session's timestamp sequence is strictly increasing: whenever one
/// frame spans at least one stream-time-base tick — every real pairing of
/// frame rate and negotiated time base does — a successful submission leaves
/// the session owing the next frame a strictly larger presentation timestamp
/// than the one just stamped.
pub proof fn lemma_session_pts_monotone(s: EncodeSession)
    requires
        s.wf(),
        s.frame_index < u64::MAX,
        s.frame_rate.den * s.stream_time_base.den >= s.stream_time_base.num * s.frame_rate.num,
    ensures
        s.advanced().next_pts() > s.next_pts(),
{
    lemma_rescale_strictly_increasing(
        s.frame_index as int,
        s.advanced().frame_index as int,
        s.frame_rate.inverted(),
        s.stream_time_base,
    );
}

/// Double-buffer independence: a staged submission reads only the requested
/// slot's own plane addresses, looked up at the moment of the call. After
/// submitting slot A and then slot B, a further submission of slot A reads
/// exactly the planes slot A held at the start — and none of slot B's,
/// wherever the two differ.
pub proof fn lemma_double_buffer_independence(s: EncodeSession, pts_a: i64, pts_b: i64)
    requires
        s.frame_index + 2 < u64::MAX,
    ensures
        ({
            let after_a = s.staged(false, pts_a).advanced();
            let after_b = after_a.staged(true, pts_b).advanced();
            &&& after_b.submission_source(false) == s.frame_a.data
            &&& after_a.submission_source(true) == s.frame_b.data
            &&& (s.frame_a.data != s.frame_b.data ==> after_b.submission_source(false)
                != after_b.frame_b.data)
        }),
{
}

} // verus!
