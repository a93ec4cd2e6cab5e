//! The process-wide session slot and its lifecycle: Empty, then Open, then
//! Empty again.
//!
//! The registry holds zero or one live session. `start` replaces whatever is
//! there wholesale — a new session supersedes even an unfinished predecessor,
//! and a failed open leaves the slot empty. Submitting while the slot is
//! empty is a harmless no-op that reports success. A finish clears the slot
//! unconditionally, whatever the flush and trailer work reported. Callers
//! serialize access; the registry itself takes no locks.

use crate::rational::rescale_in_range;
use crate::session::EncodeSession;
use vstd::prelude::*;

verus! {

/// The single session slot.
pub struct SessionRegistry {
    /// The live session, if one is open.
    pub slot: Option<EncodeSession>,
}

impl SessionRegistry {
    /// Whatever session is installed is well formed.
    pub open spec fn wf(self) -> bool {
        self.slot matches Some(s) ==> s.wf()
    }

    /// An empty registry: no session open.
    pub fn new() -> (r: SessionRegistry)
        ensures
            r.slot is None,
            r.wf(),
    {
        SessionRegistry { slot: None }
    }

    /// Whether a session is currently open.
    pub fn is_open(&self) -> (r: bool)
        ensures
            r == (self.slot is Some),
    {
        self.slot.is_some()
    }

    /// Install the outcome of a session-open attempt, replacing whatever was
    /// there: after the call the registry holds exactly the newest session
    /// and nothing of any predecessor, and a failed open (`None`) leaves it
    /// empty. Returns whether a session is now open.
    pub fn start(&mut self, opened: Option<EncodeSession>) -> (ok: bool)
        requires
            opened matches Some(s) ==> s.wf(),
        ensures
            final(self).slot == opened,
            ok == (opened is Some),
            final(self).wf(),
    {
        self.slot = opened;
        self.slot.is_some()
    }

    /// Whether a submission can be staged right now: vacuously when no
    /// session is open, and otherwise whenever the next timestamp fits a
    /// signed 64-bit value and the frame counter has room — machine limits,
    /// not policy, and unreachable in any real recording.
    pub fn can_submit(&self) -> (r: bool)
        requires
            self.wf(),
        ensures
            r == match self.slot {
                None => true,
                Some(s) => s.next_pts() <= i64::MAX as int && s.frame_index < u64::MAX,
            },
    {
        match &self.slot {
            None => true,
            Some(s) => {
                s.frame_index < u64::MAX && rescale_in_range(
                    s.frame_index,
                    s.frame_rate.invert(),
                    s.stream_time_base,
                )
            },
        }
    }

    /// Stage one frame submission against the open session, if any. With no
    /// open session nothing at all happens and `None` says so — the caller
    /// reports success for such a call. Otherwise the requested slot's frame
    /// is stamped and the timestamp to encode with comes back.
    pub fn begin_submit(&mut self, use_buffer_b: bool) -> (staged: Option<i64>)
        requires
            old(self).wf(),
            old(self).slot matches Some(s) ==> s.next_pts() <= i64::MAX as int,
        ensures
            final(self).wf(),
            old(self).slot is None ==> staged is None && *final(self) == *old(self),
            old(self).slot matches Some(s) ==> staged matches Some(pts) && pts == s.next_pts()
                && final(self).slot == Some(s.staged(use_buffer_b, pts)),
    {
        match &mut self.slot {
            None => None,
            Some(s) => Some(s.begin_frame(use_buffer_b)),
        }
    }

    /// Record the outcome of one staged submission. With no open session the
    /// call reports success and changes nothing. Otherwise the result is
    /// success exactly when the encoder accepted the frame and every drained
    /// packet was written; success advances the frame counter by one, failure
    /// leaves the session exactly as it was, and the session stays open
    /// either way for the caller's next decision.
    pub fn complete_submit(&mut self, encoder_accepted: bool, writes_ok: bool) -> (ok: bool)
        requires
            old(self).wf(),
            old(self).slot matches Some(s) ==> s.frame_index < u64::MAX,
        ensures
            final(self).wf(),
            old(self).slot is None ==> ok && *final(self) == *old(self),
            old(self).slot matches Some(s) ==> ok == (encoder_accepted && writes_ok) && (ok
                ==> final(self).slot == Some(s.advanced())) && (!ok ==> *final(self) == *old(
                self,
            )),
    {
        match &mut self.slot {
            None => true,
            Some(s) => s.complete_frame(encoder_accepted, writes_ok),
        }
    }

    /// Clear the registry unconditionally: after a finish attempt the slot is
    /// empty whatever the end-of-stream work reported. Returns whether there
    /// was a session to finish.
    pub fn finish(&mut self) -> (was_open: bool)
        ensures
            final(self).slot is None,
            was_open == (old(self).slot is Some),
            final(self).wf(),
    {
        let was_open = self.slot.is_some();
        self.slot = None;
        was_open
    }
}

} // verus!
