use encode_bridge::frame::{AliasedFrame, PlaneSet};
use encode_bridge::rational::Rational;
use encode_bridge::registry::SessionRegistry;
use encode_bridge::session::EncodeSession;

fn session_with_y_base(y: usize) -> EncodeSession {
    let frame_a = AliasedFrame::create(
        640,
        480,
        PlaneSet { y: 0x10, u: 0x20, v: 0x30 },
        PlaneSet { y, u: y + 1, v: y + 2 },
    );
    let frame_b = AliasedFrame::create(
        640,
        480,
        PlaneSet { y: 0x40, u: 0x50, v: 0x60 },
        PlaneSet { y: y + 3, u: y + 4, v: y + 5 },
    );
    EncodeSession::new(frame_a, frame_b, Rational::new(30, 1), Rational::new(1, 90000))
}

#[test]
fn submit_with_no_session_is_a_successful_noop() {
    // No session open: staging yields nothing, the outcome call reports
    // success, and the registry is untouched — no outside work is ever asked
    // for, so nothing reaches the file system.
    let mut reg = SessionRegistry::new();
    assert!(reg.can_submit());
    assert_eq!(reg.begin_submit(false), None);
    assert!(reg.complete_submit(true, true));
    assert!(reg.slot.is_none());
    assert!(!reg.is_open());
}

#[test]
fn start_replaces_an_unfinished_session_wholesale() {
    let mut reg = SessionRegistry::new();
    assert!(reg.start(Some(session_with_y_base(0x1000))));
    // Make some progress in the first session.
    reg.begin_submit(false);
    assert!(reg.complete_submit(true, true));
    assert_eq!(reg.slot.as_ref().unwrap().frame_index, 1);

    // A second start, with the first never finished: the registry holds
    // exactly the newest session, with nothing of its predecessor.
    assert!(reg.start(Some(session_with_y_base(0x9000))));
    let s = reg.slot.as_ref().unwrap();
    assert_eq!(s.frame_index, 0);
    assert_eq!(s.frame_a.data.y, 0x9000);
    assert_eq!(s.frame_b.data.y, 0x9003);
}

#[test]
fn failed_start_leaves_registry_empty_and_submits_harmless() {
    // An open failure (unwritable path, encoder refusal) hands the registry
    // nothing: it stays empty, and a following submit is the harmless no-op.
    let mut reg = SessionRegistry::new();
    assert!(!reg.start(None));
    assert!(reg.slot.is_none());
    assert_eq!(reg.begin_submit(false), None);
    assert!(reg.complete_submit(true, true));
    assert!(reg.slot.is_none());
}

#[test]
fn failed_start_clears_a_previous_session() {
    let mut reg = SessionRegistry::new();
    assert!(reg.start(Some(session_with_y_base(0x1000))));
    assert!(!reg.start(None));
    assert!(reg.slot.is_none());
}

#[test]
fn one_second_of_frames_end_to_end() {
    // start at 30 fps, submit thirty frames from slot A, finish: every call
    // succeeds, the timestamps march up by exactly one frame duration in
    // stream ticks, the index reaches 30, and the registry returns to empty.
    let mut reg = SessionRegistry::new();
    assert!(reg.start(Some(session_with_y_base(0x5000))));
    for i in 0..30u64 {
        assert!(reg.can_submit());
        let staged = reg.begin_submit(false);
        assert_eq!(staged, Some(3000 * i as i64));
        assert!(reg.complete_submit(true, true));
    }
    assert_eq!(reg.slot.as_ref().unwrap().frame_index, 30);
    assert!(reg.finish());
    assert!(reg.slot.is_none());
    // A second finish has nothing to do.
    assert!(!reg.finish());
}

#[test]
fn per_frame_failure_keeps_the_session_open() {
    let mut reg = SessionRegistry::new();
    assert!(reg.start(Some(session_with_y_base(0x5000))));
    reg.begin_submit(true);
    assert!(!reg.complete_submit(false, true));
    let s = reg.slot.as_ref().unwrap();
    assert_eq!(s.frame_index, 0); // not advanced
    assert!(reg.is_open()); // caller decides what happens next

    // A finish after the failure still clears the slot unconditionally.
    assert!(reg.finish());
    assert!(reg.slot.is_none());
}
