use encode_bridge::rational::{rescale_in_range, rescale_q, Rational};

#[test]
fn invert_swaps_components() {
    let fps = Rational::new(30, 1);
    assert_eq!(fps.invert(), Rational { num: 1, den: 30 });
    assert_eq!(fps.invert().invert(), fps);
}

#[test]
fn rescale_even_rate_is_exact() {
    // 30 fps into a 1/90000 time base: each frame spans exactly 3000 ticks.
    let from = Rational::new(30, 1).invert();
    let to = Rational::new(1, 90000);
    assert_eq!(rescale_q(0, from, to), 0);
    assert_eq!(rescale_q(1, from, to), 3000);
    assert_eq!(rescale_q(10, from, to), 30000);
    assert_eq!(rescale_q(29, from, to), 87000);
}

#[test]
fn rescale_ntsc_rounds_to_nearest() {
    // 29.97 fps (30000/1001) into a 1/600 time base: one frame spans
    // 20.02 ticks, so rounding must show, with the half-tick tie at frame 25
    // rounded upward.
    let from = Rational::new(30000, 1001).invert();
    let to = Rational::new(1, 600);
    assert_eq!(rescale_q(1, from, to), 20);
    assert_eq!(rescale_q(2, from, to), 40);
    assert_eq!(rescale_q(25, from, to), 501); // 500.5 rounds up
    assert_eq!(rescale_q(50, from, to), 1001); // 1001.0 exactly
}

#[test]
fn rescale_sequence_strictly_increases_under_rounding() {
    // A frame rate that does not divide the time base evenly: the rounded
    // sequence must still be strictly increasing.
    let from = Rational::new(30000, 1001).invert();
    let to = Rational::new(1, 600);
    let mut last = -1i64;
    for i in 0..500u64 {
        let pts = rescale_q(i, from, to);
        assert!(pts > last, "pts not strictly increasing at frame {i}");
        last = pts;
    }
}

#[test]
fn rescale_in_range_for_ordinary_inputs() {
    let from = Rational::new(30, 1).invert();
    let to = Rational::new(1, 90000);
    assert!(rescale_in_range(0, from, to));
    assert!(rescale_in_range(1_000_000, from, to));
    // A frame index near the unsigned limit overflows a signed timestamp.
    assert!(!rescale_in_range(u64::MAX, from, to));
}
