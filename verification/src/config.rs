//! Session-open configuration: quality profiles, the encoder's fixed
//! parameter set, and the negotiated stream time base.

use crate::rational::Rational;
use vstd::prelude::*;

verus! {

/// The closed set of quality presets selectable at session open, immutable
/// for the session's lifetime.
#[derive(Clone, Copy, PartialEq, Eq, Structural, Debug)]
pub enum Profile {
    /// Full-quality recording.
    Standard,
    /// Low-quality proxy recording.
    Proxy,
}

impl Profile {
    /// The constant-rate-factor quality value each profile stands for:
    /// 16 for standard, 28 for the proxy.
    pub open spec fn crf_spec(self) -> int {
        match self {
            Profile::Standard => 16,
            Profile::Proxy => 28,
        }
    }

    pub fn crf(self) -> (r: u32)
        ensures
            r == self.crf_spec(),
    {
        match self {
            Profile::Standard => 16,
            Profile::Proxy => 28,
        }
    }

    /// The encoder speed preset option value, the same for both profiles.
    pub fn preset(self) -> (r: &'static str)
        ensures
            r@ == "ultrafast"@,
    {
        "ultrafast"
    }

    /// The encoder chroma-profile option value — 4:4:4 sampling at high
    /// profile — the same for both profiles.
    pub fn chroma_profile(self) -> (r: &'static str)
        ensures
            r@ == "high444"@,
    {
        "high444"
    }

    /// The quality value as the option string handed to the encoder.
    pub fn crf_text(self) -> (r: &'static str)
        ensures
            self is Standard ==> r@ == "16"@,
            self is Proxy ==> r@ == "28"@,
    {
        match self {
            Profile::Standard => "16",
            Profile::Proxy => "28",
        }
    }
}

/// Everything the encoder is configured with before it is opened. The pixel
/// layout itself is fixed for every session: three full-resolution planes
/// (4:4:4 chroma) in full/JPEG sample range.
#[derive(Clone, Copy, PartialEq, Eq, Structural, Debug)]
pub struct EncoderConfig {
    pub width: u32,
    pub height: u32,
    /// Frames per second.
    pub frame_rate: Rational,
    /// The encoder time base: the duration of one frame, `1/frame_rate`.
    pub time_base: Rational,
    /// Whether the container format wants stream-level (global) headers, in
    /// which case the encoder must be told to emit them.
    pub global_header: bool,
    pub profile: Profile,
}

/// Assemble the encoder configuration for a session: the requested geometry
/// and rate, a time base of exactly one frame duration, and the global-header
/// flag copied from what the container format demands.
pub fn encoder_config(
    width: u32,
    height: u32,
    frame_rate: Rational,
    container_wants_global_header: bool,
    profile: Profile,
) -> (c: EncoderConfig)
    requires
        frame_rate.valid(),
    ensures
        c == (EncoderConfig {
            width,
            height,
            frame_rate,
            time_base: frame_rate.inverted(),
            global_header: container_wants_global_header,
            profile,
        }),
        c.time_base.valid(),
{
    EncoderConfig {
        width,
        height,
        frame_rate,
        time_base: frame_rate.invert(),
        global_header: container_wants_global_header,
        profile,
    }
}

/// The stream time base recorded for a session: exactly what the container
/// reports for its video stream, or 1/90000 seconds per tick when it reports
/// none.
pub fn negotiated_time_base(reported: Option<Rational>) -> (r: Rational)
    requires
        reported matches Some(tb) ==> tb.valid(),
    ensures
        reported matches Some(tb) ==> r == tb,
        reported is None ==> r == (Rational { num: 1, den: 90000 }),
        r.valid(),
{
    match reported {
        Some(tb) => tb,
        None => Rational { num: 1, den: 90000 },
    }
}

} // verus!
