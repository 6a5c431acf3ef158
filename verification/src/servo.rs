//! Open-loop actuator sweep: angle-to-pulse-width mapping and pulse plans.
//!
//! The sweeper is independent of sensor data.  It drives a positional
//! actuator by direct timed toggling of a digital output: a pulse of the
//! mapped width, then the remainder of a fixed 20 ms frame, repeated about
//! 25 times (half a second) so the mechanism settles.  The functions here
//! compute the pulse plans; an unverified loop toggles the pin and holds the
//! delays.

use vstd::prelude::*;

verus! {

/// Period of one pulse frame, in microseconds (20 ms).
pub const FRAME_PERIOD_US: u64 = 20000;

/// High time of a neutral settle pulse, in microseconds.
pub const NEUTRAL_PULSE_US: u64 = 1500;

/// How many frames one sweep burst repeats: about half a second of frames.
pub const SWEEP_FRAMES: u64 = 25;

/// The sweep's outward target, in degrees.  Deliberately beyond the nominal
/// 0..=180 mapping domain; the mapping extends past 180 by the same rule.
pub const SWEEP_ANGLE_DEG: u64 = 230;

/// The sweep's return target, in degrees.
pub const RETURN_ANGLE_DEG: u64 = 0;

/// Settle burst after the outward sweep, in neutral frames.
pub const SETTLE_FRAMES_OUT: u64 = 25;

/// Settle burst after the return sweep, in neutral frames; deliberately
/// longer than the outward one.
pub const SETTLE_FRAMES_BACK: u64 = 50;

/// Pause between sweep cycles, in milliseconds.
pub const CYCLE_PAUSE_MS: u64 = 200;

/// Width of a pulse, in microseconds, for a commanded angle in degrees:
/// 0 degrees maps to 1000 us and 180 degrees to 2000 us, with integer floor
/// division in between (and beyond 180 degrees).
pub fn pulse_width_from_angle(angle: u64) -> (width: u64)
    requires
        angle <= u64::MAX / 1000,
    ensures
        width == 1000 + (angle * 1000) / 180,
{
    1000 + (angle * 1000) / 180
}

/// One square pulse on the sweep output: hold high, then hold low.
#[derive(Clone, Copy, PartialEq, Eq, Structural, Debug)]
pub struct Pulse {
    /// How long the output stays high, in microseconds.
    pub high_us: u64,
    /// How long the output stays low before the next frame, in microseconds.
    pub low_us: u64,
}

/// The frame owed for a pulse width: high for the width, low for the rest
/// of the fixed 20 ms period.
pub open spec fn spec_frame(width_us: u64) -> Pulse {
    Pulse { high_us: width_us, low_us: (FRAME_PERIOD_US - width_us) as u64 }
}

/// The neutral settle frame: a 1500 us pulse within an 18.5 ms + 1.5 ms
/// frame, the mid-position command.
pub open spec fn spec_neutral_frame() -> Pulse {
    Pulse { high_us: NEUTRAL_PULSE_US, low_us: (FRAME_PERIOD_US - NEUTRAL_PULSE_US) as u64 }
}

/// Builds the frame for a pulse width.
pub fn frame(width_us: u64) -> (p: Pulse)
    requires
        width_us <= FRAME_PERIOD_US,
    ensures
        p == spec_frame(width_us),
{
    Pulse { high_us: width_us, low_us: FRAME_PERIOD_US - width_us }
}

/// A burst of identical frames: the plan of one timed toggle loop.
pub fn pulse_burst(p: Pulse, count: usize) -> (burst: Vec<Pulse>)
    ensures
        burst@.len() == count,
        forall|i: int| 0 <= i < count ==> burst@[i] == p,
{
    let mut burst: Vec<Pulse> = Vec::new();
    let mut k: usize = 0;
    while k < count
        invariant
            k <= count,
            burst@.len() == k,
            forall|i: int| 0 <= i < k ==> burst@[i] == p,
        decreases count - k,
    {
        burst.push(p);
        k = k + 1;
    }
    burst
}

/// How many neutral frames a settle request of the given length owes: a
/// zero-length request still settles for one burst of frames; otherwise
/// fifty frames (one second's half-frames) per requested unit.
pub fn settle_frame_count(duration_secs: u64) -> (count: u64)
    requires
        duration_secs <= u64::MAX / 50,
    ensures
        count == if duration_secs == 0 {
            25u64
        } else {
            (50 * duration_secs) as u64
        },
{
    if duration_secs == 0 {
        25
    } else {
        50 * duration_secs
    }
}

/// The plan of one full sweep cycle, as the exact frame sequence: 25 frames
/// at the outward angle's width, a settle burst of neutral frames, 25 frames
/// at the return angle's width, and a longer settle burst of neutral frames;
/// the cycle then pauses for [`CYCLE_PAUSE_MS`] before repeating.
pub fn sweep_cycle() -> (plan: Vec<Pulse>)
    ensures
        plan@.len() == SWEEP_FRAMES + SETTLE_FRAMES_OUT + SWEEP_FRAMES + SETTLE_FRAMES_BACK,
        forall|i: int|
            0 <= i < 25 ==> plan@[i] == spec_frame((1000 + (SWEEP_ANGLE_DEG * 1000) / 180) as u64),
        forall|i: int| 25 <= i < 50 ==> plan@[i] == spec_neutral_frame(),
        forall|i: int|
            50 <= i < 75 ==> plan@[i] == spec_frame(
                (1000 + (RETURN_ANGLE_DEG * 1000) / 180) as u64,
            ),
        forall|i: int| 75 <= i < 125 ==> plan@[i] == spec_neutral_frame(),
{
    let out_width = pulse_width_from_angle(SWEEP_ANGLE_DEG);
    let back_width = pulse_width_from_angle(RETURN_ANGLE_DEG);
    let neutral = frame(NEUTRAL_PULSE_US);

    let mut plan = pulse_burst(frame(out_width), 25);
    let mut settle_out = pulse_burst(neutral, 25);
    let mut back = pulse_burst(frame(back_width), 25);
    let mut settle_back = pulse_burst(neutral, 50);
    plan.append(&mut settle_out);
    plan.append(&mut back);
    plan.append(&mut settle_back);
    plan
}

} // verus!
