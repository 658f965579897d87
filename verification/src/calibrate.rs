//! Calibration patterns for the display loop.
//!
//! Both reuse the vsync-paced callback structure of a normal scan, but paint
//! trivially simple fields: `flicker` alternates dark and bright stretches,
//! and the latency pattern is a single dark-then-bright step function used
//! to measure the delay between a display change and the corresponding
//! photon-rate change.  The vsync loop itself lives in the unverified
//! binary; these are the per-frame decisions it runs.

use vstd::prelude::*;

verus! {

/// How many frames each calibration pattern runs before stopping.
pub const CALIBRATION_FRAMES: u32 = 300;

/// The frame index at which the latency pattern steps from dark to bright.
pub const LATENCY_STEP_FRAME: u32 = 20;

/// One frame of the flicker pattern: bright for the first six frames of
/// every ten, dark for the last four, stopping once the frame budget is
/// spent.  Returns the fill value for the whole buffer and the stop signal.
pub fn flicker(call_number: u32) -> (r: (u8, bool))
    requires
        call_number < u32::MAX,
    ensures
        r.0 == if (call_number % 10) > 5 {
            0u8
        } else {
            255u8
        },
        r.1 == (call_number + 1 >= CALIBRATION_FRAMES),
{
    let value: u8 = if (call_number % 10) > 5 {
        0
    } else {
        255
    };
    (value, call_number + 1 >= CALIBRATION_FRAMES)
}

/// One frame of the latency pattern: dark before the step frame, bright
/// from it on.  Returns the fill value, whether this is the step frame (the
/// caller snapshots the scan position exactly then), and the stop signal.
pub fn latency_step(call_number: u32) -> (r: (u8, bool, bool))
    requires
        call_number < u32::MAX,
    ensures
        r.0 == if call_number < LATENCY_STEP_FRAME {
            0u8
        } else {
            255u8
        },
        r.1 == (call_number == LATENCY_STEP_FRAME),
        r.2 == (call_number + 1 >= CALIBRATION_FRAMES),
{
    let value: u8 = if call_number < LATENCY_STEP_FRAME {
        0
    } else {
        255
    };
    (value, call_number == LATENCY_STEP_FRAME, call_number + 1 >= CALIBRATION_FRAMES)
}

} // verus!
