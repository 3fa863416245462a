//! The tick loop's decisions.  The loop itself — windowing, workers,
//! clocks — is the host's business; what belongs to this library is the
//! pacing rule every worker follows.

use vstd::prelude::*;

verus! {

/// How many ticks each worker aims for per second.
pub const FPS: u64 = 60;

/// One second, in microseconds.
pub const ONE_SEC_MICROS: u64 = 1000000;

/// One tick's span, in microseconds.
pub const FRAME_TIME_MICROS: u64 = ONE_SEC_MICROS / FPS;

/// The pacing rule: how long a worker sleeps after a tick that took
/// `elapsed_micros` of a `frame_micros` frame — the remainder of the
/// frame, and nothing when the tick overran it.
pub fn remaining_frame_time(frame_micros: u64, elapsed_micros: u64) -> (r: u64)
    ensures
        elapsed_micros <= frame_micros ==> r == frame_micros - elapsed_micros,
        elapsed_micros > frame_micros ==> r == 0,
{
    if elapsed_micros <= frame_micros {
        frame_micros - elapsed_micros
    } else {
        0
    }
}

} // verus!
