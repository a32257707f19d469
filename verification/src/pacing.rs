//! Frame pacing: thirty frames a second, with no catching up.

use vstd::prelude::*;

verus! {

/// The time that a frame is given, in nanoseconds: a thirtieth of a second.
pub const FRAME_NANOS: u64 = 33_333_333;

/// How long to sleep after a frame whose work took `elapsed` nanoseconds:
/// what is left of the frame's time, and nothing where the work overran it.
pub fn pause_nanos(elapsed: u64) -> (pause: u64)
    ensures
        pause == if elapsed < FRAME_NANOS {
            FRAME_NANOS - elapsed
        } else {
            0
        },
{
    if elapsed < FRAME_NANOS {
        FRAME_NANOS - elapsed
    } else {
        0
    }
}

} // verus!
