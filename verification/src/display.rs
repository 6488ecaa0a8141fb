use vstd::prelude::*;

verus! {

/// Whether the frame statistics are reported on the frame with this
/// number: on every hundredth frame, starting with frame 0.
pub fn report_frame_stats(ticks: usize) -> (res: bool)
    ensures
        res == (ticks % 100 == 0),
{
    ticks % 100 == 0
}

} // verus!
