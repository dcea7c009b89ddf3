use vstd::prelude::*;

use super::transform::ScrollEvent;

verus! {

/// A trackpad sends continuous, pixel-precise scrolling; a mouse wheel does not.
pub open spec fn is_trackpad_event(event: ScrollEvent) -> bool {
    event.is_continuous != 0
}

/// Whether `event` comes from a trackpad, judged by its continuous flag.
pub fn is_trackpad(event: &ScrollEvent) -> (r: bool)
    ensures
        r == is_trackpad_event(*event),
        r == (event.is_continuous != 0),
{
    event.is_continuous != 0
}

/// An event is a trackpad's exactly when its continuous flag is set, whatever
/// its deltas hold.
pub proof fn lemma_trackpad_iff_continuous(event: ScrollEvent)
    ensures
        is_trackpad_event(event) == (event.is_continuous != 0),
{
}

} // verus!
