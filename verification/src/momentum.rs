//! Scroll momentum: which frames move the camera.
use vstd::prelude::*;

verus! {

/// What one frame of scroll momentum does.
#[derive(Clone, Copy, Debug, PartialEq, Eq, Structural)]
pub enum TickAction {
    /// A scroll event already moved the camera in this frame: do nothing.
    Skip,
    /// The velocity has decayed below the stop threshold: zero it, do not move.
    Stop,
    /// Move the camera by the velocity, then slow it down by the friction.
    Coast,
}

/// The action of the frame `current_frame` for a momentum state whose last scroll
/// event came in `last_scroll_frame`; `below_threshold` is whether the squared speed
/// is under the stop threshold. Skipping the frame of a scroll event keeps the
/// camera from moving twice in that frame.
pub fn tick_action(last_scroll_frame: u64, current_frame: u64, below_threshold: bool) -> (a: TickAction)
    ensures
        a == if last_scroll_frame == current_frame {
            TickAction::Skip
        } else if below_threshold {
            TickAction::Stop
        } else {
            TickAction::Coast
        },
{
    if last_scroll_frame == current_frame {
        TickAction::Skip
    } else if below_threshold {
        TickAction::Stop
    } else {
        TickAction::Coast
    }
}

} // verus!
