//! Hiding the resize handles of sized zones while a floating panel is being
//! dragged, so that they do not catch the drop.
use vstd::prelude::*;

verus! {

/// The state of a draggable element.
#[derive(Clone, Copy, Debug, PartialEq, Eq, Structural)]
pub enum DragState {
    Inactive,
    MaybeDragged,
    DragStart,
    Dragging,
    DragEnd,
    DragCanceled,
}

pub open spec fn is_moving(s: DragState) -> bool {
    s == DragState::DragStart || s == DragState::Dragging
}

/// Whether the handles need updating, given the states of the floating panel
/// titles that changed this frame: only when one of them is not inactive.
pub fn should_update_resize_handles(changed: &Vec<DragState>) -> (r: bool)
    ensures
        r == exists|i: int| 0 <= i < changed@.len() && changed@[i] != DragState::Inactive,
{
    let mut i: usize = 0;
    while i < changed.len()
        invariant
            i <= changed@.len(),
            forall|k: int| 0 <= k < i ==> changed@[k] == DragState::Inactive,
        decreases changed@.len() - i,
    {
        if changed[i] != DragState::Inactive {
            return true;
        }
        i = i + 1;
    }
    false
}

/// Whether the resize handles are shown, given the states of the floating
/// panel titles that changed this frame: hidden while one of them is starting
/// a drag or being dragged.
pub fn resize_handles_visible(changed: &Vec<DragState>) -> (r: bool)
    ensures
        r == !exists|i: int| 0 <= i < changed@.len() && is_moving(#[trigger] changed@[i]),
{
    let mut i: usize = 0;
    while i < changed.len()
        invariant
            i <= changed@.len(),
            forall|k: int| 0 <= k < i ==> !is_moving(#[trigger] changed@[k]),
        decreases changed@.len() - i,
    {
        if changed[i] == DragState::DragStart || changed[i] == DragState::Dragging {
            return false;
        }
        i = i + 1;
    }
    true
}

} // verus!
