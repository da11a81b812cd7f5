//! The pause overlay.

use vstd::prelude::*;

verus! {

/// Whether the game is paused.
#[derive(Clone, Copy, PartialEq, Eq, Structural, Debug, Default)]
pub struct Paused(pub bool);

/// An element of the pause overlay: its only state the game touches is
/// whether it is drawn.
#[derive(Clone, Copy, PartialEq, Eq, Structural, Debug)]
pub struct PauseScreenItem {
    pub is_visible: bool,
}

/// Handles the pause key for one frame: when the escape key was just
/// pressed, the pause flag flips and every overlay element is shown exactly
/// when the game is now paused; otherwise nothing changes.
pub fn pause(
    escape_just_pressed: bool,
    paused: &mut Paused,
    items: &mut Vec<PauseScreenItem>,
)
    ensures
        final(paused).0 == if escape_just_pressed {
            !old(paused).0
        } else {
            old(paused).0
        },
        final(items)@.len() == old(items)@.len(),
        escape_just_pressed ==> forall|i: int|
            0 <= i < final(items)@.len() ==> final(items)@[i].is_visible == final(paused).0,
        !escape_just_pressed ==> final(items)@ == old(items)@,
{
    if escape_just_pressed {
        paused.0 = !paused.0;
        let visible = paused.0;
        let mut idx: usize = 0;
        while idx < items.len()
            invariant
                idx <= items@.len(),
                items@.len() == old(items)@.len(),
                forall|i: int| 0 <= i < idx ==> items@[i].is_visible == visible,
            decreases items@.len() - idx,
        {
            items.set(idx, PauseScreenItem { is_visible: visible });
            idx = idx + 1;
        }
    }
}

} // verus!
