//! What a window's overlay reports about the input it wants, and the
//! frame-level answer over all open windows.

use vstd::prelude::*;

verus! {

/// The two answers one window's overlay gives when asked which input it
/// currently wants to consume.
#[derive(Clone, Copy, Debug, PartialEq, Eq, Structural)]
pub struct WantedInput {
    /// The overlay wants pointer input.
    pub pointer: bool,
    /// The overlay wants keyboard input.
    pub keyboard: bool,
}

impl WantedInput {
    /// The overlay wants focus when it wants the pointer or the keyboard.
    pub open spec fn spec_wants_focus(self) -> bool {
        self.pointer || self.keyboard
    }

    /// Whether this overlay wants focus.
    #[verifier::when_used_as_spec(spec_wants_focus)]
    pub fn wants_focus(self) -> (wanted: bool)
        ensures
            wanted == (self.pointer || self.keyboard),
    {
        self.pointer || self.keyboard
    }
}

/// The frame-level answer: some window's overlay wants focus. Only one window
/// receives input at a time, so no attempt is made to single that window out.
pub open spec fn any_wants_focus(wanted: Seq<WantedInput>) -> bool {
    exists|i: int| 0 <= i < wanted.len() && (#[trigger] wanted[i]).wants_focus()
}

/// Reduces the per-window answers with a logical or: false when no window's
/// overlay wants pointer or keyboard input (so too when no window is open),
/// true when at least one does.
pub fn overlays_want_focus(wanted: &[WantedInput]) -> (focus: bool)
    ensures
        focus == any_wants_focus(wanted@),
        (forall|i: int|
            0 <= i < wanted@.len() ==> !(#[trigger] wanted@[i]).pointer && !wanted@[i].keyboard)
            ==> !focus,
        (exists|i: int|
            0 <= i < wanted@.len() && ((#[trigger] wanted@[i]).pointer || wanted@[i].keyboard))
            ==> focus,
{
    let mut i: usize = 0;
    while i < wanted.len()
        invariant
            i <= wanted@.len(),
            forall|j: int| 0 <= j < i ==> !(#[trigger] wanted@[j]).wants_focus(),
        decreases wanted@.len() - i,
    {
        if wanted[i].wants_focus() {
            return true;
        }
        i += 1;
    }
    false
}

} // verus!
