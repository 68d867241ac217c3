//! The tracked focus state and its once-per-frame update.

use crate::wanted::{any_wants_focus, overlays_want_focus, WantedInput};
use vstd::prelude::*;

verus! {

/// Whether the overlay wanted focus on the previous frame and whether it wants
/// it on the current one.
///
/// The previous frame's value is kept because an overlay may report a click
/// one frame late: for that one frame both the overlay and the world behind it
/// would react to the same input. Consumers should treat input as theirs only
/// while both `prev` and `curr` are false.
#[derive(Clone, Copy, Debug, PartialEq, Eq, Structural)]
pub struct EguiWantsFocus {
    /// Whether the overlay wanted focus on the previous frame.
    pub prev: bool,
    /// Whether the overlay wants focus on the current frame.
    pub curr: bool,
}

impl Default for EguiWantsFocus {
    /// The state before the first frame: no focus wanted, then or now.
    fn default() -> (state: Self)
        ensures
            state == (EguiWantsFocus { prev: false, curr: false }),
    {
        EguiWantsFocus { prev: false, curr: false }
    }
}

impl EguiWantsFocus {
    /// The state that follows `self` when the current frame's answer is `curr`:
    /// what was current becomes previous.
    pub open spec fn shifted(self, curr: bool) -> EguiWantsFocus {
        EguiWantsFocus { prev: self.curr, curr }
    }

    /// The state stored after a frame in which the open windows' overlays
    /// reported `wanted`.
    pub open spec fn after(self, wanted: Seq<WantedInput>) -> EguiWantsFocus {
        self.shifted(any_wants_focus(wanted))
    }

    /// Stores `value` unless it equals what is stored already, and tells
    /// whether it wrote. A skipped write leaves nothing for observers of
    /// changes to see.
    pub fn set_if_neq(&mut self, value: EguiWantsFocus) -> (written: bool)
        ensures
            *final(self) == value,
            written == (*old(self) != value),
    {
        if *self == value {
            false
        } else {
            *self = value;
            true
        }
    }

    /// One frame's update from the answers of the open windows' overlays:
    /// shifts `curr` into `prev`, sets `curr` to whether any overlay wants
    /// focus, and writes only if that changes the stored state.
    pub fn update(&mut self, wanted: &[WantedInput]) -> (written: bool)
        ensures
            *final(self) == old(self).after(wanted@),
            final(self).prev == old(self).curr,
            final(self).curr == any_wants_focus(wanted@),
            written == (old(self).after(wanted@) != *old(self)),
    {
        let candidate = EguiWantsFocus { prev: self.curr, curr: overlays_want_focus(wanted) };
        self.set_if_neq(candidate)
    }
}

/// From one frame to the next, `prev` is what `curr` was: the state stored
/// after a frame carries in `prev` the `curr` stored after the frame before,
/// whether or not either frame had anything to write.
pub proof fn lemma_prev_follows_curr(
    stored: EguiWantsFocus,
    first: Seq<WantedInput>,
    second: Seq<WantedInput>,
)
    ensures
        stored.after(first).after(second).prev == stored.after(first).curr,
{
}

/// A frame whose candidate equals the stored state leaves it as it is, and
/// that happens exactly when the stored `prev` and `curr` both equal the
/// frame's answer.
pub proof fn lemma_unchanged_frame(stored: EguiWantsFocus, wanted: Seq<WantedInput>)
    ensures
        stored.after(wanted) == stored <==> stored.prev == stored.curr && stored.curr
            == any_wants_focus(wanted),
{
}

/// Two frames with the same answer settle the state: it then holds that
/// answer in both fields, and a third such frame finds nothing to write.
pub proof fn lemma_settles_after_two_frames(
    stored: EguiWantsFocus,
    first: Seq<WantedInput>,
    second: Seq<WantedInput>,
    third: Seq<WantedInput>,
)
    requires
        any_wants_focus(first) == any_wants_focus(second),
        any_wants_focus(second) == any_wants_focus(third),
    ensures
        stored.after(first).after(second).prev == any_wants_focus(first),
        stored.after(first).after(second).curr == any_wants_focus(first),
        stored.after(first).after(second).after(third) == stored.after(first).after(second),
{
}

} // verus!
