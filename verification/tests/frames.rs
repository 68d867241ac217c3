//! The focus state driven by plain per-window answers.

use egui_focus::{overlays_want_focus, EguiWantsFocus, WantedInput};

const NOTHING: WantedInput = WantedInput { pointer: false, keyboard: false };
const POINTER: WantedInput = WantedInput { pointer: true, keyboard: false };
const KEYBOARD: WantedInput = WantedInput { pointer: false, keyboard: true };
const BOTH: WantedInput = WantedInput { pointer: true, keyboard: true };

fn state(prev: bool, curr: bool) -> EguiWantsFocus {
    EguiWantsFocus { prev, curr }
}

#[test]
fn default_state_wants_nothing() {
    assert_eq!(EguiWantsFocus::default(), state(false, false));
}

#[test]
fn wants_focus_is_pointer_or_keyboard() {
    assert!(!NOTHING.wants_focus());
    assert!(POINTER.wants_focus());
    assert!(KEYBOARD.wants_focus());
    assert!(BOTH.wants_focus());
}

#[test]
fn no_window_means_no_focus() {
    assert!(!overlays_want_focus(&[]));
}

#[test]
fn no_overlay_wanting_input_means_no_focus() {
    assert!(!overlays_want_focus(&[NOTHING]));
    assert!(!overlays_want_focus(&[NOTHING, NOTHING, NOTHING]));
}

#[test]
fn one_overlay_wanting_input_means_focus() {
    assert!(overlays_want_focus(&[POINTER]));
    assert!(overlays_want_focus(&[KEYBOARD]));
    assert!(overlays_want_focus(&[BOTH]));
    assert!(overlays_want_focus(&[POINTER, NOTHING, NOTHING]));
    assert!(overlays_want_focus(&[NOTHING, KEYBOARD, NOTHING]));
    assert!(overlays_want_focus(&[NOTHING, NOTHING, BOTH]));
}

#[test]
fn first_cycle_without_windows() {
    let mut stored = EguiWantsFocus::default();
    let written = stored.update(&[]);
    assert_eq!(stored, state(false, false));
    assert!(!written);
}

#[test]
fn first_cycle_with_pointer_wanted() {
    let mut stored = EguiWantsFocus::default();
    let written = stored.update(&[POINTER]);
    assert_eq!(stored, state(false, true));
    assert!(written);
}

#[test]
fn second_cycle_after_pointer_released() {
    let mut stored = EguiWantsFocus::default();
    stored.update(&[POINTER]);
    let written = stored.update(&[NOTHING]);
    assert_eq!(stored, state(true, false));
    assert!(written);
}

#[test]
fn second_window_wanting_keyboard_decides() {
    let mut stored = EguiWantsFocus::default();
    stored.update(&[NOTHING, KEYBOARD]);
    assert!(stored.curr);
    assert_eq!(stored, state(false, true));

    let mut swapped = EguiWantsFocus::default();
    swapped.update(&[KEYBOARD, NOTHING]);
    assert_eq!(swapped, stored);
}

#[test]
fn third_quiet_cycle_clears_previous() {
    let mut stored = EguiWantsFocus::default();
    stored.update(&[POINTER]);
    stored.update(&[NOTHING]);
    assert_eq!(stored, state(true, false));
    // What was current, false, moves into `prev`: the state differs and is written.
    let written = stored.update(&[NOTHING]);
    assert_eq!(stored, state(false, false));
    assert!(written);
}

#[test]
fn settled_state_is_not_written_again() {
    let mut stored = EguiWantsFocus::default();
    stored.update(&[POINTER]);
    stored.update(&[NOTHING]);
    stored.update(&[NOTHING]);
    let mut writes = 0;
    for _ in 0..5 {
        if stored.update(&[NOTHING]) {
            writes += 1;
        }
        assert_eq!(stored, state(false, false));
    }
    assert_eq!(writes, 0);

    let mut held = state(true, true);
    assert!(!held.update(&[KEYBOARD]));
    assert_eq!(held, state(true, true));
}

#[test]
fn writes_are_counted_only_on_change() {
    let mut stored = EguiWantsFocus::default();
    let frames: [&[WantedInput]; 8] = [
        &[],
        &[POINTER],
        &[POINTER],
        &[POINTER],
        &[NOTHING],
        &[NOTHING],
        &[NOTHING],
        &[KEYBOARD, NOTHING],
    ];
    let expected = [false, true, true, false, true, true, false, true];
    for (wanted, expect) in frames.iter().zip(expected) {
        let before = stored;
        let written = stored.update(wanted);
        assert_eq!(written, expect);
        assert_eq!(written, stored != before);
    }
}

#[test]
fn previous_is_what_current_was() {
    let frames: [&[WantedInput]; 6] =
        [&[POINTER], &[NOTHING], &[NOTHING, BOTH], &[KEYBOARD], &[], &[NOTHING]];
    for start in [state(false, false), state(false, true), state(true, false), state(true, true)] {
        let mut stored = start;
        for wanted in frames {
            let before = stored;
            stored.update(wanted);
            assert_eq!(stored.prev, before.curr);
            assert_eq!(stored.curr, overlays_want_focus(wanted));
        }
    }
}

#[test]
fn set_if_neq_skips_an_equal_value() {
    for prev in [false, true] {
        for curr in [false, true] {
            let mut stored = state(prev, curr);
            assert!(!stored.set_if_neq(state(prev, curr)));
            assert_eq!(stored, state(prev, curr));
        }
    }
}

#[test]
fn set_if_neq_stores_a_different_value() {
    let mut stored = state(false, false);
    assert!(stored.set_if_neq(state(false, true)));
    assert_eq!(stored, state(false, true));
    assert!(stored.set_if_neq(state(true, true)));
    assert_eq!(stored, state(true, true));
    assert!(stored.set_if_neq(state(false, false)));
    assert_eq!(stored, state(false, false));
}
