//! Tracks, frame to frame, whether an immediate-mode GUI overlay wants to
//! consume pointer or keyboard input, so that systems behind the overlay can
//! leave that input alone.

pub mod focus;
pub mod host;
pub mod wanted;

pub use focus::EguiWantsFocus;
pub use host::{check_egui_wants_focus, poll_overlays, OpenWindows};
pub use wanted::{any_wants_focus, overlays_want_focus, WantedInput};
