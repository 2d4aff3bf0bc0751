//! Behavior core for an animated desktop companion overlay.
//!
//! The companion is a borderless always-on-top window showing an avatar that
//! plays animation clips and can be picked up and dragged across the screen.
//! This crate holds the engine-independent core of that behavior, verified:
//!
//! * [`window`] — tracking the union rectangle of all monitors and clamping
//!   requested window positions so the window stays fully on screen;
//! * [`gesture`] — a press-and-hold gesture recognizer that turns per-tick
//!   pointer samples into hold, pick-up and drag phases;
//! * [`animation`] — a clip scheduler that cycles through a playlist and
//!   honors externally requested one-shot or repeating clips;
//! * [`progress`] — the derived hold-progress value shown while holding.
//!
//! Rendering, window creation, input polling and clip loading stay with the
//! host engine; the core consumes plain samples and produces plain requests.

pub mod animation;
pub mod gesture;
pub mod progress;
pub mod window;
