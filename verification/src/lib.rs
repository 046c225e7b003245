//! Deterministic playback core for an embedded pass/boot animation simulator.
//!
//! The crate models the device firmware's playback pipeline: a top-level
//! finite state machine over play states, a three-phase transition engine,
//! a cubic-bezier easing solver in fixed-point arithmetic, and the per-frame
//! derivation of every animatable quantity (typewriter reveal, e-ink blink
//! cycling, fade radii, bar sweeps, arrow scrolling, entry slide-in).
//! All quantities are integers; fractional values such as transition
//! progress and easing results are carried in millionths (`easing::UNIT`).

pub mod animation;
pub mod barcode;
pub mod color;
pub mod easing;
pub mod epconfig;
pub mod firmware_config;
pub mod machine;
pub mod overlay;
pub mod protocol;
pub mod state;
pub mod transition;
