//! The decision logic of a desktop pet: a small sprite that follows the
//! mouse cursor, wanders on a double click and switches between animations.
//!
//! The library decides; drawing, the window, the mouse and the clock belong
//! to the program around it, which hands in plain values and acts on what
//! comes back.

pub mod animation;
mod random;
pub mod wander;

pub use animation::{flip, AnimationConfig, Animations, Frame, Style, Travel};
pub use wander::{Motion, Point, Reaction, DQ};
