//! A small celestial-scene library: procedural meshes for a handful of
//! shapes (sphere, cube, ring, star, triangle, starfield), a 4x4 matrix
//! pipeline that places them, and a keyboard-driven parameter state machine.
//!
//! All scalar quantities are decimal fixed-point numbers (see [`fx`]):
//! an `i64` holds the real value times one million. Angles are carried as
//! their sine/cosine pair, so the trigonometric evaluation itself is left
//! to the caller while every downstream computation is exact integer
//! arithmetic with a stated contract.

pub mod event_handle;
pub mod event_handler;
pub mod events;
pub mod fx;
pub mod shapes;
