//! The event vocabulary of the scene, and the shared rules of the
//! parameter state machine: the per-key step and the clamps applied
//! after every keyboard event.

use crate::fx::{sat_add, spec_sat_add, FX_ONE};
use vstd::prelude::*;

verus! {

/// The keys the parameter controller reacts to. Anything else maps to
/// `Other` and is ignored.
#[derive(Clone, Copy, PartialEq, Eq, Structural, Debug)]
pub enum Key {
    W,
    A,
    S,
    D,
    J,
    K,
    Up,
    Down,
    Left,
    Right,
    Numpad2,
    Numpad4,
    Numpad5,
    Numpad6,
    Numpad8,
    NumpadSubtract,
    Other,
}

/// Whether a key went down or came back up.
#[derive(Clone, Copy, PartialEq, Eq, Structural, Debug)]
pub enum KeyState {
    Pressed,
    Released,
}

/// An event delivered by the window's event source. The controller
/// consumes keyboard and close events; everything else is a no-op.
#[derive(Clone, Copy, PartialEq, Eq, Structural, Debug)]
pub enum SceneEvent {
    Keyboard { state: KeyState, key: Key },
    CloseRequested,
    Resized,
    TimerElapsed,
    Other,
}

/// What the frame loop should do next: keep running, or stop because
/// the window was asked to close.
#[derive(Clone, Copy, PartialEq, Eq, Structural, Debug)]
pub enum LoopSignal {
    Proceed,
    Exit,
}

/// How far one key press moves a parameter (0.05).
pub const STEP: i64 = 50_000;

/// The grow parameter snaps up to 0.01 from below 0.02 and caps at one.
pub open spec fn spec_clamp_grow(grow: int) -> int {
    if grow < 20_000 {
        10_000
    } else if grow > FX_ONE {
        FX_ONE as int
    } else {
        grow
    }
}

/// The tilt parameter is held inside `[-1, 1]`.
pub open spec fn spec_clamp_tilt(tilt: int) -> int {
    if tilt > FX_ONE {
        FX_ONE as int
    } else if tilt < -FX_ONE {
        -FX_ONE
    } else {
        tilt
    }
}

/// Clamping twice is the same as clamping once, whatever the incoming
/// values, extremes included: both clamps land in a range they leave
/// unchanged.
pub proof fn lemma_clamp_idempotent(grow: int, tilt: int)
    ensures
        spec_clamp_grow(spec_clamp_grow(grow)) == spec_clamp_grow(grow),
        spec_clamp_tilt(spec_clamp_tilt(tilt)) == spec_clamp_tilt(tilt),
{
}

/// The grow clamp, after every keyboard event.
pub fn clamp_grow(grow: i64) -> (r: i64)
    ensures
        r == spec_clamp_grow(grow as int),
{
    if grow < 20_000 {
        10_000
    } else if grow > FX_ONE {
        FX_ONE
    } else {
        grow
    }
}

/// The tilt clamp, after every keyboard event.
pub fn clamp_tilt(tilt: i64) -> (r: i64)
    ensures
        r == spec_clamp_tilt(tilt as int),
{
    if tilt > FX_ONE {
        FX_ONE
    } else if tilt < -FX_ONE {
        -FX_ONE
    } else {
        tilt
    }
}

/// One saturating parameter step.
pub fn step_by(value: i64, delta: i64) -> (r: i64)
    ensures
        r == spec_sat_add(value as int, delta as int),
{
    sat_add(value, delta)
}

} // verus!
