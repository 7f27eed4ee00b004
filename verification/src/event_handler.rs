//! The full event handler: the animation parameters plus a free camera
//! that the numeric pad moves along its three axes.

use crate::events::{
    clamp_grow, clamp_tilt, spec_clamp_grow, spec_clamp_tilt, step_by, Key, KeyState, LoopSignal,
    SceneEvent, STEP,
};
use crate::fx::spec_sat_add;
use crate::shapes::matrices::{Vec3, Vec3S};
use vstd::prelude::*;

verus! {

/// Mathematical model of the handler's state.
pub struct EventHandlerS {
    pub grow: int,
    pub tilt: int,
    pub spin: int,
    pub translate_x: int,
    pub translate_y: int,
    pub direction: Vec3S,
    pub position: Vec3S,
    pub up: Vec3S,
}

/// The live state the handler accumulates: the animation parameters and
/// the free camera's direction, position and up vectors.
#[derive(Clone, Copy, PartialEq, Eq, Debug)]
pub struct EventHandler {
    pub grow: i64,
    pub tilt: i64,
    pub spin: i64,
    pub translate_x: i64,
    pub translate_y: i64,
    pub direction: Vec3,
    pub position: Vec3,
    pub up: Vec3,
}

impl View for EventHandler {
    type V = EventHandlerS;

    open spec fn view(&self) -> EventHandlerS {
        EventHandlerS {
            grow: self.grow as int,
            tilt: self.tilt as int,
            spin: self.spin as int,
            translate_x: self.translate_x as int,
            translate_y: self.translate_y as int,
            direction: self.direction@,
            position: self.position@,
            up: self.up@,
        }
    }
}

/// The effect of one pressed key: the letter and arrow keys step the
/// animation parameters, the numeric pad moves the camera position.
pub open spec fn spec_handler_step(h: EventHandlerS, key: Key) -> EventHandlerS {
    match key {
        Key::W => EventHandlerS { grow: spec_sat_add(h.grow, STEP as int), ..h },
        Key::S => EventHandlerS { grow: spec_sat_add(h.grow, -(STEP as int)), ..h },
        Key::A => EventHandlerS { tilt: spec_sat_add(h.tilt, -(STEP as int)), ..h },
        Key::D => EventHandlerS { tilt: spec_sat_add(h.tilt, STEP as int), ..h },
        Key::J => EventHandlerS { spin: spec_sat_add(h.spin, STEP as int), ..h },
        Key::K => EventHandlerS { spin: spec_sat_add(h.spin, -(STEP as int)), ..h },
        Key::Right => EventHandlerS { translate_x: spec_sat_add(h.translate_x, STEP as int), ..h },
        Key::Left => EventHandlerS {
            translate_x: spec_sat_add(h.translate_x, -(STEP as int)),
            ..h
        },
        Key::Up => EventHandlerS { translate_y: spec_sat_add(h.translate_y, -(STEP as int)), ..h },
        Key::Down => EventHandlerS { translate_y: spec_sat_add(h.translate_y, STEP as int), ..h },
        Key::Numpad8 => EventHandlerS {
            position: Vec3S { y: spec_sat_add(h.position.y, -(STEP as int)), ..h.position },
            ..h
        },
        Key::Numpad2 => EventHandlerS {
            position: Vec3S { y: spec_sat_add(h.position.y, STEP as int), ..h.position },
            ..h
        },
        Key::Numpad4 => EventHandlerS {
            position: Vec3S { x: spec_sat_add(h.position.x, STEP as int), ..h.position },
            ..h
        },
        Key::Numpad6 => EventHandlerS {
            position: Vec3S { x: spec_sat_add(h.position.x, -(STEP as int)), ..h.position },
            ..h
        },
        Key::Numpad5 => EventHandlerS {
            position: Vec3S { z: spec_sat_add(h.position.z, STEP as int), ..h.position },
            ..h
        },
        Key::NumpadSubtract => EventHandlerS {
            position: Vec3S { z: spec_sat_add(h.position.z, -(STEP as int)), ..h.position },
            ..h
        },
        _ => h,
    }
}

/// The clamps applied after every keyboard event.
pub open spec fn spec_handler_clamp(h: EventHandlerS) -> EventHandlerS {
    EventHandlerS { grow: spec_clamp_grow(h.grow), tilt: spec_clamp_tilt(h.tilt), ..h }
}

/// What one event does to the handler state.
pub open spec fn spec_handler_handle(h: EventHandlerS, ev: SceneEvent) -> EventHandlerS {
    match ev {
        SceneEvent::Keyboard { state, key } => {
            let stepped = if state == KeyState::Pressed {
                spec_handler_step(h, key)
            } else {
                h
            };
            spec_handler_clamp(stepped)
        },
        _ => h,
    }
}

impl EventHandler {
    pub fn new(
        grow: i64,
        tilt: i64,
        spin: i64,
        translate_x: i64,
        translate_y: i64,
        direction: Vec3,
        position: Vec3,
        up: Vec3,
    ) -> (h: EventHandler)
        ensures
            h == (EventHandler {
                grow,
                tilt,
                spin,
                translate_x,
                translate_y,
                direction,
                position,
                up,
            }),
    {
        EventHandler { grow, tilt, spin, translate_x, translate_y, direction, position, up }
    }

    /// Feeds one event into the handler: pressed keys step their
    /// parameter (or move the camera) and the clamps run, a close
    /// request flips the loop signal to `Exit`, and every other event
    /// is ignored.
    pub fn handle_event(&mut self, ev: &SceneEvent, cf: &mut LoopSignal)
        ensures
            final(self)@ == spec_handler_handle(old(self)@, *ev),
            *final(cf) == if *ev == SceneEvent::CloseRequested {
                LoopSignal::Exit
            } else {
                *old(cf)
            },
    {
        match ev {
            SceneEvent::Keyboard { state, key } => {
                if *state == KeyState::Pressed {
                    match key {
                        Key::W => self.grow = step_by(self.grow, STEP),
                        Key::S => self.grow = step_by(self.grow, -STEP),
                        Key::A => self.tilt = step_by(self.tilt, -STEP),
                        Key::D => self.tilt = step_by(self.tilt, STEP),
                        Key::J => self.spin = step_by(self.spin, STEP),
                        Key::K => self.spin = step_by(self.spin, -STEP),
                        Key::Right => self.translate_x = step_by(self.translate_x, STEP),
                        Key::Left => self.translate_x = step_by(self.translate_x, -STEP),
                        Key::Up => self.translate_y = step_by(self.translate_y, -STEP),
                        Key::Down => self.translate_y = step_by(self.translate_y, STEP),
                        Key::Numpad8 => self.position.y = step_by(self.position.y, -STEP),
                        Key::Numpad2 => self.position.y = step_by(self.position.y, STEP),
                        Key::Numpad4 => self.position.x = step_by(self.position.x, STEP),
                        Key::Numpad6 => self.position.x = step_by(self.position.x, -STEP),
                        Key::Numpad5 => self.position.z = step_by(self.position.z, STEP),
                        Key::NumpadSubtract => self.position.z = step_by(self.position.z, -STEP),
                        _ => (),
                    }
                }
                self.grow = clamp_grow(self.grow);
                self.tilt = clamp_tilt(self.tilt);
            },
            SceneEvent::CloseRequested => {
                *cf = LoopSignal::Exit;
            },
            _ => (),
        }
    }
}

} // verus!
