//! The plain parameter controller: a bundle of animation parameters and
//! the function that feeds one event into them.

use crate::events::{
    clamp_grow, clamp_tilt, spec_clamp_grow, spec_clamp_tilt, step_by, Key, KeyState, LoopSignal,
    SceneEvent, STEP,
};
use crate::fx::spec_sat_add;
use vstd::prelude::*;

verus! {

/// Mathematical model of the parameter bundle.
pub struct MatrixParamsS {
    pub grow: int,
    pub tilt: int,
    pub spin: int,
    pub translate_x: int,
    pub translate_y: int,
}

/// The live animation parameters a scene is drawn from: scale of the
/// growing object, tilt and spin angles, and the pan offsets.
#[derive(Clone, Copy, PartialEq, Eq, Debug)]
pub struct MatrixParams {
    pub grow: i64,
    pub tilt: i64,
    pub spin: i64,
    pub translate_x: i64,
    pub translate_y: i64,
}

impl View for MatrixParams {
    type V = MatrixParamsS;

    open spec fn view(&self) -> MatrixParamsS {
        MatrixParamsS {
            grow: self.grow as int,
            tilt: self.tilt as int,
            spin: self.spin as int,
            translate_x: self.translate_x as int,
            translate_y: self.translate_y as int,
        }
    }
}

impl MatrixParams {
    pub fn new(grow: i64, tilt: i64, spin: i64, translate_x: i64, translate_y: i64) -> (p:
        MatrixParams)
        ensures
            p == (MatrixParams { grow, tilt, spin, translate_x, translate_y }),
    {
        MatrixParams { grow, tilt, spin, translate_x, translate_y }
    }
}

/// The effect of one pressed key: a saturating step on the parameter it
/// drives, nothing on the others.
pub open spec fn spec_params_step(p: MatrixParamsS, key: Key) -> MatrixParamsS {
    match key {
        Key::W => MatrixParamsS { grow: spec_sat_add(p.grow, STEP as int), ..p },
        Key::S => MatrixParamsS { grow: spec_sat_add(p.grow, -(STEP as int)), ..p },
        Key::A => MatrixParamsS { tilt: spec_sat_add(p.tilt, -(STEP as int)), ..p },
        Key::D => MatrixParamsS { tilt: spec_sat_add(p.tilt, STEP as int), ..p },
        Key::J => MatrixParamsS { spin: spec_sat_add(p.spin, STEP as int), ..p },
        Key::K => MatrixParamsS { spin: spec_sat_add(p.spin, -(STEP as int)), ..p },
        Key::Right => MatrixParamsS {
            translate_x: spec_sat_add(p.translate_x, STEP as int),
            ..p
        },
        Key::Left => MatrixParamsS {
            translate_x: spec_sat_add(p.translate_x, -(STEP as int)),
            ..p
        },
        Key::Up => MatrixParamsS { translate_y: spec_sat_add(p.translate_y, -(STEP as int)), ..p },
        Key::Down => MatrixParamsS { translate_y: spec_sat_add(p.translate_y, STEP as int), ..p },
        _ => p,
    }
}

/// The clamps applied after every keyboard event, whatever key fired.
pub open spec fn spec_params_clamp(p: MatrixParamsS) -> MatrixParamsS {
    MatrixParamsS { grow: spec_clamp_grow(p.grow), tilt: spec_clamp_tilt(p.tilt), ..p }
}

/// What one event does to the parameters: a pressed key steps its
/// parameter and the clamps run; a released key only runs the clamps;
/// any other event leaves the bundle alone.
pub open spec fn spec_params_handle(p: MatrixParamsS, ev: SceneEvent) -> MatrixParamsS {
    match ev {
        SceneEvent::Keyboard { state, key } => {
            let stepped = if state == KeyState::Pressed {
                spec_params_step(p, key)
            } else {
                p
            };
            spec_params_clamp(stepped)
        },
        _ => p,
    }
}

/// Feeds one event into the parameters: pressed keys step and clamp the
/// parameters, a close request flips the loop signal to `Exit`, and
/// every other event is ignored.
pub fn event_handle(ev: &SceneEvent, cf: &mut LoopSignal, params: &mut MatrixParams)
    ensures
        final(params)@ == spec_params_handle(old(params)@, *ev),
        *final(cf) == if *ev == SceneEvent::CloseRequested {
            LoopSignal::Exit
        } else {
            *old(cf)
        },
{
    match ev {
        SceneEvent::Keyboard { state, key } => {
            if *state == KeyState::Pressed {
                match key {
                    Key::W => params.grow = step_by(params.grow, STEP),
                    Key::S => params.grow = step_by(params.grow, -STEP),
                    Key::A => params.tilt = step_by(params.tilt, -STEP),
                    Key::D => params.tilt = step_by(params.tilt, STEP),
                    Key::J => params.spin = step_by(params.spin, STEP),
                    Key::K => params.spin = step_by(params.spin, -STEP),
                    Key::Right => params.translate_x = step_by(params.translate_x, STEP),
                    Key::Left => params.translate_x = step_by(params.translate_x, -STEP),
                    Key::Up => params.translate_y = step_by(params.translate_y, -STEP),
                    Key::Down => params.translate_y = step_by(params.translate_y, STEP),
                    _ => (),
                }
            }
            params.grow = clamp_grow(params.grow);
            params.tilt = clamp_tilt(params.tilt);
        },
        SceneEvent::CloseRequested => {
            *cf = LoopSignal::Exit;
        },
        _ => (),
    }
}

} // verus!
