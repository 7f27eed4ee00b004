//! A planet with a flat ring: a sphere plus a circle of line-loop
//! vertices in the plane `y == 0`.

use crate::fx::{fx_mul, lemma_fx_mul_le, spec_fx_mul, FX_LIMIT};
use crate::shapes::matrices::{angle_wf, Angle, AngleS, Vec3S};
use crate::shapes::sphere::{angles_wf, Sphere};
use crate::shapes::{Vertex, VertexS};
use vstd::prelude::*;

verus! {

/// One vertex of the ring: the angle's cosine places it on x, its sine
/// on z, scaled by the ring radius.
pub open spec fn spec_ring_vertex(radius: int, a: AngleS) -> VertexS {
    VertexS {
        position: Vec3S { x: spec_fx_mul(a.cos, radius), y: 0, z: spec_fx_mul(a.sin, radius) },
        u: 0,
        v: 0,
    }
}

/// A ringed planet: the sphere and the ring's line-loop vertices.
pub struct RingPlanet {
    pub planet: Sphere,
    pub ring: Vec<Vertex>,
}

impl RingPlanet {
    /// A ring of the given radius around the given sphere, one vertex
    /// per degree. The ring must lie outside the planet.
    pub fn new(ring_radius: i64, sphere: Sphere, circle: &Vec<Angle>) -> (r: RingPlanet)
        requires
            0 < ring_radius <= FX_LIMIT,
            sphere.radius < ring_radius,
            circle@.len() == 360,
            angles_wf(circle@),
        ensures
            r.planet == sphere,
            r.ring@.len() == 360,
            forall|i: int|
                0 <= i < 360 ==> (#[trigger] r.ring@[i])@ == spec_ring_vertex(
                    ring_radius as int,
                    circle@[i]@,
                ),
    {
        let mut ring: Vec<Vertex> = Vec::new();
        let mut i: usize = 0;
        while i < 360
            invariant
                0 <= i <= 360,
                0 < ring_radius <= FX_LIMIT,
                circle@.len() == 360,
                angles_wf(circle@),
                ring@.len() == i,
                forall|j: int|
                    0 <= j < i ==> (#[trigger] ring@[j])@ == spec_ring_vertex(
                        ring_radius as int,
                        circle@[j]@,
                    ),
            decreases 360 - i,
        {
            proof {
                assert(angle_wf(circle@[i as int]@));
            }
            let a = circle[i];
            let x = fx_mul(a.cos, ring_radius);
            let z = fx_mul(a.sin, ring_radius);
            ring.push(Vertex::new(x, 0, z, 0, 0));
            i += 1;
        }
        RingPlanet { planet: sphere, ring }
    }
}

} // verus!
