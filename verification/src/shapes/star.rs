//! A star: two overlapping equilateral triangles, the second rotated a
//! sixth of a turn, plus six "shine" line segments radiating from the
//! unit circle out to 1.2 times its radius.

use crate::fx::{fx_mul, spec_fx_mul, FX_LIMIT, FX_ONE};
use crate::shapes::matrices::{angle_wf, spec_angle_add, Angle, AngleS};
use crate::shapes::triangle::{Triangle, TriangleBuilder, COS_120, SIN_120};
use crate::shapes::matrices::Vec3S;
use crate::shapes::{euler_wf, Color, EulerAngles, Transform, Vertex, VertexS};
use vstd::prelude::*;

verus! {

/// How far the shine segments reach past the unit circle (1.2).
pub const SHINE_SCALE: i64 = 1_200_000;

/// Sine of 60 degrees.
pub const SIN_60: i64 = 866_025;

/// Cosine of 60 degrees.
pub const COS_60: i64 = 500_000;

/// The sine/cosine pair of `k` sixths of a turn.
pub open spec fn spec_hex_dir(k: int) -> AngleS {
    if k == 0 {
        AngleS { sin: 0, cos: FX_ONE as int }
    } else if k == 1 {
        AngleS { sin: SIN_60 as int, cos: COS_60 as int }
    } else if k == 2 {
        AngleS { sin: SIN_60 as int, cos: -(COS_60 as int) }
    } else if k == 3 {
        AngleS { sin: 0, cos: -(FX_ONE as int) }
    } else if k == 4 {
        AngleS { sin: -(SIN_60 as int), cos: -(COS_60 as int) }
    } else {
        AngleS { sin: -(SIN_60 as int), cos: COS_60 as int }
    }
}

/// The inner endpoint of shine segment `k`, on the unit circle.
pub open spec fn spec_shine_inner(k: int) -> VertexS {
    VertexS {
        position: Vec3S { x: spec_hex_dir(k).cos, y: spec_hex_dir(k).sin, z: 0 },
        u: 0,
        v: 0,
    }
}

/// The outer endpoint of shine segment `k`, 1.2 units out.
pub open spec fn spec_shine_outer(k: int) -> VertexS {
    VertexS {
        position: Vec3S {
            x: spec_fx_mul(spec_hex_dir(k).cos, SHINE_SCALE as int),
            y: spec_fx_mul(spec_hex_dir(k).sin, SHINE_SCALE as int),
            z: 0,
        },
        u: 0,
        v: 0,
    }
}

/// Shine segment `k` occupies slots `2k` and `2k + 1` of the list.
pub open spec fn spec_shine_pair(vs: Seq<Vertex>, k: int) -> bool {
    vs[2 * k]@ == spec_shine_inner(k) && vs[2 * k + 1]@ == spec_shine_outer(k)
}

/// A star mesh: its two triangles and the shine line-list vertices.
pub struct Star {
    pub triangles: Vec<Triangle>,
    pub shine_vertices: Vec<Vertex>,
}

/// The sine/cosine pair of `k` sixths of a turn.
fn hex_dir(k: usize) -> (a: Angle)
    requires
        k < 6,
    ensures
        a@ == spec_hex_dir(k as int),
        angle_wf(a@),
{
    if k == 0 {
        Angle::new(0, FX_ONE)
    } else if k == 1 {
        Angle::new(SIN_60, COS_60)
    } else if k == 2 {
        Angle::new(SIN_60, -COS_60)
    } else if k == 3 {
        Angle::new(0, -FX_ONE)
    } else if k == 4 {
        Angle::new(-SIN_60, -COS_60)
    } else {
        Angle::new(-SIN_60, COS_60)
    }
}

impl Star {
    /// A white star: two default triangles and the six shine segments,
    /// inner endpoints on the unit circle, outer ones 1.2 units out.
    pub fn new() -> (s: Star)
        ensures
            s.triangles@.len() == 2,
            forall|j: int|
                0 <= j < 2 ==> (#[trigger] s.triangles@[j]).color == (Color {
                    r: FX_ONE,
                    g: FX_ONE,
                    b: FX_ONE,
                }),
            forall|j: int| 0 <= j < 2 ==> (#[trigger] s.triangles@[j]).vertices@.len() == 3,
            s.shine_vertices@.len() == 12,
            forall|k: int| 0 <= k < 6 ==> #[trigger] spec_shine_pair(s.shine_vertices@, k),
    {
        let white = Color { r: FX_ONE, g: FX_ONE, b: FX_ONE };
        let mut triangles: Vec<Triangle> = Vec::new();
        triangles.push(TriangleBuilder::new().color(white).build());
        triangles.push(TriangleBuilder::new().color(white).build());
        let mut shine: Vec<Vertex> = Vec::new();
        let mut k: usize = 0;
        while k < 6
            invariant
                0 <= k <= 6,
                shine@.len() == 2 * k,
                forall|j: int| 0 <= j < k ==> #[trigger] spec_shine_pair(shine@, j),
            decreases 6 - k,
        {
            let d = hex_dir(k);
            let ghost pre = shine@;
            shine.push(Vertex::new(d.cos, d.sin, 0, 0, 0));
            shine.push(Vertex::new(fx_mul(d.cos, SHINE_SCALE), fx_mul(d.sin, SHINE_SCALE), 0, 0, 0));
            proof {
                assert forall|j: int| 0 <= j < k + 1 implies #[trigger] spec_shine_pair(
                    shine@,
                    j,
                ) by {
                    if j < k {
                        assert(spec_shine_pair(pre, j));
                        assert(shine@[2 * j] == pre[2 * j] && shine@[2 * j + 1] == pre[2 * j + 1]);
                    } else {
                        assert(shine@[2 * j]@ == spec_shine_inner(j) && shine@[2 * j + 1]@
                            == spec_shine_outer(j));
                    }
                }
            }
            k += 1;
        }
        Star { triangles, shine_vertices: shine }
    }

    /// The transform of the star's second triangle: the same transform
    /// with the self-rotation about z advanced by a sixth of a turn.
    pub fn second_triangle_transform(t: &Transform) -> (r: Transform)
        requires
            euler_wf(t.rotate_self),
        ensures
            r.translation == t.translation,
            r.rotation == t.rotation,
            r.scale == t.scale,
            r.view == t.view,
            r.rotate_self.x == t.rotate_self.x,
            r.rotate_self.y == t.rotate_self.y,
            r.rotate_self.z@ == spec_angle_add(
                t.rotate_self.z@,
                AngleS { sin: SIN_60 as int, cos: COS_60 as int },
            ),
    {
        let sixth = Angle::new(SIN_60, COS_60);
        let z = t.rotate_self.z.add(&sixth);
        Transform {
            rotate_self: EulerAngles { x: t.rotate_self.x, y: t.rotate_self.y, z },
            ..*t
        }
    }
}

} // verus!
