//! Shapes of the scene and the data they are built from: vertices, fills,
//! per-object transforms, and the range-mapping helper the starfield
//! animation uses.

pub mod cube;
pub mod matrices;
pub mod ring_planet;
pub mod sky;
pub mod sphere;
pub mod star;
pub mod triangle;

use crate::fx::{trunc_div, FX_ONE};
use crate::shapes::matrices::{
    angle_wf, scale, spec_angle_zero, spec_camera_ok, spec_rotate, spec_scale, spec_translate,
    spec_view_matrix, translate, view_matrix, Angle, AngleS, Mat4, Vec3, Vec3S,
};
use vstd::prelude::*;

verus! {

/// An RGB color, each channel a fixed-point scalar in `[0, 1]`.
#[derive(Clone, Copy, PartialEq, Eq, Debug)]
pub struct Color {
    pub r: i64,
    pub g: i64,
    pub b: i64,
}

impl Color {
    pub fn new(r: i64, g: i64, b: i64) -> (c: Color)
        ensures
            c == (Color { r, g, b }),
    {
        Color { r, g, b }
    }
}

/// The surface appearance of a shape: a flat color, or a texture named
/// by the opaque handle under which the renderer registered it.
#[derive(Clone, Copy, PartialEq, Eq, Debug)]
pub enum Filling {
    Color(Color),
    Texture(u64),
}

impl Filling {
    /// The color, when this fill is a color.
    pub fn get_color(&self) -> (r: Option<Color>)
        ensures
            r == (match *self {
                Filling::Color(c) => Some(c),
                Filling::Texture(_) => None::<Color>,
            }),
    {
        if let Filling::Color(color) = self {
            Some(*color)
        } else {
            None
        }
    }

    /// The texture handle, when this fill is a texture.
    pub fn get_texture(&self) -> (r: Option<u64>)
        ensures
            r == (match *self {
                Filling::Color(_) => None::<u64>,
                Filling::Texture(t) => Some(t),
            }),
    {
        if let Filling::Texture(texture) = self {
            Some(*texture)
        } else {
            None
        }
    }
}

/// Mathematical model of a vertex.
pub struct VertexS {
    pub position: Vec3S,
    pub u: int,
    pub v: int,
}

/// Texture coordinates of a vertex.
#[derive(Clone, Copy, PartialEq, Eq, Debug)]
pub struct Uv {
    pub u: i64,
    pub v: i64,
}

/// A mesh vertex: a position and its texture coordinates.
///
/// The texture coordinates follow the spherical convention
/// `u = -(1/2 + longitude turn fraction)`, `v = 1/2 + latitude fraction`;
/// each generator derives them from its own angular layout and passes
/// them in, since positions alone do not determine them exactly. Shapes
/// drawn in a flat color carry `(0, 0)`.
#[derive(Clone, Copy, PartialEq, Eq, Debug)]
pub struct Vertex {
    pub position: Vec3,
    pub tex_coords: Uv,
}

impl View for Vertex {
    type V = VertexS;

    open spec fn view(&self) -> VertexS {
        VertexS {
            position: self.position@,
            u: self.tex_coords.u as int,
            v: self.tex_coords.v as int,
        }
    }
}

impl Vertex {
    pub fn new(p0: i64, p1: i64, p2: i64, u: i64, v: i64) -> (vx: Vertex)
        ensures
            vx@ == (VertexS {
                position: Vec3S { x: p0 as int, y: p1 as int, z: p2 as int },
                u: u as int,
                v: v as int,
            }),
    {
        Vertex { position: Vec3 { x: p0, y: p1, z: p2 }, tex_coords: Uv { u, v } }
    }
}

/// Magnitude bound on the arguments of [`map_range`].
pub const MAP_LIMIT: i64 = 1_000_000_000;

/// The affine map sending `[from_start, from_end]` onto
/// `[to_start, to_end]`, evaluated at `value` with one truncating
/// division.
pub open spec fn spec_map_range(
    from_start: int,
    from_end: int,
    to_start: int,
    to_end: int,
    value: int,
) -> int {
    trunc_div((value - from_start) * (to_end - to_start), from_end - from_start) + to_start
}

/// Maps `value` from the range `from` onto the range `to`.
pub fn map_range(from: (i64, i64), to: (i64, i64), value: i64) -> (r: i64)
    requires
        from.0 < from.1,
        -MAP_LIMIT <= from.0 <= MAP_LIMIT,
        -MAP_LIMIT <= from.1 <= MAP_LIMIT,
        -MAP_LIMIT <= to.0 <= MAP_LIMIT,
        -MAP_LIMIT <= to.1 <= MAP_LIMIT,
        -MAP_LIMIT <= value <= MAP_LIMIT,
    ensures
        r == spec_map_range(from.0 as int, from.1 as int, to.0 as int, to.1 as int, value as int),
{
    let (from_start, from_end) = from;
    let (to_start, to_end) = to;
    let from_range = from_end - from_start;
    let to_range = to_end - to_start;
    let from_value = value - from_start;
    proof {
        assert(-4_000_000_000_000_000_000int <= from_value as int * to_range
            <= 4_000_000_000_000_000_000int) by (nonlinear_arith)
            requires
                -2_000_000_000int <= from_value <= 2_000_000_000int,
                -2_000_000_000int <= to_range <= 2_000_000_000int,
        ;
        crate::fx::lemma_trunc_div_le(
            from_value as int * to_range,
            from_range as int,
            4_000_000_000_000_000_000int,
        );
    }
    let to_value = from_value * to_range / from_range + to_start;
    to_value
}

/// The euler angles of a rotation, one per axis.
#[derive(Clone, Copy, PartialEq, Eq, Debug)]
pub struct EulerAngles {
    pub x: Angle,
    pub y: Angle,
    pub z: Angle,
}

impl EulerAngles {
    /// No rotation about any axis.
    pub fn zero() -> (e: EulerAngles)
        ensures
            e.x@ == spec_angle_zero(),
            e.y@ == spec_angle_zero(),
            e.z@ == spec_angle_zero(),
    {
        EulerAngles { x: Angle::zero(), y: Angle::zero(), z: Angle::zero() }
    }
}

/// All three angles carry sine/cosine pairs within one.
pub open spec fn euler_wf(e: EulerAngles) -> bool {
    angle_wf(e.x@) && angle_wf(e.y@) && angle_wf(e.z@)
}

/// The camera of a transform: where the eye sits, where it looks, and
/// which way is up.
#[derive(Clone, Copy, PartialEq, Eq, Debug)]
pub struct Camera {
    pub direction: Vec3,
    pub position: Vec3,
    pub up: Vec3,
}

/// The per-object, per-frame placement parameters: orbital translation
/// and rotation, spin about the object's own axes, uniform scale, and
/// the camera.
#[derive(Clone, Copy, PartialEq, Eq, Debug)]
pub struct Transform {
    pub translation: Vec3,
    pub rotation: EulerAngles,
    pub rotate_self: EulerAngles,
    pub scale: i64,
    pub view: Camera,
}

/// A transform whose matrices can all be derived: well-formed angles and
/// a usable camera.
pub open spec fn transform_wf(t: Transform) -> bool {
    &&& euler_wf(t.rotation)
    &&& euler_wf(t.rotate_self)
    &&& spec_camera_ok(t.view.position@, t.view.direction@, t.view.up@)
}

impl Default for Transform {
    /// No translation or rotation, unit scale, and the stock camera two
    /// units to the left, looking along positive z.
    fn default() -> (t: Self)
        ensures
            t.translation@ == (Vec3S { x: 0, y: 0, z: 0 }),
            t.rotation.x@ == spec_angle_zero(),
            t.rotation.y@ == spec_angle_zero(),
            t.rotation.z@ == spec_angle_zero(),
            t.rotate_self.x@ == spec_angle_zero(),
            t.rotate_self.y@ == spec_angle_zero(),
            t.rotate_self.z@ == spec_angle_zero(),
            t.scale == FX_ONE,
            t.view.direction@ == (Vec3S { x: 0, y: 0, z: FX_ONE as int }),
            t.view.position@ == (Vec3S { x: -2 * FX_ONE, y: FX_ONE as int, z: FX_ONE as int }),
            t.view.up@ == (Vec3S { x: 0, y: FX_ONE as int, z: 0 }),
            transform_wf(t),
    {
        let t = Transform {
            translation: Vec3::zero(),
            rotation: EulerAngles::zero(),
            rotate_self: EulerAngles::zero(),
            scale: FX_ONE,
            view: Camera {
                direction: Vec3::new(0, 0, FX_ONE),
                position: Vec3::new(-2 * FX_ONE, FX_ONE, FX_ONE),
                up: Vec3::new(0, FX_ONE, 0),
            },
        };
        proof {
            lemma_default_camera_ok();
        }
        t
    }
}

/// The stock camera is usable: its direction is the unit z vector, whose
/// cross product with the unit y up vector has positive length.
proof fn lemma_default_camera_ok()
    ensures
        spec_camera_ok(
            Vec3S { x: -2 * FX_ONE, y: FX_ONE as int, z: FX_ONE as int },
            Vec3S { x: 0, y: 0, z: FX_ONE as int },
            Vec3S { x: 0, y: FX_ONE as int, z: 0 },
        ),
{
    let one = FX_ONE as int;
    let dir = Vec3S { x: 0, y: 0, z: one };
    let up = Vec3S { x: 0, y: one, z: 0 };
    assert(one * one == 1_000_000_000_000int) by (nonlinear_arith)
        requires
            one == 1_000_000int,
    ;
    assert(0int * 0int == 0 && 0int * one == 0 && one * 0int == 0) by (nonlinear_arith);
    assert(matrices::spec_vec_norm2(dir) == 1_000_000_000_000int);
    assert(1_000_000nat * 1_000_000nat == 1_000_000_000_000nat) by (nonlinear_arith);
    assert(1_000_001nat * 1_000_001nat > 1_000_000_000_000nat) by (nonlinear_arith);
    crate::fx::lemma_isqrt_unique(1_000_000_000_000nat, 1_000_000nat);
    assert(matrices::spec_vec_len(dir) == 1_000_000int);
    crate::fx::lemma_trunc_div_exact(0, 1_000_000int);
    assert(trunc_div(0 * FX_ONE, 1_000_000int) == 0);
    crate::fx::lemma_trunc_div_exact(1_000_000int, 1_000_000int);
    assert(one * FX_ONE == 1_000_000int * 1_000_000int) by (nonlinear_arith)
        requires
            one == 1_000_000int,
            FX_ONE == 1_000_000,
    ;
    let f = matrices::spec_vec_normalize(dir);
    assert(f == (Vec3S { x: 0, y: 0, z: 1_000_000int }));
    let s = matrices::spec_vec_cross_fx(up, f);
    crate::fx::lemma_fx_mul_one(one);
    crate::fx::lemma_fx_mul_zero(0);
    crate::fx::lemma_fx_mul_zero(one);
    crate::fx::lemma_fx_mul_zero(1_000_000int);
    assert(crate::fx::spec_fx_mul(one, 1_000_000int) == 1_000_000int);
    assert(s.x == 1_000_000int && s.y == 0 && s.z == 0);
    assert(1_000_000int * 1_000_000int + 0 * 0 + 0 * 0 > 0) by (nonlinear_arith);
    assert(matrices::spec_vec_norm2(s) > 0);
}

impl Transform {
    /// The translation matrix for this transform.
    pub fn get_translation(&self) -> (m: Mat4)
        ensures
            m@ == spec_translate(
                self.translation@.x,
                self.translation@.y,
                self.translation@.z,
            ),
    {
        translate(self.translation.x, self.translation.y, self.translation.z)
    }

    /// The orbital rotation matrix for this transform.
    pub fn get_rotation(&self) -> (m: Mat4)
        requires
            euler_wf(self.rotation),
        ensures
            m@ == spec_rotate(self.rotation.x@, self.rotation.y@, self.rotation.z@),
    {
        matrices::rotate(&self.rotation.x, &self.rotation.y, &self.rotation.z)
    }

    /// The uniform scaling matrix for this transform.
    pub fn get_scaling(&self) -> (m: Mat4)
        ensures
            m@ == spec_scale(self.scale as int),
    {
        scale(self.scale)
    }

    /// The spin matrix: rotation of the object about its own axes.
    pub fn get_self_rotation(&self) -> (m: Mat4)
        requires
            euler_wf(self.rotate_self),
        ensures
            m@ == spec_rotate(self.rotate_self.x@, self.rotate_self.y@, self.rotate_self.z@),
    {
        matrices::rotate(&self.rotate_self.x, &self.rotate_self.y, &self.rotate_self.z)
    }

    /// The view matrix of this transform's camera.
    pub fn get_view(&self) -> (m: Mat4)
        requires
            spec_camera_ok(self.view.position@, self.view.direction@, self.view.up@),
        ensures
            m@ == spec_view_matrix(self.view.position@, self.view.direction@, self.view.up@),
    {
        view_matrix(&self.view.position, &self.view.direction, &self.view.up)
    }
}

} // verus!
