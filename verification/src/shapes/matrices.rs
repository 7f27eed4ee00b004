//! 4x4 matrices for the transform pipeline.
//!
//! Matrices are row-major `i64` grids of fixed-point scalars, laid out as
//! the graphics backend consumes them: a point is a row vector and the
//! translation terms live in the last row. `rotate` composes the three
//! Euler rotations (X, then Y, then Z) in one closed-form matrix built
//! from the angles' sine/cosine pairs, so equal angle pairs always yield
//! bit-identical matrices.

use crate::fx::{
    fx_div, fx_mul, isqrt, lemma_fx_mul_le, lemma_square_le_isqrt, lemma_isqrt_le,
    lemma_trunc_div_le, lemma_trunc_div_sign, spec_fx_div, spec_fx_mul, spec_isqrt, trunc_div,
    FX_DIV_LIMIT, FX_LIMIT, FX_ONE,
};
use vstd::prelude::*;

verus! {

/// Magnitude bound on the entries of matrices that may be multiplied
/// together (real magnitude 1500): four products of such entries still
/// fit in an `i64`.
pub const MAT_LIMIT: i64 = 1_500_000_000;

/// Component bound accepted by the length and normalization helpers.
pub const NORM_LIMIT: i64 = 4_000_000_000;

/// Mathematical model of a three-component vector.
pub struct Vec3S {
    pub x: int,
    pub y: int,
    pub z: int,
}

/// A three-component vector of fixed-point scalars.
#[derive(Clone, Copy, PartialEq, Eq, Debug)]
pub struct Vec3 {
    pub x: i64,
    pub y: i64,
    pub z: i64,
}

impl View for Vec3 {
    type V = Vec3S;

    open spec fn view(&self) -> Vec3S {
        Vec3S { x: self.x as int, y: self.y as int, z: self.z as int }
    }
}

impl Vec3 {
    pub fn new(x: i64, y: i64, z: i64) -> (v: Vec3)
        ensures
            v@ == (Vec3S { x: x as int, y: y as int, z: z as int }),
    {
        Vec3 { x, y, z }
    }

    pub fn zero() -> (v: Vec3)
        ensures
            v@ == (Vec3S { x: 0, y: 0, z: 0 }),
    {
        Vec3 { x: 0, y: 0, z: 0 }
    }
}

/// All three components lie within `limit`.
pub open spec fn vec_bounded(v: Vec3S, limit: int) -> bool {
    &&& -limit <= v.x <= limit
    &&& -limit <= v.y <= limit
    &&& -limit <= v.z <= limit
}

/// Mathematical model of an angle: its sine and cosine.
pub struct AngleS {
    pub sin: int,
    pub cos: int,
}

/// An angle, represented by its fixed-point sine/cosine pair. The caller
/// evaluates the trigonometry once; everything downstream is exact
/// integer arithmetic on the pair.
#[derive(Clone, Copy, PartialEq, Eq, Debug)]
pub struct Angle {
    pub sin: i64,
    pub cos: i64,
}

impl View for Angle {
    type V = AngleS;

    open spec fn view(&self) -> AngleS {
        AngleS { sin: self.sin as int, cos: self.cos as int }
    }
}

/// Sine and cosine both lie within one; anything larger is no angle.
pub open spec fn angle_wf(a: AngleS) -> bool {
    &&& -(FX_ONE as int) <= a.sin <= FX_ONE as int
    &&& -(FX_ONE as int) <= a.cos <= FX_ONE as int
}

/// The model of the sum of two angles, by the addition formulas.
pub open spec fn spec_angle_add(a: AngleS, b: AngleS) -> AngleS {
    AngleS {
        sin: spec_fx_mul(a.sin, b.cos) + spec_fx_mul(a.cos, b.sin),
        cos: spec_fx_mul(a.cos, b.cos) - spec_fx_mul(a.sin, b.sin),
    }
}

impl Angle {
    /// The zero angle.
    pub fn zero() -> (a: Angle)
        ensures
            a@ == (AngleS { sin: 0, cos: FX_ONE as int }),
            angle_wf(a@),
    {
        Angle { sin: 0, cos: FX_ONE }
    }

    pub fn new(sin: i64, cos: i64) -> (a: Angle)
        ensures
            a@ == (AngleS { sin: sin as int, cos: cos as int }),
    {
        Angle { sin, cos }
    }

    /// The opposite angle: sine flips, cosine stays.
    pub fn neg(&self) -> (a: Angle)
        requires
            angle_wf(self@),
        ensures
            a@ == (AngleS { sin: -self@.sin, cos: self@.cos }),
            angle_wf(a@),
    {
        Angle { sin: -self.sin, cos: self.cos }
    }

    /// The sum of two angles, by the sine/cosine addition formulas.
    pub fn add(&self, other: &Angle) -> (a: Angle)
        requires
            angle_wf(self@),
            angle_wf(other@),
        ensures
            a@ == spec_angle_add(self@, other@),
            -2 * FX_ONE <= a@.sin <= 2 * FX_ONE,
            -2 * FX_ONE <= a@.cos <= 2 * FX_ONE,
    {
        let s = fx_mul(self.sin, other.cos);
        let t = fx_mul(self.cos, other.sin);
        let c1 = fx_mul(self.cos, other.cos);
        let c2 = fx_mul(self.sin, other.sin);
        proof {
            lemma_fx_mul_le(self@.sin, other@.cos, FX_ONE as int);
            lemma_fx_mul_le(self@.cos, other@.sin, FX_ONE as int);
            lemma_fx_mul_le(self@.cos, other@.cos, FX_ONE as int);
            lemma_fx_mul_le(self@.sin, other@.sin, FX_ONE as int);
        }
        Angle { sin: s + t, cos: c1 - c2 }
    }
}

/// Mathematical model of a 4x4 matrix; `mRC` is row `R`, column `C`.
pub struct MatS {
    pub m00: int, pub m01: int, pub m02: int, pub m03: int,
    pub m10: int, pub m11: int, pub m12: int, pub m13: int,
    pub m20: int, pub m21: int, pub m22: int, pub m23: int,
    pub m30: int, pub m31: int, pub m32: int, pub m33: int,
}

/// A row-major 4x4 matrix of fixed-point scalars.
#[derive(Clone, Copy, PartialEq, Eq, Debug)]
pub struct Mat4 {
    pub m00: i64, pub m01: i64, pub m02: i64, pub m03: i64,
    pub m10: i64, pub m11: i64, pub m12: i64, pub m13: i64,
    pub m20: i64, pub m21: i64, pub m22: i64, pub m23: i64,
    pub m30: i64, pub m31: i64, pub m32: i64, pub m33: i64,
}

impl View for Mat4 {
    type V = MatS;

    open spec fn view(&self) -> MatS {
        MatS {
            m00: self.m00 as int, m01: self.m01 as int, m02: self.m02 as int, m03: self.m03 as int,
            m10: self.m10 as int, m11: self.m11 as int, m12: self.m12 as int, m13: self.m13 as int,
            m20: self.m20 as int, m21: self.m21 as int, m22: self.m22 as int, m23: self.m23 as int,
            m30: self.m30 as int, m31: self.m31 as int, m32: self.m32 as int, m33: self.m33 as int,
        }
    }
}

/// Every entry lies within `limit`.
pub open spec fn mat_bounded(m: MatS, limit: int) -> bool {
    &&& -limit <= m.m00 <= limit && -limit <= m.m01 <= limit && -limit <= m.m02 <= limit
        && -limit <= m.m03 <= limit
    &&& -limit <= m.m10 <= limit && -limit <= m.m11 <= limit && -limit <= m.m12 <= limit
        && -limit <= m.m13 <= limit
    &&& -limit <= m.m20 <= limit && -limit <= m.m21 <= limit && -limit <= m.m22 <= limit
        && -limit <= m.m23 <= limit
    &&& -limit <= m.m30 <= limit && -limit <= m.m31 <= limit && -limit <= m.m32 <= limit
        && -limit <= m.m33 <= limit
}

/// The identity matrix.
pub open spec fn spec_identity() -> MatS {
    MatS {
        m00: FX_ONE as int, m01: 0, m02: 0, m03: 0,
        m10: 0, m11: FX_ONE as int, m12: 0, m13: 0,
        m20: 0, m21: 0, m22: FX_ONE as int, m23: 0,
        m30: 0, m31: 0, m32: 0, m33: FX_ONE as int,
    }
}

/// Identity with the translation row set to `(x, y, z)`.
pub open spec fn spec_translate(x: int, y: int, z: int) -> MatS {
    MatS {
        m00: FX_ONE as int, m01: 0, m02: 0, m03: 0,
        m10: 0, m11: FX_ONE as int, m12: 0, m13: 0,
        m20: 0, m21: 0, m22: FX_ONE as int, m23: 0,
        m30: x, m31: y, m32: z, m33: FX_ONE as int,
    }
}

/// Uniform scale on x, y and z; identity on w.
pub open spec fn spec_scale(s: int) -> MatS {
    MatS {
        m00: s, m01: 0, m02: 0, m03: 0,
        m10: 0, m11: s, m12: 0, m13: 0,
        m20: 0, m21: 0, m22: s, m23: 0,
        m30: 0, m31: 0, m32: 0, m33: FX_ONE as int,
    }
}

/// The combined Euler rotation: X by `ax`, then Y by `ay`, then Z by `az`,
/// expanded in closed form.
pub open spec fn spec_rotate(ax: AngleS, ay: AngleS, az: AngleS) -> MatS {
    MatS {
        m00: spec_fx_mul(az.cos, ay.cos),
        m01: spec_fx_mul(spec_fx_mul(az.cos, ay.sin), ax.sin) - spec_fx_mul(az.sin, ax.cos),
        m02: spec_fx_mul(spec_fx_mul(az.cos, ay.sin), ax.cos) + spec_fx_mul(az.sin, ax.sin),
        m03: 0,
        m10: spec_fx_mul(az.sin, ay.cos),
        m11: spec_fx_mul(spec_fx_mul(az.sin, ay.sin), ax.sin) + spec_fx_mul(az.cos, ax.cos),
        m12: spec_fx_mul(spec_fx_mul(az.sin, ay.sin), ax.cos) - spec_fx_mul(az.cos, ax.sin),
        m13: 0,
        m20: -ay.sin,
        m21: spec_fx_mul(ay.cos, ax.sin),
        m22: spec_fx_mul(ax.cos, ay.cos),
        m23: 0,
        m30: 0, m31: 0, m32: 0, m33: FX_ONE as int,
    }
}

/// The fixed-point matrix product: each entry is the four-term dot
/// product of a row and a column, rescaled once.
pub open spec fn spec_mat4_mul(a: MatS, b: MatS) -> MatS {
    MatS {
        m00: trunc_div(a.m00 * b.m00 + a.m01 * b.m10 + a.m02 * b.m20 + a.m03 * b.m30, FX_ONE as int),
        m01: trunc_div(a.m00 * b.m01 + a.m01 * b.m11 + a.m02 * b.m21 + a.m03 * b.m31, FX_ONE as int),
        m02: trunc_div(a.m00 * b.m02 + a.m01 * b.m12 + a.m02 * b.m22 + a.m03 * b.m32, FX_ONE as int),
        m03: trunc_div(a.m00 * b.m03 + a.m01 * b.m13 + a.m02 * b.m23 + a.m03 * b.m33, FX_ONE as int),
        m10: trunc_div(a.m10 * b.m00 + a.m11 * b.m10 + a.m12 * b.m20 + a.m13 * b.m30, FX_ONE as int),
        m11: trunc_div(a.m10 * b.m01 + a.m11 * b.m11 + a.m12 * b.m21 + a.m13 * b.m31, FX_ONE as int),
        m12: trunc_div(a.m10 * b.m02 + a.m11 * b.m12 + a.m12 * b.m22 + a.m13 * b.m32, FX_ONE as int),
        m13: trunc_div(a.m10 * b.m03 + a.m11 * b.m13 + a.m12 * b.m23 + a.m13 * b.m33, FX_ONE as int),
        m20: trunc_div(a.m20 * b.m00 + a.m21 * b.m10 + a.m22 * b.m20 + a.m23 * b.m30, FX_ONE as int),
        m21: trunc_div(a.m20 * b.m01 + a.m21 * b.m11 + a.m22 * b.m21 + a.m23 * b.m31, FX_ONE as int),
        m22: trunc_div(a.m20 * b.m02 + a.m21 * b.m12 + a.m22 * b.m22 + a.m23 * b.m32, FX_ONE as int),
        m23: trunc_div(a.m20 * b.m03 + a.m21 * b.m13 + a.m22 * b.m23 + a.m23 * b.m33, FX_ONE as int),
        m30: trunc_div(a.m30 * b.m00 + a.m31 * b.m10 + a.m32 * b.m20 + a.m33 * b.m30, FX_ONE as int),
        m31: trunc_div(a.m30 * b.m01 + a.m31 * b.m11 + a.m32 * b.m21 + a.m33 * b.m31, FX_ONE as int),
        m32: trunc_div(a.m30 * b.m02 + a.m31 * b.m12 + a.m32 * b.m22 + a.m33 * b.m32, FX_ONE as int),
        m33: trunc_div(a.m30 * b.m03 + a.m31 * b.m13 + a.m32 * b.m23 + a.m33 * b.m33, FX_ONE as int),
    }
}

/// The identity matrix.
pub fn identity() -> (m: Mat4)
    ensures
        m@ == spec_identity(),
{
    Mat4 {
        m00: FX_ONE, m01: 0, m02: 0, m03: 0,
        m10: 0, m11: FX_ONE, m12: 0, m13: 0,
        m20: 0, m21: 0, m22: FX_ONE, m23: 0,
        m30: 0, m31: 0, m32: 0, m33: FX_ONE,
    }
}

/// A matrix translating by `(x, y, z)`.
pub fn translate(x: i64, y: i64, z: i64) -> (m: Mat4)
    ensures
        m@ == spec_translate(x as int, y as int, z as int),
{
    Mat4 {
        m00: FX_ONE, m01: 0, m02: 0, m03: 0,
        m10: 0, m11: FX_ONE, m12: 0, m13: 0,
        m20: 0, m21: 0, m22: FX_ONE, m23: 0,
        m30: x, m31: y, m32: z, m33: FX_ONE,
    }
}

/// A matrix scaling uniformly by `s`.
pub fn scale(s: i64) -> (m: Mat4)
    ensures
        m@ == spec_scale(s as int),
{
    Mat4 {
        m00: s, m01: 0, m02: 0, m03: 0,
        m10: 0, m11: s, m12: 0, m13: 0,
        m20: 0, m21: 0, m22: s, m23: 0,
        m30: 0, m31: 0, m32: 0, m33: FX_ONE,
    }
}

/// The combined Euler rotation matrix: X by `ax`, then Y by `ay`, then Z
/// by `az`, built in closed form from the three sine/cosine pairs.
pub fn rotate(ax: &Angle, ay: &Angle, az: &Angle) -> (m: Mat4)
    requires
        angle_wf(ax@),
        angle_wf(ay@),
        angle_wf(az@),
    ensures
        m@ == spec_rotate(ax@, ay@, az@),
        mat_bounded(m@, 2 * FX_ONE),
{
    let ghost one = FX_ONE as int;
    let czsy = fx_mul(az.cos, ay.sin);
    let szsy = fx_mul(az.sin, ay.sin);
    proof {
        lemma_fx_mul_le(az@.cos, ay@.sin, one);
        lemma_fx_mul_le(az@.sin, ay@.sin, one);
    }
    let m00 = fx_mul(az.cos, ay.cos);
    let m01a = fx_mul(czsy, ax.sin);
    let m01b = fx_mul(az.sin, ax.cos);
    let m02a = fx_mul(czsy, ax.cos);
    let m02b = fx_mul(az.sin, ax.sin);
    let m10 = fx_mul(az.sin, ay.cos);
    let m11a = fx_mul(szsy, ax.sin);
    let m11b = fx_mul(az.cos, ax.cos);
    let m12a = fx_mul(szsy, ax.cos);
    let m12b = fx_mul(az.cos, ax.sin);
    let m21 = fx_mul(ay.cos, ax.sin);
    let m22 = fx_mul(ax.cos, ay.cos);
    proof {
        lemma_fx_mul_le(az@.cos, ay@.cos, one);
        lemma_fx_mul_le(czsy as int, ax@.sin, one);
        lemma_fx_mul_le(az@.sin, ax@.cos, one);
        lemma_fx_mul_le(czsy as int, ax@.cos, one);
        lemma_fx_mul_le(az@.sin, ax@.sin, one);
        lemma_fx_mul_le(az@.sin, ay@.cos, one);
        lemma_fx_mul_le(szsy as int, ax@.sin, one);
        lemma_fx_mul_le(az@.cos, ax@.cos, one);
        lemma_fx_mul_le(szsy as int, ax@.cos, one);
        lemma_fx_mul_le(az@.cos, ax@.sin, one);
        lemma_fx_mul_le(ay@.cos, ax@.sin, one);
        lemma_fx_mul_le(ax@.cos, ay@.cos, one);
    }
    Mat4 {
        m00, m01: m01a - m01b, m02: m02a + m02b, m03: 0,
        m10, m11: m11a + m11b, m12: m12a - m12b, m13: 0,
        m20: -ay.sin, m21, m22, m23: 0,
        m30: 0, m31: 0, m32: 0, m33: FX_ONE,
    }
}

/// One entry of the fixed-point matrix product: a four-term dot product
/// of `MAT_LIMIT`-bounded entries, rescaled once.
fn dot4_scaled(p: i64, q: i64, r: i64, s: i64, t: i64, u: i64, v: i64, w: i64) -> (d: i64)
    requires
        -MAT_LIMIT <= p <= MAT_LIMIT,
        -MAT_LIMIT <= q <= MAT_LIMIT,
        -MAT_LIMIT <= r <= MAT_LIMIT,
        -MAT_LIMIT <= s <= MAT_LIMIT,
        -MAT_LIMIT <= t <= MAT_LIMIT,
        -MAT_LIMIT <= u <= MAT_LIMIT,
        -MAT_LIMIT <= v <= MAT_LIMIT,
        -MAT_LIMIT <= w <= MAT_LIMIT,
    ensures
        d == trunc_div(p * t + q * u + r * v + s * w, FX_ONE as int),
{
    proof {
        let ghost pp = (MAT_LIMIT as int) * (MAT_LIMIT as int);
        assert(-pp <= p * t <= pp && -pp <= q * u <= pp && -pp <= r * v <= pp && -pp <= s * w
            <= pp) by (nonlinear_arith)
            requires
                pp == (MAT_LIMIT as int) * (MAT_LIMIT as int),
                -MAT_LIMIT <= p <= MAT_LIMIT,
                -MAT_LIMIT <= q <= MAT_LIMIT,
                -MAT_LIMIT <= r <= MAT_LIMIT,
                -MAT_LIMIT <= s <= MAT_LIMIT,
                -MAT_LIMIT <= t <= MAT_LIMIT,
                -MAT_LIMIT <= u <= MAT_LIMIT,
                -MAT_LIMIT <= v <= MAT_LIMIT,
                -MAT_LIMIT <= w <= MAT_LIMIT,
        ;
    }
    let sum = p * t + q * u + r * v + s * w;
    proof {
        lemma_trunc_div_sign(sum as int, FX_ONE as int);
    }
    sum / FX_ONE
}

/// The fixed-point product of two matrices whose entries are bounded by
/// [`MAT_LIMIT`].
pub fn mat4_mul(a: &Mat4, b: &Mat4) -> (m: Mat4)
    requires
        mat_bounded(a@, MAT_LIMIT as int),
        mat_bounded(b@, MAT_LIMIT as int),
    ensures
        m@ == spec_mat4_mul(a@, b@),
{
    Mat4 {
        m00: dot4_scaled(a.m00, a.m01, a.m02, a.m03, b.m00, b.m10, b.m20, b.m30),
        m01: dot4_scaled(a.m00, a.m01, a.m02, a.m03, b.m01, b.m11, b.m21, b.m31),
        m02: dot4_scaled(a.m00, a.m01, a.m02, a.m03, b.m02, b.m12, b.m22, b.m32),
        m03: dot4_scaled(a.m00, a.m01, a.m02, a.m03, b.m03, b.m13, b.m23, b.m33),
        m10: dot4_scaled(a.m10, a.m11, a.m12, a.m13, b.m00, b.m10, b.m20, b.m30),
        m11: dot4_scaled(a.m10, a.m11, a.m12, a.m13, b.m01, b.m11, b.m21, b.m31),
        m12: dot4_scaled(a.m10, a.m11, a.m12, a.m13, b.m02, b.m12, b.m22, b.m32),
        m13: dot4_scaled(a.m10, a.m11, a.m12, a.m13, b.m03, b.m13, b.m23, b.m33),
        m20: dot4_scaled(a.m20, a.m21, a.m22, a.m23, b.m00, b.m10, b.m20, b.m30),
        m21: dot4_scaled(a.m20, a.m21, a.m22, a.m23, b.m01, b.m11, b.m21, b.m31),
        m22: dot4_scaled(a.m20, a.m21, a.m22, a.m23, b.m02, b.m12, b.m22, b.m32),
        m23: dot4_scaled(a.m20, a.m21, a.m22, a.m23, b.m03, b.m13, b.m23, b.m33),
        m30: dot4_scaled(a.m30, a.m31, a.m32, a.m33, b.m00, b.m10, b.m20, b.m30),
        m31: dot4_scaled(a.m30, a.m31, a.m32, a.m33, b.m01, b.m11, b.m21, b.m31),
        m32: dot4_scaled(a.m30, a.m31, a.m32, a.m33, b.m02, b.m12, b.m22, b.m32),
        m33: dot4_scaled(a.m30, a.m31, a.m32, a.m33, b.m03, b.m13, b.m23, b.m33),
    }
}

/// Cotangent of half the fixed 60-degree field of view.
pub const FOV_COT_HALF: i64 = 1_732_051;

/// Near plane depth (0.1).
pub const ZNEAR: i64 = 100_000;

/// Far plane depth (1024).
pub const ZFAR: i64 = 1_024_000_000;

/// The perspective projection with the given aspect ratio (height over
/// width), cotangent of the half field of view, and clip planes.
pub open spec fn spec_perspective(aspect: int, f: int, znear: int, zfar: int) -> MatS {
    MatS {
        m00: spec_fx_mul(f, aspect), m01: 0, m02: 0, m03: 0,
        m10: 0, m11: f, m12: 0, m13: 0,
        m20: 0, m21: 0, m22: spec_fx_div(zfar + znear, zfar - znear), m23: FX_ONE as int,
        m30: 0, m31: 0, m32: -spec_fx_div(2 * spec_fx_mul(zfar, znear), zfar - znear), m33: 0,
    }
}

/// The perspective frustum projection.
pub fn perspective(aspect: i64, f: i64, znear: i64, zfar: i64) -> (m: Mat4)
    requires
        -FX_LIMIT <= aspect <= FX_LIMIT,
        -FX_LIMIT <= f <= FX_LIMIT,
        0 < znear < zfar <= FX_LIMIT,
    ensures
        m@ == spec_perspective(aspect as int, f as int, znear as int, zfar as int),
{
    let m00 = fx_mul(f, aspect);
    let m22 = fx_div(zfar + znear, zfar - znear);
    let t = fx_mul(zfar, znear);
    proof {
        assert(0 <= zfar as int * znear as int <= 4_000_000_000_000int * FX_ONE)
            by (nonlinear_arith)
            requires
                0 < znear <= FX_LIMIT,
                0 < zfar <= FX_LIMIT,
        ;
        lemma_trunc_div_le(zfar as int * znear as int, FX_ONE as int, 4_000_000_000_000int);
    }
    let m32 = -fx_div(2 * t, zfar - znear);
    Mat4 {
        m00, m01: 0, m02: 0, m03: 0,
        m10: 0, m11: f, m12: 0, m13: 0,
        m20: 0, m21: 0, m22, m23: FX_ONE,
        m30: 0, m31: 0, m32, m33: 0,
    }
}

/// The perspective matrix for a viewport of the given pixel size, with
/// the fixed field of view and clip planes. Note the ratio direction:
/// height over width.
pub fn perspective_matrix(width: u32, height: u32) -> (m: Mat4)
    requires
        width >= 1,
        height <= 2000 * width,
    ensures
        m@ == spec_perspective(
            spec_fx_div(height as int, width as int),
            FOV_COT_HALF as int,
            ZNEAR as int,
            ZFAR as int,
        ),
{
    let aspect = fx_div(height as i64, width as i64);
    proof {
        assert(0 <= height as int * FX_ONE <= FX_LIMIT as int * width) by (nonlinear_arith)
            requires
                height <= 2000 * width,
                width >= 1,
        ;
        lemma_trunc_div_le(height as int * FX_ONE, width as int, FX_LIMIT as int);
    }
    perspective(aspect, FOV_COT_HALF, ZNEAR, ZFAR)
}

/// Squared Euclidean length of a vector.
pub open spec fn spec_vec_norm2(v: Vec3S) -> int {
    v.x * v.x + v.y * v.y + v.z * v.z
}

/// Fixed-point length of a vector: the integer square root of the sum of
/// squares, which preserves the fixed-point scale.
pub open spec fn spec_vec_len(v: Vec3S) -> int {
    spec_isqrt(spec_vec_norm2(v) as nat) as int
}

/// The vector rescaled to unit length.
pub open spec fn spec_vec_normalize(v: Vec3S) -> Vec3S {
    let l = spec_vec_len(v);
    Vec3S {
        x: trunc_div(v.x * FX_ONE, l),
        y: trunc_div(v.y * FX_ONE, l),
        z: trunc_div(v.z * FX_ONE, l),
    }
}

/// The fixed-point cross product of two vectors.
pub open spec fn spec_vec_cross_fx(a: Vec3S, b: Vec3S) -> Vec3S {
    Vec3S {
        x: spec_fx_mul(a.y, b.z) - spec_fx_mul(a.z, b.y),
        y: spec_fx_mul(a.z, b.x) - spec_fx_mul(a.x, b.z),
        z: spec_fx_mul(a.x, b.y) - spec_fx_mul(a.y, b.x),
    }
}

/// The camera triple a view matrix can be built from: components in
/// range, a direction of positive length, and an up vector that is not
/// parallel to the viewing direction (the side vector must survive).
pub open spec fn spec_camera_ok(position: Vec3S, direction: Vec3S, up: Vec3S) -> bool {
    &&& vec_bounded(position, FX_LIMIT as int)
    &&& vec_bounded(direction, FX_LIMIT as int)
    &&& vec_bounded(up, FX_LIMIT as int)
    &&& spec_vec_norm2(direction) > 0
    &&& spec_vec_norm2(spec_vec_cross_fx(up, spec_vec_normalize(direction))) > 0
}

/// The Gram-Schmidt view matrix: forward, side and true-up basis vectors
/// in the columns, translation terms as negated dot products with the
/// eye position in the last row.
pub open spec fn spec_view_matrix(position: Vec3S, direction: Vec3S, up: Vec3S) -> MatS {
    let f = spec_vec_normalize(direction);
    let s = spec_vec_cross_fx(up, f);
    let sn = spec_vec_normalize(s);
    let u = spec_vec_cross_fx(f, sn);
    let p0 = -spec_fx_mul(position.x, sn.x) - spec_fx_mul(position.y, sn.y) - spec_fx_mul(
        position.z,
        sn.z,
    );
    let p1 = -spec_fx_mul(position.x, u.x) - spec_fx_mul(position.y, u.y) - spec_fx_mul(
        position.z,
        u.z,
    );
    let p2 = -spec_fx_mul(position.x, f.x) - spec_fx_mul(position.y, f.y) - spec_fx_mul(
        position.z,
        f.z,
    );
    MatS {
        m00: sn.x, m01: u.x, m02: f.x, m03: 0,
        m10: sn.y, m11: u.y, m12: f.y, m13: 0,
        m20: sn.z, m21: u.z, m22: f.z, m23: 0,
        m30: p0, m31: p1, m32: p2, m33: FX_ONE as int,
    }
}

/// Fixed-point length of a vector.
fn vec_len_fx(v: &Vec3) -> (l: i64)
    requires
        vec_bounded(v@, NORM_LIMIT as int),
    ensures
        l == spec_vec_len(v@),
        0 <= l <= 7_000_000_000,
{
    proof {
        assert(0 <= v@.x * v@.x <= 16_000_000_000_000_000_000int && 0 <= v@.y * v@.y
            <= 16_000_000_000_000_000_000int && 0 <= v@.z * v@.z
            <= 16_000_000_000_000_000_000int) by (nonlinear_arith)
            requires
                -NORM_LIMIT <= v@.x <= NORM_LIMIT,
                -NORM_LIMIT <= v@.y <= NORM_LIMIT,
                -NORM_LIMIT <= v@.z <= NORM_LIMIT,
        ;
    }
    let xx = (v.x as i128) * (v.x as i128);
    let yy = (v.y as i128) * (v.y as i128);
    let zz = (v.z as i128) * (v.z as i128);
    let sum = xx + yy + zz;
    let n: u128 = sum as u128;
    let r = isqrt(n);
    proof {
        lemma_isqrt_le(n as nat, 7_000_000_000nat);
        assert(49_000_000_000_000_000_000int == 7_000_000_000int * 7_000_000_000int)
            by (nonlinear_arith);
    }
    r as i64
}

/// The vector rescaled to unit length. The components come out bounded
/// by one because each is at most the full length.
fn vec_normalize(v: &Vec3) -> (r: Vec3)
    requires
        vec_bounded(v@, NORM_LIMIT as int),
        spec_vec_norm2(v@) > 0,
    ensures
        r@ == spec_vec_normalize(v@),
        vec_bounded(r@, FX_ONE as int),
{
    let l = vec_len_fx(v);
    proof {
        crate::fx::lemma_square_le_isqrt(1nat, spec_vec_norm2(v@) as nat);
        assert(v@.x * v@.x <= v@.x * v@.x + v@.y * v@.y + v@.z * v@.z && v@.y * v@.y <= v@.x
            * v@.x + v@.y * v@.y + v@.z * v@.z && v@.z * v@.z <= v@.x * v@.x + v@.y * v@.y + v@.z
            * v@.z) by (nonlinear_arith);
        crate::fx::lemma_abs_le_isqrt(v@.x, spec_vec_norm2(v@) as nat);
        crate::fx::lemma_abs_le_isqrt(v@.y, spec_vec_norm2(v@) as nat);
        crate::fx::lemma_abs_le_isqrt(v@.z, spec_vec_norm2(v@) as nat);
        lemma_trunc_div_le(v@.x * FX_ONE, l as int, FX_ONE as int);
        lemma_trunc_div_le(v@.y * FX_ONE, l as int, FX_ONE as int);
        lemma_trunc_div_le(v@.z * FX_ONE, l as int, FX_ONE as int);
    }
    let nx = (v.x * FX_ONE) / l;
    let ny = (v.y * FX_ONE) / l;
    let nz = (v.z * FX_ONE) / l;
    Vec3 { x: nx, y: ny, z: nz }
}

/// The fixed-point cross product; the second argument must be unit-
/// bounded, so each component of the result stays within twice the
/// bound on the first argument.
fn vec_cross_fx(a: &Vec3, b: &Vec3, Ghost(lim): Ghost<int>) -> (r: Vec3)
    requires
        0 <= lim <= FX_LIMIT as int,
        vec_bounded(a@, lim),
        vec_bounded(b@, FX_ONE as int),
    ensures
        r@ == spec_vec_cross_fx(a@, b@),
        vec_bounded(r@, 2 * lim),
{
    proof {
        lemma_fx_mul_le(a@.y, b@.z, lim);
        lemma_fx_mul_le(a@.z, b@.y, lim);
        lemma_fx_mul_le(a@.z, b@.x, lim);
        lemma_fx_mul_le(a@.x, b@.z, lim);
        lemma_fx_mul_le(a@.x, b@.y, lim);
        lemma_fx_mul_le(a@.y, b@.x, lim);
    }
    let x = fx_mul(a.y, b.z) - fx_mul(a.z, b.y);
    let y = fx_mul(a.z, b.x) - fx_mul(a.x, b.z);
    let z = fx_mul(a.x, b.y) - fx_mul(a.y, b.x);
    Vec3 { x, y, z }
}

/// One translation term of the view matrix: the negated fixed-point dot
/// product of the eye position with a basis vector bounded by two.
fn neg_dot_fx(p: &Vec3, b: &Vec3) -> (r: i64)
    requires
        vec_bounded(p@, FX_LIMIT as int),
        vec_bounded(b@, 2 * FX_ONE),
    ensures
        r == -spec_fx_mul(p@.x, b@.x) - spec_fx_mul(p@.y, b@.y) - spec_fx_mul(p@.z, b@.z),
{
    proof {
        assert(-4_000_000_000_000_000int <= p@.x * b@.x <= 4_000_000_000_000_000int
            && -4_000_000_000_000_000int <= p@.y * b@.y <= 4_000_000_000_000_000int
            && -4_000_000_000_000_000int <= p@.z * b@.z <= 4_000_000_000_000_000int)
            by (nonlinear_arith)
            requires
                vec_bounded(p@, FX_LIMIT as int),
                vec_bounded(b@, 2 * FX_ONE),
        ;
        lemma_trunc_div_le(p@.x * b@.x, FX_ONE as int, 4_000_000_000int);
        lemma_trunc_div_le(p@.y * b@.y, FX_ONE as int, 4_000_000_000int);
        lemma_trunc_div_le(p@.z * b@.z, FX_ONE as int, 4_000_000_000int);
    }
    -fx_mul(p.x, b.x) - fx_mul(p.y, b.y) - fx_mul(p.z, b.z)
}

/// The Gram-Schmidt view matrix for an eye position, viewing direction
/// and up vector. The caller must never pass a zero-length direction or
/// an up vector parallel to it (see [`spec_camera_ok`]).
pub fn view_matrix(position: &Vec3, direction: &Vec3, up: &Vec3) -> (m: Mat4)
    requires
        spec_camera_ok(position@, direction@, up@),
    ensures
        m@ == spec_view_matrix(position@, direction@, up@),
{
    let f = vec_normalize(direction);
    let s = vec_cross_fx(up, &f, Ghost(FX_LIMIT as int));
    let sn = vec_normalize(&s);
    let u = vec_cross_fx(&f, &sn, Ghost(FX_ONE as int));
    let p0 = neg_dot_fx(position, &sn);
    let p1 = neg_dot_fx(position, &u);
    let p2 = neg_dot_fx(position, &f);
    Mat4 {
        m00: sn.x, m01: u.x, m02: f.x, m03: 0,
        m10: sn.y, m11: u.y, m12: f.y, m13: 0,
        m20: sn.z, m21: u.z, m22: f.z, m23: 0,
        m30: p0, m31: p1, m32: p2, m33: FX_ONE,
    }
}

/// The zero angle's sine/cosine pair.
pub open spec fn spec_angle_zero() -> AngleS {
    AngleS { sin: 0, cos: FX_ONE as int }
}

/// A rotation about the X axis alone reduces to the familiar 2x2 block.
proof fn lemma_rotate_x_form(s: int, c: int)
    requires
        -(FX_ONE as int) <= s <= FX_ONE as int,
        -(FX_ONE as int) <= c <= FX_ONE as int,
    ensures
        spec_rotate(AngleS { sin: s, cos: c }, spec_angle_zero(), spec_angle_zero()) == (MatS {
            m00: FX_ONE as int, m01: 0, m02: 0, m03: 0,
            m10: 0, m11: c, m12: -s, m13: 0,
            m20: 0, m21: s, m22: c, m23: 0,
            m30: 0, m31: 0, m32: 0, m33: FX_ONE as int,
        }),
{
    crate::fx::lemma_fx_mul_one(FX_ONE as int);
    crate::fx::lemma_fx_mul_one(s);
    crate::fx::lemma_fx_mul_one(c);
    crate::fx::lemma_fx_mul_zero(FX_ONE as int);
    crate::fx::lemma_fx_mul_zero(s);
    crate::fx::lemma_fx_mul_zero(c);
    crate::fx::lemma_fx_mul_zero(0);
}

/// Rotating about an axis and then back again is the identity: for any
/// exact unit sine/cosine pair `(s, c)`, the fixed-point product of
/// `rotate` by that angle about X and `rotate` by its opposite is
/// exactly the identity matrix, because the cross terms cancel before
/// the one rescaling division.
pub proof fn lemma_rotate_round_trip(s: int, c: int)
    requires
        -(FX_ONE as int) <= s <= FX_ONE as int,
        -(FX_ONE as int) <= c <= FX_ONE as int,
        s * s + c * c == (FX_ONE as int) * (FX_ONE as int),
    ensures
        spec_mat4_mul(
            spec_rotate(AngleS { sin: s, cos: c }, spec_angle_zero(), spec_angle_zero()),
            spec_rotate(AngleS { sin: -s, cos: c }, spec_angle_zero(), spec_angle_zero()),
        ) == spec_identity(),
{
    lemma_rotate_x_form(s, c);
    lemma_rotate_x_form(-s, c);
    let one = FX_ONE as int;
    let a = spec_rotate(AngleS { sin: s, cos: c }, spec_angle_zero(), spec_angle_zero());
    let b = spec_rotate(AngleS { sin: -s, cos: c }, spec_angle_zero(), spec_angle_zero());
    assert(a.m00 * b.m00 + a.m01 * b.m10 + a.m02 * b.m20 + a.m03 * b.m30 == one * one
        && a.m00 * b.m01 + a.m01 * b.m11 + a.m02 * b.m21 + a.m03 * b.m31 == 0
        && a.m00 * b.m02 + a.m01 * b.m12 + a.m02 * b.m22 + a.m03 * b.m32 == 0
        && a.m00 * b.m03 + a.m01 * b.m13 + a.m02 * b.m23 + a.m03 * b.m33 == 0
        && a.m10 * b.m00 + a.m11 * b.m10 + a.m12 * b.m20 + a.m13 * b.m30 == 0
        && a.m10 * b.m01 + a.m11 * b.m11 + a.m12 * b.m21 + a.m13 * b.m31 == one * one
        && a.m10 * b.m02 + a.m11 * b.m12 + a.m12 * b.m22 + a.m13 * b.m32 == 0
        && a.m10 * b.m03 + a.m11 * b.m13 + a.m12 * b.m23 + a.m13 * b.m33 == 0
        && a.m20 * b.m00 + a.m21 * b.m10 + a.m22 * b.m20 + a.m23 * b.m30 == 0
        && a.m20 * b.m01 + a.m21 * b.m11 + a.m22 * b.m21 + a.m23 * b.m31 == 0
        && a.m20 * b.m02 + a.m21 * b.m12 + a.m22 * b.m22 + a.m23 * b.m32 == one * one
        && a.m20 * b.m03 + a.m21 * b.m13 + a.m22 * b.m23 + a.m23 * b.m33 == 0
        && a.m30 * b.m00 + a.m31 * b.m10 + a.m32 * b.m20 + a.m33 * b.m30 == 0
        && a.m30 * b.m01 + a.m31 * b.m11 + a.m32 * b.m21 + a.m33 * b.m31 == 0
        && a.m30 * b.m02 + a.m31 * b.m12 + a.m32 * b.m22 + a.m33 * b.m32 == 0
        && a.m30 * b.m03 + a.m31 * b.m13 + a.m32 * b.m23 + a.m33 * b.m33 == one * one)
        by (nonlinear_arith)
        requires
            s * s + c * c == one * one,
            a.m00 == one && a.m01 == 0 && a.m02 == 0 && a.m03 == 0,
            a.m10 == 0 && a.m11 == c && a.m12 == -s && a.m13 == 0,
            a.m20 == 0 && a.m21 == s && a.m22 == c && a.m23 == 0,
            a.m30 == 0 && a.m31 == 0 && a.m32 == 0 && a.m33 == one,
            b.m00 == one && b.m01 == 0 && b.m02 == 0 && b.m03 == 0,
            b.m10 == 0 && b.m11 == c && b.m12 == s && b.m13 == 0,
            b.m20 == 0 && b.m21 == -s && b.m22 == c && b.m23 == 0,
            b.m30 == 0 && b.m31 == 0 && b.m32 == 0 && b.m33 == one,
    ;
    crate::fx::lemma_trunc_div_exact(one, one);
    assert(trunc_div(0, one) == 0) by {
        crate::fx::lemma_trunc_div_sign(0, one);
    }
    assert(spec_mat4_mul(a, b) == spec_identity());
}

/// The numerator of the projected depth: the perspective matrix sends a
/// point at depth `z` to clip depth
/// `(z * (zfar + znear) - 2 * zfar * znear) / (z * (zfar - znear))`,
/// this function being that quotient scaled by `zfar - znear` and by the
/// homogeneous divisor `z`.
pub open spec fn spec_clip_depth_num(znear: int, zfar: int, z: int) -> int {
    z * (zfar + znear) - 2 * (zfar * znear)
}

/// The perspective projection maps the near plane to clip depth -1 and
/// the far plane to clip depth +1: at `z == znear` the depth numerator
/// equals minus its denominator `z * (zfar - znear)`, and at `z == zfar`
/// it equals plus that denominator, for every valid `znear < zfar`.
pub proof fn lemma_perspective_depth_range(znear: int, zfar: int)
    requires
        0 < znear < zfar,
    ensures
        spec_clip_depth_num(znear, zfar, znear) == -(znear * (zfar - znear)),
        spec_clip_depth_num(znear, zfar, zfar) == zfar * (zfar - znear),
{
    assert(znear * (zfar + znear) - 2 * (zfar * znear) == -(znear * (zfar - znear)))
        by (nonlinear_arith);
    assert(zfar * (zfar + znear) - 2 * (zfar * znear) == zfar * (zfar - znear))
        by (nonlinear_arith);
}

} // verus!
