//! A latitude/longitude sphere mesh.
//!
//! The caller supplies one sine/cosine pair per latitude ring and one
//! per longitude; the generator turns them into exact fixed-point
//! vertex positions and the quad-cell triangle indices. The two poles
//! are emitted once each, exactly at `(0, +radius, 0)` and
//! `(0, -radius, 0)`, never once per longitude.

use crate::fx::{fx_mul, lemma_fx_mul_le, spec_fx_mul, trunc_div, FX_LIMIT, FX_ONE};
use crate::shapes::matrices::{angle_wf, Angle, AngleS, Vec3S};
use crate::shapes::{Filling, Vertex, VertexS};
use vstd::prelude::*;

verus! {

/// Every angle of the table is well-formed.
pub open spec fn angles_wf(t: Seq<Angle>) -> bool {
    forall|i: int| 0 <= i < t.len() ==> angle_wf(#[trigger] t[i]@)
}

/// Texture u coordinate of a longitude: minus half a turn, minus the
/// turn fraction of the longitude index.
pub open spec fn spec_sphere_u(longs: int, long: int) -> int {
    -500_000 - trunc_div(long * FX_ONE, longs)
}

/// Texture v coordinate of a latitude: one at the north pole, falling
/// linearly to zero at the south pole.
pub open spec fn spec_sphere_v(lats: int, lat: int) -> int {
    FX_ONE - trunc_div(lat * FX_ONE, lats - 1)
}

/// The vertex of an interior latitude ring: the ring's sine gives the
/// height, its cosine the ring radius, and the longitude pair places
/// the vertex on the ring.
pub open spec fn spec_sphere_vertex(
    radius: int,
    lats: int,
    longs: int,
    ring: AngleS,
    meridian: AngleS,
    lat: int,
    long: int,
) -> VertexS {
    let y = spec_fx_mul(radius, ring.sin);
    let h = spec_fx_mul(radius, ring.cos);
    VertexS {
        position: Vec3S { x: spec_fx_mul(h, meridian.sin), y, z: spec_fx_mul(h, meridian.cos) },
        u: spec_sphere_u(longs, long),
        v: spec_sphere_v(lats, lat),
    }
}

/// The north pole vertex, exactly at height `radius`.
pub open spec fn spec_north_pole(radius: int) -> VertexS {
    VertexS { position: Vec3S { x: 0, y: radius, z: 0 }, u: -500_000, v: FX_ONE as int }
}

/// The south pole vertex, exactly at height `-radius`.
pub open spec fn spec_south_pole(radius: int) -> VertexS {
    VertexS { position: Vec3S { x: 0, y: -radius, z: 0 }, u: -500_000, v: 0 }
}

/// Where the vertex of ring `lat`, longitude `long` lands in the vertex
/// list: after the north pole and the completed rings before it.
pub open spec fn spec_sphere_vidx(longs: int, lat: int, long: int) -> int {
    1 + (lat - 1) * longs + long
}

/// The six indices of the quad cell at ring `lat`, longitude `long`,
/// two triangles over the index arithmetic `long + lat * longs`.
pub open spec fn spec_sphere_cell(inds: Seq<u16>, longs: int, lat: int, long: int) -> bool {
    let c = 6 * ((lat - 1) * (longs - 1) + long);
    &&& inds[c] == long + lat * longs
    &&& inds[c + 1] == (long + 1) + lat * longs
    &&& inds[c + 2] == long + (lat + 1) * longs
    &&& inds[c + 3] == (long + 1) + lat * longs
    &&& inds[c + 4] == (long + 1) + (lat + 1) * longs
    &&& inds[c + 5] == long + (lat + 1) * longs
}

/// The whole sphere mesh: vertex count `(lats - 2) * longs + 2`, the
/// poles exactly on the axis, every interior vertex and every quad cell
/// as the generator lays them out.
pub open spec fn sphere_mesh_ok(
    vs: Seq<Vertex>,
    inds: Seq<u16>,
    radius: int,
    lats: int,
    longs: int,
    ring: Seq<Angle>,
    meridian: Seq<Angle>,
) -> bool {
    &&& vs.len() == (lats - 2) * longs + 2
    &&& vs[0]@ == spec_north_pole(radius)
    &&& vs[vs.len() - 1]@ == spec_south_pole(radius)
    &&& forall|la: int, lo: int|
        1 <= la <= lats - 2 && 0 <= lo < longs ==> (#[trigger] vs[spec_sphere_vidx(longs, la, lo)])@
            == spec_sphere_vertex(radius, lats, longs, ring[la]@, meridian[lo]@, la, lo)
    &&& inds.len() == 6 * ((lats - 2) * (longs - 1))
    &&& forall|la: int, lo: int|
        1 <= la <= lats - 2 && 0 <= lo < longs - 1 ==> #[trigger] spec_sphere_cell(
            inds,
            longs,
            la,
            lo,
        )
}

/// Every interior vertex lies inside the axis-aligned box of the
/// radius: each position component is a fixed-point product of the
/// radius with sines and cosines no larger than one.
pub proof fn lemma_sphere_vertex_bounded(
    radius: int,
    lats: int,
    longs: int,
    ring: AngleS,
    meridian: AngleS,
    lat: int,
    long: int,
)
    requires
        0 < radius,
        angle_wf(ring),
        angle_wf(meridian),
    ensures
        ({
            let p = spec_sphere_vertex(radius, lats, longs, ring, meridian, lat, long).position;
            -radius <= p.x <= radius && -radius <= p.y <= radius && -radius <= p.z <= radius
        }),
{
    lemma_fx_mul_le(radius, ring.sin, radius);
    lemma_fx_mul_le(radius, ring.cos, radius);
    let h = spec_fx_mul(radius, ring.cos);
    lemma_fx_mul_le(h, meridian.sin, radius);
    lemma_fx_mul_le(h, meridian.cos, radius);
}

/// Vertex slots are strictly ordered by ring, then longitude.
proof fn lemma_vidx_mono(longs: int, la1: int, lo1: int, la2: int, lo2: int)
    requires
        1 <= longs,
        1 <= la1,
        0 <= lo1 < longs,
        0 <= lo2,
        la1 < la2 || (la1 == la2 && lo1 < lo2),
    ensures
        spec_sphere_vidx(longs, la1, lo1) < spec_sphere_vidx(longs, la2, lo2),
{
    assert((la1 - 1) * longs + lo1 < (la2 - 1) * longs + lo2) by (nonlinear_arith)
        requires
            1 <= longs,
            0 <= lo1 < longs,
            0 <= lo2,
            la1 < la2 || (la1 == la2 && lo1 < lo2),
    ;
}

/// Index cells are strictly ordered by ring, then longitude, and each
/// occupies six consecutive slots.
proof fn lemma_cell_mono(longs: int, la1: int, lo1: int, la2: int, lo2: int)
    requires
        2 <= longs,
        1 <= la1,
        0 <= lo1 < longs - 1,
        0 <= lo2,
        la1 < la2 || (la1 == la2 && lo1 < lo2),
    ensures
        6 * ((la1 - 1) * (longs - 1) + lo1) + 5 < 6 * ((la2 - 1) * (longs - 1) + lo2),
{
    assert((la1 - 1) * (longs - 1) + lo1 < (la2 - 1) * (longs - 1) + lo2) by (nonlinear_arith)
        requires
            2 <= longs,
            0 <= lo1 < longs - 1,
            0 <= lo2,
            la1 < la2 || (la1 == la2 && lo1 < lo2),
    ;
}

/// A sphere mesh with its fill, remembering the parameters it was
/// built from.
pub struct Sphere {
    pub vertices: Vec<Vertex>,
    pub indices: Vec<u16>,
    pub filling: Filling,
    pub radius: i64,
    pub lats: usize,
    pub longs: usize,
}

impl Sphere {
    /// Builds the vertex and index lists of a sphere. For every
    /// `lats, longs >= 3` the vertex count is exactly
    /// `(lats - 2) * longs + 2` and the poles sit exactly at
    /// `(0, radius, 0)` and `(0, -radius, 0)`.
    pub fn generate_vertices_and_indexes(
        radius: i64,
        lats: usize,
        longs: usize,
        ring: &Vec<Angle>,
        meridian: &Vec<Angle>,
    ) -> (r: (Vec<Vertex>, Vec<u16>))
        requires
            3 <= lats,
            3 <= longs,
            lats * longs <= 65536,
            0 < radius <= FX_LIMIT,
            ring@.len() == lats,
            meridian@.len() == longs,
            angles_wf(ring@),
            angles_wf(meridian@),
        ensures
            sphere_mesh_ok(r.0@, r.1@, radius as int, lats as int, longs as int, ring@, meridian@),
    {
        let mut vertices: Vec<Vertex> = Vec::new();
        let mut indices: Vec<u16> = Vec::new();
        vertices.push(Vertex::new(0, radius, 0, -500_000, FX_ONE));
        let mut lat: usize = 1;
        while lat < lats - 1
            invariant
                3 <= lats,
                3 <= longs,
                lats * longs <= 65536,
                0 < radius <= FX_LIMIT,
                ring@.len() == lats,
                meridian@.len() == longs,
                angles_wf(ring@),
                angles_wf(meridian@),
                1 <= lat <= lats - 1,
                vertices@.len() == 1 + (lat - 1) * longs,
                vertices@[0]@ == spec_north_pole(radius as int),
                forall|la: int, lo: int|
                    1 <= la < lat && 0 <= lo < longs ==> (#[trigger] vertices@[spec_sphere_vidx(
                        longs as int,
                        la,
                        lo,
                    )])@ == spec_sphere_vertex(
                        radius as int,
                        lats as int,
                        longs as int,
                        ring@[la]@,
                        meridian@[lo]@,
                        la,
                        lo,
                    ),
                indices@.len() == 6 * ((lat - 1) * (longs - 1)),
                forall|la: int, lo: int|
                    1 <= la < lat && 0 <= lo < longs - 1 ==> #[trigger] spec_sphere_cell(
                        indices@,
                        longs as int,
                        la,
                        lo,
                    ),
            decreases lats - lat,
        {
            proof {
                assert(angle_wf(ring@[lat as int]@));
                assert(lats <= 21846 && longs <= 21846) by (nonlinear_arith)
                    requires
                        lats * longs <= 65536,
                        3 <= lats,
                        3 <= longs,
                ;
            }
            let a = ring[lat];
            let y = fx_mul(radius, a.sin);
            let h = fx_mul(radius, a.cos);
            proof {
                lemma_fx_mul_le(radius as int, a@.sin, FX_LIMIT as int);
                lemma_fx_mul_le(radius as int, a@.cos, FX_LIMIT as int);
                crate::fx::lemma_trunc_div_sign((lat as int) * (FX_ONE as int), lats as int - 1);
            }
            let vcoord = FX_ONE - ((lat as i64) * FX_ONE) / ((lats - 1) as i64);
            let mut long: usize = 0;
            while long < longs
                invariant
                    3 <= lats,
                    3 <= longs,
                    lats * longs <= 65536,
                    0 < radius <= FX_LIMIT,
                    ring@.len() == lats,
                    meridian@.len() == longs,
                    angles_wf(ring@),
                    angles_wf(meridian@),
                    1 <= lat <= lats - 2,
                    0 <= long <= longs,
                    a == ring@[lat as int],
                    y == spec_fx_mul(radius as int, a@.sin),
                    h == spec_fx_mul(radius as int, a@.cos),
                    -FX_LIMIT <= h <= FX_LIMIT,
                    vcoord == spec_sphere_v(lats as int, lat as int),
                    vertices@.len() == 1 + (lat - 1) * longs + long,
                    vertices@[0]@ == spec_north_pole(radius as int),
                    forall|la: int, lo: int|
                        1 <= la < lat && 0 <= lo < longs ==> (#[trigger] vertices@[
                        spec_sphere_vidx(longs as int, la, lo)])@ == spec_sphere_vertex(
                            radius as int,
                            lats as int,
                            longs as int,
                            ring@[la]@,
                            meridian@[lo]@,
                            la,
                            lo,
                        ),
                    forall|lo: int|
                        0 <= lo < long ==> (#[trigger] vertices@[spec_sphere_vidx(
                            longs as int,
                            lat as int,
                            lo,
                        )])@ == spec_sphere_vertex(
                            radius as int,
                            lats as int,
                            longs as int,
                            ring@[lat as int]@,
                            meridian@[lo]@,
                            lat as int,
                            lo,
                        ),
                    indices@.len() == 6 * ((lat - 1) * (longs - 1) + (if long < longs {
                        long as int
                    } else {
                        longs - 1
                    })),
                    forall|la: int, lo: int|
                        1 <= la < lat && 0 <= lo < longs - 1 ==> #[trigger] spec_sphere_cell(
                            indices@,
                            longs as int,
                            la,
                            lo,
                        ),
                    forall|lo: int|
                        0 <= lo < long && lo < longs - 1 ==> #[trigger] spec_sphere_cell(
                            indices@,
                            longs as int,
                            lat as int,
                            lo,
                        ),
                decreases longs - long,
            {
                proof {
                    assert(angle_wf(meridian@[long as int]@));
                    assert(longs <= 21846 && lats <= 21846) by (nonlinear_arith)
                        requires
                            lats * longs <= 65536,
                            3 <= lats,
                            3 <= longs,
                    ;
                    crate::fx::lemma_trunc_div_sign((long as int) * (FX_ONE as int), longs as int);
                }
                let b = meridian[long];
                let x = fx_mul(h, b.sin);
                let z = fx_mul(h, b.cos);
                let u = -500_000 - ((long as i64) * FX_ONE) / (longs as i64);
                let ghost pre_vs = vertices@;
                let vx = Vertex::new(x, y, z, u, vcoord);
                vertices.push(vx);
                proof {
                    assert(vertices@[spec_sphere_vidx(longs as int, lat as int, long as int)]
                        == vx);
                    assert forall|la: int, lo: int| 1 <= la < lat && 0 <= lo < longs implies (
                    #[trigger] vertices@[spec_sphere_vidx(longs as int, la, lo)])@
                        == spec_sphere_vertex(
                        radius as int,
                        lats as int,
                        longs as int,
                        ring@[la]@,
                        meridian@[lo]@,
                        la,
                        lo,
                    ) by {
                        lemma_vidx_mono(longs as int, la, lo, lat as int, long as int);
                        assert(spec_sphere_vidx(longs as int, la, lo) >= 1) by (nonlinear_arith)
                            requires
                                1 <= la,
                                0 <= lo,
                                1 <= longs,
                        ;
                        assert(pre_vs[spec_sphere_vidx(longs as int, la, lo)] == vertices@[
                        spec_sphere_vidx(longs as int, la, lo)]);
                    }
                    assert forall|lo: int| 0 <= lo < long implies (#[trigger] vertices@[
                    spec_sphere_vidx(longs as int, lat as int, lo)])@ == spec_sphere_vertex(
                        radius as int,
                        lats as int,
                        longs as int,
                        ring@[lat as int]@,
                        meridian@[lo]@,
                        lat as int,
                        lo,
                    ) by {
                        lemma_vidx_mono(longs as int, lat as int, lo, lat as int, long as int);
                        assert(spec_sphere_vidx(longs as int, lat as int, lo) >= 1)
                            by (nonlinear_arith)
                            requires
                                1 <= lat,
                                0 <= lo,
                                1 <= longs,
                        ;
                        assert(pre_vs[spec_sphere_vidx(longs as int, lat as int, lo)] == vertices@[
                        spec_sphere_vidx(longs as int, lat as int, lo)]);
                    }
                    assert(vertices@[spec_sphere_vidx(longs as int, lat as int, long as int)]@
                        == spec_sphere_vertex(
                        radius as int,
                        lats as int,
                        longs as int,
                        ring@[lat as int]@,
                        meridian@[long as int]@,
                        lat as int,
                        long as int,
                    ));
                }
                if long != longs - 1 {
                    proof {
                        assert(lat * longs + longs == (lat + 1) * longs && (lat + 1) * longs
                            + longs == (lat + 2) * longs && (lat + 1) * longs <= lats * longs && (
                        lat + 2) * longs <= lats * longs) by (nonlinear_arith)
                            requires
                                1 <= lat,
                                lat + 2 <= lats,
                                0 <= longs,
                        ;
                    }
                    let i0 = (long + lat * longs) as u16;
                    let i1 = (long + 1 + lat * longs) as u16;
                    let i2 = (long + (lat + 1) * longs) as u16;
                    let i4 = (long + 1 + (lat + 1) * longs) as u16;
                    let ghost pre_is = indices@;
                    let ghost c = pre_is.len() as int;
                    indices.push(i0);
                    indices.push(i1);
                    indices.push(i2);
                    indices.push(i1);
                    indices.push(i4);
                    indices.push(i2);
                    proof {
                        assert(indices@[c] == i0 && indices@[c + 1] == i1 && indices@[c + 2] == i2
                            && indices@[c + 3] == i1 && indices@[c + 4] == i4 && indices@[c + 5]
                            == i2);
                        assert forall|la: int, lo: int| 1 <= la < lat && 0 <= lo < longs - 1
                            implies #[trigger] spec_sphere_cell(
                            indices@,
                            longs as int,
                            la,
                            lo,
                        ) by {
                            assert(spec_sphere_cell(pre_is, longs as int, la, lo));
                            lemma_cell_mono(longs as int, la, lo, lat as int, long as int);
                            assert(0 <= 6 * ((la - 1) * (longs - 1) + lo)) by (nonlinear_arith)
                                requires
                                    1 <= la,
                                    0 <= lo,
                                    2 <= longs,
                            ;
                        }
                        assert forall|lo: int| 0 <= lo < long implies #[trigger] spec_sphere_cell(
                            indices@,
                            longs as int,
                            lat as int,
                            lo,
                        ) by {
                            assert(spec_sphere_cell(pre_is, longs as int, lat as int, lo));
                            lemma_cell_mono(longs as int, lat as int, lo, lat as int, long as int);
                            assert(0 <= 6 * ((lat - 1) * (longs - 1) + lo)) by (nonlinear_arith)
                                requires
                                    1 <= lat,
                                    0 <= lo,
                                    2 <= longs,
                            ;
                        }
                        assert(spec_sphere_cell(indices@, longs as int, lat as int, long as int));
                    }
                }
                long += 1;
            }
            proof {
                assert((lat - 1) * longs + longs == ((lat + 1) - 1) * longs) by (nonlinear_arith);
                assert((lat - 1) * (longs - 1) + (longs - 1) == ((lat + 1) - 1) * (longs - 1))
                    by (nonlinear_arith);
            }
            lat += 1;
        }
        let ghost pre_vs = vertices@;
        vertices.push(Vertex::new(0, -radius, 0, -500_000, 0));
        proof {
            assert((lats - 2) * longs + 2 == 1 + ((lats - 1) - 1) * longs + 1);
            assert forall|la: int, lo: int| 1 <= la <= lats - 2 && 0 <= lo < longs implies (
            #[trigger] vertices@[spec_sphere_vidx(longs as int, la, lo)])@ == spec_sphere_vertex(
                radius as int,
                lats as int,
                longs as int,
                ring@[la]@,
                meridian@[lo]@,
                la,
                lo,
            ) by {
                assert(1 <= spec_sphere_vidx(longs as int, la, lo) && (la - 1) * longs + lo < (lats
                    - 2) * longs) by (nonlinear_arith)
                    requires
                        1 <= la <= lats - 2,
                        0 <= lo < longs,
                ;
                assert(pre_vs[spec_sphere_vidx(longs as int, la, lo)] == vertices@[
                spec_sphere_vidx(longs as int, la, lo)]);
            }
            assert(vertices@[0] == pre_vs[0]);
        }
        (vertices, indices)
    }

    /// A sphere of the given radius and fill, subdivided into `lats`
    /// latitude rings (two of which are the poles) and `longs`
    /// longitudes, from the supplied sine/cosine tables.
    pub fn new(
        radius: i64,
        filling: Filling,
        lats: usize,
        longs: usize,
        ring: &Vec<Angle>,
        meridian: &Vec<Angle>,
    ) -> (s: Sphere)
        requires
            3 <= lats,
            3 <= longs,
            lats * longs <= 65536,
            0 < radius <= FX_LIMIT,
            ring@.len() == lats,
            meridian@.len() == longs,
            angles_wf(ring@),
            angles_wf(meridian@),
        ensures
            sphere_mesh_ok(
                s.vertices@,
                s.indices@,
                radius as int,
                lats as int,
                longs as int,
                ring@,
                meridian@,
            ),
            s.filling == filling,
            s.radius == radius,
            s.lats == lats,
            s.longs == longs,
    {
        let (vertices, indices) = Self::generate_vertices_and_indexes(
            radius,
            lats,
            longs,
            ring,
            meridian,
        );
        Sphere { vertices, indices, filling, radius, lats, longs }
    }

    /// The radius this sphere was built with.
    pub fn radius(&self) -> (r: i64)
        ensures
            r == self.radius,
    {
        self.radius
    }
}

/// Fluent configuration for a [`Sphere`].
pub struct SphereBuilder {
    pub radius: i64,
    pub filling: Filling,
    pub lats: usize,
    pub longs: usize,
}

impl SphereBuilder {
    /// A red unit sphere with a hundred rings and a hundred longitudes.
    pub fn new() -> (b: SphereBuilder)
        ensures
            b.radius == FX_ONE,
            b.filling == Filling::Color(crate::shapes::Color { r: FX_ONE, g: 0, b: 0 }),
            b.lats == 100,
            b.longs == 100,
    {
        SphereBuilder {
            radius: FX_ONE,
            filling: Filling::Color(crate::shapes::Color { r: FX_ONE, g: 0, b: 0 }),
            lats: 100,
            longs: 100,
        }
    }

    pub fn radius(self, radius: i64) -> (b: SphereBuilder)
        ensures
            b == (SphereBuilder { radius, ..self }),
    {
        SphereBuilder { radius, ..self }
    }

    pub fn color(self, color: crate::shapes::Color) -> (b: SphereBuilder)
        ensures
            b == (SphereBuilder { filling: Filling::Color(color), ..self }),
    {
        SphereBuilder { filling: Filling::Color(color), ..self }
    }

    pub fn texture(self, texture: u64) -> (b: SphereBuilder)
        ensures
            b == (SphereBuilder { filling: Filling::Texture(texture), ..self }),
    {
        SphereBuilder { filling: Filling::Texture(texture), ..self }
    }

    pub fn lats(self, lats: usize) -> (b: SphereBuilder)
        ensures
            b == (SphereBuilder { lats, ..self }),
    {
        SphereBuilder { lats, ..self }
    }

    pub fn longs(self, longs: usize) -> (b: SphereBuilder)
        ensures
            b == (SphereBuilder { longs, ..self }),
    {
        SphereBuilder { longs, ..self }
    }

    /// The sphere configured so far, from the supplied angle tables.
    pub fn build(self, ring: &Vec<Angle>, meridian: &Vec<Angle>) -> (s: Sphere)
        requires
            3 <= self.lats,
            3 <= self.longs,
            self.lats * self.longs <= 65536,
            0 < self.radius <= FX_LIMIT,
            ring@.len() == self.lats,
            meridian@.len() == self.longs,
            angles_wf(ring@),
            angles_wf(meridian@),
        ensures
            sphere_mesh_ok(
                s.vertices@,
                s.indices@,
                self.radius as int,
                self.lats as int,
                self.longs as int,
                ring@,
                meridian@,
            ),
            s.filling == self.filling,
            s.radius == self.radius,
            s.lats == self.lats,
            s.longs == self.longs,
    {
        Sphere::new(self.radius, self.filling, self.lats, self.longs, ring, meridian)
    }
}

} // verus!
