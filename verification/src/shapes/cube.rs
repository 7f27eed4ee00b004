//! An axis-aligned cube: eight corner vertices, a triangle list for the
//! faces and a line list for the wireframe overlay drawn over the same
//! vertex buffer.

use crate::fx::{FX_LIMIT, FX_ONE};
use crate::shapes::matrices::{vec_bounded, Vec3, Vec3S};
use crate::shapes::{Color, Uv, Vertex, VertexS};
use vstd::prelude::*;

verus! {

/// The corner of a cube with the given center and half-size, in the
/// fixed construction order: front face first (right-top, left-top,
/// left-bottom, right-bottom), then the back face in the same order.
pub open spec fn spec_cube_corner(origin: Vec3S, size: int, i: int) -> Vec3S {
    let x = if i == 0 || i == 3 || i == 4 || i == 7 {
        origin.x + size
    } else {
        origin.x - size
    };
    let y = if i == 0 || i == 1 || i == 4 || i == 5 {
        origin.y + size
    } else {
        origin.y - size
    };
    let z = if i < 4 {
        origin.z + size
    } else {
        origin.z - size
    };
    Vec3S { x, y, z }
}

/// A cube mesh, its wireframe overlay and its color.
pub struct Cube {
    pub vertices: Vec<Vertex>,
    pub indices: Vec<u16>,
    pub wireframe_indices: Vec<u16>,
    pub color: Color,
}

impl Cube {
    /// The eight corners of the cube, one vertex each, with blank
    /// texture coordinates (the cube is drawn in a flat color).
    pub fn generate_vertices(origin: &Vec3, size: i64) -> (vs: Vec<Vertex>)
        requires
            vec_bounded(origin@, FX_LIMIT as int),
            0 < size <= FX_LIMIT,
        ensures
            vs@.len() == 8,
            forall|i: int|
                0 <= i < 8 ==> (#[trigger] vs@[i])@ == (VertexS {
                    position: spec_cube_corner(origin@, size as int, i),
                    u: 0,
                    v: 0,
                }),
    {
        let right = origin.x + size;
        let left = origin.x - size;
        let top = origin.y + size;
        let bottom = origin.y - size;
        let front = origin.z + size;
        let back = origin.z - size;
        let mut vs: Vec<Vertex> = Vec::new();
        vs.push(Vertex::new(right, top, front, 0, 0));
        vs.push(Vertex::new(left, top, front, 0, 0));
        vs.push(Vertex::new(left, bottom, front, 0, 0));
        vs.push(Vertex::new(right, bottom, front, 0, 0));
        vs.push(Vertex::new(right, top, back, 0, 0));
        vs.push(Vertex::new(left, top, back, 0, 0));
        vs.push(Vertex::new(left, bottom, back, 0, 0));
        vs.push(Vertex::new(right, bottom, back, 0, 0));
        vs
    }

    /// The face triangle list (twelve triangles, two per face) and the
    /// wireframe line list (twelve edges), both over the eight corners.
    pub fn generate_indices() -> (r: (Vec<u16>, Vec<u16>))
        ensures
            r.0@ == seq![
                0u16, 1, 2, 0, 2, 3, 0, 3, 4, 3, 4, 7, 1, 2, 5, 2, 5, 6, 4, 5, 6, 5, 6, 7,
                0, 1, 5, 1, 4, 5, 2, 3, 6, 3, 6, 7,
            ],
            r.1@ == seq![0u16, 1, 1, 2, 2, 3, 3, 0, 4, 5, 5, 6, 6, 7, 7, 4, 0, 4, 1, 5, 2, 6, 3, 7],
            forall|i: int| 0 <= i < r.0@.len() ==> #[trigger] r.0@[i] < 8,
            forall|i: int| 0 <= i < r.1@.len() ==> #[trigger] r.1@[i] < 8,
    {
        let cube_indices: Vec<u16> = vec![
            0u16, 1, 2, // front
            0, 2, 3,
            0, 3, 4, // right
            3, 4, 7,
            1, 2, 5, // left
            2, 5, 6,
            4, 5, 6, // back
            5, 6, 7,
            0, 1, 5, // top
            1, 4, 5,
            2, 3, 6, // bottom
            3, 6, 7,
        ];
        let wireframe_indices: Vec<u16> = vec![
            0u16, 1, 1, 2, 2, 3, 3, 0, // front edges
            4, 5, 5, 6, 6, 7, 7, 4, // back edges
            0, 4, 1, 5, 2, 6, 3, 7, // side edges
        ];
        proof {
            assert(cube_indices@ =~= seq![
                0u16, 1, 2, 0, 2, 3, 0, 3, 4, 3, 4, 7, 1, 2, 5, 2, 5, 6, 4, 5, 6, 5, 6, 7,
                0, 1, 5, 1, 4, 5, 2, 3, 6, 3, 6, 7,
            ]);
            assert(wireframe_indices@ =~= seq![
                0u16, 1, 1, 2, 2, 3, 3, 0, 4, 5, 5, 6, 6, 7, 7, 4, 0, 4, 1, 5, 2, 6, 3, 7,
            ]);
        }
        (cube_indices, wireframe_indices)
    }

    /// A cube mesh centered on `origin` with half-size `size`, drawn in
    /// `color`.
    pub fn new(origin: &Vec3, size: i64, color: Color) -> (c: Cube)
        requires
            vec_bounded(origin@, FX_LIMIT as int),
            0 < size <= FX_LIMIT,
        ensures
            c.vertices@.len() == 8,
            forall|i: int|
                0 <= i < 8 ==> (#[trigger] c.vertices@[i])@ == (VertexS {
                    position: spec_cube_corner(origin@, size as int, i),
                    u: 0,
                    v: 0,
                }),
            c.indices@.len() == 36,
            c.wireframe_indices@.len() == 24,
            forall|i: int| 0 <= i < c.indices@.len() ==> #[trigger] c.indices@[i] < 8,
            forall|i: int|
                0 <= i < c.wireframe_indices@.len() ==> #[trigger] c.wireframe_indices@[i] < 8,
            c.color == color,
    {
        let vertices = Cube::generate_vertices(origin, size);
        let (indices, wireframe_indices) = Cube::generate_indices();
        Cube { vertices, indices, wireframe_indices, color }
    }
}

/// Fluent configuration for a [`Cube`].
pub struct CubeBuilder {
    pub origin: Vec3,
    pub size: i64,
    pub color: Color,
}

impl CubeBuilder {
    /// A unit cube at the origin, white.
    pub fn new() -> (b: CubeBuilder)
        ensures
            b.origin@ == (Vec3S { x: 0, y: 0, z: 0 }),
            b.size == FX_ONE,
            b.color == (Color { r: FX_ONE, g: FX_ONE, b: FX_ONE }),
    {
        CubeBuilder {
            origin: Vec3::zero(),
            size: FX_ONE,
            color: Color { r: FX_ONE, g: FX_ONE, b: FX_ONE },
        }
    }

    pub fn origin(self, origin: Vec3) -> (b: CubeBuilder)
        ensures
            b == (CubeBuilder { origin, ..self }),
    {
        CubeBuilder { origin, ..self }
    }

    pub fn size(self, size: i64) -> (b: CubeBuilder)
        ensures
            b == (CubeBuilder { size, ..self }),
    {
        CubeBuilder { size, ..self }
    }

    pub fn color(self, color: Color) -> (b: CubeBuilder)
        ensures
            b == (CubeBuilder { color, ..self }),
    {
        CubeBuilder { color, ..self }
    }

    /// The cube configured so far.
    pub fn build(self) -> (c: Cube)
        requires
            vec_bounded(self.origin@, FX_LIMIT as int),
            0 < self.size <= FX_LIMIT,
        ensures
            c.vertices@.len() == 8,
            forall|i: int|
                0 <= i < 8 ==> (#[trigger] c.vertices@[i])@ == (VertexS {
                    position: spec_cube_corner(self.origin@, self.size as int, i),
                    u: 0,
                    v: 0,
                }),
            c.indices@.len() == 36,
            c.wireframe_indices@.len() == 24,
            forall|i: int| 0 <= i < c.indices@.len() ==> #[trigger] c.indices@[i] < 8,
            forall|i: int|
                0 <= i < c.wireframe_indices@.len() ==> #[trigger] c.wireframe_indices@[i] < 8,
            c.color == self.color,
    {
        Cube::new(&self.origin, self.size, self.color)
    }
}

} // verus!
