//! A single flat triangle, by default equilateral on the unit circle.

use crate::fx::{FX_LIMIT, FX_ONE};
use crate::shapes::{Color, Vertex, VertexS};
use crate::shapes::matrices::Vec3S;
use vstd::prelude::*;

verus! {

/// Sine of 120 degrees (half the square root of three).
pub const SIN_120: i64 = 866_025;

/// Cosine of 120 degrees.
pub const COS_120: i64 = -500_000;

/// A point in the plane, in fixed-point coordinates.
#[derive(Clone, Copy, PartialEq, Eq, Debug)]
pub struct Point2 {
    pub x: i64,
    pub y: i64,
}

impl Point2 {
    pub fn new(x: i64, y: i64) -> (p: Point2)
        ensures
            p == (Point2 { x, y }),
    {
        Point2 { x, y }
    }
}

/// A triangle mesh: three vertices in the plane `z == 0`, drawn as one
/// triangle in a flat color.
pub struct Triangle {
    pub vertices: Vec<Vertex>,
    pub color: Color,
}

impl Triangle {
    /// The three corners as vertices at depth zero, with blank texture
    /// coordinates (the triangle is drawn in a flat color).
    pub fn generate_vertices(points: &[Point2; 3]) -> (vs: Vec<Vertex>)
        ensures
            vs@.len() == 3,
            forall|i: int|
                0 <= i < 3 ==> (#[trigger] vs@[i])@ == (VertexS {
                    position: Vec3S { x: points@[i].x as int, y: points@[i].y as int, z: 0 },
                    u: 0,
                    v: 0,
                }),
    {
        let mut vs: Vec<Vertex> = Vec::new();
        vs.push(Vertex::new(points[0].x, points[0].y, 0, 0, 0));
        vs.push(Vertex::new(points[1].x, points[1].y, 0, 0, 0));
        vs.push(Vertex::new(points[2].x, points[2].y, 0, 0, 0));
        vs
    }

    /// A triangle over the given corners, drawn in `color`.
    pub fn new(points: &[Point2; 3], color: Color) -> (t: Triangle)
        ensures
            t.vertices@.len() == 3,
            forall|i: int|
                0 <= i < 3 ==> (#[trigger] t.vertices@[i])@ == (VertexS {
                    position: Vec3S { x: points@[i].x as int, y: points@[i].y as int, z: 0 },
                    u: 0,
                    v: 0,
                }),
            t.color == color,
    {
        let vertices = Triangle::generate_vertices(points);
        Triangle { vertices, color }
    }
}

/// Fluent configuration for a [`Triangle`].
pub struct TriangleBuilder {
    pub points: [Point2; 3],
    pub color: Color,
}

impl TriangleBuilder {
    /// An equilateral triangle on the unit circle, one corner straight
    /// up and the others a third of a turn apart, in green.
    pub fn new() -> (b: TriangleBuilder)
        ensures
            b.points@[0] == (Point2 { x: 0, y: FX_ONE }),
            b.points@[1] == (Point2 { x: SIN_120, y: COS_120 }),
            b.points@[2].x == -SIN_120 && b.points@[2].y == COS_120,
            b.color == (Color { r: 0, g: FX_ONE, b: 0 }),
    {
        TriangleBuilder {
            points: [
                Point2 { x: 0, y: FX_ONE },
                Point2 { x: SIN_120, y: COS_120 },
                Point2 { x: -SIN_120, y: COS_120 },
            ],
            color: Color { r: 0, g: FX_ONE, b: 0 },
        }
    }

    pub fn points(self, points: [Point2; 3]) -> (b: TriangleBuilder)
        ensures
            b.points == points,
            b.color == self.color,
    {
        TriangleBuilder { points, ..self }
    }

    pub fn color(self, color: Color) -> (b: TriangleBuilder)
        ensures
            b.points == self.points,
            b.color == color,
    {
        TriangleBuilder { color, ..self }
    }

    /// The triangle configured so far.
    pub fn build(&self) -> (t: Triangle)
        ensures
            t.vertices@.len() == 3,
            forall|i: int|
                0 <= i < 3 ==> (#[trigger] t.vertices@[i])@ == (VertexS {
                    position: Vec3S {
                        x: self.points@[i].x as int,
                        y: self.points@[i].y as int,
                        z: 0,
                    },
                    u: 0,
                    v: 0,
                }),
            t.color == self.color,
    {
        Triangle::new(&self.points, self.color)
    }
}

} // verus!
