//! The mesh generators on concrete parameters: vertex counts, exact
//! corner positions, index lists and the starfield animation.

use celestial::fx::FX_ONE;
use celestial::shapes::cube::CubeBuilder;
use celestial::shapes::matrices::{Angle, Vec3};
use celestial::shapes::ring_planet::RingPlanet;
use celestial::shapes::sky::Sky;
use celestial::shapes::sphere::SphereBuilder;
use celestial::shapes::star::Star;
use celestial::shapes::triangle::{Point2, TriangleBuilder};
use celestial::shapes::{Color, Filling, Transform, Vertex};

fn pos(v: &Vertex) -> (i64, i64, i64) {
    (v.position.x, v.position.y, v.position.z)
}

#[test]
fn cube_covers_all_corner_combinations() {
    let cube = CubeBuilder::new()
        .origin(Vec3::new(0, 0, 0))
        .size(500_000)
        .color(Color::new(200_000, 200_000, 200_000))
        .build();
    assert_eq!(cube.vertices.len(), 8);
    let mut corners: Vec<(i64, i64, i64)> = cube.vertices.iter().map(pos).collect();
    corners.sort();
    let mut expected = vec![];
    for x in [-500_000, 500_000] {
        for y in [-500_000, 500_000] {
            for z in [-500_000, 500_000] {
                expected.push((x, y, z));
            }
        }
    }
    assert_eq!(corners, expected);
    assert_eq!(cube.indices.len(), 36);
    assert!(cube.indices.iter().all(|&i| i < 8));
    assert_eq!(cube.wireframe_indices.len(), 24);
    assert!(cube.wireframe_indices.iter().all(|&i| i < 8));
    assert_eq!(cube.color, Color::new(200_000, 200_000, 200_000));
}

#[test]
fn cube_triangle_list_is_the_documented_one() {
    let cube = CubeBuilder::new().size(FX_ONE).build();
    assert_eq!(
        cube.indices,
        vec![
            0u16, 1, 2, 0, 2, 3, 0, 3, 4, 3, 4, 7, 1, 2, 5, 2, 5, 6, 4, 5, 6, 5, 6, 7, 0, 1, 5, 1,
            4, 5, 2, 3, 6, 3, 6, 7,
        ]
    );
    assert_eq!(
        cube.wireframe_indices,
        vec![0u16, 1, 1, 2, 2, 3, 3, 0, 4, 5, 5, 6, 6, 7, 7, 4, 0, 4, 1, 5, 2, 6, 3, 7]
    );
}

#[test]
fn default_triangle_sits_on_the_unit_circle() {
    let tri = TriangleBuilder::new().build();
    assert_eq!(tri.vertices.len(), 3);
    assert_eq!(pos(&tri.vertices[0]), (0, FX_ONE, 0));
    assert_eq!(pos(&tri.vertices[1]), (866_025, -500_000, 0));
    assert_eq!(pos(&tri.vertices[2]), (-866_025, -500_000, 0));
    assert_eq!(tri.color, Color::new(0, FX_ONE, 0));
}

fn sphere_tables(lats: usize, longs: usize) -> (Vec<Angle>, Vec<Angle>) {
    // A ring table for lats == 4 (poles plus 30 degrees north and
    // south of the equator) and the three-point meridian table.
    assert_eq!((lats, longs), (4, 3));
    let ring = vec![
        Angle::new(FX_ONE, 0),
        Angle::new(500_000, 866_025),
        Angle::new(-500_000, 866_025),
        Angle::new(-FX_ONE, 0),
    ];
    let meridian = vec![
        Angle::new(0, FX_ONE),
        Angle::new(866_025, -500_000),
        Angle::new(-866_025, -500_000),
    ];
    (ring, meridian)
}

#[test]
fn triangle_takes_custom_points_and_color() {
    let tri = TriangleBuilder::new()
        .points([Point2::new(0, 0), Point2::new(FX_ONE, 0), Point2::new(0, FX_ONE)])
        .color(Color::new(FX_ONE, 0, 0))
        .build();
    assert_eq!(pos(&tri.vertices[0]), (0, 0, 0));
    assert_eq!(pos(&tri.vertices[1]), (FX_ONE, 0, 0));
    assert_eq!(pos(&tri.vertices[2]), (0, FX_ONE, 0));
    assert_eq!(tri.color, Color::new(FX_ONE, 0, 0));
}

#[test]
fn sphere_vertex_count_and_poles() {
    let (ring, meridian) = sphere_tables(4, 3);
    let sphere = SphereBuilder::new().radius(FX_ONE).lats(4).longs(3).build(&ring, &meridian);
    // (lats - 2) * longs + 2 vertices, the poles exactly on the axis.
    assert_eq!(sphere.vertices.len(), 8);
    assert_eq!(pos(&sphere.vertices[0]), (0, FX_ONE, 0));
    assert_eq!(pos(&sphere.vertices[7]), (0, -FX_ONE, 0));
    assert_eq!(sphere.radius(), FX_ONE);
}

#[test]
fn sphere_ring_vertices_follow_the_tables() {
    let (ring, meridian) = sphere_tables(4, 3);
    let sphere = SphereBuilder::new().radius(FX_ONE).lats(4).longs(3).build(&ring, &meridian);
    // First interior ring: 30 degrees up, ring radius cos(30).
    assert_eq!(pos(&sphere.vertices[1]), (0, 500_000, 866_025));
    assert_eq!(pos(&sphere.vertices[2]), (749_999, 500_000, -433_012));
    assert_eq!(pos(&sphere.vertices[3]), (-749_999, 500_000, -433_012));
    // Texture coordinates: u walks a third of a turn per longitude,
    // v falls from one pole to the other.
    assert_eq!((sphere.vertices[0].tex_coords.u, sphere.vertices[0].tex_coords.v), (
        -500_000,
        FX_ONE,
    ));
    assert_eq!((sphere.vertices[1].tex_coords.u, sphere.vertices[1].tex_coords.v), (
        -500_000,
        666_667,
    ));
    assert_eq!((sphere.vertices[2].tex_coords.u, sphere.vertices[2].tex_coords.v), (
        -833_333,
        666_667,
    ));
}

#[test]
fn sphere_indices_follow_the_cell_arithmetic() {
    let (ring, meridian) = sphere_tables(4, 3);
    let sphere = SphereBuilder::new().radius(FX_ONE).lats(4).longs(3).build(&ring, &meridian);
    // 6 * (lats - 2) * (longs - 1) indices, two triangles per cell,
    // `long + lat * longs` arithmetic.
    assert_eq!(sphere.indices.len(), 24);
    assert_eq!(
        sphere.indices,
        vec![3u16, 4, 6, 4, 7, 6, 4, 5, 7, 5, 8, 7, 6, 7, 9, 7, 10, 9, 7, 8, 10, 8, 11, 10]
    );
}

#[test]
fn sphere_builder_defaults() {
    let b = SphereBuilder::new();
    assert_eq!(b.radius, FX_ONE);
    assert_eq!(b.lats, 100);
    assert_eq!(b.longs, 100);
    assert_eq!(b.filling, Filling::Color(Color::new(FX_ONE, 0, 0)));
    let textured = SphereBuilder::new().texture(7);
    assert_eq!(textured.filling.get_texture(), Some(7));
    assert_eq!(textured.filling.get_color(), None);
}

#[test]
fn ring_planet_circles_at_the_ring_radius() {
    let (ring_t, meridian) = sphere_tables(4, 3);
    let sphere = SphereBuilder::new().radius(FX_ONE).lats(4).longs(3).build(&ring_t, &meridian);
    let circle: Vec<Angle> = (0..360).map(|_| Angle::new(0, FX_ONE)).collect();
    let planet = RingPlanet::new(1_300_000, sphere, &circle);
    assert_eq!(planet.ring.len(), 360);
    for v in &planet.ring {
        assert_eq!(pos(v), (1_300_000, 0, 0));
    }
    assert_eq!(planet.planet.vertices.len(), 8);
}

#[test]
fn star_shine_reaches_a_fifth_further_out() {
    let star = Star::new();
    assert_eq!(star.triangles.len(), 2);
    for t in &star.triangles {
        assert_eq!(t.vertices.len(), 3);
        assert_eq!(t.color, Color::new(FX_ONE, FX_ONE, FX_ONE));
    }
    assert_eq!(star.shine_vertices.len(), 12);
    assert_eq!(pos(&star.shine_vertices[0]), (FX_ONE, 0, 0));
    assert_eq!(pos(&star.shine_vertices[1]), (1_200_000, 0, 0));
    assert_eq!(pos(&star.shine_vertices[2]), (500_000, 866_025, 0));
    assert_eq!(pos(&star.shine_vertices[3]), (600_000, 1_039_230, 0));
}

#[test]
fn second_star_triangle_turns_a_sixth_further() {
    let t = Transform::default();
    let second = Star::second_triangle_transform(&t);
    assert_eq!(second.rotate_self.z.sin, 866_025);
    assert_eq!(second.rotate_self.z.cos, 500_000);
    assert_eq!(second.translation, t.translation);
    assert_eq!(second.scale, t.scale);
}

#[test]
fn sky_scatters_stars_across_the_unit_square() {
    let sky = Sky::with_count(50, 7);
    assert_eq!(sky.vertices.len(), 50);
    for v in &sky.vertices {
        let (x, y, z) = pos(v);
        assert!((-FX_ONE..FX_ONE).contains(&x));
        assert!((-FX_ONE..FX_ONE).contains(&y));
        assert_eq!(z, -FX_ONE);
    }
    assert_eq!(sky.shooting_stars.len(), 14);
    for k in 0..7 {
        let head = pos(&sky.shooting_stars[2 * k]);
        let tail = pos(&sky.shooting_stars[2 * k + 1]);
        assert_eq!(tail, (head.0 - 500_000, head.1 - 500_000, -FX_ONE));
    }
    assert_eq!(sky.shooting_frame, 0);
}

#[test]
fn shooting_stars_restart_after_a_full_cycle() {
    // The same translation comes back at phase 0, 240 and 480.
    let mut sky = Sky::with_count(0, 0);
    assert_eq!(sky.shooting_translation(), (1_500_000, 2_500_000));
    for _ in 0..240 {
        sky.advance();
    }
    assert_eq!(sky.shooting_frame, 0);
    assert_eq!(sky.shooting_translation(), (1_500_000, 2_500_000));
    for _ in 0..240 {
        sky.advance();
    }
    assert_eq!(sky.shooting_translation(), (1_500_000, 2_500_000));
}

#[test]
fn shooting_stars_sweep_down_and_left() {
    let mut sky = Sky::with_count(0, 0);
    sky.advance();
    assert_eq!(sky.shooting_frame, 1);
    assert_eq!(sky.shooting_translation(), (1_487_500, 2_485_417));
    // Half way through the cycle the x translation crosses zero.
    for _ in 0..119 {
        sky.advance();
    }
    assert_eq!(sky.shooting_frame, 120);
    assert_eq!(sky.shooting_translation().0, 0);
}
