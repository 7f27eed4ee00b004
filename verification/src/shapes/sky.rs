//! The starfield: randomly placed background stars drawn as points at
//! depth -1, plus shooting-star line segments that sweep diagonally
//! across the sky, driven by a cyclic frame counter.

use crate::fx::FX_ONE;
use crate::shapes::matrices::Vec3S;
use crate::shapes::{map_range, spec_map_range, Vertex, VertexS};
use rand::Rng;
use vstd::arithmetic::div_mod::{lemma_mod_add_multiples_vanish, lemma_small_mod};
use vstd::prelude::*;

verus! {

/// The shooting stars restart their sweep after this many frames.
pub const ANIMATION_FRAMES: u32 = 240;

#[verifier::external_type_specification]
#[verifier::external_body]
pub struct ExThreadRng(rand::rngs::ThreadRng);

/// Relies on rand::thread_rng: a handle to the thread-local generator.
#[verifier::external_body]
fn fresh_rng() -> rand::rngs::ThreadRng {
    rand::thread_rng()
}

/// Relies on rand::Rng::gen_range: a value drawn from the given range,
/// here `-100..100`, which is never empty, so the call cannot panic.
/// Nothing but the range is promised of the draw.
#[verifier::external_body]
fn rng_hundredth(rng: &mut rand::rngs::ThreadRng) -> (r: i64)
    ensures
        -100 <= r < 100,
{
    rng.gen_range(-100..100)
}

/// A background star: somewhere in the unit square, at depth -1, with
/// blank texture coordinates.
pub open spec fn sky_star_ok(v: VertexS) -> bool {
    &&& -(FX_ONE as int) <= v.position.x < FX_ONE as int
    &&& -(FX_ONE as int) <= v.position.y < FX_ONE as int
    &&& v.position.z == -(FX_ONE as int)
    &&& v.u == 0
    &&& v.v == 0
}

/// Shooting star `k` occupies slots `2k` and `2k + 1`: a random star
/// and its tail end, offset by half a unit down and to the left.
pub open spec fn spec_shooting_pair(vs: Seq<Vertex>, k: int) -> bool {
    &&& sky_star_ok(vs[2 * k]@)
    &&& vs[2 * k + 1]@.position.x == vs[2 * k]@.position.x - 500_000
    &&& vs[2 * k + 1]@.position.y == vs[2 * k]@.position.y - 500_000
    &&& vs[2 * k + 1]@.position.z == -(FX_ONE as int)
    &&& vs[2 * k + 1]@.u == 0 && vs[2 * k + 1]@.v == 0
}

/// Where the shooting stars sit on x at the given frame of their sweep:
/// from 1.5 down to -1.5 across the cycle.
pub open spec fn spec_shooting_x(frame: int) -> int {
    spec_map_range(0, 240_000_000, 1_500_000, -1_500_000, frame * FX_ONE)
}

/// Where the shooting stars sit on y at the given frame: from 2.5 down
/// to -1.0 across the cycle.
pub open spec fn spec_shooting_y(frame: int) -> int {
    spec_map_range(0, 240_000_000, 2_500_000, -1_000_000, frame * FX_ONE)
}

/// The shooting-star translation after `tick` frames in all: the sweep
/// restarts silently every [`ANIMATION_FRAMES`] frames.
pub open spec fn spec_shooting_translation(tick: nat) -> (int, int) {
    (
        spec_shooting_x((tick % (ANIMATION_FRAMES as nat)) as int),
        spec_shooting_y((tick % (ANIMATION_FRAMES as nat)) as int),
    )
}

/// The sweep is periodic: a full cycle later, the shooting stars are
/// translated to exactly the same place.
pub proof fn lemma_shooting_translation_periodic(tick: nat)
    ensures
        spec_shooting_translation(tick + ANIMATION_FRAMES as nat) == spec_shooting_translation(
            tick,
        ),
{
    lemma_mod_add_multiples_vanish(tick as int, ANIMATION_FRAMES as int);
}

/// The starfield: background stars, shooting-star segments, and the
/// frame counter of the shooting-star sweep.
pub struct Sky {
    pub vertices: Vec<Vertex>,
    pub shooting_stars: Vec<Vertex>,
    pub shooting_frame: u32,
}

/// The frame counter stays inside its cycle.
pub open spec fn sky_wf(s: Sky) -> bool {
    s.shooting_frame < ANIMATION_FRAMES
}

/// Background stars: each coordinate is a random hundredth in
/// `[-1, 1)`, scaled to fixed point.
fn gen_vertices(star_count: u32, rng: &mut rand::rngs::ThreadRng) -> (vs: Vec<Vertex>)
    ensures
        vs@.len() == star_count,
        forall|i: int| 0 <= i < vs@.len() ==> sky_star_ok((#[trigger] vs@[i])@),
{
    let mut vs: Vec<Vertex> = Vec::new();
    let mut i: u32 = 0;
    while i < star_count
        invariant
            0 <= i <= star_count,
            vs@.len() == i,
            forall|j: int| 0 <= j < vs@.len() ==> sky_star_ok((#[trigger] vs@[j])@),
        decreases star_count - i,
    {
        let x = rng_hundredth(rng) * 10_000;
        let y = rng_hundredth(rng) * 10_000;
        vs.push(Vertex::new(x, y, -FX_ONE, 0, 0));
        i += 1;
    }
    vs
}

/// Shooting stars: random heads as for the background stars, each
/// followed by its tail end half a unit down and to the left.
fn gen_shooting_stars(shooting_star_count: u32, rng: &mut rand::rngs::ThreadRng) -> (vs: Vec<
    Vertex,
>)
    ensures
        vs@.len() == 2 * shooting_star_count,
        forall|k: int| 0 <= k < shooting_star_count ==> #[trigger] spec_shooting_pair(vs@, k),
{
    let mut vs: Vec<Vertex> = Vec::new();
    let mut i: u32 = 0;
    while i < shooting_star_count
        invariant
            0 <= i <= shooting_star_count,
            vs@.len() == 2 * i,
            forall|k: int| 0 <= k < i ==> #[trigger] spec_shooting_pair(vs@, k),
        decreases shooting_star_count - i,
    {
        let x = rng_hundredth(rng) * 10_000;
        let y = rng_hundredth(rng) * 10_000;
        let ghost pre = vs@;
        vs.push(Vertex::new(x, y, -FX_ONE, 0, 0));
        vs.push(Vertex::new(x - 500_000, y - 500_000, -FX_ONE, 0, 0));
        proof {
            assert forall|k: int| 0 <= k < i + 1 implies #[trigger] spec_shooting_pair(
                vs@,
                k,
            ) by {
                if k < i {
                    assert(spec_shooting_pair(pre, k));
                    assert(vs@[2 * k] == pre[2 * k] && vs@[2 * k + 1] == pre[2 * k + 1]);
                } else {
                    assert(vs@[2 * k]@.position.x == x && vs@[2 * k + 1]@.position.x == x
                        - 500_000);
                }
            }
        }
        i += 1;
    }
    vs
}

impl Sky {
    /// The stock sky: a hundred stars and seven shooting stars.
    pub fn new() -> (s: Sky)
        ensures
            s.vertices@.len() == 100,
            forall|i: int| 0 <= i < s.vertices@.len() ==> sky_star_ok((#[trigger] s.vertices@[i])@),
            s.shooting_stars@.len() == 14,
            forall|k: int| 0 <= k < 7 ==> #[trigger] spec_shooting_pair(s.shooting_stars@, k),
            s.shooting_frame == 0,
            sky_wf(s),
    {
        Sky::with_count(100, 7)
    }

    /// A sky with the given numbers of stars and shooting stars, drawn
    /// from the thread-local generator, its sweep at frame zero.
    pub fn with_count(star_count: u32, shooting_star_count: u32) -> (s: Sky)
        ensures
            s.vertices@.len() == star_count,
            forall|i: int| 0 <= i < s.vertices@.len() ==> sky_star_ok((#[trigger] s.vertices@[i])@),
            s.shooting_stars@.len() == 2 * shooting_star_count,
            forall|k: int|
                0 <= k < shooting_star_count ==> #[trigger] spec_shooting_pair(
                    s.shooting_stars@,
                    k,
                ),
            s.shooting_frame == 0,
            sky_wf(s),
    {
        let mut rng = fresh_rng();
        let vertices = gen_vertices(star_count, &mut rng);
        let shooting_stars = gen_shooting_stars(shooting_star_count, &mut rng);
        Sky { vertices, shooting_stars, shooting_frame: 0 }
    }

    /// Where the shooting stars currently sit: the frame counter mapped
    /// from `[0, 240)` onto `[1.5, -1.5]` on x and `[2.5, -1.0]` on y.
    pub fn shooting_translation(&self) -> (r: (i64, i64))
        requires
            sky_wf(*self),
        ensures
            (r.0 as int, r.1 as int) == spec_shooting_translation(self.shooting_frame as nat),
    {
        let frame = (self.shooting_frame as i64) * FX_ONE;
        let x = map_range((0, 240_000_000), (1_500_000, -1_500_000), frame);
        let y = map_range((0, 240_000_000), (2_500_000, -1_000_000), frame);
        proof {
            lemma_small_mod(self.shooting_frame as nat, ANIMATION_FRAMES as nat);
        }
        (x, y)
    }

    /// One frame passes: the sweep counter advances and silently wraps
    /// at the end of the cycle. The meshes are untouched.
    pub fn advance(&mut self)
        requires
            sky_wf(*old(self)),
        ensures
            final(self).shooting_frame == (old(self).shooting_frame + 1) % (
            ANIMATION_FRAMES as int),
            final(self).vertices == old(self).vertices,
            final(self).shooting_stars == old(self).shooting_stars,
            sky_wf(*final(self)),
    {
        if self.shooting_frame + 1 == ANIMATION_FRAMES {
            self.shooting_frame = 0;
        } else {
            self.shooting_frame = self.shooting_frame + 1;
        }
        proof {
            if old(self).shooting_frame + 1 < ANIMATION_FRAMES {
                lemma_small_mod((old(self).shooting_frame + 1) as nat, ANIMATION_FRAMES as nat);
            }
        }
    }
}

} // verus!
