//! The outside generators that hatching draws on: Poisson-disk sampling,
//! Voronoi tessellation, and the hash and the generator behind each cell's
//! angle.
use crate::geometry::{moderate_points, Point};
use crate::scalar::{at_most, difference, finite, float_le, less, minus, ONE};
use num_traits::FromBytes;
use vstd::prelude::*;

verus! {

/// The points that `fast_poisson` samples in the rectangle from the origin
/// to `(width, height)`, no two nearer than `radius`, for a seed.
pub uninterp spec fn poisson_points(width: u64, height: u64, radius: u64, seed: u64) -> Seq<Point>;

/// The cells that `voronator` gives the sites, one ring per site in the
/// sites' order, each clipped to the rectangle from `min` to `max`; `None`
/// where it finds no triangulation.
pub uninterp spec fn voronoi_cells(min: Point, max: Point, sites: Seq<Point>) -> Option<
    Seq<Seq<Point>>,
>;

/// What egui's predictable hasher gives for a `u64`.
pub uninterp spec fn hash_of(v: u64) -> u64;

/// The multiplier of the generator's step.
pub const MULTIPLIER: u64 = 6364136223846793005;

/// The increment of the generator's step.
pub const INCREMENT: u64 = 1442695040888963407;

/// The state after a step of the generator: the state times `MULTIPLIER`
/// plus `INCREMENT`, in 64 bits.
pub open spec fn advanced(state: u64) -> u64 {
    ((state as int * MULTIPLIER as int + INCREMENT as int) % 0x1_0000_0000_0000_0000) as u64
}

/// `x` with its 32 bits turned right by `by` places.
pub open spec fn turned_right(x: u32, by: u32) -> u32 {
    if by % 32 == 0 {
        x
    } else {
        (x >> (by % 32)) | (x << ((32 - by % 32) as u32))
    }
}

/// The number that the generator gives in a state: the low 32 bits of the
/// state's xor-shift, turned right by the state's five highest bits.
pub open spec fn drawn(state: u64) -> u32 {
    turned_right(((((state >> 18) ^ state) >> 27) % 0x1_0000_0000) as u32, (state >> 59) as u32)
}

/// The state in which seeding leaves the generator: a step from zero, the
/// seed added in 64 bits, and a step more.
pub open spec fn seeded(seed: u64) -> u64 {
    advanced(((advanced(0) as int + seed as int) % 0x1_0000_0000_0000_0000) as u64)
}

/// The first number that the generator gives after it was seeded.
pub open spec fn first_random(seed: u64) -> u32 {
    drawn(seeded(seed))
}

/// Whether a point lies in the rectangle from the origin to
/// `(width, height)`, the far sides left out.
pub open spec fn in_rectangle(p: Point, width: u64, height: u64) -> bool {
    at_most(0, p.x) && less(p.x, width) && at_most(0, p.y) && less(p.y, height)
}

/// `Poisson2D::new`, `with_seed`, `with_dimensions` and `iter` of
/// fast_poisson. With a seed the generator is seeded from it alone, and the
/// iterator hands out only points that it found in the rectangle; every
/// point comes out as its two coordinates' bits.
#[verifier::external_body]
fn poisson_sample(width: u64, height: u64, radius: u64, seed: u64) -> (r: Vec<Point>)
    requires
        finite(width),
        finite(height),
        finite(radius),
        less(0, radius),
    ensures
        r@ == poisson_points(width, height, radius, seed),
        forall|i: int| 0 <= i < r.len() ==> in_rectangle(#[trigger] r[i], width, height),
{
    let f = |b: u64| FromBytes::from_ne_bytes(&b.to_ne_bytes());
    let sampler = fast_poisson::Poisson2D::new().with_seed(seed).with_dimensions([f(width), f(height)], f(radius));
    sampler.iter().map(|p| Point { x: p[0].to_bits(), y: p[1].to_bits() }).collect()
}

/// Whether the rectangle from `min` to `max` is at least one wide and one
/// high.
pub open spec fn spans(min: Point, max: Point) -> bool {
    &&& difference(max.x, min.x) matches Some(w) && at_most(ONE, w)
    &&& difference(max.y, min.y) matches Some(h) && at_most(ONE, h)
}

/// Tells whether the rectangle from `min` to `max` is at least one wide and
/// one high.
pub fn is_spanning(min: Point, max: Point) -> (r: bool)
    ensures
        r == spans(min, max),
{
    let wide = match minus(max.x, min.x) {
        Some(w) => float_le(ONE, w),
        None => false,
    };
    let high = match minus(max.y, min.y) {
        Some(h) => float_le(ONE, h),
        None => false,
    };
    wide && high
}

/// `VoronoiDiagram::from_tuple` and `cells` of voronator, which gives one
/// cell for each site. The triangulation squares distances and sorts by
/// them, which asks for coordinates whose squares are finite; and it starts
/// from the point nearest to the middle of all points, the four that
/// voronator sets around the rectangle among them, which asks for a
/// rectangle with some width and height.
#[verifier::external_body]
fn voronoi_diagram(min: Point, max: Point, sites: &Vec<Point>) -> (r: Option<Vec<Vec<Point>>>)
    requires
        min.moderate(),
        max.moderate(),
        spans(min, max),
        moderate_points(sites@),
    ensures
        r.deep_view() == voronoi_cells(min, max, sites@),
        r matches Some(cells) ==> cells.len() == sites.len(),
{
    let f = |b: u64| FromBytes::from_ne_bytes(&b.to_ne_bytes());
    let s: Vec<(_, _)> = sites.iter().map(|p| (f(p.x), f(p.y))).collect();
    let d = voronator::VoronoiDiagram::<voronator::delaunator::Point>::from_tuple(&(f(min.x), f(min.y)), &(f(max.x), f(max.y)), &s);
    d.map(|d| d.cells().iter().map(|c| c.points().iter().map(|p| Point { x: p.x.to_bits(), y: p.y.to_bits() }).collect()).collect())
}

/// `util::hash` of egui on a `u64`: a hasher built from four fixed keys, and
/// hashers built from the same keys are identical.
#[verifier::external_body]
fn predictable_hash(v: u64) -> (r: u64)
    ensures
        r == hash_of(v),
{
    egui::util::hash(v)
}

/// `RandGenerator::new`, `srand` and `rand` of quad_rand: a generator of its
/// own, seeded and asked once. Seeding sets the state to zero, steps, adds
/// the seed and steps; asking gives the number of the state and steps.
#[verifier::external_body]
fn seeded_random(seed: u64) -> (r: u32)
    ensures
        r == first_random(seed),
{
    let generator = quad_rand::RandGenerator::new();
    generator.srand(seed);
    generator.rand()
}

/// Samples points in the rectangle from the origin to `(width, height)`, no
/// two nearer than `radius`.
pub fn sample(width: u64, height: u64, radius: u64, seed: u64) -> (r: Vec<Point>)
    requires
        finite(width),
        finite(height),
        finite(radius),
        less(0, radius),
    ensures
        r@ == poisson_points(width, height, radius, seed),
        forall|i: int| 0 <= i < r.len() ==> in_rectangle(#[trigger] r[i], width, height),
{
    poisson_sample(width, height, radius, seed)
}

/// The Voronoi cells of the sites, clipped to the rectangle from `min` to
/// `max`; `None` where the sites have no diagram.
pub fn tessellate(min: Point, max: Point, sites: &Vec<Point>) -> (r: Option<Vec<Vec<Point>>>)
    requires
        min.moderate(),
        max.moderate(),
        spans(min, max),
        moderate_points(sites@),
    ensures
        r.deep_view() == voronoi_cells(min, max, sites@),
        r matches Some(cells) ==> cells.len() == sites.len(),
{
    voronoi_diagram(min, max, sites)
}

/// A half turn in degrees. Angles run from zero up to it, itself left out.
pub const HALF_TURN: u32 = 180;

/// The angle of a cell's strokes in whole degrees, from the hash of a number:
/// the first number of the generator seeded with the hash, modulo a half
/// turn.
pub open spec fn angle_of(v: u64) -> u32 {
    first_random(hash_of(v)) % HALF_TURN
}

/// The hash of a number, the same in every run.
pub fn hash(v: u64) -> (h: u64)
    ensures
        h == hash_of(v),
{
    predictable_hash(v)
}

/// The first number of the generator seeded with `seed`.
pub fn random(seed: u64) -> (r: u32)
    ensures
        r == first_random(seed),
{
    seeded_random(seed)
}

/// The angle below a half turn that belongs to the number `v`.
pub fn angle(v: u64) -> (a: u32)
    ensures
        a == angle_of(v),
        a < HALF_TURN,
{
    turn(random(hash(v)))
}

/// A drawn number as an angle in whole degrees below a half turn.
pub fn turn(drawn: u32) -> (a: u32)
    ensures
        a == drawn % HALF_TURN,
        a < HALF_TURN,
{
    drawn % HALF_TURN
}

} // verus!
