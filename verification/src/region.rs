//! Regions of the plane: the multi-polygons of the geo crate, carried as
//! opaque values, with what geo computes on them.
use crate::geometry::{
    all_rings_finite, finite_lines, finite_points, finite_rings, same_rings, Line, Point,
};
use crate::scalar::less;
use geo::{Area, BooleanOps, BoundingRect, Centroid, Contains};
use num_traits::FromBytes;
use vstd::prelude::*;

verus! {

/// A region: zero or more polygons, each an exterior ring followed by the
/// rings of its holes. It holds a `geo::MultiPolygon` of doubles.
#[verifier::external_body]
pub struct Region {
    inner: geo::MultiPolygon,
}

/// The polygons of a region, each as its rings, the exterior first, each ring
/// as its points in order.
pub uninterp spec fn region_shape(r: Region) -> Seq<Seq<Seq<Point>>>;

/// The rings of `geo`'s union of two regions.
pub uninterp spec fn union_shape(a: Seq<Seq<Seq<Point>>>, b: Seq<Seq<Seq<Point>>>) -> Seq<
    Seq<Seq<Point>>,
>;

/// The rings of `geo`'s difference of two regions, the first less the second.
pub uninterp spec fn difference_shape(a: Seq<Seq<Seq<Point>>>, b: Seq<Seq<Seq<Point>>>) -> Seq<
    Seq<Seq<Point>>,
>;

/// The rings of `geo`'s intersection of two regions.
pub uninterp spec fn intersection_shape(a: Seq<Seq<Seq<Point>>>, b: Seq<Seq<Seq<Point>>>) -> Seq<
    Seq<Seq<Point>>,
>;

/// The unsigned area that `geo` computes for a region.
pub uninterp spec fn shape_area(a: Seq<Seq<Seq<Point>>>) -> u64;

/// The lower left and upper right corners of the bounding rectangle that
/// `geo` computes for a region.
pub uninterp spec fn shape_bounds(a: Seq<Seq<Seq<Point>>>) -> Option<(Point, Point)>;

/// Whether `geo` finds the polygon with the given exterior ring inside a
/// region.
pub uninterp spec fn shape_contains(a: Seq<Seq<Seq<Point>>>, ring: Seq<Point>) -> bool;

/// The distance that `geo` computes from a region to a point.
pub uninterp spec fn shape_distance(a: Seq<Seq<Seq<Point>>>, p: Point) -> u64;

/// The centroid that `geo` computes for the polygon with the given rings.
pub uninterp spec fn rings_centroid(rings: Seq<Seq<Point>>) -> Option<Point>;

/// A ring as a polygon holds it: a ring whose first and last points differ
/// as numbers gets its first point once more at the end.
pub open spec fn closed_ring(ring: Seq<Point>) -> Seq<Point> {
    if ring.len() > 0 && !ring.first().same_place(ring.last()) {
        ring.push(ring.first())
    } else {
        ring
    }
}

/// Whether every coordinate of the shape is finite and every polygon has its
/// exterior ring.
pub open spec fn sound_shape(shape: Seq<Seq<Seq<Point>>>) -> bool {
    forall|i: int|
        0 <= i < shape.len() ==> (#[trigger] shape[i]).len() >= 1 && finite_rings(shape[i])
}

/// Whether no polygon of the shape has a point in its exterior ring.
pub open spec fn no_exterior_point(shape: Seq<Seq<Seq<Point>>>) -> bool {
    forall|i: int| 0 <= i < shape.len() ==> (#[trigger] shape[i]).len() >= 1 ==> shape[i][0].len() == 0
}

/// `MultiPolygon::new` on no polygon.
#[verifier::external_body]
fn region_empty() -> (r: Region)
    ensures
        region_shape(r) == Seq::<Seq<Seq<Point>>>::empty(),
{
    Region { inner: geo::MultiPolygon::new(vec![]) }
}

/// `MultiPolygon::new` on the one polygon that `Polygon::new` makes of the
/// ring, without holes. `Polygon::new` closes the ring.
#[verifier::external_body]
fn region_from_ring(ring: &Vec<Point>) -> (r: Region)
    ensures
        region_shape(r) == seq![seq![closed_ring(ring@)]],
{
    let f = |b: u64| FromBytes::from_ne_bytes(&b.to_ne_bytes());
    let line = ring.iter().map(|p| geo::Coord { x: f(p.x), y: f(p.y) }).collect();
    Region { inner: geo::MultiPolygon::new(vec![geo::Polygon::new(geo::LineString::new(line), vec![])]) }
}

/// Reads the coordinates out of the multi-polygon: for each polygon
/// `exterior()`, then `interiors()`, each coordinate by `to_bits`.
#[verifier::external_body]
fn region_rings(r: &Region) -> (rings: Vec<Vec<Vec<Point>>>)
    ensures
        rings.deep_view() == region_shape(*r),
        forall|i: int| 0 <= i < rings.len() ==> (#[trigger] rings[i]).len() >= 1,
{
    let ring = |l: &geo::LineString| l.0.iter().map(|c| Point { x: c.x.to_bits(), y: c.y.to_bits() }).collect();
    r.inner.0.iter().map(|p| core::iter::once(p.exterior()).chain(p.interiors()).map(ring).collect()).collect()
}

/// `BooleanOps::union` of geo. The overlay works on a grid of integers that
/// it lays over both regions, which asks for coordinates that are numbers.
#[verifier::external_body]
fn region_union(a: &Region, b: &Region) -> (r: Region)
    requires
        sound_shape(region_shape(*a)),
        sound_shape(region_shape(*b)),
    ensures
        region_shape(r) == union_shape(region_shape(*a), region_shape(*b)),
{
    Region { inner: a.inner.union(&b.inner) }
}

/// `BooleanOps::difference` of geo, under the same demand as the union.
#[verifier::external_body]
fn region_difference(a: &Region, b: &Region) -> (r: Region)
    requires
        sound_shape(region_shape(*a)),
        sound_shape(region_shape(*b)),
    ensures
        region_shape(r) == difference_shape(region_shape(*a), region_shape(*b)),
{
    Region { inner: a.inner.difference(&b.inner) }
}

/// `BooleanOps::intersection` of geo, under the same demand as the union.
#[verifier::external_body]
fn region_intersection(a: &Region, b: &Region) -> (r: Region)
    requires
        sound_shape(region_shape(*a)),
        sound_shape(region_shape(*b)),
    ensures
        region_shape(r) == intersection_shape(region_shape(*a), region_shape(*b)),
{
    Region { inner: a.inner.intersection(&b.inner) }
}

/// `Area::unsigned_area` of geo: a sum of absolute values from zero on, so
/// never a number below zero.
#[verifier::external_body]
fn region_area(a: &Region) -> (r: u64)
    ensures
        r == shape_area(region_shape(*a)),
        !less(r, 0),
{
    a.inner.unsigned_area().to_bits()
}

/// `BoundingRect::bounding_rect` of geo, which walks the exterior rings and
/// gives nothing exactly where they hold no point.
#[verifier::external_body]
fn region_bounds(a: &Region) -> (r: Option<(Point, Point)>)
    ensures
        r == shape_bounds(region_shape(*a)),
        r is None <==> no_exterior_point(region_shape(*a)),
{
    let p = |c: geo::Coord| Point { x: c.x.to_bits(), y: c.y.to_bits() };
    a.inner.bounding_rect().map(|b| (p(b.min()), p(b.max())))
}

/// `Contains::contains` of geo, of a region for the polygon that
/// `Polygon::new` makes of the ring. It orders coordinates, which asks for
/// numbers.
#[verifier::external_body]
fn region_contains(a: &Region, ring: &Vec<Point>) -> (r: bool)
    requires
        sound_shape(region_shape(*a)),
        finite_points(ring@),
    ensures
        r == shape_contains(region_shape(*a), ring@),
{
    let f = |b: u64| FromBytes::from_ne_bytes(&b.to_ne_bytes());
    let line = ring.iter().map(|p| geo::Coord { x: f(p.x), y: f(p.y) }).collect();
    a.inner.contains(&geo::Polygon::new(geo::LineString::new(line), vec![]))
}

/// `EuclideanDistance::euclidean_distance` of geo, from a region to a point.
#[verifier::external_body]
#[allow(deprecated)]
fn region_distance(a: &Region, p: Point) -> (r: u64)
    requires
        sound_shape(region_shape(*a)),
        p.finite(),
    ensures
        r == shape_distance(region_shape(*a), p),
{
    let f = |b: u64| FromBytes::from_ne_bytes(&b.to_ne_bytes());
    geo::EuclideanDistance::euclidean_distance(&a.inner, &geo::Point::new(f(p.x), f(p.y))).to_bits()
}

/// `Centroid::centroid` of geo, of the polygon that `Polygon::new` makes of
/// the first ring as exterior and the others as holes.
#[verifier::external_body]
fn polygon_centroid(rings: &Vec<Vec<Point>>) -> (r: Option<Point>)
    requires
        rings.len() >= 1,
        finite_rings(rings.deep_view()),
    ensures
        r == rings_centroid(rings.deep_view()),
{
    let f = |b: u64| FromBytes::from_ne_bytes(&b.to_ne_bytes());
    let line = |r: &Vec<Point>| geo::LineString::new(r.iter().map(|p| geo::Coord { x: f(p.x), y: f(p.y) }).collect());
    let c: Option<geo::Point> = geo::Polygon::new(line(&rings[0]), rings[1..].iter().map(line).collect()).centroid();
    c.map(|c| Point { x: c.x().to_bits(), y: c.y().to_bits() })
}

/// `Clone::clone` of the multi-polygon, which copies every coordinate.
#[verifier::external_body]
fn region_copy(a: &Region) -> (r: Region)
    ensures
        region_shape(r) == region_shape(*a),
{
    Region { inner: a.inner.clone() }
}

impl Clone for Region {
    /// A region of the same polygons.
    fn clone(&self) -> (r: Region)
        ensures
            r.shape() == self.shape(),
    {
        region_copy(self)
    }
}

impl Region {
    /// The polygons of the region, each as its rings.
    pub open spec fn shape(&self) -> Seq<Seq<Seq<Point>>> {
        region_shape(*self)
    }

    /// Whether every coordinate is finite.
    pub open spec fn sound(&self) -> bool {
        sound_shape(self.shape())
    }

    /// The region without a polygon.
    pub fn new() -> (r: Region)
        ensures
            r.shape() == Seq::<Seq<Seq<Point>>>::empty(),
            r.sound(),
    {
        region_empty()
    }

    /// The region of one polygon without holes, whose ring runs through the
    /// points in order and is closed if they leave it open.
    pub fn polygon(points: &Vec<Point>) -> (r: Region)
        requires
            finite_points(points@),
        ensures
            r.shape() == seq![seq![closed_ring(points@)]],
            r.sound(),
    {
        let r = region_from_ring(points);
        proof {
            lemma_closed_ring_finite(points@);
            assert(r.shape()[0] == seq![closed_ring(points@)]);
            assert(r.shape()[0][0] == closed_ring(points@));
        }
        r
    }

    /// The polygons of the region as plain values.
    pub fn rings(&self) -> (rings: Vec<Vec<Vec<Point>>>)
        ensures
            rings.deep_view() == self.shape(),
            forall|i: int| 0 <= i < rings.len() ==> (#[trigger] rings[i]).len() >= 1,
    {
        region_rings(self)
    }

    /// Tells whether every coordinate of the region is finite.
    pub fn is_sound(&self) -> (r: bool)
        ensures
            r == self.sound(),
    {
        let rings = region_rings(self);
        all_polygons_finite(&rings)
    }

    /// Tells whether the two regions have the same polygons, ring for ring
    /// and point for point.
    pub fn same_shape(&self, other: &Region) -> (r: bool)
        ensures
            r == (self.shape() == other.shape()),
    {
        let mine = region_rings(self);
        let theirs = region_rings(other);
        same_polygons(&mine, &theirs)
    }

    /// The unsigned area of the region.
    pub fn unsigned_area(&self) -> (a: u64)
        ensures
            a == shape_area(self.shape()),
            !less(a, 0),
    {
        region_area(self)
    }

    /// The corners of the bounding rectangle; `None` exactly where no
    /// exterior ring holds a point.
    pub fn bounding_rect(&self) -> (r: Option<(Point, Point)>)
        ensures
            r == shape_bounds(self.shape()),
            r is None <==> no_exterior_point(self.shape()),
    {
        region_bounds(self)
    }

    /// The union with `other`.
    pub fn union(&self, other: &Region) -> (r: Region)
        requires
            self.sound(),
            other.sound(),
        ensures
            r.shape() == union_shape(self.shape(), other.shape()),
    {
        region_union(self, other)
    }

    /// What is left of the region without `other`.
    pub fn difference(&self, other: &Region) -> (r: Region)
        requires
            self.sound(),
            other.sound(),
        ensures
            r.shape() == difference_shape(self.shape(), other.shape()),
    {
        region_difference(self, other)
    }

    /// What the region shares with `other`.
    pub fn intersection(&self, other: &Region) -> (r: Region)
        requires
            self.sound(),
            other.sound(),
        ensures
            r.shape() == intersection_shape(self.shape(), other.shape()),
    {
        region_intersection(self, other)
    }

    /// Tells whether the polygon with the given exterior ring lies inside
    /// the region.
    pub fn contains(&self, ring: &Vec<Point>) -> (r: bool)
        requires
            self.sound(),
            finite_points(ring@),
        ensures
            r == shape_contains(self.shape(), ring@),
    {
        region_contains(self, ring)
    }

    /// The distance from the region to a point.
    pub fn distance(&self, p: Point) -> (d: u64)
        requires
            self.sound(),
            p.finite(),
        ensures
            d == shape_distance(self.shape(), p),
    {
        region_distance(self, p)
    }
}

/// The centroid of the polygon with the given rings, the exterior first.
pub fn centroid(rings: &Vec<Vec<Point>>) -> (c: Option<Point>)
    requires
        rings.len() >= 1,
        finite_rings(rings.deep_view()),
    ensures
        c == rings_centroid(rings.deep_view()),
{
    polygon_centroid(rings)
}

/// The rectangle with `corner` and `opposite` as opposite corners, as a
/// region: its ring runs from `corner` up its side to `opposite` and back
/// along the other two sides.
pub fn poly_rect(corner: Point, opposite: Point) -> (r: Region)
    requires
        corner.finite(),
        opposite.finite(),
    ensures
        r.shape() == seq![seq![closed_ring(rect_ring(corner, opposite))]],
        r.sound(),
{
    let mut ring: Vec<Point> = Vec::new();
    ring.push(Point { x: corner.x, y: corner.y });
    ring.push(Point { x: corner.x, y: opposite.y });
    ring.push(Point { x: opposite.x, y: opposite.y });
    ring.push(Point { x: opposite.x, y: corner.y });
    assert(ring@ =~= rect_ring(corner, opposite));
    Region::polygon(&ring)
}

/// The four corners of the rectangle between `corner` and `opposite`, in
/// the order in which its ring visits them.
pub open spec fn rect_ring(corner: Point, opposite: Point) -> Seq<Point> {
    seq![
        Point { x: corner.x, y: corner.y },
        Point { x: corner.x, y: opposite.y },
        Point { x: opposite.x, y: opposite.y },
        Point { x: opposite.x, y: corner.y },
    ]
}

/// Closing a ring of finite points leaves its points finite.
pub proof fn lemma_closed_ring_finite(ring: Seq<Point>)
    requires
        finite_points(ring),
    ensures
        finite_points(closed_ring(ring)),
{
    let c = closed_ring(ring);
    assert forall|i: int| 0 <= i < c.len() implies (#[trigger] c[i]).finite() by {
        if i < ring.len() {
            assert(c[i] == ring[i]);
        } else {
            assert(c[i] == ring[0]);
        }
    }
}

/// The edges of a ring: from each point to the next.
pub open spec fn ring_edges(ring: Seq<Point>) -> Seq<Line> {
    Seq::new(
        if ring.len() > 0 {
            (ring.len() - 1) as nat
        } else {
            0
        },
        |i: int| Line(ring[i], ring[i + 1]),
    )
}

/// The edges of the first `n` rings of a polygon, ring after ring.
pub open spec fn rings_edges(rings: Seq<Seq<Point>>, n: nat) -> Seq<Line>
    decreases n,
{
    if n == 0 {
        Seq::empty()
    } else {
        rings_edges(rings, (n - 1) as nat) + ring_edges(rings[n - 1])
    }
}

/// The edges of a polygon: those of its exterior, then those of its holes.
pub open spec fn polygon_edges(rings: Seq<Seq<Point>>) -> Seq<Line> {
    rings_edges(rings, rings.len())
}

/// The edges of the first `n` polygons of a shape, polygon after polygon.
pub open spec fn polygons_edges(shape: Seq<Seq<Seq<Point>>>, n: nat) -> Seq<Line>
    decreases n,
{
    if n == 0 {
        Seq::empty()
    } else {
        polygons_edges(shape, (n - 1) as nat) + polygon_edges(shape[n - 1])
    }
}

/// The boundary of a shape: every edge of every ring of every polygon.
pub open spec fn shape_edges(shape: Seq<Seq<Seq<Point>>>) -> Seq<Line> {
    polygons_edges(shape, shape.len())
}

/// Appends the edges of a ring.
fn push_ring_edges(out: &mut Vec<Line>, ring: &Vec<Point>)
    ensures
        final(out)@ == old(out)@ + ring_edges(ring@),
        finite_lines(old(out)@) && finite_points(ring@) ==> finite_lines(final(out)@),
{
    let ghost before = out@;
    if ring.len() == 0 {
        assert(out@ =~= before + ring_edges(ring@));
        return ;
    }
    let mut i: usize = 0;
    while i + 1 < ring.len()
        invariant
            ring.len() > 0,
            i + 1 <= ring.len(),
            out@ == before + ring_edges(ring@).subrange(0, i as int),
            finite_lines(before) && finite_points(ring@) ==> finite_lines(out@),
        decreases ring.len() - i,
    {
        let edge = Line(ring[i], ring[i + 1]);
        let ghost so_far = out@;
        out.push(edge);
        proof {
            assert(ring_edges(ring@)[i as int] == edge);
            assert(ring_edges(ring@).subrange(0, i + 1) =~= ring_edges(ring@).subrange(
                0,
                i as int,
            ).push(edge));
            assert(out@ =~= before + ring_edges(ring@).subrange(0, i + 1));
            if finite_lines(before) && finite_points(ring@) {
                assert(ring@[i as int].finite());
                assert(ring@[i + 1].finite());
                assert forall|j: int| 0 <= j < out@.len() implies (#[trigger] out@[j]).finite() by {
                    if j < so_far.len() {
                        assert(out@[j] == so_far[j]);
                    }
                }
            }
        }
        i += 1;
    }
    assert(ring_edges(ring@).subrange(0, i as int) =~= ring_edges(ring@));
}

/// The edges of a polygon given by its rings: those of its exterior, then
/// those of its holes.
pub fn edges_of(rings: &Vec<Vec<Point>>) -> (out: Vec<Line>)
    ensures
        out@ == polygon_edges(rings.deep_view()),
        finite_rings(rings.deep_view()) ==> finite_lines(out@),
{
    let mut out: Vec<Line> = Vec::new();
    append_polygon_edges(&mut out, rings);
    assert(out@ =~= polygon_edges(rings.deep_view()));
    out
}

/// Appends the edges of a polygon.
fn append_polygon_edges(out: &mut Vec<Line>, rings: &Vec<Vec<Point>>)
    ensures
        final(out)@ == old(out)@ + polygon_edges(rings.deep_view()),
        finite_lines(old(out)@) && finite_rings(rings.deep_view()) ==> finite_lines(final(out)@),
{
    let ghost before = out@;
    let ghost deep = rings.deep_view();
    let mut i: usize = 0;
    assert(out@ =~= before + rings_edges(deep, 0));
    while i < rings.len()
        invariant
            i <= rings.len(),
            deep == rings.deep_view(),
            out@ == before + rings_edges(deep, i as nat),
            finite_lines(before) && finite_rings(deep) ==> finite_lines(out@),
        decreases rings.len() - i,
    {
        assert(deep[i as int] == rings@[i as int]@);
        push_ring_edges(out, &rings[i]);
        assert(out@ =~= before + rings_edges(deep, (i + 1) as nat));
        i += 1;
    }
}

/// The boundary of the polygons given by their rings: every edge of every
/// ring, polygon after polygon.
pub fn boundary_of(polygons: &Vec<Vec<Vec<Point>>>) -> (out: Vec<Line>)
    ensures
        out@ == shape_edges(polygons.deep_view()),
{
    let mut out: Vec<Line> = Vec::new();
    let ghost deep = polygons.deep_view();
    let mut i: usize = 0;
    while i < polygons.len()
        invariant
            i <= polygons.len(),
            deep == polygons.deep_view(),
            out@ == polygons_edges(deep, i as nat),
        decreases polygons.len() - i,
    {
        assert(deep[i as int] == polygons@[i as int].deep_view());
        let ghost so_far = out@;
        append_polygon_edges(&mut out, &polygons[i]);
        i += 1;
    }
    out
}

/// Tells whether two sequences hold the same polygons.
pub fn same_polygons(a: &Vec<Vec<Vec<Point>>>, b: &Vec<Vec<Vec<Point>>>) -> (r: bool)
    ensures
        r == (a.deep_view() == b.deep_view()),
{
    if a.len() != b.len() {
        assert(a.deep_view().len() != b.deep_view().len());
        return false;
    }
    let mut i: usize = 0;
    while i < a.len()
        invariant
            a.len() == b.len(),
            i <= a.len(),
            forall|j: int| 0 <= j < i ==> a.deep_view()[j] == b.deep_view()[j],
        decreases a.len() - i,
    {
        assert(a.deep_view()[i as int] == a@[i as int].deep_view());
        assert(b.deep_view()[i as int] == b@[i as int].deep_view());
        if !same_rings(&a[i], &b[i]) {
            return false;
        }
        i += 1;
    }
    assert(a.deep_view() =~= b.deep_view());
    true
}

/// Tells whether every coordinate of every polygon is finite.
pub fn all_polygons_finite(polygons: &Vec<Vec<Vec<Point>>>) -> (r: bool)
    requires
        forall|i: int| 0 <= i < polygons.len() ==> (#[trigger] polygons[i]).len() >= 1,
    ensures
        r == sound_shape(polygons.deep_view()),
{
    let mut i: usize = 0;
    while i < polygons.len()
        invariant
            i <= polygons.len(),
            forall|j: int| 0 <= j < polygons.len() ==> (#[trigger] polygons[j]).len() >= 1,
            forall|j: int|
                0 <= j < i ==> (#[trigger] polygons.deep_view()[j]).len() >= 1 && finite_rings(
                    polygons.deep_view()[j],
                ),
        decreases polygons.len() - i,
    {
        assert(polygons.deep_view()[i as int] == polygons@[i as int].deep_view());
        if !all_rings_finite(&polygons[i]) {
            return false;
        }
        i += 1;
    }
    true
}

} // verus!
