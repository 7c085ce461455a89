//! Points and line segments of the plane, as plain values.
use crate::scalar::{equal, finite, float_eq, is_finite, is_moderate, moderate};
use vstd::prelude::*;

verus! {

/// A point of the plane: the bit patterns of its two coordinates.
///
/// The derived `==` compares the patterns; `coincides` compares the numbers.
#[derive(Clone, Copy, Debug, PartialEq, Eq, Structural)]
pub struct Point {
    pub x: u64,
    pub y: u64,
}

impl DeepView for Point {
    type V = Point;

    open spec fn deep_view(&self) -> Point {
        *self
    }
}

impl Point {
    /// Whether both coordinates are finite numbers.
    pub open spec fn finite(self) -> bool {
        finite(self.x) && finite(self.y)
    }

    /// Whether both coordinates are finite numbers whose squares are finite.
    pub open spec fn moderate(self) -> bool {
        moderate(self.x) && moderate(self.y)
    }

    /// Whether the two points have equal coordinates as numbers.
    pub open spec fn same_place(self, other: Point) -> bool {
        equal(self.x, other.x) && equal(self.y, other.y)
    }

    /// Tells whether both coordinates are finite numbers.
    pub fn is_finite(&self) -> (r: bool)
        ensures
            r == self.finite(),
    {
        is_finite(self.x) && is_finite(self.y)
    }

    /// Tells whether both coordinates are finite numbers whose squares are
    /// finite.
    pub fn is_moderate(&self) -> (r: bool)
        ensures
            r == self.moderate(),
            r ==> self.finite(),
    {
        is_moderate(self.x) && is_moderate(self.y)
    }

    /// Tells whether the two points have equal coordinates as numbers.
    pub fn coincides(&self, other: &Point) -> (r: bool)
        ensures
            r == self.same_place(*other),
    {
        float_eq(self.x, other.x) && float_eq(self.y, other.y)
    }
}

/// A line segment from its first point to its second.
#[derive(Clone, Copy, Debug, PartialEq, Eq, Structural)]
pub struct Line(pub Point, pub Point);

impl Line {
    /// Whether both end points are finite.
    pub open spec fn finite(self) -> bool {
        self.0.finite() && self.1.finite()
    }

    /// The segment from `(x1, y1)` to `(x2, y2)`.
    pub fn new(x1: u64, y1: u64, x2: u64, y2: u64) -> (l: Line)
        ensures
            l == Line(Point { x: x1, y: y1 }, Point { x: x2, y: y2 }),
    {
        Line(Point { x: x1, y: y1 }, Point { x: x2, y: y2 })
    }

    /// Tells whether both end points are finite.
    pub fn is_finite(&self) -> (r: bool)
        ensures
            r == self.finite(),
    {
        self.0.is_finite() && self.1.is_finite()
    }
}

/// Whether every point of the sequence is finite.
pub open spec fn finite_points(points: Seq<Point>) -> bool {
    forall|i: int| 0 <= i < points.len() ==> (#[trigger] points[i]).finite()
}

/// Whether every point of the sequence is moderate.
pub open spec fn moderate_points(points: Seq<Point>) -> bool {
    forall|i: int| 0 <= i < points.len() ==> (#[trigger] points[i]).moderate()
}

/// Whether every point of every ring is finite.
pub open spec fn finite_rings(rings: Seq<Seq<Point>>) -> bool {
    forall|i: int| 0 <= i < rings.len() ==> finite_points(#[trigger] rings[i])
}

/// Whether every segment of the sequence is finite.
pub open spec fn finite_lines(lines: Seq<Line>) -> bool {
    forall|i: int| 0 <= i < lines.len() ==> (#[trigger] lines[i]).finite()
}

/// Tells whether every point is finite.
pub fn all_finite(points: &Vec<Point>) -> (r: bool)
    ensures
        r == finite_points(points@),
{
    let mut i: usize = 0;
    while i < points.len()
        invariant
            i <= points.len(),
            forall|j: int| 0 <= j < i ==> (#[trigger] points@[j]).finite(),
        decreases points.len() - i,
    {
        if !points[i].is_finite() {
            return false;
        }
        i += 1;
    }
    true
}

/// Tells whether every point is moderate.
pub fn all_moderate(points: &Vec<Point>) -> (r: bool)
    ensures
        r == moderate_points(points@),
        r ==> finite_points(points@),
{
    let mut i: usize = 0;
    while i < points.len()
        invariant
            i <= points.len(),
            forall|j: int| 0 <= j < i ==> (#[trigger] points@[j]).moderate(),
            forall|j: int| 0 <= j < i ==> (#[trigger] points@[j]).finite(),
        decreases points.len() - i,
    {
        if !points[i].is_moderate() {
            return false;
        }
        i += 1;
    }
    true
}

/// Tells whether two sequences hold the same points, pattern for pattern.
pub fn same_points(a: &Vec<Point>, b: &Vec<Point>) -> (r: bool)
    ensures
        r == (a@ == b@),
{
    if a.len() != b.len() {
        return false;
    }
    let mut i: usize = 0;
    while i < a.len()
        invariant
            a.len() == b.len(),
            i <= a.len(),
            forall|j: int| 0 <= j < i ==> a@[j] == b@[j],
        decreases a.len() - i,
    {
        if a[i] != b[i] {
            return false;
        }
        i += 1;
    }
    assert(a@ =~= b@);
    true
}

/// Tells whether two sequences hold the same rings.
pub fn same_rings(a: &Vec<Vec<Point>>, b: &Vec<Vec<Point>>) -> (r: bool)
    ensures
        r == (a.deep_view() == b.deep_view()),
{
    if a.len() != b.len() {
        assert(a.deep_view().len() != b.deep_view().len());
        return false;
    }
    let mut i: usize = 0;
    while i < a.len()
        invariant
            a.len() == b.len(),
            i <= a.len(),
            forall|j: int| 0 <= j < i ==> a.deep_view()[j] == b.deep_view()[j],
        decreases a.len() - i,
    {
        assert(a.deep_view()[i as int] == a@[i as int]@);
        assert(b.deep_view()[i as int] == b@[i as int]@);
        if !same_points(&a[i], &b[i]) {
            return false;
        }
        i += 1;
    }
    assert(a.deep_view() =~= b.deep_view());
    true
}

/// Tells whether every point of every ring is finite.
pub fn all_rings_finite(rings: &Vec<Vec<Point>>) -> (r: bool)
    ensures
        r == finite_rings(rings.deep_view()),
{
    let mut i: usize = 0;
    while i < rings.len()
        invariant
            i <= rings.len(),
            forall|j: int| 0 <= j < i ==> finite_points(#[trigger] rings.deep_view()[j]),
        decreases rings.len() - i,
    {
        assert(rings.deep_view()[i as int] == rings@[i as int]@);
        if !all_finite(&rings[i]) {
            return false;
        }
        i += 1;
    }
    true
}

} // verus!
