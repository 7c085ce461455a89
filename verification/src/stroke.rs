//! What the geo crate computes on line segments.
use crate::geometry::{Line, Point};
use crate::scalar::finite;
use geo::line_intersection::LineIntersection;
use geo::{Rotate, Translate};
use num_traits::FromBytes;
use vstd::prelude::*;

verus! {

/// Where two segments meet.
#[derive(Clone, Copy, Debug, PartialEq, Eq, Structural)]
pub enum Crossing {
    /// They meet in one point; `proper` where it lies inside both.
    Single { at: Point, proper: bool },
    /// They share a stretch.
    Overlap { along: Line },
}

/// The segment that `geo` moves a segment to.
pub uninterp spec fn translated_line(l: Line, dx: u64, dy: u64) -> Line;

/// The segment that `geo` turns a segment to, by degrees about a point.
pub uninterp spec fn rotated_line(l: Line, degrees: u64, center: Point) -> Line;

/// Where `geo` finds two segments to meet.
pub uninterp spec fn line_crossing(a: Line, b: Line) -> Option<Crossing>;

/// The length that `geo` computes for a segment.
pub uninterp spec fn line_length(l: Line) -> u64;

/// `Translate::translate_mut` of geo on a segment.
#[verifier::external_body]
fn line_translated(l: Line, dx: u64, dy: u64) -> (r: Line)
    requires
        l.finite(),
        finite(dx),
        finite(dy),
    ensures
        r == translated_line(l, dx, dy),
{
    let f = |b: u64| FromBytes::from_ne_bytes(&b.to_ne_bytes());
    let p = |c: geo::Coord| Point { x: c.x.to_bits(), y: c.y.to_bits() };
    let mut g: geo::Line = geo::Line::new((f(l.0.x), f(l.0.y)), (f(l.1.x), f(l.1.y)));
    g.translate_mut(f(dx), f(dy));
    Line(p(g.start), p(g.end))
}

/// `Rotate::rotate_around_point_mut` of geo on a segment; the angle is in
/// degrees.
#[verifier::external_body]
fn line_rotated(l: Line, degrees: u64, center: Point) -> (r: Line)
    requires
        l.finite(),
        finite(degrees),
        center.finite(),
    ensures
        r == rotated_line(l, degrees, center),
{
    let f = |b: u64| FromBytes::from_ne_bytes(&b.to_ne_bytes());
    let p = |c: geo::Coord| Point { x: c.x.to_bits(), y: c.y.to_bits() };
    let mut g: geo::Line = geo::Line::new((f(l.0.x), f(l.0.y)), (f(l.1.x), f(l.1.y)));
    g.rotate_around_point_mut(f(degrees), geo::Point::new(f(center.x), f(center.y)));
    Line(p(g.start), p(g.end))
}

/// `line_intersection` of geo on two segments.
#[verifier::external_body]
fn line_crossed(a: Line, b: Line) -> (r: Option<Crossing>)
    requires
        a.finite(),
        b.finite(),
    ensures
        r == line_crossing(a, b),
{
    let f = |b: u64| FromBytes::from_ne_bytes(&b.to_ne_bytes());
    let p = |c: geo::Coord| Point { x: c.x.to_bits(), y: c.y.to_bits() };
    let g = |l: Line| geo::Line::new((f(l.0.x), f(l.0.y)), (f(l.1.x), f(l.1.y)));
    geo::line_intersection::line_intersection(g(a), g(b)).map(|c| match c {
        LineIntersection::SinglePoint { intersection, is_proper } => Crossing::Single { at: p(intersection), proper: is_proper },
        LineIntersection::Collinear { intersection } => Crossing::Overlap { along: Line(p(intersection.start), p(intersection.end)) },
    })
}

/// `EuclideanLength::euclidean_length` of geo on a segment.
#[verifier::external_body]
#[allow(deprecated)]
fn line_measured(l: Line) -> (r: u64)
    requires
        l.finite(),
    ensures
        r == line_length(l),
{
    let f = |b: u64| FromBytes::from_ne_bytes(&b.to_ne_bytes());
    let g: geo::Line = geo::Line::new((f(l.0.x), f(l.0.y)), (f(l.1.x), f(l.1.y)));
    geo::EuclideanLength::euclidean_length(&g).to_bits()
}

impl Line {
    /// The segment moved by `dx` and `dy`.
    pub fn translate(self, dx: u64, dy: u64) -> (r: Line)
        requires
            self.finite(),
            finite(dx),
            finite(dy),
        ensures
            r == translated_line(self, dx, dy),
    {
        line_translated(self, dx, dy)
    }

    /// The segment turned by `degrees` about `center`.
    pub fn rotate_around_point(self, degrees: u64, center: Point) -> (r: Line)
        requires
            self.finite(),
            finite(degrees),
            center.finite(),
        ensures
            r == rotated_line(self, degrees, center),
    {
        line_rotated(self, degrees, center)
    }

    /// Where the segment meets `other`.
    pub fn crossing(self, other: Line) -> (r: Option<Crossing>)
        requires
            self.finite(),
            other.finite(),
        ensures
            r == line_crossing(self, other),
    {
        line_crossed(self, other)
    }

    /// The length of the segment.
    pub fn length(self) -> (r: u64)
        requires
            self.finite(),
        ensures
            r == line_length(self),
    {
        line_measured(self)
    }
}

} // verus!
