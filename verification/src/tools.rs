//! The tools that turn clicks into edits: a rectangle from two corners, and
//! a polygon from the points clicked one after the other.
use crate::edit::{EditView, MapEdit, PolyOpType};
use crate::geometry::{finite_points, Line, Point};
use crate::region::{closed_ring, poly_rect, rect_ring, ring_edges, Region};
use crate::sketch::{Color, Sketch, SketchView};
use vstd::prelude::*;

verus! {

/// The edit that a finished polygon makes: the operation on the layer with
/// the region of the one polygon through the points.
pub open spec fn polygon_edit(kind: PolyOpType, layer: usize, points: Seq<Point>) -> EditView {
    EditView {
        kind,
        layer: layer as nat,
        operand: seq![seq![closed_ring(points)]],
        base: Seq::empty(),
    }
}

/// The rectangle tool: it holds the first corner while it waits for the
/// second.
#[derive(Clone, Copy, Debug, PartialEq, Eq, Structural)]
pub struct RectTool {
    pub point: Option<Point>,
}

impl RectTool {
    /// Whether the corner held is finite.
    pub open spec fn wf(self) -> bool {
        self.point matches Some(p) ==> p.finite()
    }

    /// The tool without a corner.
    pub fn new() -> (t: RectTool)
        ensures
            t.point is None,
            t.wf(),
    {
        RectTool { point: None }
    }

    /// A left click: the first sets the corner, the second makes the edit
    /// with the rectangle between the corner and the click, and frees the
    /// tool.
    pub fn left_click(&mut self, pos: Point, layer: usize, op_type: &PolyOpType) -> (r: Option<
        MapEdit,
    >)
        requires
            old(self).wf(),
            pos.finite(),
        ensures
            final(self).wf(),
            match old(self).point {
                None => r is None && final(self).point == Some(pos),
                Some(first) => final(self).point is None && r is Some && r->Some_0@
                    == polygon_edit(*op_type, layer, rect_ring(first, pos)) && r->Some_0@.wf(),
            },
    {
        match self.point {
            Some(first) => {
                let out = poly_rect(first, pos);
                self.point = None;
                Some(MapEdit::new(*op_type, layer, out))
            },
            None => {
                self.point = Some(pos);
                None
            },
        }
    }

    /// A right click frees the tool.
    pub fn right_click(&mut self, pos: Point) -> (r: Option<MapEdit>)
        ensures
            r is None,
            final(self).point is None,
    {
        self.point = None;
        None
    }

    /// The four sides of the rectangle between the corner held and `pos`;
    /// nothing while no corner is held.
    pub fn preview(&self, pos: Point, thickness: u32, color: Color) -> (s: Sketch)
        ensures
            s@.thickness == thickness,
            s@.color == color,
            s@.lines == match self.point {
                None => Seq::<Line>::empty(),
                Some(p) => seq![
                    Line(Point { x: p.x, y: p.y }, Point { x: pos.x, y: p.y }),
                    Line(Point { x: p.x, y: pos.y }, Point { x: pos.x, y: pos.y }),
                    Line(Point { x: p.x, y: p.y }, Point { x: p.x, y: pos.y }),
                    Line(Point { x: pos.x, y: p.y }, Point { x: pos.x, y: pos.y }),
                ],
            },
    {
        let mut out = Sketch::new(thickness, color);
        match self.point {
            Some(point) => {
                out.add(Line::new(point.x, point.y, pos.x, point.y));
                out.add(Line::new(point.x, pos.y, pos.x, pos.y));
                out.add(Line::new(point.x, point.y, point.x, pos.y));
                out.add(Line::new(pos.x, point.y, pos.x, pos.y));
                assert(out@.lines =~= seq![
                    Line(Point { x: point.x, y: point.y }, Point { x: pos.x, y: point.y }),
                    Line(Point { x: point.x, y: pos.y }, Point { x: pos.x, y: pos.y }),
                    Line(Point { x: point.x, y: point.y }, Point { x: point.x, y: pos.y }),
                    Line(Point { x: pos.x, y: point.y }, Point { x: pos.x, y: pos.y }),
                ]);
            },
            None => {},
        }
        out
    }
}

/// Whether `i` is the first place at which `points` holds `pos`.
pub open spec fn first_at(points: Seq<Point>, pos: Point, i: int) -> bool {
    &&& 0 <= i < points.len()
    &&& points[i].same_place(pos)
    &&& forall|j: int| 0 <= j < i ==> !(#[trigger] points[j]).same_place(pos)
}

/// Whether `points` holds `pos` at some place.
pub open spec fn holds(points: Seq<Point>, pos: Point) -> bool {
    exists|i: int| 0 <= i < points.len() && (#[trigger] points[i]).same_place(pos)
}

/// Whether a click at `pos` finishes the polygon: it falls on the first or
/// on the last of the points.
pub open spec fn closes(points: Seq<Point>, pos: Point) -> bool {
    points.len() > 0 && (points.first().same_place(pos) || points.last().same_place(pos))
}

/// The points after a click at `pos`: none where the click finishes the
/// polygon; the points up to the first that holds `pos` where one does; else
/// the points and `pos`.
pub open spec fn clicked(points: Seq<Point>, pos: Point) -> Seq<Point> {
    if closes(points, pos) {
        Seq::empty()
    } else if holds(points, pos) {
        points.take((choose|i: int| first_at(points, pos, i)) + 1)
    } else {
        points.push(pos)
    }
}

/// The polygon tool: it holds the points clicked so far.
pub struct PolyTool {
    points: Vec<Point>,
}

impl View for PolyTool {
    type V = Seq<Point>;

    closed spec fn view(&self) -> Seq<Point> {
        self.points@
    }
}

impl PolyTool {
    /// Whether every point held is finite.
    pub open spec fn wf(&self) -> bool {
        finite_points(self@)
    }

    /// The tool without a point.
    pub fn new() -> (t: PolyTool)
        ensures
            t@ == Seq::<Point>::empty(),
            t.wf(),
    {
        PolyTool { points: Vec::new() }
    }

    /// The points clicked so far.
    pub fn points(&self) -> (p: &Vec<Point>)
        ensures
            p@ == self@,
    {
        &self.points
    }

    /// The first place at which the tool holds `pos`.
    fn position(&self, pos: Point) -> (r: Option<usize>)
        ensures
            match r {
                Some(i) => first_at(self@, pos, i as int),
                None => !holds(self@, pos),
            },
    {
        let mut i: usize = 0;
        while i < self.points.len()
            invariant
                i <= self.points.len(),
                forall|j: int| 0 <= j < i ==> !(#[trigger] self.points@[j]).same_place(pos),
            decreases self.points.len() - i,
        {
            if self.points[i].coincides(&pos) {
                return Some(i);
            }
            i += 1;
        }
        None
    }

    /// A left click. On the first or the last point it finishes the polygon:
    /// the tool gives the edit with the polygon through its points and
    /// forgets them. On another point that it holds, it forgets the points
    /// after that one. Anywhere else it takes the point.
    pub fn left_click(&mut self, pos: Point, layer: usize, op_type: &PolyOpType) -> (r: Option<
        MapEdit,
    >)
        requires
            old(self).wf(),
            pos.finite(),
        ensures
            final(self).wf(),
            final(self)@ == clicked(old(self)@, pos),
            r is Some <==> closes(old(self)@, pos),
            r matches Some(edit) ==> edit@ == polygon_edit(*op_type, layer, old(self)@)
                && edit@.wf(),
    {
        let n = self.points.len();
        if n == 0 {
            self.points.push(pos);
            assert(!holds(old(self)@, pos));
            return None;
        }
        if self.points[0].coincides(&pos) || self.points[n - 1].coincides(&pos) {
            let mut points: Vec<Point> = Vec::new();
            core::mem::swap(&mut self.points, &mut points);
            let polygon = Region::polygon(&points);
            return Some(MapEdit::new(*op_type, layer, polygon));
        }
        match self.position(pos) {
            Some(index) => {
                proof {
                    let chosen = choose|i: int| first_at(old(self)@, pos, i);
                    assert(first_at(old(self)@, pos, index as int));
                    assert(chosen == index) by {
                        if chosen < index {
                            assert(!old(self)@[chosen].same_place(pos));
                        } else if index < chosen {
                            assert(!old(self)@[index as int].same_place(pos));
                        }
                    }
                }
                self.points.truncate(index + 1);
            },
            None => {
                self.points.push(pos);
            },
        }
        None
    }

    /// A right click forgets the points.
    pub fn right_click(&mut self, pos: Point) -> (r: Option<MapEdit>)
        ensures
            r is None,
            final(self)@ == Seq::<Point>::empty(),
            final(self).wf(),
    {
        self.points.clear();
        None
    }

    /// The segments from each point held to the next, and from the last to
    /// `pos`.
    pub fn preview(&self, pos: Point, thickness: u32, color: Color) -> (s: Sketch)
        ensures
            s@ == (SketchView { lines: ring_edges(self@.push(pos)), thickness, color }),
    {
        let mut out = Sketch::new(thickness, color);
        let ghost all = self@.push(pos);
        let n = self.points.len();
        let mut i: usize = 0;
        assert(out@.lines =~= ring_edges(all).subrange(0, 0));
        while i < n
            invariant
                n == self.points.len(),
                i <= n,
                all == self@.push(pos),
                out@.thickness == thickness,
                out@.color == color,
                out@.lines == ring_edges(all).subrange(0, i as int),
            decreases n - i,
        {
            let next = if i + 1 < n {
                self.points[i + 1]
            } else {
                pos
            };
            let line = Line(self.points[i], next);
            assert(ring_edges(all)[i as int] == line);
            assert(ring_edges(all).subrange(0, i + 1) =~= ring_edges(all).subrange(
                0,
                i as int,
            ).push(line));
            out.add(line);
            i += 1;
        }
        assert(ring_edges(all).subrange(0, n as int) =~= ring_edges(all));
        assert(out@ == (SketchView { lines: ring_edges(all), thickness, color }));
        out
    }
}

} // verus!
