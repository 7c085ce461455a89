//! The hatching of a region: short parallel strokes in the cells of a
//! Voronoi diagram that lie in a band just outside the region.
use crate::error::EditError;
use crate::geometry::{
    all_finite, all_moderate, all_rings_finite, finite_lines, finite_points, finite_rings,
    moderate_points, Line, Point,
};
use crate::region::{
    centroid, closed_ring, difference_shape, edges_of, no_exterior_point, polygon_edges,
    rings_centroid, shape_bounds, shape_contains, shape_distance, sound_shape, Region,
};
use crate::scalar::{
    at_most, difference, finite, float_le, float_lt, float_of, from_int, is_finite, less, minus,
    negate,
    negated, over, plus, product, quotient, sum, times,
};
use crate::sites::{
    angle, angle_of, is_spanning, poisson_points, sample, spans, tessellate, voronoi_cells,
};
use crate::stroke::{line_crossing, line_length, rotated_line, translated_line, Crossing};
use vstd::prelude::*;

verus! {

/// The usual least distance between two sites: twenty.
pub const RADIUS: u64 = 0x4034_0000_0000_0000;

/// The usual reach of the sampled window beyond the region's bounding
/// rectangle: fifty.
pub const OFFSET: u64 = 0x4049_0000_0000_0000;

/// The usual number of strokes on either side of a cell's middle stroke.
pub const HATCH_COUNT: i32 = 10;

/// The most strokes on either side of a cell's middle stroke.
pub const MAX_HATCH_COUNT: i32 = 0x10_0000;

/// The usual least length of a stroke: seven.
pub const MIN_LENGTH: u64 = 0x401C_0000_0000_0000;

/// The usual share of the offset within which a cell's centroid must lie of
/// the region: three quarters.
pub const REACH: u64 = 0x3FE8_0000_0000_0000;

/// The usual seed of the sampling.
pub const SEED: u64 = 0x5EED;

/// The measures of a hatching. The numbers are bit patterns of doubles.
#[derive(Clone, Copy, Debug, PartialEq, Eq, Structural)]
pub struct HatchStyle {
    /// The least distance between two sites; a stroke is four of it tall
    /// and the comb four of it wide.
    pub radius: u64,
    /// How far the sampled window reaches beyond the region's bounding
    /// rectangle on every side.
    pub offset: u64,
    /// The strokes of a cell on either side of its middle stroke.
    pub hatch_count: i32,
    /// The least length of a stroke.
    pub min_length: u64,
    /// The share of `offset` within which a cell's centroid must lie of the
    /// region.
    pub reach: u64,
    /// The seed of the sampling, the same for every region.
    pub seed: u64,
}

/// The usual measures: a radius of twenty, an offset of fifty, ten strokes
/// on either side, a least length of seven and a reach of three quarters.
pub open spec fn usual_style() -> HatchStyle {
    HatchStyle {
        radius: RADIUS,
        offset: OFFSET,
        hatch_count: HATCH_COUNT,
        min_length: MIN_LENGTH,
        reach: REACH,
        seed: SEED,
    }
}

impl HatchStyle {
    /// Whether the radius is a finite number above zero and the number of
    /// strokes lies between zero and `MAX_HATCH_COUNT`.
    pub open spec fn wf(self) -> bool {
        finite(self.radius) && less(0, self.radius) && 0 <= self.hatch_count <= MAX_HATCH_COUNT
    }

    /// Tells whether the measures are well formed.
    pub fn is_wf(&self) -> (r: bool)
        ensures
            r == self.wf(),
    {
        is_finite(self.radius) && float_lt(0, self.radius) && 0 <= self.hatch_count
            && self.hatch_count <= MAX_HATCH_COUNT
    }
}

impl Default for HatchStyle {
    /// The usual measures.
    fn default() -> (s: HatchStyle)
        ensures
            s == usual_style(),
            s.wf(),
    {
        HatchStyle {
            radius: RADIUS,
            offset: OFFSET,
            hatch_count: HATCH_COUNT,
            min_length: MIN_LENGTH,
            reach: REACH,
            seed: SEED,
        }
    }
}

/// The number two.
pub const TWO: u64 = 0x4000_0000_0000_0000;

/// The number four.
pub const FOUR: u64 = 0x4010_0000_0000_0000;

/// The rectangle in which sites are sampled and to which cells are clipped.
#[derive(Clone, Copy, Debug, PartialEq, Eq, Structural)]
pub struct Window {
    pub min: Point,
    pub max: Point,
    pub width: u64,
    pub height: u64,
}

/// The window of a bounding rectangle from `lo` to `hi`: its corners moved
/// outwards by `offset`, its sides longer by twice `offset`.
pub open spec fn window_of(offset: u64, lo: Point, hi: Point) -> Option<Window> {
    match (
        product(TWO, offset),
        difference(hi.x, lo.x),
        difference(hi.y, lo.y),
        difference(lo.x, offset),
        difference(lo.y, offset),
        sum(hi.x, offset),
        sum(hi.y, offset),
    ) {
        (Some(margin), Some(w), Some(h), Some(x0), Some(y0), Some(x1), Some(y1)) => match (
            sum(w, margin),
            sum(h, margin),
        ) {
            (Some(width), Some(height)) => Some(
                Window { min: Point { x: x0, y: y0 }, max: Point { x: x1, y: y1 }, width, height },
            ),
            _ => None,
        },
        _ => None,
    }
}

/// A sampled point moved into the window: by the rectangle's lower corner,
/// then back by `offset`.
pub open spec fn placed_site(offset: u64, p: Point, lo: Point) -> Option<Point> {
    match (sum(p.x, lo.x), sum(p.y, lo.y)) {
        (Some(x), Some(y)) => match (difference(x, offset), difference(y, offset)) {
            (Some(x), Some(y)) => Some(Point { x, y }),
            _ => None,
        },
        _ => None,
    }
}

/// The sampled points moved into the window, where each can be.
pub open spec fn placed_sites(offset: u64, raw: Seq<Point>, lo: Point) -> Option<Seq<Point>> {
    if forall|i: int| 0 <= i < raw.len() ==> placed_site(offset, #[trigger] raw[i], lo) is Some {
        Some(Seq::new(raw.len(), |i: int| placed_site(offset, raw[i], lo).unwrap()))
    } else {
        None
    }
}

/// The distance from the region within which a cell's centroid must lie:
/// the share `reach` of `offset`.
pub open spec fn reach_limit(offset: u64, reach: u64) -> Option<u64> {
    product(offset, reach)
}

/// The stroke of the comb at place `i` of `-count ..= count`: upright, four
/// radii tall about the origin's height, at the share `i / (2 * count)` of
/// a width of four radii from the origin.
pub open spec fn comb_line(radius: u64, count: i32, i: int) -> Option<Line> {
    match (product(radius, FOUR), product(negated(radius), TWO), product(radius, TWO)) {
        (Some(span), Some(low), Some(high)) => match product(span, float_of(i as i32)) {
            Some(along) => match quotient(along, float_of((2 * count) as i32)) {
                Some(x) => Some(Line(Point { x, y: low }, Point { x, y: high })),
                None => None,
            },
            None => None,
        },
        _ => None,
    }
}

/// The `k`-th stroke of the comb, counted from its left end.
pub open spec fn comb_stroke(radius: u64, count: i32, k: int) -> Option<Line> {
    comb_line(radius, count, k - count)
}

/// The comb: `2 * count + 1` upright strokes, evenly spaced over a width of
/// four radii about the origin.
pub open spec fn comb_lines(radius: u64, count: i32) -> Option<Seq<Line>> {
    if forall|k: int| 0 <= k <= 2 * count ==> (#[trigger] comb_stroke(radius, count, k)) is Some {
        Some(Seq::new((2 * count + 1) as nat, |k: int| comb_stroke(radius, count, k).unwrap()))
    } else {
        None
    }
}

/// Whether a window can be tessellated: its corners are moderate and it is
/// at least one wide and one high.
pub open spec fn fit_window(w: Window) -> bool {
    w.min.moderate() && w.max.moderate() && spans(w.min, w.max)
}

/// The cells of a diagram that was found; `NoDiagram` where none was.
pub open spec fn cells_found(found: Option<Seq<Seq<Point>>>) -> Result<
    Seq<Seq<Point>>,
    EditError,
> {
    match found {
        Some(cells) => Ok(cells),
        None => Err(EditError::NoDiagram),
    }
}

/// Whether a cell belongs to the band around the region: it does not lie
/// inside the region, and its centroid lies within `limit` of the region.
pub open spec fn in_band(inside: bool, distance: u64, limit: u64) -> bool {
    !inside && at_most(distance, limit)
}

/// The one polygon of what the region leaves of a cell: `ClipCount` where
/// there is none or more than one, `NotFinite` where a coordinate of the one
/// is not finite.
pub open spec fn one_piece(clip: Seq<Seq<Seq<Point>>>) -> Result<Seq<Seq<Point>>, EditError> {
    if clip.len() != 1 {
        Err(EditError::ClipCount)
    } else if !finite_rings(clip[0]) {
        Err(EditError::NotFinite)
    } else {
        Ok(clip[0])
    }
}

/// The point of a crossing that is a single point inside both segments.
pub open spec fn proper_point(crossing: Crossing) -> Option<Point> {
    match crossing {
        Crossing::Single { at, proper } => if proper {
            Some(at)
        } else {
            None
        },
        Crossing::Overlap { along } => None,
    }
}

/// The stroke between the crossings, where there are exactly two and both
/// are single points inside both segments.
pub open spec fn trimmed(hits: Seq<Crossing>) -> Option<Line> {
    if hits.len() == 2 {
        match (proper_point(hits[0]), proper_point(hits[1])) {
            (Some(a), Some(b)) => Some(Line(a, b)),
            _ => None,
        }
    } else {
        None
    }
}

/// Whether a length is at least `least`.
pub open spec fn long_enough(least: u64, length: u64) -> bool {
    at_most(least, length)
}

/// What becomes of one cell: dropped (`None`) where it lies inside the
/// region or its centroid lies beyond `limit` of the region, else clipped to
/// what the region leaves of it, which must be one polygon.
pub open spec fn clipped_cell(shape: Seq<Seq<Seq<Point>>>, cell: Seq<Point>, limit: u64) -> Result<
    Option<Seq<Seq<Point>>>,
    EditError,
> {
    if !finite_points(cell) {
        Err(EditError::NotFinite)
    } else {
        match rings_centroid(seq![cell]) {
            None => Err(EditError::NoCentroid),
            Some(c) => if !c.finite() {
                Err(EditError::NotFinite)
            } else if in_band(shape_contains(shape, cell), shape_distance(shape, c), limit) {
                match one_piece(difference_shape(seq![seq![closed_ring(cell)]], shape)) {
                    Err(e) => Err(e),
                    Ok(piece) => Ok(Some(piece)),
                }
            } else {
                Ok(None)
            },
        }
    }
}

/// The clipped cells among the first `n` cells, in the cells' order; the
/// first cell that fails decides the error.
pub open spec fn clipped_cells(
    shape: Seq<Seq<Seq<Point>>>,
    cells: Seq<Seq<Point>>,
    limit: u64,
    n: nat,
) -> Result<Seq<Seq<Seq<Point>>>, EditError>
    decreases n,
{
    if n == 0 {
        Ok(Seq::empty())
    } else {
        match clipped_cells(shape, cells, limit, (n - 1) as nat) {
            Err(e) => Err(e),
            Ok(pieces) => match clipped_cell(shape, cells[n - 1], limit) {
                Err(e) => Err(e),
                Ok(None) => Ok(pieces),
                Ok(Some(piece)) => Ok(pieces.push(piece)),
            },
        }
    }
}

/// The crossings of a segment with those of the first `n` edges that it
/// meets, in the edges' order.
pub open spec fn crossings_with(l: Line, edges: Seq<Line>, n: nat) -> Seq<Crossing>
    decreases n,
{
    if n == 0 {
        Seq::empty()
    } else {
        let before = crossings_with(l, edges, (n - 1) as nat);
        match line_crossing(l, edges[n - 1]) {
            Some(crossing) => before.push(crossing),
            None => before,
        }
    }
}

/// What becomes of one stroke of the comb in a cell: moved to the cell's
/// centroid, turned about it, and kept from its first to its second crossing
/// where it meets the cell's edges in exactly two points, each inside the
/// stroke and inside an edge, and is then at least `least` long.
pub open spec fn stroke(
    least: u64,
    line: Line,
    center: Point,
    degrees: u64,
    edges: Seq<Line>,
) -> Result<Option<Line>, EditError> {
    let moved = translated_line(line, center.x, center.y);
    if !moved.finite() {
        Err(EditError::NotFinite)
    } else {
        let turned = rotated_line(moved, degrees, center);
        if !turned.finite() {
            Err(EditError::NotFinite)
        } else {
            match trimmed(crossings_with(turned, edges, edges.len())) {
                None => Ok(None),
                Some(kept) => if !kept.finite() {
                    Err(EditError::NotFinite)
                } else if long_enough(least, line_length(kept)) {
                    Ok(Some(kept))
                } else {
                    Ok(None)
                },
            }
        }
    }
}

/// The strokes that the first `n` strokes of the comb leave in a cell.
pub open spec fn strokes(
    least: u64,
    comb: Seq<Line>,
    center: Point,
    degrees: u64,
    edges: Seq<Line>,
    n: nat,
) -> Result<Seq<Line>, EditError>
    decreases n,
{
    if n == 0 {
        Ok(Seq::empty())
    } else {
        match strokes(least, comb, center, degrees, edges, (n - 1) as nat) {
            Err(e) => Err(e),
            Ok(lines) => match stroke(least, comb[n - 1], center, degrees, edges) {
                Err(e) => Err(e),
                Ok(None) => Ok(lines),
                Ok(Some(s)) => Ok(lines.push(s)),
            },
        }
    }
}

/// The strokes of one clipped cell: the comb about the cell's centroid,
/// turned by the angle that belongs to the sum of the centroid's coordinates.
pub open spec fn piece_strokes(least: u64, piece: Seq<Seq<Point>>, comb: Seq<Line>) -> Result<
    Seq<Line>,
    EditError,
> {
    match rings_centroid(piece) {
        None => Err(EditError::NoCentroid),
        Some(c) => if !c.finite() {
            Err(EditError::NotFinite)
        } else {
            match sum(c.x, c.y) {
                None => Err(EditError::NotFinite),
                Some(s) => strokes(
                    least,
                    comb,
                    c,
                    float_of(angle_of(s) as i32),
                    polygon_edges(piece),
                    comb.len(),
                ),
            }
        },
    }
}

/// The strokes of the first `n` clipped cells, cell after cell.
pub open spec fn hatched(
    least: u64,
    pieces: Seq<Seq<Seq<Point>>>,
    comb: Seq<Line>,
    n: nat,
) -> Result<Seq<Line>, EditError>
    decreases n,
{
    if n == 0 {
        Ok(Seq::empty())
    } else {
        match hatched(least, pieces, comb, (n - 1) as nat) {
            Err(e) => Err(e),
            Ok(lines) => match piece_strokes(least, pieces[n - 1], comb) {
                Err(e) => Err(e),
                Ok(more) => Ok(lines + more),
            },
        }
    }
}

/// The hatching of a region with the given shape: nothing for a region
/// without a point; else the strokes of the clipped cells of the Voronoi
/// diagram of the sites sampled in the region's window.
pub open spec fn hatch_outcome(style: HatchStyle, shape: Seq<Seq<Seq<Point>>>) -> Result<
    Seq<Line>,
    EditError,
> {
    if no_exterior_point(shape) {
        Ok(Seq::empty())
    } else {
        match shape_bounds(shape) {
            None => Ok(Seq::empty()),
            Some((lo, hi)) => match window_of(style.offset, lo, hi) {
                None => Err(EditError::NotFinite),
                Some(w) => if !fit_window(w) {
                    Err(EditError::NotFinite)
                } else {
                    match placed_sites(
                        style.offset,
                        poisson_points(w.width, w.height, style.radius, style.seed),
                        lo,
                    ) {
                        None => Err(EditError::NotFinite),
                        Some(sites) => if !moderate_points(sites) {
                            Err(EditError::NotFinite)
                        } else {
                            match cells_found(voronoi_cells(w.min, w.max, sites)) {
                                Err(e) => Err(e),
                                Ok(cells) => match reach_limit(style.offset, style.reach) {
                                    None => Err(EditError::NotFinite),
                                    Some(limit) => match clipped_cells(
                                        shape,
                                        cells,
                                        limit,
                                        cells.len(),
                                    ) {
                                        Err(e) => Err(e),
                                        Ok(pieces) => match comb_lines(
                                            style.radius,
                                            style.hatch_count,
                                        ) {
                                            None => Err(EditError::NotFinite),
                                            Some(comb) => hatched(
                                                style.min_length,
                                                pieces,
                                                comb,
                                                pieces.len(),
                                            ),
                                        },
                                    },
                                },
                            }
                        },
                    }
                },
            },
        }
    }
}

/// The window of a bounding rectangle; `None` where a side or a corner of it
/// is not finite.
pub fn window(offset: u64, lo: Point, hi: Point) -> (r: Option<Window>)
    ensures
        r == window_of(offset, lo, hi),
        r matches Some(w) ==> w.min.finite() && w.max.finite() && finite(w.width) && finite(
            w.height,
        ),
{
    let margin = match times(TWO, offset) {
        Some(v) => v,
        None => return None,
    };
    let w = match minus(hi.x, lo.x) {
        Some(v) => v,
        None => return None,
    };
    let h = match minus(hi.y, lo.y) {
        Some(v) => v,
        None => return None,
    };
    let x0 = match minus(lo.x, offset) {
        Some(v) => v,
        None => return None,
    };
    let y0 = match minus(lo.y, offset) {
        Some(v) => v,
        None => return None,
    };
    let x1 = match plus(hi.x, offset) {
        Some(v) => v,
        None => return None,
    };
    let y1 = match plus(hi.y, offset) {
        Some(v) => v,
        None => return None,
    };
    let width = match plus(w, margin) {
        Some(v) => v,
        None => return None,
    };
    let height = match plus(h, margin) {
        Some(v) => v,
        None => return None,
    };
    Some(Window { min: Point { x: x0, y: y0 }, max: Point { x: x1, y: y1 }, width, height })
}

/// Moves one sampled point into the window.
pub fn place_site(offset: u64, p: Point, lo: Point) -> (r: Option<Point>)
    ensures
        r == placed_site(offset, p, lo),
        r matches Some(q) ==> q.finite(),
{
    let x = match plus(p.x, lo.x) {
        Some(v) => v,
        None => return None,
    };
    let y = match plus(p.y, lo.y) {
        Some(v) => v,
        None => return None,
    };
    let x = match minus(x, offset) {
        Some(v) => v,
        None => return None,
    };
    let y = match minus(y, offset) {
        Some(v) => v,
        None => return None,
    };
    Some(Point { x, y })
}

/// Moves the sampled points into the window; `None` where one of them
/// cannot be.
pub fn place_sites(offset: u64, raw: &Vec<Point>, lo: Point) -> (r: Option<Vec<Point>>)
    ensures
        match r {
            Some(sites) => placed_sites(offset, raw@, lo) == Some(sites@) && finite_points(sites@),
            None => placed_sites(offset, raw@, lo) is None,
        },
{
    let mut sites: Vec<Point> = Vec::new();
    let mut i: usize = 0;
    while i < raw.len()
        invariant
            i <= raw.len(),
            sites.len() == i,
            forall|j: int|
                0 <= j < i ==> placed_site(offset, #[trigger] raw@[j], lo) == Some(sites@[j]),
            finite_points(sites@),
        decreases raw.len() - i,
    {
        match place_site(offset, raw[i], lo) {
            None => {
                return None;
            },
            Some(q) => {
                sites.push(q);
            },
        }
        i += 1;
    }
    assert(sites@ =~= Seq::new(raw@.len(), |i: int| placed_site(offset, raw@[i], lo).unwrap()));
    Some(sites)
}

/// The stroke of the comb at place `i`.
pub fn comb_line_at(radius: u64, count: i32, i: i32) -> (r: Option<Line>)
    requires
        0 <= count <= MAX_HATCH_COUNT,
    ensures
        r == comb_line(radius, count, i as int),
        r matches Some(l) ==> l.finite(),
{
    let span = match times(radius, FOUR) {
        Some(v) => v,
        None => return None,
    };
    let low = match times(negate(radius), TWO) {
        Some(v) => v,
        None => return None,
    };
    let high = match times(radius, TWO) {
        Some(v) => v,
        None => return None,
    };
    let along = match times(span, from_int(i)) {
        Some(v) => v,
        None => return None,
    };
    let x = match over(along, from_int(2 * count)) {
        Some(v) => v,
        None => return None,
    };
    Some(Line(Point { x, y: low }, Point { x, y: high }))
}

/// The comb of `2 * count + 1` strokes.
pub fn comb(radius: u64, count: i32) -> (r: Option<Vec<Line>>)
    requires
        0 <= count <= MAX_HATCH_COUNT,
    ensures
        match r {
            Some(lines) => comb_lines(radius, count) == Some(lines@) && finite_lines(lines@),
            None => comb_lines(radius, count) is None,
        },
{
    let mut lines: Vec<Line> = Vec::new();
    let mut k: i32 = 0;
    while k <= 2 * count
        invariant
            0 <= count <= MAX_HATCH_COUNT,
            0 <= k <= 2 * count + 1,
            lines.len() == k,
            forall|j: int|
                0 <= j < k ==> (#[trigger] comb_stroke(radius, count, j)) == Some(lines@[j]),
            finite_lines(lines@),
        decreases 2 * count + 1 - k,
    {
        match comb_line_at(radius, count, k - count) {
            None => {
                assert(comb_stroke(radius, count, k as int) is None);
                return None;
            },
            Some(l) => {
                lines.push(l);
            },
        }
        k += 1;
    }
    assert(lines@ =~= Seq::new(
        (2 * count + 1) as nat,
        |k: int| comb_stroke(radius, count, k).unwrap(),
    ));
    Some(lines)
}

/// Once a cell has failed, more cells change nothing.
pub proof fn lemma_clipped_cells_error_stays(
    shape: Seq<Seq<Seq<Point>>>,
    cells: Seq<Seq<Point>>,
    limit: u64,
    n: nat,
    m: nat,
)
    requires
        n <= m,
        clipped_cells(shape, cells, limit, n) is Err,
    ensures
        clipped_cells(shape, cells, limit, m) == clipped_cells(shape, cells, limit, n),
    decreases m,
{
    if n < m {
        lemma_clipped_cells_error_stays(shape, cells, limit, n, (m - 1) as nat);
    }
}

/// Once a stroke has failed, more strokes change nothing.
pub proof fn lemma_strokes_error_stays(
    least: u64,
    comb: Seq<Line>,
    center: Point,
    degrees: u64,
    edges: Seq<Line>,
    n: nat,
    m: nat,
)
    requires
        n <= m,
        strokes(least, comb, center, degrees, edges, n) is Err,
    ensures
        strokes(least, comb, center, degrees, edges, m) == strokes(
            least,
            comb,
            center,
            degrees,
            edges,
            n,
        ),
    decreases m,
{
    if n < m {
        lemma_strokes_error_stays(least, comb, center, degrees, edges, n, (m - 1) as nat);
    }
}

/// Once a clipped cell has failed, more of them change nothing.
pub proof fn lemma_hatched_error_stays(
    least: u64,
    pieces: Seq<Seq<Seq<Point>>>,
    comb: Seq<Line>,
    n: nat,
    m: nat,
)
    requires
        n <= m,
        hatched(least, pieces, comb, n) is Err,
    ensures
        hatched(least, pieces, comb, m) == hatched(least, pieces, comb, n),
    decreases m,
{
    if n < m {
        lemma_hatched_error_stays(least, pieces, comb, n, (m - 1) as nat);
    }
}

/// Tells whether a window can be tessellated.
pub fn is_fit_window(w: &Window) -> (r: bool)
    ensures
        r == fit_window(*w),
{
    w.min.is_moderate() && w.max.is_moderate() && is_spanning(w.min, w.max)
}

/// The cells of a diagram that was found; `NoDiagram` where none was.
pub fn diagram_cells(found: Option<Vec<Vec<Point>>>) -> (r: Result<Vec<Vec<Point>>, EditError>)
    ensures
        match r {
            Ok(cells) => found == Some(cells),
            Err(e) => found is None && e == EditError::NoDiagram,
        },
{
    match found {
        Some(cells) => Ok(cells),
        None => Err(EditError::NoDiagram),
    }
}

/// Tells whether a cell belongs to the band around the region, from
/// whether it lies inside the region and how far its centroid lies from it.
pub fn keep_cell(inside: bool, distance: u64, limit: u64) -> (r: bool)
    ensures
        r == in_band(inside, distance, limit),
{
    !inside && float_le(distance, limit)
}

/// The one polygon among those that the region leaves of a cell.
pub fn single_piece(polygons: Vec<Vec<Vec<Point>>>) -> (r: Result<Vec<Vec<Point>>, EditError>)
    ensures
        match r {
            Ok(piece) => one_piece(polygons.deep_view()) == Ok::<Seq<Seq<Point>>, EditError>(
                piece.deep_view(),
            ) && piece == polygons[0] && polygons.len() == 1,
            Err(e) => one_piece(polygons.deep_view()) == Err::<Seq<Seq<Point>>, EditError>(e),
        },
{
    let ghost given = polygons.deep_view();
    let mut polygons = polygons;
    if polygons.len() != 1 {
        return Err(EditError::ClipCount);
    }
    let piece = polygons.remove(0);
    assert(piece.deep_view() == given[0]);
    if !all_rings_finite(&piece) {
        return Err(EditError::NotFinite);
    }
    Ok(piece)
}

/// The point of a crossing that is a single point inside both segments.
pub fn crossing_point(crossing: &Crossing) -> (r: Option<Point>)
    ensures
        r == proper_point(*crossing),
{
    match crossing {
        Crossing::Single { at, proper } => if *proper {
            Some(*at)
        } else {
            None
        },
        Crossing::Overlap { along } => None,
    }
}

/// The stroke between the crossings, where there are exactly two and both
/// are single points inside both segments.
pub fn trim(hits: &Vec<Crossing>) -> (r: Option<Line>)
    ensures
        r == trimmed(hits@),
{
    if hits.len() != 2 {
        return None;
    }
    match (crossing_point(&hits[0]), crossing_point(&hits[1])) {
        (Some(a), Some(b)) => Some(Line(a, b)),
        _ => None,
    }
}

/// Tells whether a length is at least `least`.
pub fn is_long_enough(least: u64, length: u64) -> (r: bool)
    ensures
        r == long_enough(least, length),
{
    float_le(least, length)
}

/// Clips one cell against the region, or drops it.
pub fn clip_cell(area: &Region, cell: &Vec<Point>, limit: u64) -> (r: Result<
    Option<Vec<Vec<Point>>>,
    EditError,
>)
    requires
        area.sound(),
    ensures
        match r {
            Ok(Some(piece)) => clipped_cell(area.shape(), cell@, limit) == Ok::<
                Option<Seq<Seq<Point>>>,
                EditError,
            >(Some(piece.deep_view())) && piece.len() >= 1 && finite_rings(piece.deep_view()),
            Ok(None) => clipped_cell(area.shape(), cell@, limit) == Ok::<
                Option<Seq<Seq<Point>>>,
                EditError,
            >(None),
            Err(e) => clipped_cell(area.shape(), cell@, limit) == Err::<
                Option<Seq<Seq<Point>>>,
                EditError,
            >(e),
        },
{
    if !all_finite(cell) {
        return Err(EditError::NotFinite);
    }
    let mut alone: Vec<Vec<Point>> = Vec::new();
    alone.push(cell.clone());
    assert(alone@[0]@ =~= cell@);
    assert(alone.deep_view()[0] =~= alone@[0]@);
    assert(alone.deep_view() =~= seq![cell@]);
    let center = match centroid(&alone) {
        None => return Err(EditError::NoCentroid),
        Some(c) => c,
    };
    if !center.is_finite() {
        return Err(EditError::NotFinite);
    }
    if !keep_cell(area.contains(cell), area.distance(center), limit) {
        return Ok(None);
    }
    let clip = Region::polygon(cell).difference(area);
    let piece = single_piece(clip.rings())?;
    Ok(Some(piece))
}

/// Clips every cell against the region and keeps those of the band.
pub fn clip_cells(area: &Region, cells: &Vec<Vec<Point>>, limit: u64) -> (r: Result<
    Vec<Vec<Vec<Point>>>,
    EditError,
>)
    requires
        area.sound(),
    ensures
        match r {
            Ok(pieces) => clipped_cells(
                area.shape(),
                cells.deep_view(),
                limit,
                cells.len() as nat,
            ) == Ok::<Seq<Seq<Seq<Point>>>, EditError>(pieces.deep_view()) && sound_shape(
                pieces.deep_view(),
            ),
            Err(e) => clipped_cells(area.shape(), cells.deep_view(), limit, cells.len() as nat)
                == Err::<Seq<Seq<Seq<Point>>>, EditError>(e),
        },
{
    let mut pieces: Vec<Vec<Vec<Point>>> = Vec::new();
    let ghost shape = area.shape();
    let ghost deep = cells.deep_view();
    let mut i: usize = 0;
    assert(pieces.deep_view() =~= Seq::<Seq<Seq<Point>>>::empty());
    while i < cells.len()
        invariant
            i <= cells.len(),
            area.sound(),
            shape == area.shape(),
            deep == cells.deep_view(),
            clipped_cells(shape, deep, limit, i as nat) == Ok::<Seq<Seq<Seq<Point>>>, EditError>(
                pieces.deep_view(),
            ),
            sound_shape(pieces.deep_view()),
        decreases cells.len() - i,
    {
        assert(deep[i as int] == cells@[i as int]@);
        let ghost before = pieces.deep_view();
        match clip_cell(area, &cells[i], limit) {
            Err(e) => {
                proof {
                    lemma_clipped_cells_error_stays(
                        shape,
                        deep,
                        limit,
                        (i + 1) as nat,
                        cells.len() as nat,
                    );
                }
                return Err(e);
            },
            Ok(None) => {},
            Ok(Some(piece)) => {
                let ghost added = piece.deep_view();
                pieces.push(piece);
                assert(pieces.deep_view() =~= before.push(added));
            },
        }
        i += 1;
    }
    Ok(pieces)
}

/// The crossings of a segment with those of the edges that it meets.
pub fn crossings(l: Line, edges: &Vec<Line>) -> (hits: Vec<Crossing>)
    requires
        l.finite(),
        finite_lines(edges@),
    ensures
        hits@ == crossings_with(l, edges@, edges.len() as nat),
{
    let mut hits: Vec<Crossing> = Vec::new();
    let mut i: usize = 0;
    while i < edges.len()
        invariant
            i <= edges.len(),
            l.finite(),
            finite_lines(edges@),
            hits@ == crossings_with(l, edges@, i as nat),
        decreases edges.len() - i,
    {
        match l.crossing(edges[i]) {
            Some(crossing) => {
                hits.push(crossing);
            },
            None => {},
        }
        i += 1;
    }
    hits
}

/// What one stroke of the comb leaves in a cell with the given centroid,
/// angle and edges.
pub fn trim_stroke(
    least: u64,
    line: Line,
    center: Point,
    degrees: u64,
    edges: &Vec<Line>,
) -> (r: Result<Option<Line>, EditError>)
    requires
        line.finite(),
        center.finite(),
        finite(degrees),
        finite_lines(edges@),
    ensures
        r == stroke(least, line, center, degrees, edges@),
{
    let moved = line.translate(center.x, center.y);
    if !moved.is_finite() {
        return Err(EditError::NotFinite);
    }
    let turned = moved.rotate_around_point(degrees, center);
    if !turned.is_finite() {
        return Err(EditError::NotFinite);
    }
    let hits = crossings(turned, edges);
    let kept = match trim(&hits) {
        None => return Ok(None),
        Some(kept) => kept,
    };
    if !kept.is_finite() {
        return Err(EditError::NotFinite);
    }
    if is_long_enough(least, kept.length()) {
        Ok(Some(kept))
    } else {
        Ok(None)
    }
}

/// The strokes of one clipped cell.
pub fn hatch_piece(least: u64, piece: &Vec<Vec<Point>>, comb: &Vec<Line>) -> (r: Result<
    Vec<Line>,
    EditError,
>)
    requires
        piece.len() >= 1,
        finite_rings(piece.deep_view()),
        finite_lines(comb@),
    ensures
        match r {
            Ok(lines) => piece_strokes(least, piece.deep_view(), comb@) == Ok::<
                Seq<Line>,
                EditError,
            >(lines@),
            Err(e) => piece_strokes(least, piece.deep_view(), comb@) == Err::<
                Seq<Line>,
                EditError,
            >(e),
        },
{
    let center = match centroid(piece) {
        None => return Err(EditError::NoCentroid),
        Some(c) => c,
    };
    if !center.is_finite() {
        return Err(EditError::NotFinite);
    }
    let total = match plus(center.x, center.y) {
        None => return Err(EditError::NotFinite),
        Some(s) => s,
    };
    let degrees = from_int(angle(total) as i32);
    let edges = edges_of(piece);
    let mut lines: Vec<Line> = Vec::new();
    let mut i: usize = 0;
    while i < comb.len()
        invariant
            i <= comb.len(),
            center.finite(),
            finite(degrees),
            finite_lines(edges@),
            finite_lines(comb@),
            rings_centroid(piece.deep_view()) == Some(center),
            sum(center.x, center.y) == Some(total),
            degrees == float_of(angle_of(total) as i32),
            edges@ == polygon_edges(piece.deep_view()),
            strokes(least, comb@, center, degrees, edges@, i as nat) == Ok::<
                Seq<Line>,
                EditError,
            >(lines@),
        decreases comb.len() - i,
    {
        match trim_stroke(least, comb[i], center, degrees, &edges) {
            Err(e) => {
                proof {
                    assert(strokes(least, comb@, center, degrees, edges@, (i + 1) as nat)
                        == Err::<Seq<Line>, EditError>(e));
                    lemma_strokes_error_stays(
                        least,
                        comb@,
                        center,
                        degrees,
                        edges@,
                        (i + 1) as nat,
                        comb.len() as nat,
                    );
                }
                return Err(e);
            },
            Ok(None) => {},
            Ok(Some(s)) => {
                lines.push(s);
            },
        }
        i += 1;
    }
    Ok(lines)
}

/// The strokes of the clipped cells, cell after cell.
pub fn hatch_pieces(least: u64, pieces: &Vec<Vec<Vec<Point>>>, comb: &Vec<Line>) -> (r: Result<
    Vec<Line>,
    EditError,
>)
    requires
        sound_shape(pieces.deep_view()),
        finite_lines(comb@),
    ensures
        match r {
            Ok(lines) => hatched(least, pieces.deep_view(), comb@, pieces.len() as nat) == Ok::<
                Seq<Line>,
                EditError,
            >(lines@),
            Err(e) => hatched(least, pieces.deep_view(), comb@, pieces.len() as nat) == Err::<
                Seq<Line>,
                EditError,
            >(e),
        },
{
    let mut lines: Vec<Line> = Vec::new();
    let ghost deep = pieces.deep_view();
    let mut i: usize = 0;
    while i < pieces.len()
        invariant
            i <= pieces.len(),
            deep == pieces.deep_view(),
            sound_shape(deep),
            finite_lines(comb@),
            hatched(least, deep, comb@, i as nat) == Ok::<Seq<Line>, EditError>(lines@),
        decreases pieces.len() - i,
    {
        assert(deep[i as int] == pieces@[i as int].deep_view());
        assert(deep[i as int].len() >= 1 && finite_rings(deep[i as int]));
        match hatch_piece(least, &pieces[i], comb) {
            Err(e) => {
                proof {
                    lemma_hatched_error_stays(
                        least,
                        deep,
                        comb@,
                        (i + 1) as nat,
                        pieces.len() as nat,
                    );
                }
                return Err(e);
            },
            Ok(mut more) => {
                lines.append(&mut more);
            },
        }
        i += 1;
    }
    Ok(lines)
}

/// The hatching of a region with the given measures.
pub fn hatch(style: &HatchStyle, area: &Region) -> (r: Result<Vec<Line>, EditError>)
    requires
        style.wf(),
        area.sound(),
    ensures
        match r {
            Ok(lines) => hatch_outcome(*style, area.shape()) == Ok::<Seq<Line>, EditError>(
                lines@,
            ),
            Err(e) => hatch_outcome(*style, area.shape()) == Err::<Seq<Line>, EditError>(e),
        },
{
    let (lo, hi) = match area.bounding_rect() {
        None => return Ok(Vec::new()),
        Some(b) => b,
    };
    let w = match window(style.offset, lo, hi) {
        None => return Err(EditError::NotFinite),
        Some(w) => w,
    };
    if !is_fit_window(&w) {
        return Err(EditError::NotFinite);
    }
    let raw = sample(w.width, w.height, style.radius, style.seed);
    let sites = match place_sites(style.offset, &raw, lo) {
        None => return Err(EditError::NotFinite),
        Some(s) => s,
    };
    if !all_moderate(&sites) {
        return Err(EditError::NotFinite);
    }
    let cells = diagram_cells(tessellate(w.min, w.max, &sites))?;
    let limit = match times(style.offset, style.reach) {
        None => return Err(EditError::NotFinite),
        Some(l) => l,
    };
    let pieces = clip_cells(area, &cells, limit)?;
    let lines = match comb(style.radius, style.hatch_count) {
        None => return Err(EditError::NotFinite),
        Some(c) => c,
    };
    hatch_pieces(style.min_length, &pieces, &lines)
}

} // verus!
