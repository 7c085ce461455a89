//! What holds of edits, histories and hatchings as a whole.
//!
//! The region operations are the geo crate's and work on doubles. Where
//! they split an area along a polygon without loss, an undone edit leaves
//! the map as it was; `splits_exactly` says when that is, `splits` tells it
//! of two regions, and the laws of undo and redo hold of the edits for
//! which it holds.
use crate::edit::{applied, applied_area, restored_area, splits_exactly, undone, EditView};
use crate::error::EditError;
use crate::geometry::{Line, Point};
use crate::hatch::{
    cells_found, clipped_cells, comb_lines, hatch_outcome, hatched, long_enough, piece_strokes,
    placed_sites, reach_limit, strokes, window_of, HatchStyle,
};
use crate::history::{edited, stepped_back, stepped_forward, HistoryView, Step};
use crate::layer::{wf_layers, LayerView};
use crate::region::{
    closed_ring, difference_shape, intersection_shape, polygon_edges, rings_centroid, shape_area,
    shape_bounds, shape_contains,
};
use crate::scalar::{float_of, sum};
use crate::sites::{angle_of, poisson_points, voronoi_cells};
use crate::stroke::line_length;
use vstd::prelude::*;

verus! {

/// An applied edit leaves well-formed layers well formed, and as many.
pub proof fn lemma_applied_keeps_layers(edit: EditView, layers: Seq<LayerView>)
    requires
        wf_layers(layers),
        edit.layer < layers.len(),
        applied(edit, layers) is Ok,
    ensures
        wf_layers(applied(edit, layers)->Ok_0.1),
        applied(edit, layers)->Ok_0.1.len() == layers.len(),
        applied(edit, layers)->Ok_0.0.layer == edit.layer,
{
    let next = applied(edit, layers)->Ok_0.1;
    assert forall|i: int| 0 <= i < next.len() implies (#[trigger] next[i]).wf() by {
        if i != edit.layer {
            assert(next[i] == layers[i]);
        }
    }
}

/// An edit applied and undone leaves the layers as they were, where the
/// region operations split the edited area along the polygon without loss.
pub proof fn lemma_undone_restores(edit: EditView, layers: Seq<LayerView>)
    requires
        wf_layers(layers),
        edit.layer < layers.len(),
        applied(edit, layers) is Ok,
        splits_exactly(edit.kind, layers[edit.layer as int].area, edit.operand),
    ensures
        undone(applied(edit, layers)->Ok_0.0, applied(edit, layers)->Ok_0.1) == Ok::<
            Seq<LayerView>,
            EditError,
        >(layers),
{
    let kept = applied(edit, layers)->Ok_0.0;
    let next = applied(edit, layers)->Ok_0.1;
    let target = layers[edit.layer as int];
    assert(target.wf());
    assert(next[edit.layer as int].name == target.name);
    assert(next.update(edit.layer as int, target) =~= layers);
}

/// Exact undo: a new edit applied through the history and then undone
/// leaves the layers as they were, the edited layer's area and with it the
/// measure of that area among them, and the cursor where it was, where the
/// region operations split the edited area along the polygon without loss.
pub proof fn lemma_undo_restores(history: HistoryView, layers: Seq<LayerView>, edit: EditView)
    requires
        history.wf(),
        wf_layers(layers),
        edit.layer < layers.len(),
        edited(history, layers, edit).result is Ok,
        splits_exactly(edit.kind, layers[edit.layer as int].area, edit.operand),
    ensures
        ({
            let after = edited(history, layers, edit);
            let back = stepped_back(after.history, after.layers);
            &&& back.result == Ok::<bool, EditError>(true)
            &&& back.layers == layers
            &&& shape_area(back.layers[edit.layer as int].area) == shape_area(
                layers[edit.layer as int].area,
            )
            &&& back.history.cursor == history.cursor
            &&& back.history.entries == after.history.entries
        }),
{
    lemma_undone_restores(edit, layers);
}

/// Redo after undo: where the undone edit, applied to the restored area,
/// gives the area and the overlap that it had given before, a step back and
/// a step forward leave history and layers as they were.
pub proof fn lemma_redo_reproduces(history: HistoryView, layers: Seq<LayerView>)
    requires
        history.wf(),
        history.fits(layers),
        wf_layers(layers),
        history.cursor > 0,
        stepped_back(history, layers).result is Ok,
        ({
            let last = history.entries[history.cursor - 1];
            let area = layers[last.layer as int].area;
            let restored = restored_area(last.kind, area, last.operand, last.base);
            applied_area(last.kind, restored, last.operand) == area && intersection_shape(
                restored,
                last.operand,
            ) == last.base
        }),
    ensures
        ({
            let back = stepped_back(history, layers);
            stepped_forward(back.history, back.layers) == (Step {
                history,
                layers,
                result: Ok(true),
            })
        }),
{
    let last = history.entries[history.cursor - 1];
    let back = stepped_back(history, layers);
    let target = layers[last.layer as int];
    assert(target.wf());
    assert(back.layers[last.layer as int].name == target.name);
    let again = applied(last, back.layers);
    assert(again is Ok);
    assert(again->Ok_0.0 == last);
    assert(again->Ok_0.1 =~= layers);
    assert(back.history.entries.update(back.history.cursor as int, last) =~= history.entries);
}

/// Redo after undo of an edit just made: edit, undo and redo leave history
/// and layers as the edit alone does, where the region operations split the
/// edited area along the polygon without loss.
pub proof fn lemma_edit_undo_redo(history: HistoryView, layers: Seq<LayerView>, edit: EditView)
    requires
        history.wf(),
        wf_layers(layers),
        edit.layer < layers.len(),
        edited(history, layers, edit).result is Ok,
        splits_exactly(edit.kind, layers[edit.layer as int].area, edit.operand),
    ensures
        ({
            let after = edited(history, layers, edit);
            let back = stepped_back(after.history, after.layers);
            stepped_forward(back.history, back.layers) == (Step { result: Ok(true), ..after })
        }),
{
    lemma_undone_restores(edit, layers);
    let after = edited(history, layers, edit);
    let back = stepped_back(after.history, after.layers);
    let kept = applied(edit, layers)->Ok_0.0;
    assert(back.history.entries[back.history.cursor as int] == kept);
    let again = applied(kept, layers);
    assert(again == Ok::<(EditView, Seq<LayerView>), EditError>((kept, after.layers)));
    assert(back.history.entries.update(back.history.cursor as int, kept)
        =~= after.history.entries);
}

/// Composition: with two edits made one after the other, undoing the second
/// leaves the layers as the first alone left them, and undoing the first as
/// well leaves them as they were at the start, where the region operations
/// split each edited area along its polygon without loss.
pub proof fn lemma_composition(
    history: HistoryView,
    layers: Seq<LayerView>,
    first: EditView,
    second: EditView,
)
    requires
        history.wf(),
        wf_layers(layers),
        first.layer < layers.len(),
        second.layer < layers.len(),
        edited(history, layers, first).result is Ok,
        edited(
            edited(history, layers, first).history,
            edited(history, layers, first).layers,
            second,
        ).result is Ok,
        splits_exactly(first.kind, layers[first.layer as int].area, first.operand),
        splits_exactly(
            second.kind,
            edited(history, layers, first).layers[second.layer as int].area,
            second.operand,
        ),
    ensures
        ({
            let one = edited(history, layers, first);
            let two = edited(one.history, one.layers, second);
            let back = stepped_back(two.history, two.layers);
            let start = stepped_back(back.history, back.layers);
            &&& back.result == Ok::<bool, EditError>(true)
            &&& back.layers == one.layers
            &&& back.history.cursor == one.history.cursor
            &&& start.result == Ok::<bool, EditError>(true)
            &&& start.layers == layers
            &&& start.history.cursor == history.cursor
        }),
{
    let one = edited(history, layers, first);
    lemma_applied_keeps_layers(first, layers);
    lemma_undone_restores(second, one.layers);
    lemma_undone_restores(first, layers);
    let two = edited(one.history, one.layers, second);
    let back = stepped_back(two.history, two.layers);
    assert(back.history.entries[back.history.cursor - 1] == applied(first, layers)->Ok_0.0);
}

/// Hatching is determined: well-formed layers with the same area have the
/// same boundary and the same hatching.
pub proof fn lemma_hatching_determined(a: LayerView, b: LayerView)
    requires
        a.wf(),
        b.wf(),
        a.area == b.area,
    ensures
        a.boundary == b.boundary,
        a.hatching == b.hatching,
{
}

/// Whether every segment is finite and at least `least` long.
pub open spec fn long_lines(least: u64, lines: Seq<Line>) -> bool {
    forall|i: int|
        0 <= i < lines.len() ==> (#[trigger] lines[i]).finite() && long_enough(
            least,
            line_length(lines[i]),
        )
}

/// Every stroke that a cell keeps has at least the least length.
pub proof fn lemma_strokes_long(
    least: u64,
    comb: Seq<Line>,
    center: Point,
    degrees: u64,
    edges: Seq<Line>,
    n: nat,
)
    ensures
        strokes(least, comb, center, degrees, edges, n) matches Ok(lines) ==> long_lines(
            least,
            lines,
        ),
    decreases n,
{
    if n > 0 {
        lemma_strokes_long(least, comb, center, degrees, edges, (n - 1) as nat);
    }
}

/// Every stroke of the clipped cells has at least the least length.
pub proof fn lemma_hatched_long(
    least: u64,
    pieces: Seq<Seq<Seq<Point>>>,
    comb: Seq<Line>,
    n: nat,
)
    ensures
        hatched(least, pieces, comb, n) matches Ok(lines) ==> long_lines(least, lines),
    decreases n,
{
    if n > 0 {
        lemma_hatched_long(least, pieces, comb, (n - 1) as nat);
        match piece_strokes(least, pieces[n - 1], comb) {
            Ok(more) => {
                let c = rings_centroid(pieces[n - 1])->Some_0;
                let s = sum(c.x, c.y)->Some_0;
                lemma_strokes_long(
                    least,
                    comb,
                    c,
                    float_of(angle_of(s) as i32),
                    polygon_edges(pieces[n - 1]),
                    comb.len(),
                );
            },
            Err(_) => {},
        }
    }
}

/// Minimum stroke length: no segment of a region's hatching is shorter than
/// the least length that the measures give.
pub proof fn lemma_hatching_long(style: HatchStyle, shape: Seq<Seq<Seq<Point>>>)
    ensures
        hatch_outcome(style, shape) matches Ok(lines) ==> long_lines(style.min_length, lines),
{
    if hatch_outcome(style, shape) is Ok {
        let lines = hatch_outcome(style, shape)->Ok_0;
        if lines.len() > 0 {
            let (lo, hi) = shape_bounds(shape)->Some_0;
            let w = window_of(style.offset, lo, hi)->Some_0;
            let sites = placed_sites(
                style.offset,
                poisson_points(w.width, w.height, style.radius, style.seed),
                lo,
            )->Some_0;
            let cells = voronoi_cells(w.min, w.max, sites)->Some_0;
            assert(cells_found(voronoi_cells(w.min, w.max, sites)) == Ok::<
                Seq<Seq<Point>>,
                EditError,
            >(cells));
            let limit = reach_limit(style.offset, style.reach)->Some_0;
            let pieces = clipped_cells(shape, cells, limit, cells.len())->Ok_0;
            let comb = comb_lines(style.radius, style.hatch_count)->Some_0;
            lemma_hatched_long(style.min_length, pieces, comb, pieces.len());
        }
    }
}

/// Whether `piece` is the one polygon that the region leaves of `cell`, a
/// cell that does not lie inside the region.
pub open spec fn clipped_from(
    shape: Seq<Seq<Seq<Point>>>,
    cell: Seq<Point>,
    piece: Seq<Seq<Point>>,
) -> bool {
    !shape_contains(shape, cell) && difference_shape(seq![seq![closed_ring(cell)]], shape)
        == seq![piece]
}

/// Whether `piece` is clipped from one of the first `n` cells.
pub open spec fn clipped_from_one(
    shape: Seq<Seq<Seq<Point>>>,
    cells: Seq<Seq<Point>>,
    n: nat,
    piece: Seq<Seq<Point>>,
) -> bool {
    exists|j: int| 0 <= j < n && #[trigger] clipped_from(shape, cells[j], piece)
}

/// Halo confinement, as far as it is this library's: every clipped cell is
/// the one polygon that the region's difference leaves of a cell that does
/// not lie inside the region.
pub proof fn lemma_pieces_clipped(
    shape: Seq<Seq<Seq<Point>>>,
    cells: Seq<Seq<Point>>,
    limit: u64,
    n: nat,
)
    requires
        n <= cells.len(),
    ensures
        clipped_cells(shape, cells, limit, n) matches Ok(pieces) ==> forall|k: int|
            0 <= k < pieces.len() ==> clipped_from_one(shape, cells, n, #[trigger] pieces[k]),
    decreases n,
{
    if n > 0 {
        lemma_pieces_clipped(shape, cells, limit, (n - 1) as nat);
        match clipped_cells(shape, cells, limit, n) {
            Ok(pieces) => {
                let before = clipped_cells(shape, cells, limit, (n - 1) as nat)->Ok_0;
                assert forall|k: int| 0 <= k < pieces.len() implies clipped_from_one(
                    shape,
                    cells,
                    n,
                    #[trigger] pieces[k],
                ) by {
                    if k < before.len() {
                        assert(pieces[k] == before[k]);
                        assert(clipped_from_one(shape, cells, (n - 1) as nat, before[k]));
                        let j = choose|j: int|
                            0 <= j < n - 1 && #[trigger] clipped_from(shape, cells[j], before[k]);
                        assert(clipped_from(shape, cells[j], pieces[k]));
                    } else {
                        let clip = difference_shape(seq![seq![closed_ring(cells[n - 1])]], shape);
                        assert(clip =~= seq![pieces[k]]);
                        assert(clipped_from(shape, cells[n - 1], pieces[k]));
                    }
                }
            },
            Err(_) => {},
        }
    }
}

} // verus!
