//! What can stop an edit.
use vstd::prelude::*;

verus! {

/// Why an edit was not carried out. The map and the history are then as
/// they were.
#[derive(Clone, Copy, Debug, PartialEq, Eq, Structural)]
pub enum EditError {
    /// A coordinate or a number computed from one is not finite, or the
    /// window of the hatching is too large or too small to tessellate.
    NotFinite,
    /// The sites of the hatching have no Voronoi diagram.
    NoDiagram,
    /// A cell of the hatching has no centroid.
    NoCentroid,
    /// A cell less the region is not exactly one polygon.
    ClipCount,
}

} // verus!
