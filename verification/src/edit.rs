//! Edits of a map: the union of a layer's area with a polygon, and the
//! subtraction of a polygon from it, each with what undoes it.
//!
//! Both operations lose the part of the area that the polygon covers. An
//! edit therefore keeps that part, the overlap of area and polygon, when it
//! is applied, and puts it back when it is undone.
use crate::error::EditError;
use crate::geometry::Point;
use crate::layer::{derived_layer, LayerMap, LayerView};
use crate::region::{difference_shape, intersection_shape, sound_shape, union_shape, Region};
use vstd::prelude::*;

verus! {

/// The two operations.
#[derive(Clone, Copy, Debug, PartialEq, Eq, Structural)]
pub enum PolyOpType {
    Union,
    Subtraction,
}

/// What an edit holds: its operation, the place of its layer, its polygon,
/// and the overlap kept when it was last applied.
pub struct EditView {
    pub kind: PolyOpType,
    pub layer: nat,
    pub operand: Seq<Seq<Seq<Point>>>,
    pub base: Seq<Seq<Seq<Point>>>,
}

impl EditView {
    /// Whether polygon and overlap are sound.
    pub open spec fn wf(self) -> bool {
        sound_shape(self.operand) && sound_shape(self.base)
    }
}

/// The area after an operation on `area` with `operand`.
pub open spec fn applied_area(
    kind: PolyOpType,
    area: Seq<Seq<Seq<Point>>>,
    operand: Seq<Seq<Seq<Point>>>,
) -> Seq<Seq<Seq<Point>>> {
    match kind {
        PolyOpType::Union => union_shape(area, operand),
        PolyOpType::Subtraction => difference_shape(area, operand),
    }
}

/// What is left of `area` without `operand`, before the overlap is put
/// back: the step between of an undone union. An undone subtraction has no
/// such step.
pub open spec fn stripped_area(
    kind: PolyOpType,
    area: Seq<Seq<Seq<Point>>>,
    operand: Seq<Seq<Seq<Point>>>,
) -> Seq<Seq<Seq<Point>>> {
    match kind {
        PolyOpType::Union => difference_shape(area, operand),
        PolyOpType::Subtraction => area,
    }
}

/// The area after an operation is undone: `area` without `operand` for a
/// union, `area` itself for a subtraction, each united with the overlap.
pub open spec fn restored_area(
    kind: PolyOpType,
    area: Seq<Seq<Seq<Point>>>,
    operand: Seq<Seq<Seq<Point>>>,
    base: Seq<Seq<Seq<Point>>>,
) -> Seq<Seq<Seq<Point>>> {
    union_shape(stripped_area(kind, area, operand), base)
}

/// Whether the region operations split `area` along `operand` without loss:
/// the overlap and the area after the operation are sound, and with the
/// operation undone again, what is left without the polygon is sound, and
/// united with the overlap it is `area` again.
pub open spec fn splits_exactly(
    kind: PolyOpType,
    area: Seq<Seq<Seq<Point>>>,
    operand: Seq<Seq<Seq<Point>>>,
) -> bool {
    let after = applied_area(kind, area, operand);
    let base = intersection_shape(area, operand);
    &&& sound_shape(base)
    &&& sound_shape(after)
    &&& sound_shape(stripped_area(kind, after, operand))
    &&& restored_area(kind, after, operand, base) == area
}

/// Tells whether the region operations split `area` along `operand` without
/// loss, by carrying the operation out and undoing it.
pub fn splits(kind: PolyOpType, area: &Region, operand: &Region) -> (r: bool)
    requires
        area.sound(),
        operand.sound(),
    ensures
        r == splits_exactly(kind, area.shape(), operand.shape()),
{
    let base = area.intersection(operand);
    if !base.is_sound() {
        return false;
    }
    let after = match kind {
        PolyOpType::Union => area.union(operand),
        PolyOpType::Subtraction => area.difference(operand),
    };
    if !after.is_sound() {
        return false;
    }
    let stripped = match kind {
        PolyOpType::Union => after.difference(operand),
        PolyOpType::Subtraction => after,
    };
    if !stripped.is_sound() {
        return false;
    }
    stripped.union(&base).same_shape(area)
}

/// An edit applied to the layers: the edit with the overlap it now keeps,
/// and the layers with the edited layer drawn anew. An error leaves both as
/// they were: `NotFinite` where overlap or new area is not sound, else what
/// stops the hatching of the new area.
pub open spec fn applied(edit: EditView, layers: Seq<LayerView>) -> Result<
    (EditView, Seq<LayerView>),
    EditError,
> {
    let target = layers[edit.layer as int];
    let base = intersection_shape(target.area, edit.operand);
    let area = applied_area(edit.kind, target.area, edit.operand);
    if !sound_shape(base) || !sound_shape(area) {
        Err(EditError::NotFinite)
    } else {
        match derived_layer(target.name, area) {
            Err(e) => Err(e),
            Ok(layer) => Ok(
                (EditView { base, ..edit }, layers.update(edit.layer as int, layer)),
            ),
        }
    }
}

/// An edit undone on the layers: the layers with the edited layer's area
/// restored and the layer drawn anew. An error leaves them as they were:
/// `NotFinite` where the step between or the restored area is not sound,
/// else what stops the hatching of the restored area.
pub open spec fn undone(edit: EditView, layers: Seq<LayerView>) -> Result<
    Seq<LayerView>,
    EditError,
> {
    let target = layers[edit.layer as int];
    let stripped = stripped_area(edit.kind, target.area, edit.operand);
    let area = restored_area(edit.kind, target.area, edit.operand, edit.base);
    if !sound_shape(stripped) || !sound_shape(area) {
        Err(EditError::NotFinite)
    } else {
        match derived_layer(target.name, area) {
            Err(e) => Err(e),
            Ok(layer) => Ok(layers.update(edit.layer as int, layer)),
        }
    }
}

/// The union of a layer's area with a polygon.
pub struct MapUnion {
    base: Region,
    operator: Region,
    layer: usize,
}

/// The subtraction of a polygon from a layer's area.
pub struct MapSubtraction {
    base: Region,
    operator: Region,
    layer: usize,
}

/// An edit of a map.
pub enum MapEdit {
    Union(MapUnion),
    Subtraction(MapSubtraction),
}

impl View for MapUnion {
    type V = EditView;

    closed spec fn view(&self) -> EditView {
        EditView {
            kind: PolyOpType::Union,
            layer: self.layer as nat,
            operand: self.operator.shape(),
            base: self.base.shape(),
        }
    }
}

impl View for MapSubtraction {
    type V = EditView;

    closed spec fn view(&self) -> EditView {
        EditView {
            kind: PolyOpType::Subtraction,
            layer: self.layer as nat,
            operand: self.operator.shape(),
            base: self.base.shape(),
        }
    }
}

impl View for MapEdit {
    type V = EditView;

    open spec fn view(&self) -> EditView {
        match self {
            MapEdit::Union(u) => u@,
            MapEdit::Subtraction(s) => s@,
        }
    }
}

impl Clone for MapUnion {
    /// A union of the same layer with the same polygon and overlap.
    fn clone(&self) -> (u: MapUnion)
        ensures
            u@ == self@,
    {
        MapUnion { base: self.base.clone(), operator: self.operator.clone(), layer: self.layer }
    }
}

impl Clone for MapSubtraction {
    /// A subtraction from the same layer of the same polygon, with the same
    /// overlap.
    fn clone(&self) -> (s: MapSubtraction)
        ensures
            s@ == self@,
    {
        MapSubtraction {
            base: self.base.clone(),
            operator: self.operator.clone(),
            layer: self.layer,
        }
    }
}

impl Clone for MapEdit {
    /// The same edit.
    fn clone(&self) -> (e: MapEdit)
        ensures
            e@ == self@,
    {
        match self {
            MapEdit::Union(u) => MapEdit::Union(u.clone()),
            MapEdit::Subtraction(s) => MapEdit::Subtraction(s.clone()),
        }
    }
}

impl MapUnion {
    /// The union of the layer at place `layer` with `operator`, not yet
    /// applied: it keeps no overlap.
    pub fn new(layer: usize, operator: Region) -> (u: MapUnion)
        requires
            operator.sound(),
        ensures
            u@ == (EditView {
                kind: PolyOpType::Union,
                layer: layer as nat,
                operand: operator.shape(),
                base: Seq::empty(),
            }),
            u@.wf(),
    {
        MapUnion { base: Region::new(), operator, layer }
    }

    /// The place of the layer.
    pub fn layer(&self) -> (l: usize)
        ensures
            l == self@.layer,
    {
        self.layer
    }

    /// Applies the union: keeps the overlap of the layer's area with the
    /// polygon, unites the area with the polygon and draws the layer anew.
    pub fn edit(&mut self, target: &mut LayerMap) -> (r: Result<(), EditError>)
        requires
            old(self)@.wf(),
            old(target).wf(),
            old(self)@.layer < old(target)@.len(),
        ensures
            match r {
                Ok(()) => applied(old(self)@, old(target)@) == Ok::<
                    (EditView, Seq<LayerView>),
                    EditError,
                >((final(self)@, final(target)@)),
                Err(e) => applied(old(self)@, old(target)@) == Err::<
                    (EditView, Seq<LayerView>),
                    EditError,
                >(e) && final(self)@ == old(self)@ && final(target)@ == old(target)@,
            },
            final(self)@.wf(),
            final(target).wf(),
    {
        let layer = target.layer(self.layer);
        let base = layer.area().intersection(&self.operator);
        let area = layer.area().union(&self.operator);
        if !base.is_sound() || !area.is_sound() {
            return Err(EditError::NotFinite);
        }
        let next = layer.with_area(area)?;
        self.base = base;
        target.set_layer(self.layer, next);
        Ok(())
    }

    /// Undoes the union: takes the polygon from the layer's area, puts the
    /// kept overlap back and draws the layer anew.
    pub fn undo(&self, target: &mut LayerMap) -> (r: Result<(), EditError>)
        requires
            self@.wf(),
            old(target).wf(),
            self@.layer < old(target)@.len(),
        ensures
            match r {
                Ok(()) => undone(self@, old(target)@) == Ok::<Seq<LayerView>, EditError>(
                    final(target)@,
                ),
                Err(e) => undone(self@, old(target)@) == Err::<Seq<LayerView>, EditError>(e)
                    && final(target)@ == old(target)@,
            },
            final(target).wf(),
    {
        let layer = target.layer(self.layer);
        let stripped = layer.area().difference(&self.operator);
        if !stripped.is_sound() {
            return Err(EditError::NotFinite);
        }
        let area = stripped.union(&self.base);
        if !area.is_sound() {
            return Err(EditError::NotFinite);
        }
        let next = layer.with_area(area)?;
        target.set_layer(self.layer, next);
        Ok(())
    }
}

impl MapSubtraction {
    /// The subtraction of `operator` from the layer at place `layer`, not
    /// yet applied: it keeps no overlap.
    pub fn new(layer: usize, operator: Region) -> (s: MapSubtraction)
        requires
            operator.sound(),
        ensures
            s@ == (EditView {
                kind: PolyOpType::Subtraction,
                layer: layer as nat,
                operand: operator.shape(),
                base: Seq::empty(),
            }),
            s@.wf(),
    {
        MapSubtraction { base: Region::new(), operator, layer }
    }

    /// The place of the layer.
    pub fn layer(&self) -> (l: usize)
        ensures
            l == self@.layer,
    {
        self.layer
    }

    /// Applies the subtraction: keeps the overlap of the layer's area with
    /// the polygon, which is what leaves, takes the polygon from the area and
    /// draws the layer anew.
    pub fn edit(&mut self, target: &mut LayerMap) -> (r: Result<(), EditError>)
        requires
            old(self)@.wf(),
            old(target).wf(),
            old(self)@.layer < old(target)@.len(),
        ensures
            match r {
                Ok(()) => applied(old(self)@, old(target)@) == Ok::<
                    (EditView, Seq<LayerView>),
                    EditError,
                >((final(self)@, final(target)@)),
                Err(e) => applied(old(self)@, old(target)@) == Err::<
                    (EditView, Seq<LayerView>),
                    EditError,
                >(e) && final(self)@ == old(self)@ && final(target)@ == old(target)@,
            },
            final(self)@.wf(),
            final(target).wf(),
    {
        let layer = target.layer(self.layer);
        let base = layer.area().intersection(&self.operator);
        let area = layer.area().difference(&self.operator);
        if !base.is_sound() || !area.is_sound() {
            return Err(EditError::NotFinite);
        }
        let next = layer.with_area(area)?;
        self.base = base;
        target.set_layer(self.layer, next);
        Ok(())
    }

    /// Undoes the subtraction: puts the kept overlap back and draws the
    /// layer anew.
    pub fn undo(&self, target: &mut LayerMap) -> (r: Result<(), EditError>)
        requires
            self@.wf(),
            old(target).wf(),
            self@.layer < old(target)@.len(),
        ensures
            match r {
                Ok(()) => undone(self@, old(target)@) == Ok::<Seq<LayerView>, EditError>(
                    final(target)@,
                ),
                Err(e) => undone(self@, old(target)@) == Err::<Seq<LayerView>, EditError>(e)
                    && final(target)@ == old(target)@,
            },
            final(target).wf(),
    {
        let layer = target.layer(self.layer);
        let area = layer.area().union(&self.base);
        if !area.is_sound() {
            return Err(EditError::NotFinite);
        }
        let next = layer.with_area(area)?;
        target.set_layer(self.layer, next);
        Ok(())
    }
}

impl MapEdit {
    /// The edit that a tool's polygon makes on the layer at place `layer`.
    pub fn new(kind: PolyOpType, layer: usize, operator: Region) -> (e: MapEdit)
        requires
            operator.sound(),
        ensures
            e@ == (EditView { kind, layer: layer as nat, operand: operator.shape(), base: Seq::empty() }),
            e@.wf(),
    {
        match kind {
            PolyOpType::Union => MapEdit::Union(MapUnion::new(layer, operator)),
            PolyOpType::Subtraction => MapEdit::Subtraction(MapSubtraction::new(layer, operator)),
        }
    }

    /// The place of the layer.
    pub fn layer(&self) -> (l: usize)
        ensures
            l == self@.layer,
    {
        match self {
            MapEdit::Union(u) => u.layer(),
            MapEdit::Subtraction(s) => s.layer(),
        }
    }

    /// Applies the edit.
    pub fn edit(&mut self, target: &mut LayerMap) -> (r: Result<(), EditError>)
        requires
            old(self)@.wf(),
            old(target).wf(),
            old(self)@.layer < old(target)@.len(),
        ensures
            match r {
                Ok(()) => applied(old(self)@, old(target)@) == Ok::<
                    (EditView, Seq<LayerView>),
                    EditError,
                >((final(self)@, final(target)@)),
                Err(e) => applied(old(self)@, old(target)@) == Err::<
                    (EditView, Seq<LayerView>),
                    EditError,
                >(e) && final(self)@ == old(self)@ && final(target)@ == old(target)@,
            },
            final(self)@.wf(),
            final(target).wf(),
    {
        match self {
            MapEdit::Union(u) => u.edit(target),
            MapEdit::Subtraction(s) => s.edit(target),
        }
    }

    /// Undoes the edit.
    pub fn undo(&self, target: &mut LayerMap) -> (r: Result<(), EditError>)
        requires
            self@.wf(),
            old(target).wf(),
            self@.layer < old(target)@.len(),
        ensures
            match r {
                Ok(()) => undone(self@, old(target)@) == Ok::<Seq<LayerView>, EditError>(
                    final(target)@,
                ),
                Err(e) => undone(self@, old(target)@) == Err::<Seq<LayerView>, EditError>(e)
                    && final(target)@ == old(target)@,
            },
            final(target).wf(),
    {
        match self {
            MapEdit::Union(u) => u.undo(target),
            MapEdit::Subtraction(s) => s.undo(target),
        }
    }
}

} // verus!
