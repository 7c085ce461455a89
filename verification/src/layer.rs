//! Layers and the map that holds them.
use crate::error::EditError;
use crate::geometry::{Line, Point};
use crate::hatch::{hatch, hatch_outcome, usual_style, HatchStyle};
use crate::region::{boundary_of, shape_edges, sound_shape, Region};
use crate::sketch::{
    black, gray, Color, Sketch, SketchView, BOUNDARY_THICKNESS, HATCHING_THICKNESS,
};
use vstd::prelude::*;

verus! {

/// What a layer holds: its name, the shape of its area, and the two
/// sketches drawn for it.
pub struct LayerView {
    pub name: Seq<char>,
    pub area: Seq<Seq<Seq<Point>>>,
    pub boundary: SketchView,
    pub hatching: SketchView,
}

/// The boundary sketch of an area: every edge of the shape.
pub open spec fn boundary_sketch(area: Seq<Seq<Seq<Point>>>) -> SketchView {
    SketchView { lines: shape_edges(area), thickness: BOUNDARY_THICKNESS, color: black() }
}

/// The hatching sketch with the given strokes.
pub open spec fn hatching_sketch(lines: Seq<Line>) -> SketchView {
    SketchView { lines, thickness: HATCHING_THICKNESS, color: gray() }
}

/// The layer that a name and an area make: the area with its boundary and
/// its hatching in the usual measures; the error where the area cannot be
/// hatched.
pub open spec fn derived_layer(name: Seq<char>, area: Seq<Seq<Seq<Point>>>) -> Result<
    LayerView,
    EditError,
> {
    match hatch_outcome(usual_style(), area) {
        Err(e) => Err(e),
        Ok(lines) => Ok(
            LayerView {
                name,
                area,
                boundary: boundary_sketch(area),
                hatching: hatching_sketch(lines),
            },
        ),
    }
}

impl LayerView {
    /// Whether the area is sound and both sketches are those of the area.
    pub open spec fn wf(self) -> bool {
        sound_shape(self.area) && derived_layer(self.name, self.area) == Ok::<
            LayerView,
            EditError,
        >(self)
    }
}

/// Whether every layer is well formed.
pub open spec fn wf_layers(layers: Seq<LayerView>) -> bool {
    forall|i: int| 0 <= i < layers.len() ==> (#[trigger] layers[i]).wf()
}

/// A named area with the sketch of its boundary and the sketch of its
/// hatching.
pub struct Layer {
    area: Region,
    area_sketch: Sketch,
    hatching: Sketch,
    name: String,
}

impl View for Layer {
    type V = LayerView;

    closed spec fn view(&self) -> LayerView {
        LayerView {
            name: self.name@,
            area: self.area.shape(),
            boundary: self.area_sketch@,
            hatching: self.hatching@,
        }
    }
}

impl Clone for Layer {
    /// A layer with the same name, area and sketches.
    fn clone(&self) -> (l: Layer)
        ensures
            l@ == self@,
    {
        Layer {
            area: self.area.clone(),
            area_sketch: self.area_sketch.clone(),
            hatching: self.hatching.clone(),
            name: self.name.clone(),
        }
    }
}

impl Layer {
    /// A layer with an empty area and empty sketches.
    pub fn new(name: String) -> (l: Layer)
        ensures
            l@ == (LayerView {
                name: name@,
                area: Seq::empty(),
                boundary: boundary_sketch(Seq::empty()),
                hatching: hatching_sketch(Seq::empty()),
            }),
            l@.wf(),
    {
        let l = Layer {
            area: Region::new(),
            area_sketch: Sketch::new(BOUNDARY_THICKNESS, Color::black()),
            hatching: Sketch::new(HATCHING_THICKNESS, Color::gray()),
            name,
        };
        assert(shape_edges(Seq::<Seq<Seq<Point>>>::empty()) =~= Seq::<Line>::empty());
        l
    }

    /// The area.
    pub fn area(&self) -> (a: &Region)
        ensures
            a.shape() == self@.area,
    {
        &self.area
    }

    /// The sketch of the boundary.
    pub fn area_sketch(&self) -> (s: &Sketch)
        ensures
            s@ == self@.boundary,
    {
        &self.area_sketch
    }

    /// The sketch of the hatching.
    pub fn hatching(&self) -> (s: &Sketch)
        ensures
            s@ == self@.hatching,
    {
        &self.hatching
    }

    /// The name.
    pub fn name(&self) -> (s: &String)
        ensures
            s@ == self@.name,
    {
        &self.name
    }

    /// Draws the boundary sketch anew: every edge of the area.
    pub fn update_sketch(&mut self)
        ensures
            final(self)@ == (LayerView {
                boundary: SketchView { lines: shape_edges(old(self)@.area), ..old(self)@.boundary },
                ..old(self)@
            }),
    {
        self.area_sketch.clear();
        let rings = self.area.rings();
        let lines = boundary_of(&rings);
        self.area_sketch.set_lines(lines);
    }

    /// Draws the hatching sketch anew, in the usual measures. Where the area
    /// cannot be hatched the sketch is left empty.
    pub fn generate_hatching(&mut self) -> (r: Result<(), EditError>)
        requires
            sound_shape(old(self)@.area),
        ensures
            match r {
                Ok(()) => hatch_outcome(usual_style(), old(self)@.area) is Ok && final(self)@ == (LayerView {
                    hatching: SketchView {
                        lines: hatch_outcome(usual_style(), old(self)@.area)->Ok_0,
                        ..old(self)@.hatching
                    },
                    ..old(self)@
                }),
                Err(e) => hatch_outcome(usual_style(), old(self)@.area) == Err::<Seq<Line>, EditError>(e)
                    && final(self)@ == (LayerView {
                    hatching: SketchView { lines: Seq::empty(), ..old(self)@.hatching },
                    ..old(self)@
                }),
            },
    {
        self.hatching.clear();
        let lines = hatch(&HatchStyle::default(), &self.area)?;
        self.hatching.set_lines(lines);
        Ok(())
    }

    /// The layer of the same name with the given area, its sketches drawn
    /// for it.
    pub fn with_area(&self, area: Region) -> (r: Result<Layer, EditError>)
        requires
            area.sound(),
        ensures
            match r {
                Ok(l) => derived_layer(self@.name, area.shape()) == Ok::<LayerView, EditError>(l@)
                    && l@.wf(),
                Err(e) => derived_layer(self@.name, area.shape()) == Err::<LayerView, EditError>(
                    e,
                ),
            },
    {
        let mut next = Layer {
            area,
            area_sketch: Sketch::new(BOUNDARY_THICKNESS, Color::black()),
            hatching: Sketch::new(HATCHING_THICKNESS, Color::gray()),
            name: self.name.clone(),
        };
        next.update_sketch();
        next.generate_hatching()?;
        Ok(next)
    }
}

/// The layers of a map, in their order.
pub struct LayerMap {
    layers: Vec<Layer>,
}

impl View for LayerMap {
    type V = Seq<LayerView>;

    closed spec fn view(&self) -> Seq<LayerView> {
        Seq::new(self.layers.len() as nat, |i: int| self.layers[i]@)
    }
}

impl Clone for LayerMap {
    /// A map with the same layers.
    fn clone(&self) -> (m: LayerMap)
        ensures
            m@ == self@,
    {
        let mut layers: Vec<Layer> = Vec::new();
        let mut i: usize = 0;
        while i < self.layers.len()
            invariant
                i <= self.layers.len(),
                layers.len() == i,
                forall|j: int| 0 <= j < i ==> (#[trigger] layers[j])@ == self.layers[j]@,
            decreases self.layers.len() - i,
        {
            layers.push(self.layers[i].clone());
            i += 1;
        }
        let m = LayerMap { layers };
        assert(m@ =~= self@);
        m
    }
}

impl LayerMap {
    /// Whether every layer is well formed.
    pub open spec fn wf(&self) -> bool {
        wf_layers(self@)
    }

    /// The map without a layer.
    pub fn new() -> (m: LayerMap)
        ensures
            m@ == Seq::<LayerView>::empty(),
            m.wf(),
    {
        let m = LayerMap { layers: Vec::new() };
        assert(m@ =~= Seq::<LayerView>::empty());
        m
    }

    /// Appends an empty layer of the given name.
    pub fn append_layer(&mut self, name: String)
        ensures
            final(self)@ == old(self)@.push(
                LayerView {
                    name: name@,
                    area: Seq::empty(),
                    boundary: boundary_sketch(Seq::empty()),
                    hatching: hatching_sketch(Seq::empty()),
                },
            ),
            old(self).wf() ==> final(self).wf(),
    {
        let ghost before = self@;
        let layer = Layer::new(name);
        self.layers.push(layer);
        assert(self@ =~= before.push(layer@));
    }

    /// The number of layers.
    pub fn len(&self) -> (n: usize)
        ensures
            n == self@.len(),
    {
        self.layers.len()
    }

    /// The layers in their order.
    pub fn layers_iter(&self) -> (l: &Vec<Layer>)
        ensures
            l.len() == self@.len(),
            forall|i: int| 0 <= i < l.len() ==> (#[trigger] l[i])@ == self@[i],
    {
        &self.layers
    }

    /// The layer at a place.
    pub fn layer(&self, index: usize) -> (l: &Layer)
        requires
            index < self@.len(),
        ensures
            l@ == self@[index as int],
    {
        &self.layers[index]
    }

    /// Puts a layer in the place of another.
    pub(crate) fn set_layer(&mut self, index: usize, layer: Layer)
        requires
            index < old(self)@.len(),
        ensures
            final(self)@ == old(self)@.update(index as int, layer@),
    {
        let ghost before = self@;
        self.layers[index] = layer;
        assert(self@ =~= before.update(index as int, layer@));
    }
}

} // verus!
