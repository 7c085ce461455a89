//! Sketches: the line segments that a layer is drawn with.
use crate::geometry::Line;
use vstd::prelude::*;

verus! {

/// A colour: the bit patterns of its red, green, blue and alpha shares, each
/// a single-precision number from zero to one.
#[derive(Clone, Copy, Debug, PartialEq, Eq, Structural)]
pub struct Color {
    pub r: u32,
    pub g: u32,
    pub b: u32,
    pub a: u32,
}

/// Opaque black.
pub open spec fn black() -> Color {
    Color { r: 0, g: 0, b: 0, a: 0x3F80_0000 }
}

/// Opaque gray, fifty-one hundredths of each share.
pub open spec fn gray() -> Color {
    Color { r: 0x3F02_8F5C, g: 0x3F02_8F5C, b: 0x3F02_8F5C, a: 0x3F80_0000 }
}

impl Color {
    /// Opaque black.
    pub fn black() -> (c: Color)
        ensures
            c == black(),
    {
        Color { r: 0, g: 0, b: 0, a: 0x3F80_0000 }
    }

    /// Opaque gray.
    pub fn gray() -> (c: Color)
        ensures
            c == gray(),
    {
        Color { r: 0x3F02_8F5C, g: 0x3F02_8F5C, b: 0x3F02_8F5C, a: 0x3F80_0000 }
    }
}

/// The thickness of a layer's boundary: the single-precision number three.
pub const BOUNDARY_THICKNESS: u32 = 0x4040_0000;

/// The thickness of a layer's hatching: the single-precision number two.
pub const HATCHING_THICKNESS: u32 = 0x4000_0000;

/// What a sketch holds: its segments in drawing order, and how thick and in
/// which colour they are drawn.
pub struct SketchView {
    pub lines: Seq<Line>,
    pub thickness: u32,
    pub color: Color,
}

/// Segments with a thickness, the bit pattern of a single-precision number,
/// and a colour.
#[derive(Debug)]
pub struct Sketch {
    lines: Vec<Line>,
    thickness: u32,
    color: Color,
}

impl View for Sketch {
    type V = SketchView;

    closed spec fn view(&self) -> SketchView {
        SketchView { lines: self.lines@, thickness: self.thickness, color: self.color }
    }
}

impl Clone for Sketch {
    /// A sketch with the same segments, thickness and colour.
    fn clone(&self) -> (s: Sketch)
        ensures
            s@ == self@,
    {
        let lines = self.lines.clone();
        assert(lines@ =~= self.lines@);
        Sketch { lines, thickness: self.thickness, color: self.color }
    }
}

impl Sketch {
    /// A sketch without a segment.
    pub fn new(thickness: u32, color: Color) -> (s: Sketch)
        ensures
            s@ == (SketchView { lines: Seq::empty(), thickness, color }),
    {
        Sketch { lines: Vec::new(), thickness, color }
    }

    /// Appends a segment.
    pub fn add(&mut self, line: Line)
        ensures
            final(self)@ == (SketchView { lines: old(self)@.lines.push(line), ..old(self)@ }),
    {
        self.lines.push(line);
    }

    /// Removes every segment.
    pub fn clear(&mut self)
        ensures
            final(self)@ == (SketchView { lines: Seq::empty(), ..old(self)@ }),
    {
        self.lines.clear();
    }

    /// Replaces the segments.
    pub fn set_lines(&mut self, lines: Vec<Line>)
        ensures
            final(self)@ == (SketchView { lines: lines@, ..old(self)@ }),
    {
        self.lines = lines;
    }

    /// The segments in drawing order.
    pub fn lines(&self) -> (l: &Vec<Line>)
        ensures
            l@ == self@.lines,
    {
        &self.lines
    }

    /// The thickness, as the bit pattern of a single-precision number.
    pub fn thickness(&self) -> (t: u32)
        ensures
            t == self@.thickness,
    {
        self.thickness
    }

    /// The colour.
    pub fn color(&self) -> (c: Color)
        ensures
            c == self@.color,
    {
        self.color
    }
}

} // verus!
