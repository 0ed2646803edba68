//! Plain value types shared by the whole engine: pixel positions, colors,
//! texture coordinates and axis-aligned rectangles.
//!
//! Colors are 8-bit RGBA and texture coordinates are 16-bit fixed point
//! (0 maps to 0.0 and 65535 to 1.0 on the GPU side), so every vertex field
//! is an integer and the batching logic stays exact.

use vstd::prelude::*;

verus! {

/// A position in pixels, `[x, y]`, origin at the top left, y growing down.
pub type Point = [i16; 2];

/// A texture coordinate, `[u, v]`, in 16-bit fixed point: 65535 means 1.0.
pub type TexCoord = [u16; 2];

/// An 8-bit RGBA color; 255 means full intensity / fully opaque.
#[derive(Clone, Copy, Debug, PartialEq, Eq, Structural)]
pub struct Color {
    pub r: u8,
    pub g: u8,
    pub b: u8,
    pub a: u8,
}

impl Color {
    /// The opaque-white constant; multiplying by it leaves a sample unchanged.
    pub fn white() -> (c: Color)
        ensures
            c == (Color { r: 255, g: 255, b: 255, a: 255 }),
    {
        Color { r: 255, g: 255, b: 255, a: 255 }
    }
}

/// The GPU primitive assembly mode of a batch.
#[derive(Clone, Copy, Debug, PartialEq, Eq, Structural)]
pub enum Topology {
    Points,
    Lines,
    Triangles,
}

/// One vertex record as it is written into the shared vertex buffer:
/// a pixel position, an RGBA8 color and a fixed-point texture coordinate.
#[derive(Clone, Copy, Debug, PartialEq, Eq)]
pub struct Vertex {
    pub x: i16,
    pub y: i16,
    pub col: Color,
    pub u: u16,
    pub v: u16,
}

impl Vertex {
    pub fn new(pos: Point, col: Color, texc: TexCoord) -> (out: Vertex)
        ensures
            out == (Vertex { x: pos[0], y: pos[1], col: col, u: texc[0], v: texc[1] }),
    {
        Vertex { x: pos[0], y: pos[1], col: col, u: texc[0], v: texc[1] }
    }
}

/// An axis-aligned rectangle given by its top-left and bottom-right corners.
#[derive(Clone, Copy, Debug, PartialEq)]
pub struct Rect<T: Copy> {
    pub tl: [T; 2],
    pub br: [T; 2],
}

impl<T: Copy> Rect<T> {
    pub fn new(top_left: [T; 2], bottom_right: [T; 2]) -> (r: Rect<T>)
        ensures
            r.tl == top_left,
            r.br == bottom_right,
    {
        Rect { tl: top_left, br: bottom_right }
    }

    pub fn top_left(&self) -> (p: [T; 2])
        ensures
            p == self.tl,
    {
        self.tl
    }

    pub fn top_right(&self) -> (p: [T; 2])
        ensures
            p@ == seq![self.br[0], self.tl[1]],
    {
        [self.br[0], self.tl[1]]
    }

    pub fn bottom_left(&self) -> (p: [T; 2])
        ensures
            p@ == seq![self.tl[0], self.br[1]],
    {
        [self.tl[0], self.br[1]]
    }

    pub fn bottom_right(&self) -> (p: [T; 2])
        ensures
            p == self.br,
    {
        self.br
    }
}

} // verus!
