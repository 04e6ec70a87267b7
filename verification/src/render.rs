//! Drawing primitives that the library computes and a renderer replays:
//! each command names a colour and one rectangle or line, in screen pixels.
use vstd::prelude::*;

verus! {

#[derive(Clone, Copy, PartialEq, Eq, Debug, Structural)]
pub struct Rgb {
    pub r: u8,
    pub g: u8,
    pub b: u8,
}

#[derive(Clone, Copy, PartialEq, Eq, Debug, Structural)]
pub struct Rect {
    pub x: i32,
    pub y: i32,
    pub w: u32,
    pub h: u32,
}

#[derive(Clone, Copy, PartialEq, Eq, Debug, Structural)]
pub enum Shape {
    /// A filled rectangle.
    Fill(Rect),
    /// A rectangle outline.
    Outline(Rect),
    /// A line segment from `(x1, y1)` to `(x2, y2)`.
    Line(i32, i32, i32, i32),
}

#[derive(Clone, Copy, PartialEq, Eq, Debug, Structural)]
pub struct DrawCmd {
    pub color: Rgb,
    pub shape: Shape,
}

pub open spec fn rgb(r: u8, g: u8, b: u8) -> Rgb {
    Rgb { r, g, b }
}

pub open spec fn fill(color: Rgb, x: int, y: int, w: u32, h: u32) -> DrawCmd {
    DrawCmd { color, shape: Shape::Fill(Rect { x: x as i32, y: y as i32, w, h }) }
}

pub open spec fn outline(color: Rgb, x: int, y: int, w: u32, h: u32) -> DrawCmd {
    DrawCmd { color, shape: Shape::Outline(Rect { x: x as i32, y: y as i32, w, h }) }
}

pub open spec fn line(color: Rgb, x1: int, y1: int, x2: int, y2: int) -> DrawCmd {
    DrawCmd { color, shape: Shape::Line(x1 as i32, y1 as i32, x2 as i32, y2 as i32) }
}

} // verus!
