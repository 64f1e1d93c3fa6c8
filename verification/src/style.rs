//! Stroke and text styles passed per draw call; the canvas stores none of
//! them.

use crate::color::Color;
use vstd::prelude::*;

verus! {

/// The style of a line or shape outline: its color and stroke width.
#[derive(Clone, Copy, PartialEq, Eq, Structural, Debug)]
pub struct Style {
    pub color: Color,
    pub stroke_width: u32,
}

/// The slant and weight of a font face. Oblique collapses into italic in
/// the output.
#[derive(Clone, Copy, PartialEq, Eq, Structural, Debug)]
pub enum FontStyleKind {
    Normal,
    Oblique,
    Italic,
    Bold,
}

/// A quarter-turn rotation applied to an emitted text element.
#[derive(Clone, Copy, PartialEq, Eq, Structural, Debug)]
pub enum Rotation {
    Deg0,
    Deg90,
    Deg180,
    Deg270,
}

/// The horizontal anchor of a text element.
#[derive(Clone, Copy, PartialEq, Eq, Structural, Debug)]
pub enum HAlign {
    Left,
    Right,
    Center,
}

/// The vertical anchor of a text element.
#[derive(Clone, Copy, PartialEq, Eq, Structural, Debug)]
pub enum VAlign {
    Top,
    Center,
    Bottom,
}

/// The style of a text element: color, integer font size in points, font
/// family name, slant or weight, rotation and anchor.
#[derive(Clone, PartialEq, Eq, Debug)]
pub struct TextStyle {
    pub color: Color,
    pub size: u32,
    pub family: String,
    pub font_style: FontStyleKind,
    pub transform: Rotation,
    pub h_pos: HAlign,
    pub v_pos: VAlign,
}

} // verus!
