//! Colors and their serialization into the target markup's color
//! constructor syntax.
//!
//! A color is an RGB triple with an opacity carried in whole percent
//! (0 fully transparent, 100 and above fully opaque). A partially
//! transparent color is written `rgb(r, g, b, a%)`; a fully opaque one
//! `rgb(r, g, b)`.

use crate::numfmt::{fmt_u64, spec_udec};
use vstd::prelude::*;

verus! {

/// An RGB color with an opacity in whole percent.
#[derive(Clone, Copy, PartialEq, Eq, Structural, Debug)]
pub struct Color {
    pub r: u8,
    pub g: u8,
    pub b: u8,
    /// Opacity in percent: 0 is fully transparent and suppresses the draw
    /// call; anything from 100 up is fully opaque.
    pub alpha_pct: u32,
}

impl Color {
    /// A fully opaque color.
    pub fn rgb(r: u8, g: u8, b: u8) -> (c: Color)
        ensures
            c == (Color { r, g, b, alpha_pct: 100u32 }),
    {
        Color { r, g, b, alpha_pct: 100 }
    }
}

/// The markup text of a color: its `rgb(..)` constructor call, with the
/// opacity percent appended when the color is not fully opaque.
pub open spec fn spec_color_text(c: Color) -> Seq<char> {
    if c.alpha_pct < 100 {
        "rgb("@ + spec_udec(c.r as nat) + ", "@ + spec_udec(c.g as nat) + ", "@ + spec_udec(
            c.b as nat,
        ) + ", "@ + spec_udec(c.alpha_pct as nat) + "%)"@
    } else {
        "rgb("@ + spec_udec(c.r as nat) + ", "@ + spec_udec(c.g as nat) + ", "@ + spec_udec(
            c.b as nat,
        ) + ")"@
    }
}

/// Renders a color as its markup constructor call.
pub fn make_typst_color(c: Color) -> (s: String)
    ensures
        s@ == spec_color_text(c),
{
    let mut s = String::new();
    s.append("rgb(");
    let r = fmt_u64(c.r as u64);
    s.append(r.as_str());
    s.append(", ");
    let g = fmt_u64(c.g as u64);
    s.append(g.as_str());
    s.append(", ");
    let b = fmt_u64(c.b as u64);
    s.append(b.as_str());
    if c.alpha_pct < 100 {
        s.append(", ");
        let a = fmt_u64(c.alpha_pct as u64);
        s.append(a.as_str());
        s.append("%)");
        assert(s@ =~= spec_color_text(c));
    } else {
        s.append(")");
        assert(s@ =~= spec_color_text(c));
    }
    s
}

} // verus!
