//! A Typst drawing backend: accumulates vector-graphics drawing commands
//! (pixels, lines, rectangles, polygons, circles, text, bitmaps) as Typst
//! markup inside one sized, clipped container element.

pub mod backend;
pub mod base64;
pub mod bitmap;
pub mod color;
pub mod commands;
pub mod escape;
pub mod geom;
pub mod numfmt;
pub mod style;

pub use backend::{Target, TypstBackend};
pub use bitmap::BitmapError;
pub use base64::base64_encode;
pub use color::{make_typst_color, Color};
pub use escape::escape_text;
pub use style::{FontStyleKind, HAlign, Rotation, Style, TextStyle, VAlign};
