//! The canvas: a fixed-size drawing surface that accumulates one markup
//! command per draw call in an output buffer, wrapped in a single opening
//! and closing container pair.
//!
//! Lifecycle: construction emits the opening container command; draw calls
//! append commands while the canvas is open; finalization appends the
//! closing command once and marks the canvas finalized. Finalizing again is
//! a no-op, and a finalized canvas accepts no further commands (draw calls
//! on it leave the output unchanged), so the closing line is always the last
//! one. A draw call whose color is fully transparent leaves the output
//! byte-identical to omitting the call.

use crate::bitmap::{png_of, BitmapError};
use crate::color::Color;
use crate::commands::{
    build_bitmap_cmd, build_circle_cmd, build_line_cmd, build_open_cmd, build_pixel_cmd,
    build_polygon_cmd, build_rect_cmd, build_text_cmd, spec_bitmap_cmd, spec_circle_cmd,
    spec_line_cmd, spec_open_cmd, spec_path_cmds, spec_pixel_cmd, spec_polygon_cmd, spec_rect_cmd,
    spec_text_cmd,
};
use crate::style::{Style, TextStyle};
use vstd::prelude::*;

verus! {

/// The destination of the finished document: a file at a path, written by
/// the caller once the canvas is finalized, or the in-memory buffer alone.
pub enum Target {
    File(String),
    Buffer,
}

/// The Typst drawing backend: a canvas of fixed pixel dimensions whose draw
/// calls append markup commands to an output buffer.
pub struct TypstBackend {
    target: Target,
    buf: String,
    size: (u32, u32),
    saved: bool,
}

/// The relation between the canvas before and after one draw call: the
/// destination, size and finalized flag are untouched, and exactly the given
/// command line is appended when the call is live (not suppressed and the
/// canvas still open); otherwise the output is unchanged.
pub open spec fn emits(pre: TypstBackend, post: TypstBackend, live: bool, cmd: Seq<char>) -> bool {
    &&& post.spec_saved() == pre.spec_saved()
    &&& post.spec_path() == pre.spec_path()
    &&& post.spec_size() == pre.spec_size()
    &&& post.out() == if live && !pre.spec_saved() {
        pre.out() + cmd + "\n"@
    } else {
        pre.out()
    }
}

/// The output after finalizing: unchanged when already finalized, else with
/// the closing container line appended.
pub open spec fn spec_finalized_out(out: Seq<char>, saved: bool) -> Seq<char> {
    if saved {
        out
    } else {
        out + "]"@ + "\n"@
    }
}

/// Finalizing is idempotent: finalizing a canvas that is already finalized
/// changes nothing, so finalizing twice produces the output of finalizing
/// once.
pub proof fn lemma_finalize_idempotent(out: Seq<char>, saved: bool)
    ensures
        spec_finalized_out(spec_finalized_out(out, saved), true) == spec_finalized_out(out, saved),
{
}

impl TypstBackend {
    /// The text accumulated so far.
    pub closed spec fn out(&self) -> Seq<char> {
        self.buf@
    }

    /// Whether the canvas has been finalized.
    pub closed spec fn spec_saved(&self) -> bool {
        self.saved
    }

    /// The canvas dimensions.
    pub closed spec fn spec_size(&self) -> (u32, u32) {
        self.size
    }

    /// The file path of a file-backed canvas; none for a buffer-backed one.
    pub closed spec fn spec_path(&self) -> Option<Seq<char>> {
        match self.target {
            Target::File(p) => Some(p@),
            Target::Buffer => None,
        }
    }

    /// Escapes a text for emission; see `crate::escape::escape_text`.
    pub fn escape_text(text: &str) -> (r: String)
        ensures
            r@ == crate::escape::spec_escape(text@),
    {
        crate::escape::escape_text(text)
    }

    /// Appends one command line to the output.
    fn write_command(&mut self, command: &str)
        ensures
            final(self).out() == old(self).out() + command@ + "\n"@,
            final(self).spec_saved() == old(self).spec_saved(),
            final(self).spec_path() == old(self).spec_path(),
            final(self).spec_size() == old(self).spec_size(),
    {
        self.buf.append(command);
        self.buf.append("\n");
        assert(self.buf@ =~= old(self).buf@ + command@ + "\n"@);
    }

    /// Emits the opening container command sized to the canvas.
    fn init_canvas(&mut self, size: (u32, u32))
        ensures
            final(self).out() == old(self).out() + spec_open_cmd(size.0, size.1) + "\n"@,
            final(self).spec_saved() == old(self).spec_saved(),
            final(self).spec_path() == old(self).spec_path(),
            final(self).spec_size() == old(self).spec_size(),
    {
        let cmd = build_open_cmd(size.0, size.1);
        self.write_command(cmd.as_str());
    }

    /// Creates a file-backed canvas: the document accumulates in memory and
    /// the caller writes it to the path on finalization.
    pub fn new(path: String, size: (u32, u32)) -> (r: TypstBackend)
        ensures
            r.out() == spec_open_cmd(size.0, size.1) + "\n"@,
            !r.spec_saved(),
            r.spec_size() == size,
            r.spec_path() == Some(path@),
    {
        let mut ret = TypstBackend {
            target: Target::File(path),
            buf: String::new(),
            size,
            saved: false,
        };
        ret.init_canvas(size);
        proof {
            assert(ret.out() =~= spec_open_cmd(size.0, size.1) + "\n"@);
        }
        ret
    }

    /// Creates a buffer-backed canvas, appending the document to the given
    /// buffer contents; the finished text is read back from `buffer`.
    pub fn with_string(buf: String, size: (u32, u32)) -> (r: TypstBackend)
        ensures
            r.out() == buf@ + spec_open_cmd(size.0, size.1) + "\n"@,
            !r.spec_saved(),
            r.spec_size() == size,
            r.spec_path() is None,
    {
        let mut ret = TypstBackend { target: Target::Buffer, buf, size, saved: false };
        ret.init_canvas(size);
        ret
    }

    /// The canvas dimensions.
    pub fn get_size(&self) -> (s: (u32, u32))
        ensures
            s == self.spec_size(),
    {
        self.size
    }

    /// Whether the canvas has been finalized.
    pub fn is_saved(&self) -> (b: bool)
        ensures
            b == self.spec_saved(),
    {
        self.saved
    }

    /// The accumulated document text.
    pub fn buffer(&self) -> (r: &String)
        ensures
            r@ == self.out(),
    {
        &self.buf
    }

    /// The file path of a file-backed canvas.
    pub fn path(&self) -> (r: Option<&String>)
        ensures
            match r {
                Some(p) => self.spec_path() == Some(p@),
                None => self.spec_path() is None,
            },
    {
        match &self.target {
            Target::File(p) => Some(p),
            Target::Buffer => None,
        }
    }

    /// Nothing to prepare: the canvas is ready after construction.
    pub fn ensure_prepared(&mut self)
        ensures
            *final(self) == *old(self),
    {
    }

    /// Finalizes the canvas: appends the closing container line and marks it
    /// finalized. A second call is a no-op. For a file-backed canvas the
    /// caller then writes `buffer` to `path`; an I/O failure there leaves
    /// the buffer valid.
    pub fn present(&mut self)
        ensures
            final(self).spec_saved(),
            final(self).out() == spec_finalized_out(old(self).out(), old(self).spec_saved()),
            final(self).spec_path() == old(self).spec_path(),
            final(self).spec_size() == old(self).spec_size(),
    {
        if !self.saved {
            self.write_command("]");
            self.saved = true;
        }
    }

    /// Draws one pixel: a 1pt by 1pt filled rectangle at the point.
    pub fn draw_pixel(&mut self, point: (i32, i32), color: Color)
        ensures
            emits(
                *old(self),
                *final(self),
                color.alpha_pct != 0,
                spec_pixel_cmd(point.0 as int, point.1 as int, color),
            ),
    {
        if color.alpha_pct == 0 || self.saved {
            return ;
        }
        let cmd = build_pixel_cmd(point, color);
        self.write_command(cmd.as_str());
    }

    /// Draws a segment between two points, emitted in polar form.
    pub fn draw_line(&mut self, from: (i32, i32), to: (i32, i32), style: &Style)
        ensures
            emits(
                *old(self),
                *final(self),
                style.color.alpha_pct != 0,
                spec_line_cmd(from, to, *style),
            ),
    {
        if style.color.alpha_pct == 0 || self.saved {
            return ;
        }
        let cmd = build_line_cmd(from, to, style);
        self.write_command(cmd.as_str());
    }

    /// Draws a rectangle given by its upper-left and bottom-right corners,
    /// filled or outlined.
    pub fn draw_rect(&mut self, upper_left: (i32, i32), bottom_right: (i32, i32), style: &Style, fill: bool)
        ensures
            emits(
                *old(self),
                *final(self),
                style.color.alpha_pct != 0,
                spec_rect_cmd(upper_left, bottom_right, *style, fill),
            ),
    {
        if style.color.alpha_pct == 0 || self.saved {
            return ;
        }
        let cmd = build_rect_cmd(upper_left, bottom_right, style, fill);
        self.write_command(cmd.as_str());
    }

    /// Draws a polyline as independent segments between consecutive points,
    /// deliberately avoiding any primitive that would close into a polygon.
    /// Fewer than two points emit nothing.
    #[verifier::rlimit(60)]
    pub fn draw_path(&mut self, path: &Vec<(i32, i32)>, style: &Style)
        ensures
            final(self).spec_saved() == old(self).spec_saved(),
            final(self).spec_path() == old(self).spec_path(),
            final(self).spec_size() == old(self).spec_size(),
            final(self).out() == if style.color.alpha_pct != 0 && !old(self).spec_saved() {
                old(self).out() + spec_path_cmds(path@, *style)
            } else {
                old(self).out()
            },
    {
        if style.color.alpha_pct == 0 || self.saved {
            return ;
        }
        if path.len() < 2 {
            return ;
        }
        let ghost pre = *self;
        let mut i: usize = 0;
        proof {
            assert(path@.skip(0) =~= path@);
        }
        while i < path.len() - 1
            invariant
                i < path@.len(),
                path@.len() >= 2,
                style.color.alpha_pct != 0,
                !self.spec_saved(),
                self.spec_saved() == pre.spec_saved(),
                self.spec_path() == pre.spec_path(),
                self.spec_size() == pre.spec_size(),
                pre.out() + spec_path_cmds(path@, *style) == self.out() + spec_path_cmds(
                    path@.skip(i as int),
                    *style,
                ),
            decreases path@.len() - i,
        {
            let ghost prev = self.out();
            let from = path[i];
            let to = path[i + 1];
            self.draw_line(from, to, style);
            proof {
                let lc = spec_line_cmd(from, to, *style);
                let rest = path@.skip(i as int);
                let tail = spec_path_cmds(path@.skip(i as int + 1), *style);
                assert(rest[0] == from && rest[1] == to);
                assert(rest.drop_first() =~= path@.skip(i as int + 1));
                assert(spec_path_cmds(rest, *style) == (lc + "\n"@) + tail);
                vstd::seq_lib::lemma_concat_associative(prev, lc, "\n"@);
                vstd::seq_lib::lemma_concat_associative(prev, lc + "\n"@, tail);
                assert(self.out() + tail == prev + spec_path_cmds(rest, *style));
            }
            i = i + 1;
        }
        proof {
            assert(path@.skip(i as int).len() < 2);
            assert(spec_path_cmds(path@.skip(i as int), *style) == Seq::<char>::empty());
            assert(self.out() + Seq::<char>::empty() =~= self.out());
        }
    }

    /// Draws a filled polygon listing all vertices in the given order. An
    /// empty vertex list emits nothing and leaves the output unchanged.
    pub fn fill_polygon(&mut self, path: &Vec<(i32, i32)>, style: &Style)
        ensures
            emits(
                *old(self),
                *final(self),
                style.color.alpha_pct != 0 && path@.len() > 0,
                spec_polygon_cmd(path@, *style),
            ),
    {
        if style.color.alpha_pct == 0 || self.saved {
            return ;
        }
        if path.len() == 0 {
            return ;
        }
        let cmd = build_polygon_cmd(path, style);
        self.write_command(cmd.as_str());
    }

    /// Draws a circle positioned by its top-left bounding corner: the center
    /// shifted by the radius on both axes.
    pub fn draw_circle(&mut self, center: (i32, i32), radius: u32, style: &Style, fill: bool)
        ensures
            emits(
                *old(self),
                *final(self),
                style.color.alpha_pct != 0,
                spec_circle_cmd(center, radius, *style, fill),
            ),
    {
        if style.color.alpha_pct == 0 || self.saved {
            return ;
        }
        let cmd = build_circle_cmd(center, radius, style, fill);
        self.write_command(cmd.as_str());
    }

    /// Draws a bitmap: the RGB8 pixel buffer is PNG-encoded and embedded as
    /// a base64 data URI with explicit width and height. A buffer that does
    /// not hold exactly 3 bytes per pixel is rejected; the encoder refuses
    /// only a zero dimension (then the buffer is empty too). Every other
    /// well-sized buffer on an open canvas is owed an emitted command.
    pub fn blit_bitmap(&mut self, pos: (i32, i32), size: (u32, u32), src: &Vec<u8>) -> (r: Result<
        (),
        BitmapError,
    >)
        ensures
            final(self).spec_saved() == old(self).spec_saved(),
            final(self).spec_path() == old(self).spec_path(),
            final(self).spec_size() == old(self).spec_size(),
            (src@.len() != 3 * (size.0 as nat) * (size.1 as nat)) <==> (r == Err::<
                (),
                BitmapError,
            >(BitmapError::InvalidDimensions)),
            (src@.len() == 3 * (size.0 as nat) * (size.1 as nat) && !old(self).spec_saved() && (
            size.0 == 0 || size.1 == 0)) <==> (r == Err::<(), BitmapError>(BitmapError::Encoding)),
            r is Err ==> final(self).out() == old(self).out(),
            r is Ok ==> final(self).out() == if !old(self).spec_saved() {
                old(self).out() + spec_bitmap_cmd(pos, size.0, size.1, png_of(src@, size.0, size.1))
                    + "\n"@
            } else {
                old(self).out()
            },
    {
        let w = size.0;
        let h = size.1;
        proof {
            assert(3 * (w as int) * (h as int) <= 3 * 0xffffffff * 0xffffffff) by (nonlinear_arith)
                requires
                    0 <= w as int <= 0xffffffff,
                    0 <= h as int <= 0xffffffff,
            ;
        }
        if !(src.len() as u128 == 3u128 * (w as u128) * (h as u128)) {
            return Err(BitmapError::InvalidDimensions);
        }
        if self.saved {
            return Ok(());
        }
        match crate::bitmap::encode_png(src, w, h) {
            Ok(data) => {
                let cmd = build_bitmap_cmd(pos, w, h, &data);
                self.write_command(cmd.as_str());
                Ok(())
            },
            Err(_) => Err(BitmapError::Encoding),
        }
    }

    /// Draws a text element: escaped text in a styled box, anchored and
    /// rotated as the style demands.
    pub fn draw_text(&mut self, text: &str, style: &TextStyle, pos: (i32, i32))
        ensures
            emits(
                *old(self),
                *final(self),
                style.color.alpha_pct != 0,
                spec_text_cmd(text@, *style, pos),
            ),
    {
        if style.color.alpha_pct == 0 || self.saved {
            return ;
        }
        let cmd = build_text_cmd(text, style, pos);
        self.write_command(cmd.as_str());
    }
}

} // verus!
