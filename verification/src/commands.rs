//! The text of each emitted markup command, as a specification over views,
//! and the executable builders proved to produce exactly that text.
//!
//! Every command is one line beginning with a placement directive; lengths
//! carry a `pt` suffix, angles a `deg` suffix, and colors use the `rgb(..)`
//! constructor.
//!
//! Text anchoring follows the edge-based strategy: a vertical anchor maps to
//! a pair of top-edge and bottom-edge attributes of the text box, and center
//! and right horizontal anchors measure the rendered width in context and
//! shift left by half or all of it. An offset-based mapping (numeric shifts
//! of the baseline, named alignment attributes) would be equally valid but
//! produces different bytes; the two are not interchangeable, and this crate
//! commits to the edge-based one.

use crate::color::{make_typst_color, spec_color_text, Color};
use crate::escape::{escape_text, spec_escape};
use crate::geom::{
    line_angle_centi, line_length_centi, spec_line_angle_centi, spec_line_length_centi,
};
use crate::numfmt::{
    fmt_i64, fmt_icenti, fmt_u64, fmt_ucenti, spec_icenti, spec_idec, spec_ucenti, spec_udec,
};
use crate::style::{FontStyleKind, HAlign, Rotation, Style, TextStyle, VAlign};
use vstd::prelude::*;

verus! {

/// The opening container command: a sized box that clips its contents.
pub open spec fn spec_open_cmd(w: u32, h: u32) -> Seq<char> {
    "#box(width: "@ + spec_udec(w as nat) + "pt, height: "@ + spec_udec(h as nat)
        + "pt, clip: true)["@
}

/// Builds the opening container command.
pub fn build_open_cmd(w: u32, h: u32) -> (s: String)
    ensures
        s@ == spec_open_cmd(w, h),
{
    let mut s = String::new();
    s.append("#box(width: ");
    let ws = fmt_u64(w as u64);
    s.append(ws.as_str());
    s.append("pt, height: ");
    let hs = fmt_u64(h as u64);
    s.append(hs.as_str());
    s.append("pt, clip: true)[");
    assert(s@ =~= spec_open_cmd(w, h));
    s
}

/// The command for one pixel: a 1pt by 1pt filled rectangle.
pub open spec fn spec_pixel_cmd(x: int, y: int, c: Color) -> Seq<char> {
    "  #place(dx: "@ + spec_idec(x) + "pt, dy: "@ + spec_idec(y)
        + "pt, rect(width: 1pt, height: 1pt, fill: "@ + spec_color_text(c) + ", stroke: none))"@
}

/// Builds the command for one pixel.
pub fn build_pixel_cmd(point: (i32, i32), c: Color) -> (s: String)
    ensures
        s@ == spec_pixel_cmd(point.0 as int, point.1 as int, c),
{
    let mut s = String::new();
    s.append("  #place(dx: ");
    let xs = fmt_i64(point.0 as i64);
    s.append(xs.as_str());
    s.append("pt, dy: ");
    let ys = fmt_i64(point.1 as i64);
    s.append(ys.as_str());
    s.append("pt, rect(width: 1pt, height: 1pt, fill: ");
    let cs = make_typst_color(c);
    s.append(cs.as_str());
    s.append(", stroke: none))");
    assert(s@ =~= spec_pixel_cmd(point.0 as int, point.1 as int, c));
    s
}

/// The fill attribute of a shape: the fill color when filled, none otherwise.
pub open spec fn spec_fill_attr(style: Style, filled: bool) -> Seq<char> {
    if filled {
        "fill: "@ + spec_color_text(style.color)
    } else {
        "fill: none"@
    }
}

/// The stroke attribute of a shape: none when filled, the stroke width and
/// color otherwise.
pub open spec fn spec_stroke_attr(style: Style, filled: bool) -> Seq<char> {
    if filled {
        "stroke: none"@
    } else {
        "stroke: "@ + spec_udec(style.stroke_width as nat) + "pt + "@ + spec_color_text(
            style.color,
        )
    }
}

/// Builds the fill attribute of a shape.
fn build_fill_attr(style: &Style, filled: bool) -> (s: String)
    ensures
        s@ == spec_fill_attr(*style, filled),
{
    let mut s = String::new();
    if filled {
        s.append("fill: ");
        let cs = make_typst_color(style.color);
        s.append(cs.as_str());
        assert(s@ =~= spec_fill_attr(*style, filled));
    } else {
        s.append("fill: none");
        assert(s@ =~= spec_fill_attr(*style, filled));
    }
    s
}

/// Builds the stroke attribute of a shape.
fn build_stroke_attr(style: &Style, filled: bool) -> (s: String)
    ensures
        s@ == spec_stroke_attr(*style, filled),
{
    let mut s = String::new();
    if filled {
        s.append("stroke: none");
        assert(s@ =~= spec_stroke_attr(*style, filled));
    } else {
        s.append("stroke: ");
        let ws = fmt_u64(style.stroke_width as u64);
        s.append(ws.as_str());
        s.append("pt + ");
        let cs = make_typst_color(style.color);
        s.append(cs.as_str());
        assert(s@ =~= spec_stroke_attr(*style, filled));
    }
    s
}

/// The command for a segment, in polar form: placed at its start point, with
/// its rounded centi length, its rounded centi angle in degrees, and its
/// stroke.
pub open spec fn spec_line_cmd(from: (i32, i32), to: (i32, i32), style: Style) -> Seq<char> {
    let dx = to.0 as int - from.0 as int;
    let dy = to.1 as int - from.1 as int;
    "  #place(dx: "@ + spec_idec(from.0 as int) + "pt, dy: "@ + spec_idec(from.1 as int)
        + "pt, line(length: "@ + spec_ucenti(spec_line_length_centi(dx, dy) as nat)
        + "pt, angle: "@ + spec_icenti(spec_line_angle_centi(dy, dx)) + "deg, stroke: "@
        + spec_udec(style.stroke_width as nat) + "pt + "@ + spec_color_text(style.color) + "))"@
}

/// Builds the command for a segment.
pub fn build_line_cmd(from: (i32, i32), to: (i32, i32), style: &Style) -> (s: String)
    ensures
        s@ == spec_line_cmd(from, to, *style),
{
    let dx: i64 = to.0 as i64 - from.0 as i64;
    let dy: i64 = to.1 as i64 - from.1 as i64;
    let len = line_length_centi(dx, dy);
    let ang = line_angle_centi(dy, dx);
    let mut s = String::new();
    s.append("  #place(dx: ");
    let xs = fmt_i64(from.0 as i64);
    s.append(xs.as_str());
    s.append("pt, dy: ");
    let ys = fmt_i64(from.1 as i64);
    s.append(ys.as_str());
    s.append("pt, line(length: ");
    let ls = fmt_ucenti(len);
    s.append(ls.as_str());
    s.append("pt, angle: ");
    let asg = fmt_icenti(ang);
    s.append(asg.as_str());
    s.append("deg, stroke: ");
    let ws = fmt_u64(style.stroke_width as u64);
    s.append(ws.as_str());
    s.append("pt + ");
    let cs = make_typst_color(style.color);
    s.append(cs.as_str());
    s.append("))");
    assert(s@ =~= spec_line_cmd(from, to, *style));
    s
}

/// Drawing a segment and then the same segment reversed emits equal lengths,
/// and angles that differ by exactly 180 degrees (18000 hundredths).
pub proof fn lemma_reverse_segment(from: (i32, i32), to: (i32, i32))
    requires
        from.0 != to.0 || from.1 != to.1,
    ensures
        spec_line_length_centi(from.0 as int - to.0 as int, from.1 as int - to.1 as int)
            == spec_line_length_centi(to.0 as int - from.0 as int, to.1 as int - from.1 as int),
        spec_line_angle_centi(to.1 as int - from.1 as int, to.0 as int - from.0 as int)
            - spec_line_angle_centi(from.1 as int - to.1 as int, from.0 as int - to.0 as int)
            == 18000 || spec_line_angle_centi(from.1 as int - to.1 as int, from.0 as int - to.0 as int)
            - spec_line_angle_centi(to.1 as int - from.1 as int, to.0 as int - from.0 as int)
            == 18000,
{
    let dx = to.0 as int - from.0 as int;
    let dy = to.1 as int - from.1 as int;
    crate::geom::lemma_reversal_keeps_length(dx, dy);
    crate::geom::lemma_reversal_turns_angle_by_half_turn(dy, dx);
}

/// The command for a rectangle given by two corners, placed at the first.
pub open spec fn spec_rect_cmd(ul: (i32, i32), br: (i32, i32), style: Style, filled: bool) -> Seq<
    char,
> {
    "  #place(dx: "@ + spec_idec(ul.0 as int) + "pt, dy: "@ + spec_idec(ul.1 as int)
        + "pt, rect(width: "@ + spec_idec(br.0 as int - ul.0 as int) + "pt, height: "@ + spec_idec(
        br.1 as int - ul.1 as int,
    ) + "pt, "@ + spec_fill_attr(style, filled) + ", "@ + spec_stroke_attr(style, filled) + "))"@
}

/// Builds the command for a rectangle.
pub fn build_rect_cmd(ul: (i32, i32), br: (i32, i32), style: &Style, filled: bool) -> (s: String)
    ensures
        s@ == spec_rect_cmd(ul, br, *style, filled),
{
    let mut s = String::new();
    s.append("  #place(dx: ");
    let xs = fmt_i64(ul.0 as i64);
    s.append(xs.as_str());
    s.append("pt, dy: ");
    let ys = fmt_i64(ul.1 as i64);
    s.append(ys.as_str());
    s.append("pt, rect(width: ");
    let w = fmt_i64(br.0 as i64 - ul.0 as i64);
    s.append(w.as_str());
    s.append("pt, height: ");
    let h = fmt_i64(br.1 as i64 - ul.1 as i64);
    s.append(h.as_str());
    s.append("pt, ");
    let fa = build_fill_attr(style, filled);
    s.append(fa.as_str());
    s.append(", ");
    let sa = build_stroke_attr(style, filled);
    s.append(sa.as_str());
    s.append("))");
    assert(s@ =~= spec_rect_cmd(ul, br, *style, filled));
    s
}

/// One vertex of a polygon, as an `(x pt, y pt)` coordinate pair.
pub open spec fn spec_point_item(p: (i32, i32)) -> Seq<char> {
    "("@ + spec_idec(p.0 as int) + "pt, "@ + spec_idec(p.1 as int) + "pt)"@
}

/// The comma-separated vertex list of a polygon, in the given order.
pub open spec fn spec_points_list(pts: Seq<(i32, i32)>) -> Seq<char>
    decreases pts.len(),
{
    if pts.len() == 0 {
        Seq::empty()
    } else if pts.len() == 1 {
        spec_point_item(pts[0])
    } else {
        spec_point_item(pts[0]) + ", "@ + spec_points_list(pts.drop_first())
    }
}

proof fn lemma_points_list_push(pts: Seq<(i32, i32)>, p: (i32, i32))
    ensures
        spec_points_list(pts.push(p)) == if pts.len() == 0 {
            spec_point_item(p)
        } else {
            spec_points_list(pts) + ", "@ + spec_point_item(p)
        },
    decreases pts.len(),
{
    if pts.len() == 0 {
        assert(pts.push(p).len() == 1);
        assert(pts.push(p)[0] == p);
    } else {
        lemma_points_list_push(pts.drop_first(), p);
        assert(pts.push(p).drop_first() =~= pts.drop_first().push(p));
        assert(pts.push(p)[0] == pts[0]);
        if pts.len() == 1 {
            assert(spec_points_list(pts.push(p)) =~= spec_points_list(pts) + ", "@
                + spec_point_item(p));
        } else {
            assert(spec_points_list(pts.push(p)) =~= spec_points_list(pts) + ", "@
                + spec_point_item(p));
        }
    }
}

/// Builds one vertex of a polygon.
fn build_point_item(p: (i32, i32)) -> (s: String)
    ensures
        s@ == spec_point_item(p),
{
    let mut s = String::new();
    s.append("(");
    let xs = fmt_i64(p.0 as i64);
    s.append(xs.as_str());
    s.append("pt, ");
    let ys = fmt_i64(p.1 as i64);
    s.append(ys.as_str());
    s.append("pt)");
    assert(s@ =~= spec_point_item(p));
    s
}

/// Builds the comma-separated vertex list of a polygon.
fn build_points_list(pts: &Vec<(i32, i32)>) -> (s: String)
    ensures
        s@ == spec_points_list(pts@),
{
    let mut s = String::new();
    let mut i: usize = 0;
    while i < pts.len()
        invariant
            i <= pts@.len(),
            s@ == spec_points_list(pts@.take(i as int)),
        decreases pts@.len() - i,
    {
        if i > 0 {
            s.append(", ");
        }
        let item = build_point_item(pts[i]);
        s.append(item.as_str());
        proof {
            assert(pts@.take(i as int + 1) =~= pts@.take(i as int).push(pts@[i as int]));
            lemma_points_list_push(pts@.take(i as int), pts@[i as int]);
        }
        i = i + 1;
    }
    proof {
        assert(pts@.take(pts@.len() as int) =~= pts@);
    }
    s
}

/// The command for a filled polygon listing all vertices in order.
pub open spec fn spec_polygon_cmd(pts: Seq<(i32, i32)>, style: Style) -> Seq<char> {
    "  #place(polygon(fill: "@ + spec_color_text(style.color) + ", stroke: none, "@
        + spec_points_list(pts) + "))"@
}

/// Builds the command for a filled polygon.
pub fn build_polygon_cmd(pts: &Vec<(i32, i32)>, style: &Style) -> (s: String)
    ensures
        s@ == spec_polygon_cmd(pts@, *style),
{
    let mut s = String::new();
    s.append("  #place(polygon(fill: ");
    let cs = make_typst_color(style.color);
    s.append(cs.as_str());
    s.append(", stroke: none, ");
    let ps = build_points_list(pts);
    s.append(ps.as_str());
    s.append("))");
    assert(s@ =~= spec_polygon_cmd(pts@, *style));
    s
}

/// The command for a circle: placed at its top-left bounding corner, the
/// center shifted left and up by the radius on both axes.
pub open spec fn spec_circle_cmd(center: (i32, i32), radius: u32, style: Style, filled: bool) -> Seq<
    char,
> {
    "  #place(dx: "@ + spec_idec(center.0 as int - radius as int) + "pt, dy: "@ + spec_idec(
        center.1 as int - radius as int,
    ) + "pt, circle(radius: "@ + spec_udec(radius as nat) + "pt, "@ + spec_fill_attr(style, filled)
        + ", "@ + spec_stroke_attr(style, filled) + "))"@
}

/// Builds the command for a circle.
pub fn build_circle_cmd(center: (i32, i32), radius: u32, style: &Style, filled: bool) -> (s: String)
    ensures
        s@ == spec_circle_cmd(center, radius, *style, filled),
{
    let mut s = String::new();
    s.append("  #place(dx: ");
    let xs = fmt_i64(center.0 as i64 - radius as i64);
    s.append(xs.as_str());
    s.append("pt, dy: ");
    let ys = fmt_i64(center.1 as i64 - radius as i64);
    s.append(ys.as_str());
    s.append("pt, circle(radius: ");
    let rs = fmt_u64(radius as u64);
    s.append(rs.as_str());
    s.append("pt, ");
    let fa = build_fill_attr(style, filled);
    s.append(fa.as_str());
    s.append(", ");
    let sa = build_stroke_attr(style, filled);
    s.append(sa.as_str());
    s.append("))");
    assert(s@ =~= spec_circle_cmd(center, radius, *style, filled));
    s
}

/// The command lines of a polyline: one segment command per consecutive pair
/// of points, each on its own line, in order. A polyline of fewer than two
/// points emits nothing.
pub open spec fn spec_path_cmds(pts: Seq<(i32, i32)>, style: Style) -> Seq<char>
    decreases pts.len(),
{
    if pts.len() < 2 {
        Seq::empty()
    } else {
        spec_line_cmd(pts[0], pts[1], style) + "\n"@ + spec_path_cmds(pts.drop_first(), style)
    }
}

/// A three-point polyline emits exactly two segment commands: the same two
/// lines, in the same order, that drawing the segment from the first to the
/// second point and then from the second to the third would emit.
pub proof fn lemma_path_of_three_is_two_lines(
    p0: (i32, i32),
    p1: (i32, i32),
    p2: (i32, i32),
    style: Style,
)
    ensures
        spec_path_cmds(seq![p0, p1, p2], style) == spec_line_cmd(p0, p1, style) + "\n"@
            + spec_line_cmd(p1, p2, style) + "\n"@,
{
    let s = seq![p0, p1, p2];
    assert(s.drop_first() =~= seq![p1, p2]);
    assert(seq![p1, p2].drop_first() =~= seq![p2]);
    assert(spec_path_cmds(seq![p2], style) == Seq::<char>::empty());
    assert(spec_path_cmds(seq![p1, p2], style) =~= spec_line_cmd(p1, p2, style) + "\n"@);
    assert(spec_path_cmds(s, style) =~= spec_line_cmd(p0, p1, style) + "\n"@ + spec_line_cmd(
        p1,
        p2,
        style,
    ) + "\n"@);
}

/// The command for an embedded raster image: a data URI holding the base64
/// text of the PNG byte stream, with explicit width and height.
pub open spec fn spec_bitmap_cmd(pos: (i32, i32), w: u32, h: u32, png: Seq<u8>) -> Seq<char> {
    "  #place(dx: "@ + spec_idec(pos.0 as int) + "pt, dy: "@ + spec_idec(pos.1 as int)
        + "pt, image.decode(\"data:image/png;base64,"@ + crate::base64::spec_base64(png)
        + "\", width: "@ + spec_udec(w as nat) + "pt, height: "@ + spec_udec(h as nat) + "pt))"@
}

/// Builds the command for an embedded raster image from its PNG byte stream.
pub fn build_bitmap_cmd(pos: (i32, i32), w: u32, h: u32, png: &Vec<u8>) -> (s: String)
    ensures
        s@ == spec_bitmap_cmd(pos, w, h, png@),
{
    let mut s = String::new();
    s.append("  #place(dx: ");
    let xs = fmt_i64(pos.0 as i64);
    s.append(xs.as_str());
    s.append("pt, dy: ");
    let ys = fmt_i64(pos.1 as i64);
    s.append(ys.as_str());
    s.append("pt, image.decode(\"data:image/png;base64,");
    let b = crate::base64::base64_encode(png);
    s.append(b.as_str());
    s.append("\", width: ");
    let ws = fmt_u64(w as u64);
    s.append(ws.as_str());
    s.append("pt, height: ");
    let hs = fmt_u64(h as u64);
    s.append(hs.as_str());
    s.append("pt))");
    assert(s@ =~= spec_bitmap_cmd(pos, w, h, png@));
    s
}

/// The emitted font size in centi points: the requested integer size divided
/// by the calibration constant 1.24, rounded to the nearest hundredth.
pub open spec fn spec_font_size_centi(size: u32) -> int {
    (20000 * size + 124) / 248
}

/// The concrete font family for a generic family name; any other name passes
/// through unchanged.
pub open spec fn spec_font_family(fam: Seq<char>) -> Seq<char> {
    if fam == "sans-serif"@ {
        "Liberation Sans"@
    } else if fam == "serif"@ {
        "Liberation Serif"@
    } else if fam == "monospace"@ {
        "Liberation Mono"@
    } else {
        fam
    }
}

/// The font weight attribute: bold when requested, regular otherwise.
pub open spec fn spec_font_weight(fs: FontStyleKind) -> Seq<char> {
    match fs {
        FontStyleKind::Bold => "\"bold\""@,
        _ => "\"regular\""@,
    }
}

/// The font slant attribute: italic for italic or oblique, normal otherwise.
pub open spec fn spec_font_slant(fs: FontStyleKind) -> Seq<char> {
    match fs {
        FontStyleKind::Italic => "\"italic\""@,
        FontStyleKind::Oblique => "\"italic\""@,
        _ => "\"normal\""@,
    }
}

/// The top edge of the text box for a vertical anchor.
pub open spec fn spec_top_edge(v: VAlign) -> Seq<char> {
    match v {
        VAlign::Top => "\"bounds\""@,
        VAlign::Center => "\"cap-height\""@,
        VAlign::Bottom => "\"baseline\""@,
    }
}

/// The bottom edge of the text box for a vertical anchor.
pub open spec fn spec_bottom_edge(v: VAlign) -> Seq<char> {
    match v {
        VAlign::Top => "\"bounds\""@,
        VAlign::Center => "\"baseline\""@,
        VAlign::Bottom => "\"baseline\""@,
    }
}

/// The opening of the rotation wrapper, empty when no rotation applies.
pub open spec fn spec_rotation_open(r: Rotation) -> Seq<char> {
    match r {
        Rotation::Deg0 => Seq::empty(),
        Rotation::Deg90 => "rotate(90deg, "@,
        Rotation::Deg180 => "rotate(180deg, "@,
        Rotation::Deg270 => "rotate(270deg, "@,
    }
}

/// The closing of the rotation wrapper, empty when no rotation applies.
pub open spec fn spec_rotation_close(r: Rotation) -> Seq<char> {
    match r {
        Rotation::Deg0 => Seq::empty(),
        _ => ")"@,
    }
}

/// The aligned body of a text element. A left anchor places the escaped text
/// directly; center and right anchors measure the rendered width in context
/// and shift left by half or all of it.
pub open spec fn spec_aligned_text(h: HAlign, esc: Seq<char>) -> Seq<char> {
    match h {
        HAlign::Left => esc,
        HAlign::Right => "#context { let m = measure(["@ + esc + "]); h(-m.width); ["@ + esc
            + "] }"@,
        HAlign::Center => "#context { let m = measure(["@ + esc + "]); h(-m.width / 2); ["@ + esc
            + "] }"@,
    }
}

/// The command for a text element.
pub open spec fn spec_text_cmd(text: Seq<char>, style: TextStyle, pos: (i32, i32)) -> Seq<char> {
    "  #place(dx: "@ + spec_idec(pos.0 as int) + "pt, dy: "@ + spec_idec(pos.1 as int) + "pt, "@
        + spec_rotation_open(style.transform) + "box[#set text(size: "@ + spec_ucenti(
        spec_font_size_centi(style.size) as nat,
    ) + "pt, fill: "@ + spec_color_text(style.color) + ", weight: "@ + spec_font_weight(
        style.font_style,
    ) + ", style: "@ + spec_font_slant(style.font_style) + ", font: \""@ + spec_font_family(
        style.family@,
    ) + "\", top-edge: "@ + spec_top_edge(style.v_pos) + ", bottom-edge: "@ + spec_bottom_edge(
        style.v_pos,
    ) + "); "@ + spec_aligned_text(style.h_pos, spec_escape(text)) + "]"@ + spec_rotation_close(
        style.transform,
    ) + ")"@
}

/// Builds the aligned body of a text element from the escaped text.
fn build_aligned_text(h: HAlign, esc: &String) -> (s: String)
    ensures
        s@ == spec_aligned_text(h, esc@),
{
    let mut s = String::new();
    match h {
        HAlign::Left => {
            s.append(esc.as_str());
            assert(s@ =~= spec_aligned_text(h, esc@));
        },
        HAlign::Right => {
            s.append("#context { let m = measure([");
            s.append(esc.as_str());
            s.append("]); h(-m.width); [");
            s.append(esc.as_str());
            s.append("] }");
            assert(s@ =~= spec_aligned_text(h, esc@));
        },
        HAlign::Center => {
            s.append("#context { let m = measure([");
            s.append(esc.as_str());
            s.append("]); h(-m.width / 2); [");
            s.append(esc.as_str());
            s.append("] }");
            assert(s@ =~= spec_aligned_text(h, esc@));
        },
    }
    s
}

/// Builds the concrete font family name for a family name.
fn build_font_family(fam: &String) -> (s: String)
    ensures
        s@ == spec_font_family(fam@),
{
    let sans: String = String::from_str("sans-serif");
    let serif: String = String::from_str("serif");
    let mono: String = String::from_str("monospace");
    if *fam == sans {
        String::from_str("Liberation Sans")
    } else if *fam == serif {
        String::from_str("Liberation Serif")
    } else if *fam == mono {
        String::from_str("Liberation Mono")
    } else {
        let mut s = String::new();
        s.append(fam.as_str());
        assert(s@ =~= fam@);
        s
    }
}

/// Builds the command for a text element.
pub fn build_text_cmd(text: &str, style: &TextStyle, pos: (i32, i32)) -> (s: String)
    ensures
        s@ == spec_text_cmd(text@, *style, pos),
{
    let esc = escape_text(text);
    let mut s = String::new();
    s.append("  #place(dx: ");
    let xs = fmt_i64(pos.0 as i64);
    s.append(xs.as_str());
    s.append("pt, dy: ");
    let ys = fmt_i64(pos.1 as i64);
    s.append(ys.as_str());
    s.append("pt, ");
    match style.transform {
        Rotation::Deg0 => {},
        Rotation::Deg90 => s.append("rotate(90deg, "),
        Rotation::Deg180 => s.append("rotate(180deg, "),
        Rotation::Deg270 => s.append("rotate(270deg, "),
    }
    s.append("box[#set text(size: ");
    let size_centi: u64 = (20000u64 * style.size as u64 + 124) / 248;
    let ss = fmt_ucenti(size_centi);
    s.append(ss.as_str());
    s.append("pt, fill: ");
    let cs = make_typst_color(style.color);
    s.append(cs.as_str());
    s.append(", weight: ");
    match style.font_style {
        FontStyleKind::Bold => s.append("\"bold\""),
        _ => s.append("\"regular\""),
    }
    s.append(", style: ");
    match style.font_style {
        FontStyleKind::Italic => s.append("\"italic\""),
        FontStyleKind::Oblique => s.append("\"italic\""),
        _ => s.append("\"normal\""),
    }
    s.append(", font: \"");
    let fam = build_font_family(&style.family);
    s.append(fam.as_str());
    s.append("\", top-edge: ");
    match style.v_pos {
        VAlign::Top => s.append("\"bounds\""),
        VAlign::Center => s.append("\"cap-height\""),
        VAlign::Bottom => s.append("\"baseline\""),
    }
    s.append(", bottom-edge: ");
    match style.v_pos {
        VAlign::Top => s.append("\"bounds\""),
        VAlign::Center => s.append("\"baseline\""),
        VAlign::Bottom => s.append("\"baseline\""),
    }
    s.append("); ");
    let aligned = build_aligned_text(style.h_pos, &esc);
    s.append(aligned.as_str());
    s.append("]");
    match style.transform {
        Rotation::Deg0 => {},
        _ => s.append(")"),
    }
    s.append(")");
    assert(s@ =~= spec_text_cmd(text@, *style, pos));
    s
}

} // verus!
