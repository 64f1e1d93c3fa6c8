use plotters_typst::{
    base64_encode, escape_text, make_typst_color, BitmapError, Color, FontStyleKind, HAlign,
    Rotation, Style, TextStyle, TypstBackend, VAlign,
};

fn solid(r: u8, g: u8, b: u8) -> Style {
    Style { color: Color::rgb(r, g, b), stroke_width: 1 }
}

fn plain_text_style(family: &str) -> TextStyle {
    TextStyle {
        color: Color::rgb(0, 0, 0),
        size: 20,
        family: family.to_string(),
        font_style: FontStyleKind::Normal,
        transform: Rotation::Deg0,
        h_pos: HAlign::Left,
        v_pos: VAlign::Top,
    }
}

/// Extracts the numeric field after `key` and before `suffix` from the first
/// line of `content` that holds it.
fn extract_number(content: &str, key: &str, suffix: &str) -> f64 {
    let start = content.find(key).expect("key not found") + key.len();
    let rest = &content[start..];
    let end = rest.find(suffix).expect("suffix not found");
    rest[..end].parse::<f64>().expect("not a number")
}

#[test]
fn transparent_draws_leave_output_unchanged() {
    let mut with_transparent = TypstBackend::with_string(String::new(), (200, 200));
    let mut without = TypstBackend::with_string(String::new(), (200, 200));

    let clear = Color { r: 10, g: 20, b: 30, alpha_pct: 0 };
    let clear_style = Style { color: clear, stroke_width: 2 };
    let clear_text = TextStyle {
        color: clear,
        size: 12,
        family: "serif".to_string(),
        font_style: FontStyleKind::Bold,
        transform: Rotation::Deg90,
        h_pos: HAlign::Center,
        v_pos: VAlign::Bottom,
    };

    for backend in [&mut with_transparent, &mut without] {
        backend.draw_rect((5, 5), (50, 50), &solid(1, 2, 3), true);
    }
    with_transparent.draw_pixel((7, 7), clear);
    with_transparent.draw_line((0, 0), (10, 10), &clear_style);
    with_transparent.draw_rect((0, 0), (10, 10), &clear_style, false);
    with_transparent.draw_path(&vec![(0, 0), (5, 5), (9, 1)], &clear_style);
    with_transparent.fill_polygon(&vec![(0, 0), (5, 5), (9, 1)], &clear_style);
    with_transparent.draw_circle((20, 20), 5, &clear_style, true);
    with_transparent.draw_text("ghost", &clear_text, (50, 50));
    for backend in [&mut with_transparent, &mut without] {
        backend.draw_line((60, 60), (80, 90), &solid(4, 5, 6));
        backend.present();
    }

    assert_eq!(with_transparent.buffer(), without.buffer());
}

#[test]
fn reversed_line_keeps_length_and_turns_half_circle() {
    let mut forward = TypstBackend::with_string(String::new(), (300, 300));
    forward.draw_line((10, 10), (100, 100), &solid(0, 0, 0));
    let mut backward = TypstBackend::with_string(String::new(), (300, 300));
    backward.draw_line((100, 100), (10, 10), &solid(0, 0, 0));

    let fwd = forward.buffer();
    let bwd = backward.buffer();
    let len_f = extract_number(fwd, "length: ", "pt");
    let len_b = extract_number(bwd, "length: ", "pt");
    let ang_f = extract_number(fwd, "angle: ", "deg");
    let ang_b = extract_number(bwd, "angle: ", "deg");
    assert_eq!(len_f, len_b);
    assert_eq!((ang_f - ang_b).abs(), 180.0);
}

#[test]
fn empty_polygon_emits_nothing() {
    let mut backend = TypstBackend::with_string(String::new(), (100, 100));
    let before = backend.buffer().clone();
    backend.fill_polygon(&vec![], &solid(1, 2, 3));
    assert_eq!(backend.buffer(), &before);
}

#[test]
fn path_of_three_points_equals_two_line_calls() {
    let (p0, p1, p2) = ((10, 10), (50, 20), (30, 90));
    let style = solid(7, 8, 9);

    let mut as_path = TypstBackend::with_string(String::new(), (100, 100));
    as_path.draw_path(&vec![p0, p1, p2], &style);
    let mut as_lines = TypstBackend::with_string(String::new(), (100, 100));
    as_lines.draw_line(p0, p1, &style);
    as_lines.draw_line(p1, p2, &style);

    assert_eq!(as_path.buffer(), as_lines.buffer());
    assert_eq!(as_path.buffer().matches("line(").count(), 2);
}

#[test]
fn specials_are_escaped() {
    assert_eq!(escape_text("\\"), "\\\\");
    assert_eq!(escape_text("\""), "\\\"");
    assert_eq!(escape_text("#"), "\\#");
    assert_eq!(escape_text("$"), "\\$");
    assert_eq!(escape_text("a#b$c\"d\\e"), "a\\#b\\$c\\\"d\\\\e");

    let mut backend = TypstBackend::with_string(String::new(), (100, 100));
    backend.draw_text("price: $5 #tag \"q\" a\\b", &plain_text_style("serif"), (10, 10));
    let content = backend.buffer();
    assert!(content.contains("price: \\$5 \\#tag \\\"q\\\" a\\\\b"));
    // the emitted markup itself never uses `$`, so every `$` in the output
    // comes from the text and must stand behind a backslash
    let chars: Vec<char> = content.chars().collect();
    for (i, c) in chars.iter().enumerate() {
        if *c == '$' {
            assert!(i >= 1 && chars[i - 1] == '\\', "unescaped special at {}", i);
        }
    }
}

#[test]
fn finalize_is_idempotent() {
    let mut once = TypstBackend::with_string(String::new(), (100, 100));
    once.draw_rect((1, 1), (2, 2), &solid(0, 0, 0), true);
    let mut twice = TypstBackend::with_string(String::new(), (100, 100));
    twice.draw_rect((1, 1), (2, 2), &solid(0, 0, 0), true);

    once.present();
    twice.present();
    twice.present();

    assert_eq!(once.buffer(), twice.buffer());
    assert_eq!(twice.buffer().lines().filter(|l| *l == "]").count(), 1);
}

#[test]
fn filled_rect_scenario() {
    let mut backend = TypstBackend::with_string(String::new(), (500, 500));
    backend.draw_rect((10, 10), (100, 100), &solid(255, 0, 0), true);
    backend.present();

    let content = backend.buffer();
    assert!(content.contains("rect"));
    assert!(content.contains("rgb(255, 0, 0)"));
    assert_eq!(content.lines().filter(|l| l.starts_with("#box(")).count(), 1);
    assert_eq!(content.lines().filter(|l| *l == "]").count(), 1);
}

#[test]
fn line_scenario_length_and_angle() {
    let mut backend = TypstBackend::with_string(String::new(), (300, 300));
    backend.draw_line((10, 10), (100, 100), &solid(0, 255, 0));

    let content = backend.buffer();
    assert!(content.contains("line"));
    assert!(content.contains("rgb(0, 255, 0)"));
    let length = extract_number(content, "length: ", "pt");
    let angle = extract_number(content, "angle: ", "deg");
    assert!((length - 127.28).abs() <= 0.01);
    assert!((angle - 45.0).abs() <= 0.01);
}

#[test]
fn circle_scenario_position_is_center_minus_radius() {
    let mut backend = TypstBackend::with_string(String::new(), (300, 300));
    backend.draw_circle((150, 150), 50, &solid(0, 0, 255), true);

    let content = backend.buffer();
    assert!(content.contains("circle"));
    assert!(content.contains("rgb(0, 0, 255)"));
    assert!(content.contains("dx: 100pt, dy: 100pt"));
}

#[test]
fn diagonal_line_geometry() {
    let mut backend = TypstBackend::with_string(String::new(), (300, 300));
    backend.draw_line((0, 0), (100, 50), &solid(0, 0, 0));
    let content = backend.buffer();
    let length = extract_number(content, "length: ", "pt");
    let angle = extract_number(content, "angle: ", "deg");
    // sqrt(100^2 + 50^2) = 111.8034, atan2(50, 100) = 26.5651 degrees
    assert!((length - 111.80).abs() <= 0.01);
    assert!((angle - 26.565).abs() <= 0.05);

    let mut backend = TypstBackend::with_string(String::new(), (300, 300));
    backend.draw_line((0, 0), (-100, 50), &solid(0, 0, 0));
    let angle = extract_number(backend.buffer(), "angle: ", "deg");
    assert!((angle - 153.435).abs() <= 0.05);
}

#[test]
fn base64_three_byte_group() {
    assert_eq!(base64_encode(&vec![0x4D, 0x61, 0x6E]), "TWFu");
}

#[test]
fn base64_padding() {
    assert_eq!(base64_encode(&vec![]), "");
    assert_eq!(base64_encode(&vec![0x4D]), "TQ==");
    assert_eq!(base64_encode(&vec![0x4D, 0x61]), "TWE=");
    assert_eq!(base64_encode(&vec![0xFF, 0xFF, 0xFF, 0xFF]), "/////w==");
}

#[test]
fn number_formatting() {
    assert_eq!(plotters_typst::numfmt::fmt_u64(0), "0");
    assert_eq!(plotters_typst::numfmt::fmt_u64(12345), "12345");
    assert_eq!(plotters_typst::numfmt::fmt_i64(-42), "-42");
    assert_eq!(plotters_typst::numfmt::fmt_ucenti(4500), "45");
    assert_eq!(plotters_typst::numfmt::fmt_ucenti(12728), "127.28");
    assert_eq!(plotters_typst::numfmt::fmt_ucenti(350), "3.5");
    assert_eq!(plotters_typst::numfmt::fmt_ucenti(5), "0.05");
    assert_eq!(plotters_typst::numfmt::fmt_icenti(-1350), "-13.5");
}

#[test]
fn color_serialization() {
    assert_eq!(make_typst_color(Color::rgb(1, 2, 3)), "rgb(1, 2, 3)");
    assert_eq!(
        make_typst_color(Color { r: 1, g: 2, b: 3, alpha_pct: 50 }),
        "rgb(1, 2, 3, 50%)"
    );
    assert_eq!(
        make_typst_color(Color { r: 255, g: 128, b: 0, alpha_pct: 100 }),
        "rgb(255, 128, 0)"
    );
}

#[test]
fn pixel_command_text() {
    let mut backend = TypstBackend::with_string(String::new(), (20, 20));
    backend.draw_pixel((3, 4), Color::rgb(9, 8, 7));
    let content = backend.buffer();
    assert!(content.contains(
        "  #place(dx: 3pt, dy: 4pt, rect(width: 1pt, height: 1pt, fill: rgb(9, 8, 7), stroke: none))\n"
    ));
}

#[test]
fn open_command_and_buffer_prefix() {
    let backend = TypstBackend::with_string(String::new(), (500, 400));
    assert!(backend.buffer().starts_with("#box(width: 500pt, height: 400pt, clip: true)[\n"));

    let seeded = TypstBackend::with_string("seed".to_string(), (10, 10));
    assert!(seeded.buffer().starts_with("seed#box(width: 10pt, height: 10pt, clip: true)[\n"));
}

#[test]
fn file_backed_canvas_keeps_path() {
    let mut backend = TypstBackend::new("out.typ".to_string(), (10, 20));
    assert_eq!(backend.get_size(), (10, 20));
    assert_eq!(backend.path().map(|p| p.as_str()), Some("out.typ"));
    assert!(!backend.is_saved());
    backend.present();
    assert!(backend.is_saved());

    let buffered = TypstBackend::with_string(String::new(), (10, 20));
    assert!(buffered.path().is_none());
}

#[test]
fn draws_after_finalize_are_rejected() {
    let mut backend = TypstBackend::with_string(String::new(), (50, 50));
    backend.present();
    let closed = backend.buffer().clone();
    backend.draw_rect((1, 1), (5, 5), &solid(1, 1, 1), true);
    backend.draw_text("late", &plain_text_style("serif"), (2, 2));
    assert_eq!(backend.buffer(), &closed);
    assert!(backend.buffer().ends_with("]\n"));
}

#[test]
fn unfilled_shapes_carry_stroke() {
    let mut backend = TypstBackend::with_string(String::new(), (100, 100));
    let style = Style { color: Color::rgb(10, 20, 30), stroke_width: 3 };
    backend.draw_rect((0, 0), (10, 10), &style, false);
    backend.draw_circle((50, 50), 10, &style, false);
    let content = backend.buffer();
    assert_eq!(content.matches("fill: none").count(), 2);
    assert_eq!(content.matches("stroke: 3pt + rgb(10, 20, 30)").count(), 2);
}

#[test]
fn zero_length_line() {
    let mut backend = TypstBackend::with_string(String::new(), (100, 100));
    backend.draw_line((5, 5), (5, 5), &solid(0, 0, 0));
    let content = backend.buffer();
    assert!(content.contains("length: 0pt, angle: 0deg"));
}

#[test]
fn text_styling_and_anchors() {
    let mut backend = TypstBackend::with_string(String::new(), (200, 200));
    backend.draw_text("plain", &plain_text_style("sans-serif"), (10, 10));
    let mut style = plain_text_style("monospace");
    style.font_style = FontStyleKind::Bold;
    style.v_pos = VAlign::Center;
    backend.draw_text("bold", &style, (10, 30));
    let mut style = plain_text_style("Comic Sans");
    style.font_style = FontStyleKind::Oblique;
    style.transform = Rotation::Deg90;
    style.v_pos = VAlign::Bottom;
    backend.draw_text("slanted", &style, (10, 50));

    let content = backend.buffer();
    assert!(content.contains("font: \"Liberation Sans\""));
    assert!(content.contains("font: \"Liberation Mono\""));
    assert!(content.contains("font: \"Comic Sans\""));
    assert!(content.contains("size: 16.13pt"));
    assert!(content.contains("weight: \"regular\", style: \"normal\""));
    assert!(content.contains("weight: \"bold\", style: \"normal\""));
    assert!(content.contains("weight: \"regular\", style: \"italic\""));
    assert!(content.contains("top-edge: \"bounds\", bottom-edge: \"bounds\""));
    assert!(content.contains("top-edge: \"cap-height\", bottom-edge: \"baseline\""));
    assert!(content.contains("top-edge: \"baseline\", bottom-edge: \"baseline\""));
    assert!(content.contains("rotate(90deg, "));
}

#[test]
fn bitmap_rejects_wrong_buffer_size() {
    let mut backend = TypstBackend::with_string(String::new(), (100, 100));
    let before = backend.buffer().clone();
    let r = backend.blit_bitmap((0, 0), (2, 2), &vec![1, 2, 3]);
    assert_eq!(r, Err(BitmapError::InvalidDimensions));
    assert_eq!(backend.buffer(), &before);
}

#[test]
fn bitmap_with_zero_dimension_fails_encoding() {
    let mut backend = TypstBackend::with_string(String::new(), (100, 100));
    let before = backend.buffer().clone();
    let r = backend.blit_bitmap((0, 0), (0, 5), &vec![]);
    assert_eq!(r, Err(BitmapError::Encoding));
    let r = backend.blit_bitmap((0, 0), (0, 0), &vec![]);
    assert_eq!(r, Err(BitmapError::Encoding));
    assert_eq!(backend.buffer(), &before);
}

#[test]
fn bitmap_embeds_png_data_uri() {
    let mut backend = TypstBackend::with_string(String::new(), (100, 100));
    let pixels = vec![255, 0, 0, 0, 255, 0, 0, 0, 255, 9, 9, 9];
    let r = backend.blit_bitmap((7, 8), (2, 2), &pixels);
    assert_eq!(r, Ok(()));
    let content = backend.buffer();
    // every PNG byte stream starts with the fixed signature, whose base64
    // text begins with iVBORw
    assert!(content.contains("image.decode(\"data:image/png;base64,iVBORw"));
    assert!(content.contains("dx: 7pt, dy: 8pt"));
    assert!(content.contains("width: 2pt, height: 2pt))"));
}
