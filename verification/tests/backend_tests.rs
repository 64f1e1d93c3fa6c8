use plotters_typst::{
    Color, FontStyleKind, HAlign, Rotation, Style, TextStyle, TypstBackend, VAlign,
};

fn text_style(h: HAlign, v: VAlign) -> TextStyle {
    TextStyle {
        color: Color::rgb(0, 0, 0),
        size: 20,
        family: "sans-serif".to_string(),
        font_style: FontStyleKind::Normal,
        transform: Rotation::Deg0,
        h_pos: h,
        v_pos: v,
    }
}

fn solid(r: u8, g: u8, b: u8) -> Style {
    Style { color: Color::rgb(r, g, b), stroke_width: 1 }
}

#[test]
fn test_text_alignments() {
    let mut backend = TypstBackend::with_string(String::new(), (500, 500));

    let style = text_style(HAlign::Right, VAlign::Top);
    backend.draw_text("right-align", &style, (150, 50));

    let style = text_style(HAlign::Center, VAlign::Top);
    backend.draw_text("center-align", &style, (150, 150));

    let style = text_style(HAlign::Left, VAlign::Top);
    backend.draw_text("left-align", &style, (150, 200));

    let content = backend.buffer();
    assert!(!content.is_empty());
    assert!(content.contains("right-align"));
    assert!(content.contains("center-align"));
    assert!(content.contains("left-align"));
    // Right and center aligned text will have measure() calls
    assert!(content.contains("measure("));
}

#[test]
fn test_text_clipping() {
    let (width, height) = (500_i32, 500_i32);
    let mut backend = TypstBackend::with_string(String::new(), (width as u32, height as u32));

    let style = text_style(HAlign::Center, VAlign::Center);
    backend.draw_text("TOP LEFT", &style, (0, 0));
    backend.draw_text("TOP CENTER", &style, (width / 2, 0));
    backend.draw_text("TOP RIGHT", &style, (width, 0));

    backend.draw_text("MIDDLE LEFT", &style, (0, height / 2));
    backend.draw_text("MIDDLE RIGHT", &style, (width, height / 2));

    backend.draw_text("BOTTOM LEFT", &style, (0, height));
    backend.draw_text("BOTTOM CENTER", &style, (width / 2, height));
    backend.draw_text("BOTTOM RIGHT", &style, (width, height));

    let content = backend.buffer();
    assert!(!content.is_empty());
}

#[test]
fn test_draw_pixel_alphas() {
    let (width, height) = (100_i32, 100_i32);
    let mut backend = TypstBackend::with_string(String::new(), (width as u32, height as u32));
    backend.draw_rect((0, 0), (width, height), &solid(255, 255, 255), true);

    for i in -20..20 {
        let alpha = i as f64 * 0.1;
        let pct = if alpha <= 0.0 { 0u32 } else { (alpha * 100.0) as u32 };
        let color = Color { r: 0, g: 0, b: 0, alpha_pct: pct };
        backend.draw_pixel((50 + i, 50 + i), color);
    }

    let content = backend.buffer();
    assert!(!content.is_empty());
}

#[test]
fn test_simple_drawing() {
    let mut backend = TypstBackend::with_string(String::new(), (500, 500));

    // Draw a simple rectangle
    backend.draw_rect((10, 10), (100, 100), &solid(255, 0, 0), true);
    backend.present();

    let content = backend.buffer();
    assert!(!content.is_empty());
    assert!(content.contains("rect"));
    assert!(content.contains("rgb(255, 0, 0)"));
}

#[test]
fn test_draw_line() {
    let mut backend = TypstBackend::with_string(String::new(), (300, 300));

    backend.draw_line((10, 10), (100, 100), &solid(0, 255, 0));
    backend.present();

    let content = backend.buffer();
    assert!(!content.is_empty());
    assert!(content.contains("line"));
    assert!(content.contains("rgb(0, 255, 0)"));
}

#[test]
fn test_draw_circle() {
    let mut backend = TypstBackend::with_string(String::new(), (300, 300));

    // Filled circle
    backend.draw_circle((150, 150), 50, &solid(0, 0, 255), true);
    backend.present();

    let content = backend.buffer();
    assert!(!content.is_empty());
    assert!(content.contains("circle"));
    assert!(content.contains("rgb(0, 0, 255)"));
}

#[test]
fn test_draw_polygon() {
    let mut backend = TypstBackend::with_string(String::new(), (300, 300));

    let points = vec![(50, 50), (100, 50), (75, 100)];
    backend.fill_polygon(&points, &solid(255, 128, 0));
    backend.present();

    let content = backend.buffer();
    assert!(!content.is_empty());
    assert!(content.contains("polygon"));
    assert!(content.contains("rgb(255, 128, 0)"));
}
