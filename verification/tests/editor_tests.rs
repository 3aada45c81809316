use image::{DynamicImage, GenericImageView, Rgba};
use lightweight_screenshot_app::annotation::selection_handles;
use lightweight_screenshot_app::{AnnotationItem, EditorApp, Fixed, Pos2, Rect, Tool, Vec2};

fn fx(n: i64) -> Fixed {
    Fixed::from_int(n)
}

fn pos(x: i64, y: i64) -> Pos2 {
    Pos2::new(fx(x), fx(y))
}

fn vec2(x: i64, y: i64) -> Vec2 {
    Vec2::new(fx(x), fx(y))
}

fn canvas() -> Rect {
    Rect::from_min_size(pos(200, 30), vec2(800, 600))
}

#[test]
fn test_editor_app_creation() {
    let app = EditorApp::new();
    assert!(app.source_image().is_none());
    assert!(app.annotations().is_empty());
    assert_eq!(app.current_tool(), &Tool::Select);
    assert_eq!(app.zoom_level(), Fixed::one());
    assert_eq!(app.pan_offset(), Vec2::zero());
    assert!(!app.should_close());
    assert!(!app.is_panning());
    assert!(app.last_mouse_pos().is_none());
}

#[test]
fn test_editor_app_default() {
    let app = EditorApp::default();
    assert!(app.source_image().is_none());
    assert_eq!(app.current_tool(), &Tool::Select);
    assert_eq!(app.zoom_level(), Fixed::one());
    assert_eq!(app.pan_offset(), Vec2::zero());
}

#[test]
fn test_tool_management() {
    let mut app = EditorApp::new();

    // Test initial tool
    assert_eq!(app.current_tool(), &Tool::Select);

    // Test setting tools
    app.set_tool(Tool::Rectangle);
    assert_eq!(app.current_tool(), &Tool::Rectangle);

    app.set_tool(Tool::Text);
    assert_eq!(app.current_tool(), &Tool::Text);
}

#[test]
fn test_close_functionality() {
    let mut app = EditorApp::new();

    // Initially should not close
    assert!(!app.should_close());

    // Request close
    app.request_close();
    assert!(app.should_close());
}

#[test]
fn test_load_image() {
    let mut app = EditorApp::new();

    // Create a test image
    let test_image = DynamicImage::new_rgb8(100, 100);

    // Load the image
    let result = app.load_image(test_image);
    assert!(result.is_ok());
    assert!(app.source_image().is_some());
    assert_eq!(app.source_image().unwrap().dimensions(), (100, 100));

    // Check that view state is reset
    assert_eq!(app.zoom_level(), Fixed::one());
    assert_eq!(app.pan_offset(), Vec2::zero());
}

#[test]
fn test_load_test_image() {
    let mut app = EditorApp::new();

    // Load test image
    let result = app.load_test_image();
    assert!(result.is_ok());
    assert!(app.source_image().is_some());

    // Verify the test image has expected dimensions
    if let Some(image) = app.source_image() {
        assert_eq!(image.width(), 400);
        assert_eq!(image.height(), 300);
    }
}

#[test]
fn test_load_test_image_is_the_gradient() {
    let mut app = EditorApp::new();
    app.set_zoom(fx(3));
    app.load_test_image().unwrap();
    assert_eq!(app.zoom_level(), Fixed::one());
    let image = app.source_image().unwrap();
    assert!(matches!(image, DynamicImage::ImageRgb8(_)));
    assert_eq!(image.get_pixel(0, 0), Rgba([0, 0, 0, 255]));
    assert_eq!(image.get_pixel(200, 150), Rgba([127, 127, 127, 255]));
    assert_eq!(image.get_pixel(399, 0), Rgba([254, 0, 145, 255]));
    assert_eq!(image.get_pixel(0, 299), Rgba([0, 254, 108, 255]));
    assert_eq!(image.get_pixel(399, 299), Rgba([254, 254, 254, 255]));
    assert_eq!(image.get_pixel(80, 20), Rgba([51, 17, 36, 255]));
    for y in 0..300u32 {
        for x in 0..400u32 {
            let expected = Rgba([
                (x as f32 / 400.0 * 255.0) as u8,
                (y as f32 / 300.0 * 255.0) as u8,
                ((x + y) as f32 / 700.0 * 255.0) as u8,
                255,
            ]);
            assert_eq!(image.get_pixel(x, y), expected);
        }
    }
}

#[test]
fn test_zoom_and_pan_state() {
    let mut app = EditorApp::new();

    // Test initial state
    assert_eq!(app.zoom_level(), Fixed::one());
    assert_eq!(app.pan_offset(), Vec2::zero());

    // Modify zoom and pan (simulating user interaction)
    app.set_zoom(fx(2));
    app.set_pan_offset(vec2(10, 20));
    assert_eq!(app.zoom_level(), fx(2));
    assert_eq!(app.pan_offset(), vec2(10, 20));

    // Load new image should reset view state
    let test_image = DynamicImage::new_rgb8(100, 100);
    let result = app.load_image(test_image);
    assert!(result.is_ok());
    assert_eq!(app.zoom_level(), Fixed::one());
    assert_eq!(app.pan_offset(), Vec2::zero());
}

#[test]
fn test_zoom_steps_and_limits() {
    let mut app = EditorApp::new();
    app.zoom_in();
    // 1 * 6/5, with 6/5 rounded down to 78643 / 65536.
    assert_eq!(app.zoom_level().raw, 78643);
    app.zoom_out();
    assert_eq!(app.zoom_level().raw, 65536);
    app.zoom_out();
    assert_eq!(app.zoom_level().raw, 65536 * 65536 / 78643);

    for _ in 0..40 {
        app.zoom_in();
    }
    assert_eq!(app.zoom_level(), fx(10));
    for _ in 0..60 {
        app.zoom_out();
    }
    assert_eq!(app.zoom_level(), Fixed::from_ratio(1, 10));

    app.set_zoom(fx(11));
    assert_eq!(app.zoom_level(), fx(10));
    app.set_zoom(fx(0));
    assert_eq!(app.zoom_level(), Fixed::from_ratio(1, 10));
    app.set_zoom(Fixed::from_ratio(5, 2));
    assert_eq!(app.zoom_level(), Fixed::from_ratio(5, 2));
    app.set_pan_offset(vec2(3, 4));
    app.actual_size();
    assert_eq!(app.zoom_level(), Fixed::one());
    assert_eq!(app.pan_offset(), vec2(3, 4));
    app.set_zoom(fx(2));
    app.reset_view();
    assert_eq!(app.zoom_level(), Fixed::one());
    assert_eq!(app.pan_offset(), Vec2::zero());
}

#[test]
fn test_fit_to_screen() {
    let mut app = EditorApp::new();
    app.set_pan_offset(vec2(5, 5));
    app.fit_to_screen(vec2(1600, 900));
    assert_eq!(app.zoom_level(), Fixed::from_ratio(1, 2));
    assert_eq!(app.pan_offset(), Vec2::zero());

    app.fit_to_screen(vec2(1000, 2400));
    assert_eq!(app.zoom_level(), Fixed::from_ratio(1, 4));

    // A small image is not zoomed in.
    app.fit_to_screen(vec2(400, 300));
    assert_eq!(app.zoom_level(), Fixed::one());

    // An image without extent counts as fitting.
    app.fit_to_screen(vec2(0, 1200));
    assert_eq!(app.zoom_level(), Fixed::from_ratio(1, 2));
    app.fit_to_screen(vec2(0, 0));
    assert_eq!(app.zoom_level(), Fixed::one());
}

#[test]
fn test_scroll_zoom() {
    let mut app = EditorApp::new();
    app.set_pan_offset(vec2(7, 9));
    app.scroll_zoom(fx(0), Some(vec2(100, 100)));
    assert_eq!(app.zoom_level(), Fixed::one());
    assert_eq!(app.pan_offset(), vec2(7, 9));

    // A turn of 1000 doubles the zoom, up to the rounding of 1/1000.
    let thousandth = Fixed::from_ratio(1, 1000);
    assert_eq!(thousandth.raw, 65);
    app.scroll_zoom(fx(1000), None);
    assert_eq!(app.zoom_level().raw, 65536 + 65000);
    assert_eq!(app.pan_offset(), vec2(7, 9));

    // Zooming towards the pointer moves the pan away from it.
    let mut app = EditorApp::new();
    app.scroll_zoom(fx(1000), Some(vec2(100, -50)));
    let zoom = app.zoom_level();
    assert_eq!(zoom.raw, 130536);
    let change = zoom.divided_by(Fixed::one()).minus(Fixed::one());
    assert_eq!(change.raw, 65000);
    assert_eq!(app.pan_offset().x.raw, -(100 * 65000));
    assert_eq!(app.pan_offset().y.raw, 50 * 65000);

    app.scroll_zoom(fx(1_000_000), None);
    assert_eq!(app.zoom_level(), fx(10));
    app.scroll_zoom(fx(-1_000_000), None);
    assert_eq!(app.zoom_level(), Fixed::from_ratio(1, 10));
}

#[test]
fn test_constrain_pan_offset() {
    let mut app = EditorApp::new();
    app.set_zoom(fx(2));
    let image = Some(vec2(400, 300));

    // The displayed image is 800 by 600: the pan may go from -750 to 750
    // and from -550 to 550.
    assert_eq!(app.constrain_pan_offset(vec2(10, -20), canvas(), image), vec2(10, -20));
    assert_eq!(app.constrain_pan_offset(vec2(900, 0), canvas(), image), vec2(750, 0));
    assert_eq!(app.constrain_pan_offset(vec2(-900, 0), canvas(), image), vec2(-750, 0));
    assert_eq!(app.constrain_pan_offset(vec2(0, 551), canvas(), image), vec2(0, 550));
    assert_eq!(app.constrain_pan_offset(vec2(0, -551), canvas(), image), vec2(0, -550));
    assert_eq!(app.constrain_pan_offset(vec2(9000, -9000), canvas(), None), vec2(9000, -9000));

    // A tiny image on a tiny canvas cannot be panned at all.
    let tiny = Rect::from_min_size(pos(0, 0), vec2(40, 40));
    assert_eq!(app.constrain_pan_offset(vec2(5, -5), tiny, Some(vec2(10, 10))), vec2(0, 0));

    app.drag_pan(vec2(700, 0), canvas(), image);
    assert_eq!(app.pan_offset(), vec2(700, 0));
    app.drag_pan(vec2(700, -10), canvas(), image);
    assert_eq!(app.pan_offset(), vec2(750, -10));
    app.drag_pan(vec2(1, 1), canvas(), None);
    assert_eq!(app.pan_offset(), vec2(751, -9));
}

#[test]
fn test_image_rect_and_visible_part() {
    let mut app = EditorApp::new();
    // Centered: (800 - 400) / 2 and (600 - 300) / 2 from the corner of the canvas.
    assert_eq!(
        app.image_rect(canvas(), vec2(400, 300)),
        Rect::from_min_size(pos(400, 180), vec2(400, 300))
    );
    assert_eq!(
        app.visible_image(canvas(), vec2(400, 300)),
        Some((
            Rect::from_min_size(pos(400, 180), vec2(400, 300)),
            Rect::from_min_max(pos(0, 0), pos(1, 1))
        ))
    );

    app.set_zoom(fx(4));
    app.set_pan_offset(vec2(100, 0));
    // 1600 by 1200, centered on the canvas and moved 100 to the right.
    let placed = Rect::from_min_size(pos(200 - 400 + 100, 30 - 300), vec2(1600, 1200));
    assert_eq!(app.image_rect(canvas(), vec2(400, 300)), placed);
    let (visible, fraction) = app.visible_image(canvas(), vec2(400, 300)).unwrap();
    assert_eq!(visible, Rect::from_min_max(pos(200, 30), pos(1000, 630)));
    assert_eq!(fraction.min, Pos2::new(Fixed::from_ratio(300, 1600), Fixed::from_ratio(300, 1200)));
    assert_eq!(fraction.max, Pos2::new(Fixed::from_ratio(1100, 1600), Fixed::from_ratio(900, 1200)));

    // Panned off the canvas nothing shows.
    app.set_zoom(Fixed::one());
    app.set_pan_offset(vec2(2000, 0));
    assert_eq!(app.visible_image(canvas(), vec2(400, 300)), None);
}

#[test]
fn test_info_overlay() {
    let mut app = EditorApp::new();
    assert_eq!(app.info_overlay(), None);
    app.set_zoom(Fixed::from_ratio(5, 2));
    assert_eq!(app.info_overlay(), Some((250, None)));
    app.set_pan_offset(Vec2::new(Fixed::from_ratio(21, 2), Fixed::from_ratio(-23, 2)));
    assert_eq!(app.info_overlay(), Some((250, Some((10, -12)))));
    app.set_zoom(Fixed::one());
    assert_eq!(app.info_overlay(), Some((100, Some((10, -12)))));
    app.set_pan_offset(Vec2::new(Fixed::from_ratio(-1, 4), Fixed::from_ratio(3, 4)));
    assert_eq!(app.info_overlay(), Some((100, Some((0, 1)))));
}

#[test]
fn test_fixed_rounding_and_division() {
    assert_eq!(Fixed::from_ratio(1, 2).rounded(), 0);
    assert_eq!(Fixed::from_ratio(3, 2).rounded(), 2);
    assert_eq!(Fixed::from_ratio(5, 2).rounded(), 2);
    assert_eq!(Fixed::from_ratio(-1, 2).rounded(), 0);
    assert_eq!(Fixed::from_ratio(-3, 2).rounded(), -2);
    assert_eq!(Fixed::from_ratio(-5, 2).rounded(), -2);
    assert_eq!(Fixed::from_raw(32769).rounded(), 1);
    assert_eq!(Fixed::from_raw(-32769).rounded(), -1);
    assert_eq!(fx(7).rounded(), 7);
    assert_eq!(Fixed::from_raw(i64::MAX).rounded(), 1 << 47);
    assert_eq!(Fixed::from_raw(i64::MIN).rounded(), -(1 << 47));

    assert_eq!(fx(800).divided_by(fx(1600)), Fixed::from_ratio(1, 2));
    assert_eq!(fx(1).divided_by(fx(3)).raw, 21845);
    assert_eq!(fx(-1).divided_by(fx(3)).raw, -21846);
    assert_eq!(fx(1).divided_by(fx(-3)).raw, -21846);
    assert_eq!(fx(-1).divided_by(fx(-3)).raw, 21845);
    assert_eq!(Fixed::from_raw(i64::MAX).divided_by(Fixed::from_raw(1)).raw, i64::MAX);
    assert_eq!(Fixed::from_raw(i64::MIN).divided_by(Fixed::from_raw(1)).raw, i64::MIN);
    assert_eq!(Fixed::from_raw(i64::MIN).divided_by(Fixed::from_raw(-1)).raw, i64::MAX);
    assert_eq!(fx(5).negated(), fx(-5));
    assert_eq!(Fixed::from_raw(i64::MIN).negated().raw, i64::MAX);
    assert_eq!(fx(5).clamped(fx(0), fx(3)), fx(3));
    assert_eq!(fx(-5).clamped(fx(0), fx(3)), fx(0));
    assert_eq!(fx(2).clamped(fx(0), fx(3)), fx(2));
    assert_eq!(fx(2).clamped(fx(4), fx(3)), fx(4));
}

#[test]
fn test_annotation_drawing_geometry() {
    let image_rect = Rect::from_min_size(pos(400, 180), vec2(800, 600));
    let zoom = fx(2);

    let rectangle = AnnotationItem::new_rectangle(pos(10, 20), vec2(50, 30));
    assert_eq!(rectangle.drawn_position(image_rect, zoom), pos(420, 220));
    assert_eq!(
        rectangle.drawn_rect(image_rect, zoom),
        Some(Rect::from_min_size(pos(420, 220), vec2(100, 60)))
    );
    assert_eq!(rectangle.drawn_font_size(zoom), None);

    let text = AnnotationItem::new_text(pos(15, 25), "Test Text".to_string());
    assert_eq!(text.drawn_position(image_rect, zoom), pos(430, 230));
    assert_eq!(text.drawn_rect(image_rect, zoom), None);
    assert_eq!(text.drawn_font_size(zoom), Some(fx(28)));

    let handles = selection_handles(Rect::from_min_max(pos(10, 20), pos(110, 80)));
    assert_eq!(
        handles,
        vec![
            Rect::from_min_max(pos(7, 17), pos(13, 23)),
            Rect::from_min_max(pos(107, 17), pos(113, 23)),
            Rect::from_min_max(pos(107, 77), pos(113, 83)),
            Rect::from_min_max(pos(7, 77), pos(13, 83)),
        ]
    );
}
