//! The capture service against a simulated platform: a fixed list of
//! displays and encoded images that stand for what the platform captured.

use image::{DynamicImage, GenericImageView};
use lightweight_screenshot_app::{
    CaptureArea, CaptureService, Fixed, Pos2, Rect, ScreenDescriptor, Vec2,
};

fn displays() -> Vec<ScreenDescriptor> {
    vec![
        ScreenDescriptor { id: 1, x: 0, y: 0, width: 320, height: 200 },
        ScreenDescriptor { id: 2, x: 320, y: 0, width: 640, height: 480 },
    ]
}

fn captured(display: &ScreenDescriptor) -> Vec<u8> {
    let image = DynamicImage::new_rgb8(display.width, display.height);
    let mut bytes = Vec::new();
    image
        .write_to(&mut std::io::Cursor::new(&mut bytes), image::ImageOutputFormat::Png)
        .unwrap();
    bytes
}

#[test]
fn test_capture_service_real_environment() {
    match CaptureService::new(displays()) {
        Ok(service) => {
            let screens = service.get_screens();
            assert!(!screens.is_empty(), "Should have at least one screen");

            let primary = service.get_primary_screen();
            assert!(primary.is_ok(), "Should be able to get primary screen");

            let desktop_bounds = service.get_desktop_bounds();
            assert!(desktop_bounds.width().raw > 0, "Desktop should have positive width");
            assert!(desktop_bounds.height().raw > 0, "Desktop should have positive height");

            println!("Found {} screen(s)", screens.len());
        }
        Err(e) => {
            panic!("no service for two displays: {}", e.message());
        }
    }
}

#[test]
fn test_capture_primary_screen_real() {
    let service = CaptureService::new(displays()).unwrap();
    let primary = service.get_primary_screen().unwrap().index;
    let bytes = captured(&displays()[primary]);
    match service.capture_primary_screen(Some(&bytes[..])) {
        Ok(image) => {
            assert!(image.width() > 0, "Captured image should have positive width");
            assert!(image.height() > 0, "Captured image should have positive height");
            assert_eq!(image.dimensions(), (320, 200));
        }
        Err(e) => {
            panic!("Failed to capture primary screen: {}", e.message());
        }
    }
}

#[test]
fn test_capture_area_real() {
    let service = CaptureService::new(displays()).unwrap();
    if let Ok(primary) = service.get_primary_screen() {
        // Create a small capture area in the top-left corner
        let capture_bounds = Rect::from_min_size(
            Pos2::new(Fixed::from_int(0), Fixed::from_int(0)),
            Vec2::new(Fixed::from_int(100), Fixed::from_int(100)),
        );

        let capture_area = CaptureArea::new(capture_bounds, primary.index);
        let bytes = captured(&displays()[primary.index]);

        match service.capture_area(&capture_area, Some(&bytes[..])) {
            Ok(image) => {
                assert_eq!(image.width(), 100, "Captured area should be 100 pixels wide");
                assert_eq!(image.height(), 100, "Captured area should be 100 pixels tall");
            }
            Err(e) => {
                panic!("Failed to capture area: {}", e.message());
            }
        }
    } else {
        panic!("no primary screen");
    }
}

#[test]
fn test_multi_screen_detection() {
    let service = CaptureService::new(displays()).unwrap();
    let screens = service.get_screens();
    assert!(screens.len() > 1);

    // Verify each screen has valid bounds
    for screen in &screens {
        assert!(
            screen.bounds.width().raw > 0,
            "Screen {} should have positive width",
            screen.index
        );
        assert!(
            screen.bounds.height().raw > 0,
            "Screen {} should have positive height",
            screen.index
        );
    }

    // Test desktop bounds span all screens
    let desktop_bounds = service.get_desktop_bounds();
    let area = |r: &Rect| r.width().raw as i128 * r.height().raw as i128;
    let desktop_area = area(&desktop_bounds);

    // Desktop area should be at least as large as the largest single screen
    let max_screen_area = screens.iter().map(|s| area(&s.bounds)).fold(0i128, i128::max);

    assert!(
        desktop_area >= max_screen_area,
        "Desktop bounds should encompass at least the largest screen"
    );
    assert_eq!(desktop_bounds.size(), Vec2::new(Fixed::from_int(960), Fixed::from_int(480)));
}
