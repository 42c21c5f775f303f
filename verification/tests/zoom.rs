use bevy_modern_pixel_camera::prelude::{PixelCameraPlugin, PixelViewport, PixelZoom, WithUiScaling};
use bevy_modern_pixel_camera::zoom::auto_zoom;

#[test]
fn fit_size_picks_the_smaller_axis() {
    let mode = PixelZoom::FitSize { width: 320, height: 180 };
    assert_eq!(auto_zoom(&mode, 1280, 720), 4);
    assert_eq!(auto_zoom(&mode, 1280, 700), 3);
    assert_eq!(auto_zoom(&mode, 1000, 720), 3);
    assert_eq!(auto_zoom(&mode, 1920, 1080), 6);
}

#[test]
fn fit_width_and_height_use_one_axis() {
    assert_eq!(auto_zoom(&PixelZoom::FitWidth(320), 1280, 10), 4);
    assert_eq!(auto_zoom(&PixelZoom::FitHeight(180), 10, 1080), 6);
    assert_eq!(auto_zoom(&PixelZoom::FitHeight(180), 10, 1079), 5);
}

#[test]
fn fit_modes_never_zoom_below_one() {
    assert_eq!(auto_zoom(&PixelZoom::FitWidth(320), 100, 100), 1);
    assert_eq!(auto_zoom(&PixelZoom::FitSize { width: 320, height: 180 }, 0, 0), 1);
    assert_eq!(auto_zoom(&PixelZoom::FitHeight(180), 0, -500), 1);
}

#[test]
fn targets_below_one_count_as_one() {
    assert_eq!(auto_zoom(&PixelZoom::FitWidth(0), 640, 480), 640);
    assert_eq!(auto_zoom(&PixelZoom::FitSize { width: -5, height: 0 }, 640, 480), 480);
}

#[test]
fn division_rounds_toward_zero_for_negative_sizes() {
    assert_eq!(auto_zoom(&PixelZoom::FitWidth(3), -7, 0), 1);
    assert_eq!(auto_zoom(&PixelZoom::FitWidth(1), i32::MIN, 0), 1);
}

#[test]
fn fixed_zoom_is_returned_unchanged() {
    assert_eq!(auto_zoom(&PixelZoom::Fixed(3), 1280, 720), 3);
    assert_eq!(auto_zoom(&PixelZoom::Fixed(0), 1280, 720), 0);
    assert_eq!(auto_zoom(&PixelZoom::Fixed(-2), 1, 1), -2);
}

#[test]
fn zoom_is_largest_that_fits() {
    // At the chosen zoom the resolution fits; one step more does not.
    let (w, h) = (320, 180);
    let mode = PixelZoom::FitSize { width: w, height: h };
    for (lw, lh) in [(1280, 720), (1366, 768), (2560, 1080), (321, 900)] {
        let z = auto_zoom(&mode, lw, lh);
        assert!(z * w <= lw && z * h <= lh);
        assert!((z + 1) * w > lw || (z + 1) * h > lh);
    }
}

#[test]
fn marker_types_compare_equal() {
    assert_eq!(PixelViewport, PixelViewport.clone());
    assert_eq!(WithUiScaling, WithUiScaling.clone());
    assert_eq!(PixelCameraPlugin, PixelCameraPlugin.clone());
    assert_ne!(PixelZoom::FitWidth(1), PixelZoom::FitHeight(1));
}
