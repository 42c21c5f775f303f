use bevy_modern_pixel_camera::viewport::{pixel_viewport_rect, viewport_axis, AxisSpan, ViewportRect};
use bevy_modern_pixel_camera::zoom::PixelZoom;

#[test]
fn fitted_axes_follow_the_mode() {
    assert_eq!(PixelZoom::FitSize { width: 320, height: 180 }.fitted_axes(), (Some(320), Some(180)));
    assert_eq!(PixelZoom::FitWidth(320).fitted_axes(), (Some(320), None));
    assert_eq!(PixelZoom::FitHeight(180).fitted_axes(), (None, Some(180)));
    assert_eq!(PixelZoom::Fixed(2).fitted_axes(), (None, None));
}

#[test]
fn axis_is_centred_and_clipped() {
    assert_eq!(viewport_axis(1000, Some(AxisSpan { length: 960, margin: 40 })), (20, 960));
    assert_eq!(viewport_axis(1000, Some(AxisSpan { length: 960, margin: 41 })), (20, 960));
    assert_eq!(viewport_axis(1000, Some(AxisSpan { length: 1200, margin: 0 })), (0, 1000));
    assert_eq!(viewport_axis(1000, None), (0, 1000));
}

#[test]
fn fit_size_viewport() {
    let rect = pixel_viewport_rect(
        &PixelZoom::FitSize { width: 320, height: 180 },
        1300,
        740,
        AxisSpan { length: 1280, margin: 20 },
        AxisSpan { length: 720, margin: 20 },
    );
    assert_eq!(rect, ViewportRect { x: 10, y: 10, width: 1280, height: 720 });
}

#[test]
fn unfitted_axes_cover_the_target() {
    let span = AxisSpan { length: 5, margin: 7 };
    let rect = pixel_viewport_rect(&PixelZoom::FitWidth(320), 1000, 800, AxisSpan { length: 960, margin: 40 }, span);
    assert_eq!(rect, ViewportRect { x: 20, y: 0, width: 960, height: 800 });
    let rect = pixel_viewport_rect(&PixelZoom::FitHeight(180), 1000, 800, span, AxisSpan { length: 720, margin: 80 });
    assert_eq!(rect, ViewportRect { x: 0, y: 40, width: 1000, height: 720 });
    let rect = pixel_viewport_rect(&PixelZoom::Fixed(3), 1000, 800, span, span);
    assert_eq!(rect, ViewportRect { x: 0, y: 0, width: 1000, height: 800 });
}

#[test]
fn viewport_never_exceeds_the_target() {
    let big = AxisSpan { length: u32::MAX, margin: u32::MAX };
    let rect = pixel_viewport_rect(&PixelZoom::FitSize { width: 1, height: 1 }, 640, 480, big, big);
    assert_eq!(rect, ViewportRect { x: u32::MAX / 2, y: u32::MAX / 2, width: 640, height: 480 });
}
