use bevy_modern_pixel_camera::camera::{
    plan_camera_update, CameraState, CameraUpdate, LogicalSize, PhysicalSize,
};
use bevy_modern_pixel_camera::targets::{ChangedTargets, RenderTargetKey};
use bevy_modern_pixel_camera::zoom::PixelZoom;

fn camera(target: RenderTargetKey) -> CameraState {
    CameraState {
        target: Some(target),
        added: false,
        projection_changed: false,
        orthographic: true,
        logical_size: Some(LogicalSize { width: 1280, height: 720 }),
        physical_size: Some(PhysicalSize { width: 2560, height: 1440 }),
        pixel_viewport: false,
        ui_scaling: false,
    }
}

const MODE: PixelZoom = PixelZoom::FitSize { width: 320, height: 180 };

#[test]
fn unchanged_camera_is_left_alone() {
    let changed = ChangedTargets::collect(&vec![1], &vec![], &vec![], &vec![]);
    assert_eq!(plan_camera_update(&MODE, &camera(RenderTargetKey::Window(2)), &changed), None);
}

#[test]
fn changed_window_updates_zoom() {
    let changed = ChangedTargets::collect(&vec![], &vec![2], &vec![], &vec![]);
    assert_eq!(
        plan_camera_update(&MODE, &camera(RenderTargetKey::Window(2)), &changed),
        Some(CameraUpdate { zoom: 4, viewport: None, ui_zoom: None })
    );
}

#[test]
fn added_or_reprojected_camera_updates() {
    let changed = ChangedTargets::new();
    let mut cam = camera(RenderTargetKey::Window(2));
    cam.added = true;
    assert!(plan_camera_update(&MODE, &cam, &changed).is_some());
    cam.added = false;
    cam.projection_changed = true;
    assert!(plan_camera_update(&MODE, &cam, &changed).is_some());
}

#[test]
fn texture_view_always_updates() {
    let changed = ChangedTargets::new();
    assert!(plan_camera_update(&MODE, &camera(RenderTargetKey::TextureView), &changed).is_some());
}

#[test]
fn missing_target_size_or_perspective_skips() {
    let changed = ChangedTargets::new();
    let mut cam = camera(RenderTargetKey::TextureView);
    cam.target = None;
    assert_eq!(plan_camera_update(&MODE, &cam, &changed), None);
    let mut cam = camera(RenderTargetKey::TextureView);
    cam.logical_size = None;
    assert_eq!(plan_camera_update(&MODE, &cam, &changed), None);
    let mut cam = camera(RenderTargetKey::TextureView);
    cam.orthographic = false;
    assert_eq!(plan_camera_update(&MODE, &cam, &changed), None);
}

#[test]
fn viewport_and_ui_scaling() {
    let changed = ChangedTargets::new();
    let mut cam = camera(RenderTargetKey::TextureView);
    cam.pixel_viewport = true;
    cam.ui_scaling = true;
    assert_eq!(
        plan_camera_update(&MODE, &cam, &changed),
        Some(CameraUpdate {
            zoom: 4,
            viewport: Some(PhysicalSize { width: 2560, height: 1440 }),
            ui_zoom: Some(4)
        })
    );
    // Without a physical size the system stops after the projection.
    cam.physical_size = None;
    assert_eq!(
        plan_camera_update(&MODE, &cam, &changed),
        Some(CameraUpdate { zoom: 4, viewport: None, ui_zoom: None })
    );
    // Without a pixel viewport the physical size does not matter.
    cam.pixel_viewport = false;
    assert_eq!(
        plan_camera_update(&MODE, &cam, &changed),
        Some(CameraUpdate { zoom: 4, viewport: None, ui_zoom: Some(4) })
    );
}
