use bevy_modern_pixel_camera::targets::{ChangedTargets, ImageAssetEvent, ImageKey, RenderTargetKey};

#[test]
fn new_marks_only_texture_views() {
    let targets = ChangedTargets::new();
    assert!(!targets.is_changed(&RenderTargetKey::Window(1)));
    assert!(!targets.is_changed(&RenderTargetKey::Image(ImageKey::Index(1))));
    assert!(!targets.is_changed(&RenderTargetKey::Image(ImageKey::Uuid(1))));
    assert!(targets.is_changed(&RenderTargetKey::TextureView));
}

#[test]
fn collected_windows_are_changed() {
    let targets = ChangedTargets::collect(&vec![1, 2], &vec![2, 3], &vec![u64::MAX], &vec![]);
    for w in [1, 2, 3, u64::MAX] {
        assert!(targets.is_changed(&RenderTargetKey::Window(w)));
    }
    assert!(!targets.is_changed(&RenderTargetKey::Window(4)));
    assert!(!targets.is_changed(&RenderTargetKey::Image(ImageKey::Index(1))));
}

#[test]
fn only_added_and_modified_images_are_changed() {
    let events = vec![
        ImageAssetEvent::Added(ImageKey::Index(10)),
        ImageAssetEvent::Modified(ImageKey::Uuid(1 << 100)),
        ImageAssetEvent::Removed(ImageKey::Index(11)),
        ImageAssetEvent::Unused(ImageKey::Uuid(5)),
        ImageAssetEvent::LoadedWithDependencies(ImageKey::Index(12)),
        ImageAssetEvent::Modified(ImageKey::Index(13)),
    ];
    let targets = ChangedTargets::collect(&vec![], &vec![], &vec![], &events);
    assert!(targets.is_changed(&RenderTargetKey::Image(ImageKey::Index(10))));
    assert!(targets.is_changed(&RenderTargetKey::Image(ImageKey::Index(13))));
    assert!(targets.is_changed(&RenderTargetKey::Image(ImageKey::Uuid(1 << 100))));
    assert!(!targets.is_changed(&RenderTargetKey::Image(ImageKey::Index(11))));
    assert!(!targets.is_changed(&RenderTargetKey::Image(ImageKey::Uuid(5))));
    assert!(!targets.is_changed(&RenderTargetKey::Image(ImageKey::Index(12))));
    // Index and UUID ids live apart.
    assert!(!targets.is_changed(&RenderTargetKey::Image(ImageKey::Uuid(10))));
    assert!(!targets.is_changed(&RenderTargetKey::Window(10)));
}

#[test]
fn recording_one_at_a_time() {
    let mut targets = ChangedTargets::new();
    targets.record_window(7);
    targets.record_image_event(ImageAssetEvent::Added(ImageKey::Uuid(9)));
    targets.record_image_event(ImageAssetEvent::Removed(ImageKey::Uuid(8)));
    targets.record_windows(&vec![5, 5]);
    assert!(targets.is_changed(&RenderTargetKey::Window(7)));
    assert!(targets.is_changed(&RenderTargetKey::Window(5)));
    assert!(targets.is_changed(&RenderTargetKey::Image(ImageKey::Uuid(9))));
    assert!(!targets.is_changed(&RenderTargetKey::Image(ImageKey::Uuid(8))));
}
