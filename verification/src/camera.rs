//! What the camera system does to one camera in one frame: whether it updates
//! the camera, with which zoom, and whether it also sets the viewport and the
//! UI scale.
use crate::targets::{
    changed_image, changed_image_indices, changed_image_uuids, ChangedSets, ChangedTargets, ImageAssetEvent, ImageKey,
    RenderTargetKey,
};
use crate::zoom::{auto_zoom, spec_auto_zoom, PixelZoom};
use vstd::prelude::*;

verus! {

/// The logical size of a render target, in whole logical pixels.
#[derive(Debug, Clone, Copy, PartialEq, Eq, Structural)]
pub struct LogicalSize {
    pub width: i32,
    pub height: i32,
}

/// The physical size of a render target, in physical pixels.
#[derive(Debug, Clone, Copy, PartialEq, Eq, Structural)]
pub struct PhysicalSize {
    pub width: u32,
    pub height: u32,
}

/// What the camera system reads of one camera.
#[derive(Debug, Clone, Copy, PartialEq, Eq, Structural)]
pub struct CameraState {
    /// The camera's render target, where it resolves to one.
    pub target: Option<RenderTargetKey>,
    /// The camera was added since the system last ran.
    pub added: bool,
    /// The camera's projection changed since the system last ran.
    pub projection_changed: bool,
    /// The camera's projection is orthographic.
    pub orthographic: bool,
    /// The logical size of the render target in whole logical pixels, where known.
    pub logical_size: Option<LogicalSize>,
    /// The physical size of the render target, where known.
    pub physical_size: Option<PhysicalSize>,
    /// The camera carries `PixelViewport`.
    pub pixel_viewport: bool,
    /// The camera carries `WithUiScaling`.
    pub ui_scaling: bool,
}

/// What the camera system applies to one camera.
#[derive(Debug, Clone, Copy, PartialEq, Eq, Structural)]
pub struct CameraUpdate {
    /// The projection's scale becomes `1 / zoom`.
    pub zoom: i32,
    /// Where present, the viewport is set for a render target of this physical
    /// size.
    pub viewport: Option<PhysicalSize>,
    /// Where present, the UI scale becomes this zoom.
    pub ui_zoom: Option<i32>,
}

/// Whether the camera system touches the camera at all.
pub open spec fn spec_updates(camera: CameraState, changed: ChangedSets) -> bool {
    &&& camera.target is Some
    &&& (changed.marks(camera.target.unwrap()) || camera.added || camera.projection_changed)
    &&& camera.logical_size is Some
    &&& camera.orthographic
}

/// The zoom that the camera system applies to the camera.
pub open spec fn spec_update_zoom(mode: PixelZoom, camera: CameraState) -> int {
    spec_auto_zoom(mode, camera.logical_size.unwrap().width as int, camera.logical_size.unwrap().height as int)
}

/// Whether the system stops after setting the projection: the camera wants a
/// pixel viewport but its physical size is unknown.
pub open spec fn spec_stops_at_projection(camera: CameraState) -> bool {
    camera.pixel_viewport && camera.physical_size is None
}

/// Decides what the camera system does to a camera in `mode` in this frame,
/// given the render targets that changed.
///
/// Nothing happens unless the camera's target resolves, and the target changed
/// or the camera was added or its projection changed, and the logical size is
/// known, and the projection is orthographic. Then the zoom is that of
/// `auto_zoom`; unless the camera wants a pixel viewport whose physical size is
/// unknown, the viewport (for a `PixelViewport` camera) and the UI scale (for a
/// `WithUiScaling` camera) follow.
pub fn plan_camera_update(mode: &PixelZoom, camera: &CameraState, changed: &ChangedTargets) -> (plan:
    Option<CameraUpdate>)
    ensures
        plan is Some <==> spec_updates(*camera, changed@),
        plan matches Some(update) ==> {
            &&& update.zoom == spec_update_zoom(*mode, *camera)
            &&& update.viewport == (if camera.pixel_viewport {
                camera.physical_size
            } else {
                None
            })
            &&& update.ui_zoom == (if camera.ui_scaling && !spec_stops_at_projection(*camera) {
                Some(update.zoom)
            } else {
                None
            })
        },
        plan is Some <==> {
            &&& camera.target is Some
            &&& camera.logical_size is Some
            &&& camera.orthographic
            &&& camera.added || camera.projection_changed || match camera.target.unwrap() {
                RenderTargetKey::Window(window) => changed@.windows.contains(window),
                RenderTargetKey::Image(ImageKey::Index(index)) => changed@.image_indices.contains(
                    index,
                ),
                RenderTargetKey::Image(ImageKey::Uuid(uuid)) => changed@.image_uuids.contains(uuid),
                RenderTargetKey::TextureView => true,
            }
        },
        plan matches Some(update) ==> {
            let logical_width = camera.logical_size.unwrap().width as int;
            let logical_height = camera.logical_size.unwrap().height as int;
            match *mode {
                PixelZoom::Fixed(fixed) => update.zoom == fixed,
                PixelZoom::FitWidth(width) => {
                    let t: int = if width >= 1 { width as int } else { 1 };
                    &&& update.zoom >= 1
                    &&& t <= logical_width ==> update.zoom * t <= logical_width && (update.zoom + 1)
                        * t > logical_width
                    &&& t > logical_width ==> update.zoom == 1
                },
                PixelZoom::FitHeight(height) => {
                    let t: int = if height >= 1 { height as int } else { 1 };
                    &&& update.zoom >= 1
                    &&& t <= logical_height ==> update.zoom * t <= logical_height && (update.zoom
                        + 1) * t > logical_height
                    &&& t > logical_height ==> update.zoom == 1
                },
                PixelZoom::FitSize { width, height } => {
                    let tw: int = if width >= 1 { width as int } else { 1 };
                    let th: int = if height >= 1 { height as int } else { 1 };
                    &&& update.zoom >= 1
                    &&& (tw <= logical_width && th <= logical_height) ==> {
                        &&& update.zoom * tw <= logical_width
                        &&& update.zoom * th <= logical_height
                        &&& ((update.zoom + 1) * tw > logical_width || (update.zoom + 1) * th
                            > logical_height)
                    }
                    &&& !(tw <= logical_width && th <= logical_height) ==> update.zoom == 1
                },
            }
        },
        plan matches Some(update) ==> {
            &&& camera.pixel_viewport ==> update.viewport == camera.physical_size
            &&& !camera.pixel_viewport ==> update.viewport is None
            &&& !camera.ui_scaling ==> update.ui_zoom is None
            &&& (camera.ui_scaling && !camera.pixel_viewport) ==> update.ui_zoom == Some(
                update.zoom,
            )
            &&& (camera.ui_scaling && camera.pixel_viewport && camera.physical_size is Some)
                ==> update.ui_zoom == Some(update.zoom)
            &&& (camera.pixel_viewport && camera.physical_size is None) ==> update.ui_zoom is None
        },
{
    let target = match &camera.target {
        Some(target) => target,
        None => return None,
    };
    if !(changed.is_changed(target) || camera.added || camera.projection_changed) {
        return None;
    }
    let logical = match camera.logical_size {
        Some(size) => size,
        None => return None,
    };
    let zoom = auto_zoom(mode, logical.width, logical.height);
    if !camera.orthographic {
        return None;
    }
    if camera.pixel_viewport {
        match camera.physical_size {
            Some(size) => {
                let ui_zoom = if camera.ui_scaling {
                    Some(zoom)
                } else {
                    None
                };
                Some(CameraUpdate { zoom, viewport: Some(size), ui_zoom })
            },
            None => Some(CameraUpdate { zoom, viewport: None, ui_zoom: None }),
        }
    } else {
        let ui_zoom = if camera.ui_scaling {
            Some(zoom)
        } else {
            None
        };
        Some(CameraUpdate { zoom, viewport: None, ui_zoom })
    }
}

/// A camera that renders to a window, whose logical size is known and whose
/// projection is orthographic, is updated in a frame exactly when that window
/// was created, resized or rescaled in the frame, or the camera was added, or
/// its projection changed. `changes` holds what `ChangedTargets::collect` makes
/// of the frame's window events.
pub proof fn lemma_window_camera_updates_on_window_change(
    changes: ChangedSets,
    created: Seq<u64>,
    resized: Seq<u64>,
    rescaled: Seq<u64>,
    camera: CameraState,
    window: u64,
)
    requires
        changes.windows == created.to_set() + resized.to_set() + rescaled.to_set(),
        camera.target == Some(RenderTargetKey::Window(window)),
        camera.logical_size is Some,
        camera.orthographic,
    ensures
        spec_updates(camera, changes) <==> (created.contains(window) || resized.contains(window)
            || rescaled.contains(window) || camera.added || camera.projection_changed),
{
}

/// A camera that renders to an image, whose logical size is known and whose
/// projection is orthographic, is updated in a frame exactly when an event of
/// the frame added or modified that image, or the camera was added, or its
/// projection changed; removals and other events of the image do not count.
/// `changes` holds what `ChangedTargets::collect` makes of the frame's image
/// events.
pub proof fn lemma_image_camera_updates_on_image_change(
    changes: ChangedSets,
    events: Seq<ImageAssetEvent>,
    camera: CameraState,
    image: ImageKey,
)
    requires
        changes.image_indices == changed_image_indices(events),
        changes.image_uuids == changed_image_uuids(events),
        camera.target == Some(RenderTargetKey::Image(image)),
        camera.logical_size is Some,
        camera.orthographic,
    ensures
        spec_updates(camera, changes) <==> ((exists|j: int|
            0 <= j < events.len() && (#[trigger] events[j] == ImageAssetEvent::Added(image)
                || events[j] == ImageAssetEvent::Modified(image))) || camera.added
            || camera.projection_changed),
{
    assert forall|j: int| 0 <= j < events.len() implies
        (changed_image(#[trigger] events[j]) == Some(image)
            <==> (events[j] == ImageAssetEvent::Added(image) || events[j] == ImageAssetEvent::Modified(image))) by {}
    match image {
        ImageKey::Index(index) => {
            if changes.image_indices.contains(index) {
                let j = choose|j: int|
                    0 <= j < events.len() && #[trigger] changed_image(events[j]) == Some(
                        ImageKey::Index(index),
                    );
                assert(events[j] == ImageAssetEvent::Added(image) || events[j] == ImageAssetEvent::Modified(image));
            }
            if exists|j: int|
                0 <= j < events.len() && (#[trigger] events[j] == ImageAssetEvent::Added(image)
                    || events[j] == ImageAssetEvent::Modified(image)) {
                let j = choose|j: int|
                    0 <= j < events.len() && (#[trigger] events[j] == ImageAssetEvent::Added(image)
                        || events[j] == ImageAssetEvent::Modified(image));
                assert(changed_image(events[j]) == Some(ImageKey::Index(index)));
                assert(changes.image_indices.contains(index));
            }
        },
        ImageKey::Uuid(uuid) => {
            if changes.image_uuids.contains(uuid) {
                let j = choose|j: int|
                    0 <= j < events.len() && #[trigger] changed_image(events[j]) == Some(
                        ImageKey::Uuid(uuid),
                    );
                assert(events[j] == ImageAssetEvent::Added(image) || events[j] == ImageAssetEvent::Modified(image));
            }
            if exists|j: int|
                0 <= j < events.len() && (#[trigger] events[j] == ImageAssetEvent::Added(image)
                    || events[j] == ImageAssetEvent::Modified(image)) {
                let j = choose|j: int|
                    0 <= j < events.len() && (#[trigger] events[j] == ImageAssetEvent::Added(image)
                        || events[j] == ImageAssetEvent::Modified(image));
                assert(changed_image(events[j]) == Some(ImageKey::Uuid(uuid)));
                assert(changes.image_uuids.contains(uuid));
            }
        },
    }
}

} // verus!
