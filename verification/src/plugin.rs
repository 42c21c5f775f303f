//! The plugin that runs the pixel camera system.
use vstd::prelude::*;

verus! {

/// Provides the camera system: each frame, every camera carrying a `PixelZoom`
/// is updated as `plan_camera_update` decides.
#[derive(Debug, Clone, Copy, PartialEq, Eq, Structural)]
pub struct PixelCameraPlugin;

} // verus!
