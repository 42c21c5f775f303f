//! The items that most users of the crate need.
pub use crate::plugin::PixelCameraPlugin;
pub use crate::zoom::{PixelViewport, PixelZoom, WithUiScaling};
