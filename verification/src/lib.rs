//! Integer-zoom pixel-art camera logic: the zoom that fits a virtual resolution
//! inside a window, the viewport that shows exactly that resolution, and the
//! per-frame decision of which cameras to update.
pub mod camera;
pub mod plugin;
pub mod prelude;
pub mod sets;
pub mod targets;
pub mod viewport;
pub mod zoom;
