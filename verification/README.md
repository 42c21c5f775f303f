# bevy_modern_pixel_camera

Pixel-art cameras for Bevy: a camera carrying `PixelZoom` is kept at an integer
zoom that fits a virtual resolution inside its window, optionally with a viewport
that shows only that resolution and a UI scaled by the same zoom.

- `src/` is the verified library (Verus): the zoom of each mode
  (`zoom.rs`), the viewport rectangle (`viewport.rs`), the set of render targets
  that changed in a frame (`targets.rs`, over Bevy's hash sets declared in
  `sets.rs`), and the per-camera update decision (`camera.rs`).
- `app/` is the Bevy side: the ECS components, the plugin, and the system that
  reads the world, asks the library what to do, and applies it (including the
  floating-point parts of the viewport computation).
