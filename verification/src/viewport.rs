//! The viewport of a pixel camera: the part of the render target that shows the
//! resolution its `PixelZoom` fits.
use crate::zoom::PixelZoom;
use vstd::prelude::*;

verus! {

/// One fitted axis of the viewport, measured in physical pixels by the caller:
/// the length of the fitted resolution at the camera's zoom, and the margin that
/// the render target leaves around it.
#[derive(Debug, Clone, Copy, PartialEq, Eq, Structural)]
pub struct AxisSpan {
    pub length: u32,
    pub margin: u32,
}

/// A viewport in physical pixels: its position inside the render target and
/// its size.
#[derive(Debug, Clone, Copy, PartialEq, Eq, Structural)]
pub struct ViewportRect {
    pub x: u32,
    pub y: u32,
    pub width: u32,
    pub height: u32,
}

/// The resolution width and height that `mode` fits, where it fits one.
pub open spec fn spec_fitted_axes(mode: PixelZoom) -> (Option<i32>, Option<i32>) {
    match mode {
        PixelZoom::FitSize { width, height } => (Some(width), Some(height)),
        PixelZoom::FitWidth(width) => (Some(width), None),
        PixelZoom::FitHeight(height) => (None, Some(height)),
        PixelZoom::Fixed(_) => (None, None),
    }
}

/// Offset and length of one axis of the viewport: a fitted axis is centred in
/// its margin and clipped to the render target; an axis that is not fitted
/// covers the whole render target.
pub open spec fn spec_viewport_axis(physical: u32, span: Option<AxisSpan>) -> (u32, u32) {
    match span {
        Some(span) => (
            span.margin / 2,
            if span.length <= physical {
                span.length
            } else {
                physical
            },
        ),
        None => (0, physical),
    }
}

impl PixelZoom {
    /// The resolution width and height that this mode fits, where it fits one.
    pub fn fitted_axes(&self) -> (axes: (Option<i32>, Option<i32>))
        ensures
            axes == spec_fitted_axes(*self),
            match *self {
                PixelZoom::FitSize { width, height } => axes.0 == Some(width) && axes.1 == Some(
                    height,
                ),
                PixelZoom::FitWidth(width) => axes.0 == Some(width) && axes.1 is None,
                PixelZoom::FitHeight(height) => axes.0 is None && axes.1 == Some(height),
                PixelZoom::Fixed(_) => axes.0 is None && axes.1 is None,
            },
    {
        match self {
            PixelZoom::FitSize { width, height } => (Some(*width), Some(*height)),
            PixelZoom::FitWidth(width) => (Some(*width), None),
            PixelZoom::FitHeight(height) => (None, Some(*height)),
            PixelZoom::Fixed(..) => (None, None),
        }
    }
}

/// Offset and length of one axis of the viewport.
pub fn viewport_axis(physical: u32, span: Option<AxisSpan>) -> (axis: (u32, u32))
    ensures
        axis == spec_viewport_axis(physical, span),
        axis.1 <= physical,
        match span {
            Some(span) => {
                &&& axis.0 as int == span.margin as int / 2
                &&& span.length <= physical ==> axis.1 == span.length
                &&& span.length > physical ==> axis.1 == physical
            },
            None => axis.0 == 0 && axis.1 == physical,
        },
{
    match span {
        Some(span) => {
            let length = if span.length > physical {
                physical
            } else {
                span.length
            };
            (span.margin / 2, length)
        },
        None => (0, physical),
    }
}

/// The viewport of a camera in `mode` on a render target of the given physical
/// size. `width_span` and `height_span` are read only on the axes that `mode`
/// fits.
pub fn pixel_viewport_rect(
    mode: &PixelZoom,
    physical_width: u32,
    physical_height: u32,
    width_span: AxisSpan,
    height_span: AxisSpan,
) -> (rect: ViewportRect)
    ensures
        (rect.x, rect.width) == spec_viewport_axis(
            physical_width,
            if spec_fitted_axes(*mode).0 is Some {
                Some(width_span)
            } else {
                None
            },
        ),
        (rect.y, rect.height) == spec_viewport_axis(
            physical_height,
            if spec_fitted_axes(*mode).1 is Some {
                Some(height_span)
            } else {
                None
            },
        ),
        rect.width <= physical_width,
        rect.height <= physical_height,
        if *mode is FitSize || *mode is FitWidth {
            &&& rect.x as int == width_span.margin as int / 2
            &&& width_span.length <= physical_width ==> rect.width == width_span.length
            &&& width_span.length > physical_width ==> rect.width == physical_width
        } else {
            rect.x == 0 && rect.width == physical_width
        },
        if *mode is FitSize || *mode is FitHeight {
            &&& rect.y as int == height_span.margin as int / 2
            &&& height_span.length <= physical_height ==> rect.height == height_span.length
            &&& height_span.length > physical_height ==> rect.height == physical_height
        } else {
            rect.y == 0 && rect.height == physical_height
        },
{
    let (fit_width, fit_height) = mode.fitted_axes();
    let width_axis = if fit_width.is_some() {
        Some(width_span)
    } else {
        None
    };
    let height_axis = if fit_height.is_some() {
        Some(height_span)
    } else {
        None
    };
    let (x, width) = viewport_axis(physical_width, width_axis);
    let (y, height) = viewport_axis(physical_height, height_axis);
    ViewportRect { x, y, width, height }
}

} // verus!
