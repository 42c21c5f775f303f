//! The zoom modes of a pixel camera and the integer zoom that each picks for a
//! logical target size.
use vstd::prelude::*;

verus! {

/// Configure a camera to use integer scaling and automatically match a
/// specified resolution.
///
/// When this component is present, the camera system keeps the scale of the
/// camera's orthographic projection at `1 / zoom`.
#[derive(Debug, Clone, Copy, PartialEq, Eq, Structural)]
pub enum PixelZoom {
    /// Manually specify the camera zoom, i.e. the number of screen pixels
    /// (logical pixels) used to display one virtual pixel (world unit).
    Fixed(i32),
    /// Automatically set the camera zoom to fit the specified resolution inside
    /// the window.
    FitSize { width: i32, height: i32 },
    /// Automatically set the camera zoom to fit the specified width inside the
    /// window.
    FitWidth(i32),
    /// Automatically set the camera zoom to fit the specified height inside the
    /// window.
    FitHeight(i32),
}

/// Marks a camera whose UI is scaled by the same zoom as its pixels, so that
/// the UI fits the resolution chosen by its `PixelZoom`.
#[derive(Debug, Clone, Copy, PartialEq, Eq, Structural)]
pub struct WithUiScaling;

/// Marks a camera whose viewport is set so that only the pixels inside the
/// resolution chosen by its `PixelZoom` are displayed.
#[derive(Debug, Clone, Copy, PartialEq, Eq, Structural)]
pub struct PixelViewport;

/// Integer division rounding toward zero, as Rust's `/` on signed integers.
pub open spec fn trunc_div(a: int, b: int) -> int {
    if a >= 0 {
        a / b
    } else {
        -((-a) / b)
    }
}

/// A target length as the zoom uses it: lengths below 1 count as 1.
pub open spec fn effective_target(target: int) -> int {
    if target >= 1 {
        target
    } else {
        1
    }
}

/// How many times the target length fits in the logical length.
pub open spec fn fit_count(logical: int, target: int) -> int {
    trunc_div(logical, effective_target(target))
}

/// `x`, raised to 1 where it is smaller.
pub open spec fn at_least_one(x: int) -> int {
    if x >= 1 {
        x
    } else {
        1
    }
}

/// The smaller of two integers.
pub open spec fn smaller(x: int, y: int) -> int {
    if x <= y {
        x
    } else {
        y
    }
}

/// The zoom that `mode` picks for a window of the given logical size.
pub open spec fn spec_auto_zoom(mode: PixelZoom, logical_width: int, logical_height: int) -> int {
    match mode {
        PixelZoom::FitSize { width, height } => at_least_one(
            smaller(fit_count(logical_width, width as int), fit_count(logical_height, height as int)),
        ),
        PixelZoom::FitWidth(width) => at_least_one(fit_count(logical_width, width as int)),
        PixelZoom::FitHeight(height) => at_least_one(fit_count(logical_height, height as int)),
        PixelZoom::Fixed(zoom) => zoom as int,
    }
}

/// Whether the resolution that `mode` fits, magnified `k` times, fits inside the
/// logical size. A fixed zoom fits nothing, so any magnification "fits".
pub open spec fn fits_at(mode: PixelZoom, logical_width: int, logical_height: int, k: int) -> bool {
    match mode {
        PixelZoom::FitSize { width, height } => k * effective_target(width as int) <= logical_width
            && k * effective_target(height as int) <= logical_height,
        PixelZoom::FitWidth(width) => k * effective_target(width as int) <= logical_width,
        PixelZoom::FitHeight(height) => k * effective_target(height as int) <= logical_height,
        PixelZoom::Fixed(_) => true,
    }
}

/// How many times `target` (at least 1) fits in `logical`, rounding toward zero.
fn fit_axis(logical: i32, target: i32) -> (n: i32)
    ensures
        n == fit_count(logical as int, target as int),
{
    let t = if target >= 1 {
        target
    } else {
        1
    };
    logical / t
}

/// The zoom of a camera in `mode` whose render target has the given logical
/// size (in whole logical pixels).
///
/// A fitting mode picks the largest zoom at which its resolution still fits,
/// and never less than 1; a fixed mode returns its zoom unchanged.
pub fn auto_zoom(mode: &PixelZoom, logical_width: i32, logical_height: i32) -> (zoom: i32)
    ensures
        zoom == spec_auto_zoom(*mode, logical_width as int, logical_height as int),
        !(*mode is Fixed) ==> zoom >= 1,
        match *mode {
            PixelZoom::Fixed(fixed) => zoom == fixed,
            PixelZoom::FitWidth(width) => {
                let t: int = if width >= 1 { width as int } else { 1 };
                &&& zoom >= 1
                &&& t <= logical_width ==> zoom * t <= logical_width && (zoom + 1) * t > logical_width
                &&& t > logical_width ==> zoom == 1
            },
            PixelZoom::FitHeight(height) => {
                let t: int = if height >= 1 { height as int } else { 1 };
                &&& zoom >= 1
                &&& t <= logical_height ==> zoom * t <= logical_height && (zoom + 1) * t
                    > logical_height
                &&& t > logical_height ==> zoom == 1
            },
            PixelZoom::FitSize { width, height } => {
                let tw: int = if width >= 1 { width as int } else { 1 };
                let th: int = if height >= 1 { height as int } else { 1 };
                &&& zoom >= 1
                &&& (tw <= logical_width && th <= logical_height) ==> {
                    &&& zoom * tw <= logical_width
                    &&& zoom * th <= logical_height
                    &&& ((zoom + 1) * tw > logical_width || (zoom + 1) * th > logical_height)
                }
                &&& !(tw <= logical_width && th <= logical_height) ==> zoom == 1
            },
        },
{
    let zoom = auto_zoom_of(mode, logical_width, logical_height);
    proof {
        lemma_auto_zoom_is_largest_fit(*mode, logical_width, logical_height);
    }
    zoom
}

/// The zoom of `mode`, computed as the mode's definition reads.
fn auto_zoom_of(mode: &PixelZoom, logical_width: i32, logical_height: i32) -> (zoom: i32)
    ensures
        zoom == spec_auto_zoom(*mode, logical_width as int, logical_height as int),
{
    match mode {
        PixelZoom::FitSize { width, height } => {
            let zoom_x = fit_axis(logical_width, *width);
            let zoom_y = fit_axis(logical_height, *height);
            let zoom = if zoom_x <= zoom_y {
                zoom_x
            } else {
                zoom_y
            };
            if zoom >= 1 {
                zoom
            } else {
                1
            }
        },
        PixelZoom::FitWidth(width) => {
            let zoom = fit_axis(logical_width, *width);
            if zoom >= 1 {
                zoom
            } else {
                1
            }
        },
        PixelZoom::FitHeight(height) => {
            let zoom = fit_axis(logical_height, *height);
            if zoom >= 1 {
                zoom
            } else {
                1
            }
        },
        PixelZoom::Fixed(zoom) => *zoom,
    }
}

/// Within one axis: `q = logical / t` (toward zero) is the largest `k` with
/// `k * t <= logical` once `t` fits at all, and at most 0 otherwise.
proof fn lemma_fit_count_is_largest(logical: int, t: int)
    requires
        t >= 1,
    ensures
        t <= logical ==> trunc_div(logical, t) >= 1,
        t > logical ==> trunc_div(logical, t) <= 0,
        trunc_div(logical, t) * t <= logical || trunc_div(logical, t) <= 0,
        forall|k: int| k > trunc_div(logical, t) && k >= 1 ==> #[trigger] (k * t) > logical,
{
    let q = trunc_div(logical, t);
    if logical >= 0 {
        assert(q == logical / t);
        assert(q * t <= logical && logical < (q + 1) * t) by (nonlinear_arith)
            requires
                q == logical / t,
                t >= 1,
                logical >= 0,
        ;
        assert(t <= logical ==> q >= 1) by (nonlinear_arith)
            requires
                q == logical / t,
                t >= 1,
                logical >= 0,
        ;
        assert(t > logical ==> q <= 0) by (nonlinear_arith)
            requires
                q == logical / t,
                t >= 1,
                logical >= 0,
        ;
        assert forall|k: int| k > q && k >= 1 implies #[trigger] (k * t) > logical by {
            assert(k * t >= (q + 1) * t) by (nonlinear_arith)
                requires
                    k >= q + 1,
                    t >= 1,
            ;
        }
    } else {
        assert((-logical) / t >= 0) by (nonlinear_arith)
            requires
                -logical > 0,
                t >= 1,
        ;
        assert forall|k: int| k > q && k >= 1 implies #[trigger] (k * t) > logical by {
            assert(k * t >= 1) by (nonlinear_arith)
                requires
                    k >= 1,
                    t >= 1,
            ;
        }
    }
}

/// In terms of `fits_at`: the zoom of a fitting mode fits when anything fits,
/// and no larger magnification does.
proof fn lemma_fits_at_largest(mode: PixelZoom, logical_width: i32, logical_height: i32)
    requires
        !(mode is Fixed),
    ensures
        spec_auto_zoom(mode, logical_width as int, logical_height as int) >= 1,
        fits_at(mode, logical_width as int, logical_height as int, 1) ==> fits_at(
            mode,
            logical_width as int,
            logical_height as int,
            spec_auto_zoom(mode, logical_width as int, logical_height as int),
        ),
        forall|k: int|
            k > spec_auto_zoom(mode, logical_width as int, logical_height as int) ==> !#[trigger] fits_at(
                mode,
                logical_width as int,
                logical_height as int,
                k,
            ),
        !fits_at(mode, logical_width as int, logical_height as int, 1) ==> spec_auto_zoom(
            mode,
            logical_width as int,
            logical_height as int,
        ) == 1,
{
    let lw = logical_width as int;
    let lh = logical_height as int;
    match mode {
        PixelZoom::FitSize { width, height } => {
            let tw = effective_target(width as int);
            let th = effective_target(height as int);
            lemma_fit_count_is_largest(lw, tw);
            lemma_fit_count_is_largest(lh, th);
            let z = spec_auto_zoom(mode, lw, lh);
            assert forall|k: int| k > z implies !#[trigger] fits_at(mode, lw, lh, k) by {
                assert(k >= 1);
                if fit_count(lw, width as int) <= fit_count(lh, height as int) {
                    assert(k > fit_count(lw, width as int));
                    assert(k * tw > lw);
                } else {
                    assert(k > fit_count(lh, height as int));
                    assert(k * th > lh);
                }
            }
            if fits_at(mode, lw, lh, 1) {
                let q = smaller(fit_count(lw, width as int), fit_count(lh, height as int));
                assert(q >= 1);
                assert(q * tw <= lw) by (nonlinear_arith)
                    requires
                        q <= fit_count(lw, width as int),
                        fit_count(lw, width as int) * tw <= lw,
                        tw >= 1,
                        q >= 1,
                ;
                assert(q * th <= lh) by (nonlinear_arith)
                    requires
                        q <= fit_count(lh, height as int),
                        fit_count(lh, height as int) * th <= lh,
                        th >= 1,
                        q >= 1,
                ;
            }
        },
        PixelZoom::FitWidth(width) => {
            lemma_fit_count_is_largest(lw, effective_target(width as int));
        },
        PixelZoom::FitHeight(height) => {
            lemma_fit_count_is_largest(lh, effective_target(height as int));
        },
        PixelZoom::Fixed(_) => {},
    }
}

/// The zoom of a fitting mode is the largest magnification at which the mode's
/// resolution (each length taken as at least 1) fits inside the logical size;
/// when even one copy does not fit, the zoom is 1. A fixed mode's zoom is its
/// configured zoom, whatever the logical size.
pub proof fn lemma_auto_zoom_is_largest_fit(mode: PixelZoom, logical_width: i32, logical_height: i32)
    ensures
        ({
            let zoom = spec_auto_zoom(mode, logical_width as int, logical_height as int);
            match mode {
                PixelZoom::Fixed(fixed) => zoom == fixed,
                PixelZoom::FitWidth(width) => {
                    let t: int = if width >= 1 { width as int } else { 1 };
                    &&& zoom >= 1
                    &&& t <= logical_width ==> zoom * t <= logical_width && (zoom + 1) * t
                        > logical_width
                    &&& t > logical_width ==> zoom == 1
                },
                PixelZoom::FitHeight(height) => {
                    let t: int = if height >= 1 { height as int } else { 1 };
                    &&& zoom >= 1
                    &&& t <= logical_height ==> zoom * t <= logical_height && (zoom + 1) * t
                        > logical_height
                    &&& t > logical_height ==> zoom == 1
                },
                PixelZoom::FitSize { width, height } => {
                    let tw: int = if width >= 1 { width as int } else { 1 };
                    let th: int = if height >= 1 { height as int } else { 1 };
                    &&& zoom >= 1
                    &&& (tw <= logical_width && th <= logical_height) ==> {
                        &&& zoom * tw <= logical_width
                        &&& zoom * th <= logical_height
                        &&& ((zoom + 1) * tw > logical_width || (zoom + 1) * th > logical_height)
                    }
                    &&& !(tw <= logical_width && th <= logical_height) ==> zoom == 1
                },
            }
        }),
{
    if !(mode is Fixed) {
        lemma_fits_at_largest(mode, logical_width, logical_height);
        let zoom = spec_auto_zoom(mode, logical_width as int, logical_height as int);
        assert(!fits_at(mode, logical_width as int, logical_height as int, zoom + 1));
    }
}

} // verus!
