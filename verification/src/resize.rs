//! Fitting a bitmap to the character grid of a terminal.
//!
//! A glyph is three characters wide and one row high, and three rows of the
//! terminal are kept free for the prompt. The bitmap is scaled so that it
//! keeps its proportions; the resampling itself is done by the `image`
//! crate with its nearest-neighbour filter.

use vstd::prelude::*;
use crate::bitmap::Bitmap;
use crate::error::RenderError;

verus! {

/// Character columns taken by one glyph.
pub const GLYPH_WIDTH: u16 = 3;

/// Rows of the terminal that are never drawn on.
pub const RESERVED_ROWS: u16 = 3;

/// Size of a terminal in character cells.
#[derive(Clone, Copy, Debug, PartialEq, Eq, Structural)]
pub struct TerminalGeometry {
    pub columns: u16,
    pub rows: u16,
}

/// Glyphs that fit side by side in the terminal.
pub open spec fn canvas_width(geometry: TerminalGeometry) -> int {
    geometry.columns as int / 3
}

/// Rows of glyphs that fit once the reserved rows are taken off.
pub open spec fn canvas_height(geometry: TerminalGeometry) -> int {
    geometry.rows as int - 3
}

/// The terminal has no room for a single glyph.
pub open spec fn canvas_is_empty(geometry: TerminalGeometry) -> bool {
    geometry.columns < 3 || geometry.rows <= 3
}

/// The bitmap is bound by the canvas height rather than by its width: the
/// source height holds more canvas heights than canvas widths.
pub open spec fn height_bound(src_height: int, geometry: TerminalGeometry) -> bool {
    src_height / canvas_height(geometry) > src_height / canvas_width(geometry)
}

/// Width of the box that the bitmap is scaled into.
pub open spec fn target_width(src_width: int, src_height: int, geometry: TerminalGeometry) -> int {
    if height_bound(src_height, geometry) {
        canvas_height(geometry) * src_width / src_height
    } else {
        canvas_width(geometry)
    }
}

/// Height of the box that the bitmap is scaled into.
pub open spec fn target_height(src_width: int, src_height: int, geometry: TerminalGeometry) -> int {
    if height_bound(src_height, geometry) {
        canvas_height(geometry)
    } else {
        canvas_width(geometry) * src_height / src_width
    }
}

/// The target box can be held in 32 bits. Its width always can: it is the
/// canvas width, or no more than the width of the source.
pub open spec fn target_fits(src_width: int, src_height: int, geometry: TerminalGeometry) -> bool {
    target_height(src_width, src_height, geometry) <= u32::MAX
}

/// The target box lies inside the canvas.
pub open spec fn target_within_canvas(
    src_width: int,
    src_height: int,
    geometry: TerminalGeometry,
) -> bool {
    &&& target_width(src_width, src_height, geometry) <= canvas_width(geometry)
    &&& target_height(src_width, src_height, geometry) <= canvas_height(geometry)
}

/// The larger of a requested side and one pixel: no side of a resampled
/// bitmap is longer than this.
pub open spec fn side_limit(requested: int) -> int {
    if requested < 1 {
        1
    } else {
        requested
    }
}

/// The two buffers that the resampling allocates are no larger than a
/// vector may be: sixteen bytes for each pixel of the source width by the
/// new height, and three for each pixel of the new image.
pub open spec fn buffers_fit(width: int, nwidth: int, nheight: int) -> bool {
    &&& 16 * (width * side_limit(nheight)) <= isize::MAX
    &&& 3 * (side_limit(nwidth) * side_limit(nheight)) <= isize::MAX
}

/// What `image::DynamicImage::resize` with the nearest-neighbour filter
/// returns for an RGB image of `width` by `height` pixels with the bytes
/// `data` and the bounds `nwidth` by `nheight`: the width, the height and
/// the bytes of the new image.
pub uninterp spec fn nearest_resized(
    width: u32,
    height: u32,
    data: Seq<u8>,
    nwidth: u32,
    nheight: u32,
) -> (u32, u32, Seq<u8>);

/// Calls `image::DynamicImage::resize` with `FilterType::Nearest` on an
/// 8-bit RGB image built from `data`.
///
/// Believed of it, not proved: the result is the one named by
/// [`nearest_resized`]; the new image has at least one pixel, is no wider
/// than `nwidth` and no higher than `nheight` (one pixel where a bound is
/// zero), as the crate documents ("scaled to the maximum possible size that
/// fits within the bounds") and as it floors each side at one; its buffer
/// holds three bytes per pixel; and where the bounds are the image's own
/// size the crate returns a copy of it. The source must have at least one
/// pixel, since the crate's sampling loops clamp into `0..width - 1`, and
/// the buffers must fit, since the crate panics where an image is larger
/// than a vector may be.
#[verifier::external_body]
fn resample_nearest(width: u32, height: u32, data: Vec<u8>, nwidth: u32, nheight: u32) -> (out: (
    u32,
    u32,
    Vec<u8>,
))
    requires
        width >= 1,
        height >= 1,
        data@.len() == 3 * (width as int) * (height as int),
        buffers_fit(width as int, nwidth as int, nheight as int),
    ensures
        (out.0, out.1, out.2@) == nearest_resized(width, height, data@, nwidth, nheight),
        1 <= out.0 <= side_limit(nwidth as int),
        1 <= out.1 <= side_limit(nheight as int),
        out.2@.len() == 3 * (out.0 as int) * (out.1 as int),
        nwidth == width && nheight == height ==> out.0 == width && out.1 == height && out.2@
            == data@,
{
    let source = image::RgbImage::from_raw(width, height, data).unwrap();
    let resized = image::DynamicImage::ImageRgb8(source)
        .resize(nwidth, nheight, image::imageops::FilterType::Nearest)
        .into_rgb8();
    (resized.width(), resized.height(), resized.into_raw())
}

/// A bitmap of this size can be scaled to the terminal: it has at least
/// one pixel, and where the terminal has a canvas the target box can be
/// held in 32 bits and the buffers of the resampling are no larger than a
/// vector may be.
pub open spec fn can_scale(src_width: int, src_height: int, geometry: TerminalGeometry) -> bool {
    &&& src_width >= 1
    &&& src_height >= 1
    &&& !canvas_is_empty(geometry) ==> {
        &&& target_fits(src_width, src_height, geometry)
        &&& buffers_fit(
            src_width,
            target_width(src_width, src_height, geometry),
            target_height(src_width, src_height, geometry),
        )
    }
}

/// Tells whether a bitmap of the given size can be scaled to the terminal,
/// which [`resize_img`] asks for.
pub fn can_resize(src_width: u32, src_height: u32, geometry: TerminalGeometry) -> (ok: bool)
    ensures
        ok == can_scale(src_width as int, src_height as int, geometry),
{
    if src_width == 0 || src_height == 0 {
        return false;
    }
    if geometry.columns < GLYPH_WIDTH || geometry.rows <= RESERVED_ROWS {
        return true;
    }
    let canvas_w: u32 = (geometry.columns / GLYPH_WIDTH) as u32;
    let canvas_h: u32 = (geometry.rows - RESERVED_ROWS) as u32;
    let target_w: u64;
    let target_h: u64;
    if src_height / canvas_h > src_height / canvas_w {
        proof {
            lemma_height_bound_shrinks(src_width as int, src_height as int, canvas_h as int);
        }
        assert(canvas_h as int * src_width as int <= 0xffff * 0xffff_ffff) by (nonlinear_arith)
            requires
                0 <= canvas_h <= 0xffff,
                0 <= src_width <= 0xffff_ffff,
        ;
        target_w = canvas_h as u64 * src_width as u64 / src_height as u64;
        target_h = canvas_h as u64;
    } else {
        assert(canvas_w as int * src_height as int <= 0xffff * 0xffff_ffff) by (nonlinear_arith)
            requires
                0 <= canvas_w <= 0xffff,
                0 <= src_height <= 0xffff_ffff,
        ;
        target_w = canvas_w as u64;
        target_h = canvas_w as u64 * src_height as u64 / src_width as u64;
    }
    if target_h > u32::MAX as u64 {
        return false;
    }
    let wide: u64 = if target_w < 1 {
        1
    } else {
        target_w
    };
    let high: u64 = if target_h < 1 {
        1
    } else {
        target_h
    };
    assert(src_width as int * high as int <= 0xffff_ffff * 0xffff_ffff) by (nonlinear_arith)
        requires
            0 <= src_width <= 0xffff_ffff,
            0 <= high <= 0xffff_ffff,
    ;
    assert(wide as int * high as int <= 0xffff_ffff * 0xffff_ffff) by (nonlinear_arith)
        requires
            0 <= wide <= 0xffff_ffff,
            0 <= high <= 0xffff_ffff,
    ;
    let sampled: u128 = 16 * (src_width as u128 * high as u128);
    let stored: u128 = 3 * (wide as u128 * high as u128);
    sampled <= isize::MAX as u128 && stored <= isize::MAX as u128
}

/// Computes the box that a bitmap of `src_width` by `src_height` pixels is
/// scaled into for a terminal of the given size.
///
/// Fails with `TerminalTooSmall` exactly when the terminal has fewer than
/// three columns or no more than three rows. Otherwise the box is as high
/// as the canvas when the bitmap is bound by height, and as wide as the
/// canvas when it is not, with the other side in the bitmap's proportion,
/// rounded down.
pub fn target_size(src_width: u32, src_height: u32, geometry: TerminalGeometry) -> (target: Result<
    (u32, u32),
    RenderError,
>)
    requires
        src_width >= 1,
        src_height >= 1,
        !canvas_is_empty(geometry) ==> target_fits(src_width as int, src_height as int, geometry),
    ensures
        target is Err <==> canvas_is_empty(geometry),
        target matches Err(e) ==> e == RenderError::TerminalTooSmall,
        target matches Ok(size) ==> {
            &&& size.0 == target_width(src_width as int, src_height as int, geometry)
            &&& size.1 == target_height(src_width as int, src_height as int, geometry)
        },
{
    if geometry.columns < GLYPH_WIDTH || geometry.rows <= RESERVED_ROWS {
        return Err(RenderError::TerminalTooSmall);
    }
    let canvas_w: u32 = (geometry.columns / GLYPH_WIDTH) as u32;
    let canvas_h: u32 = (geometry.rows - RESERVED_ROWS) as u32;
    let width_ratio: u32 = src_height / canvas_w;
    let height_ratio: u32 = src_height / canvas_h;
    if height_ratio > width_ratio {
        proof {
            lemma_height_bound_shrinks(src_width as int, src_height as int, canvas_h as int);
        }
        assert(canvas_h as int * src_width as int <= 0xffff * 0xffff_ffff) by (nonlinear_arith)
            requires
                0 <= canvas_h <= 0xffff,
                0 <= src_width <= 0xffff_ffff,
        ;
        let scaled: u64 = canvas_h as u64 * src_width as u64 / src_height as u64;
        Ok((scaled as u32, canvas_h))
    } else {
        assert(canvas_w as int * src_height as int <= 0xffff * 0xffff_ffff) by (nonlinear_arith)
            requires
                0 <= canvas_w <= 0xffff,
                0 <= src_height <= 0xffff_ffff,
        ;
        let scaled: u64 = canvas_w as u64 * src_height as u64 / src_width as u64;
        Ok((canvas_w, scaled as u32))
    }
}

/// Scales a bitmap to the terminal, keeping its proportions.
///
/// Fails with `TerminalTooSmall` exactly when the terminal has fewer than
/// three columns or no more than three rows. Otherwise the result is what
/// the nearest-neighbour resampling gives for the target box, it has at
/// least one pixel, and no side is longer than the matching side of the
/// box (or one pixel, where that side of the box is zero). Where the box
/// lies inside the canvas, so does the result, and where the box is the
/// size of the bitmap, the result is the bitmap.
pub fn resize_img(img: Bitmap, geometry: TerminalGeometry) -> (resized: Result<Bitmap, RenderError>)
    requires
        img.well_formed(),
        can_scale(img.spec_width(), img.spec_height(), geometry),
    ensures
        resized is Err <==> canvas_is_empty(geometry),
        resized matches Err(e) ==> e == RenderError::TerminalTooSmall,
        resized matches Ok(out) ==> {
            let tw = target_width(img.spec_width(), img.spec_height(), geometry);
            let th = target_height(img.spec_width(), img.spec_height(), geometry);
            &&& out.well_formed()
            &&& (out.spec_width() as u32, out.spec_height() as u32, out.bytes()) == nearest_resized(
                img.spec_width() as u32,
                img.spec_height() as u32,
                img.bytes(),
                tw as u32,
                th as u32,
            )
            &&& 1 <= out.spec_width() <= side_limit(tw)
            &&& 1 <= out.spec_height() <= side_limit(th)
            &&& target_within_canvas(img.spec_width(), img.spec_height(), geometry) ==> {
                &&& out.spec_width() <= geometry.columns as int / 3
                &&& out.spec_height() <= geometry.rows as int - 3
            }
            &&& tw == img.spec_width() && th == img.spec_height() ==> {
                &&& out.spec_width() == img.spec_width()
                &&& out.spec_height() == img.spec_height()
                &&& out.bytes() == img.bytes()
            }
        },
{
    let width = img.width();
    let height = img.height();
    match target_size(width, height, geometry) {
        Err(e) => Err(e),
        Ok((target_w, target_h)) => {
            let (new_w, new_h, data) = resample_nearest(
                width,
                height,
                img.into_bytes(),
                target_w,
                target_h,
            );
            Ok(Bitmap::from_parts(new_w, new_h, data))
        },
    }
}

/// A bitmap bound by the canvas height is at least as high as the canvas,
/// so its target width is no more than its own width.
pub proof fn lemma_height_bound_shrinks(src_width: int, src_height: int, canvas_h: int)
    requires
        src_width >= 0,
        src_height >= 1,
        canvas_h >= 1,
        src_height / canvas_h >= 1,
    ensures
        src_height >= canvas_h,
        0 <= canvas_h * src_width / src_height <= src_width,
{
    assert(src_height >= canvas_h) by (nonlinear_arith)
        requires
            src_height >= 1,
            canvas_h >= 1,
            src_height / canvas_h >= 1,
    ;
    assert(0 <= canvas_h * src_width / src_height <= src_width) by (nonlinear_arith)
        requires
            src_width >= 0,
            src_height >= canvas_h,
            canvas_h >= 1,
    ;
}

/// The target box has the proportions of the source up to the rounding of
/// one side: the side taken from the canvas is exact, and the other side is
/// the largest whole number that does not stretch the bitmap.
pub proof fn lemma_target_keeps_aspect(src_width: int, src_height: int, geometry: TerminalGeometry)
    requires
        src_width >= 1,
        src_height >= 1,
        !canvas_is_empty(geometry),
    ensures
        ({
            let tw = target_width(src_width, src_height, geometry);
            let th = target_height(src_width, src_height, geometry);
            if height_bound(src_height, geometry) {
                &&& th == canvas_height(geometry)
                &&& tw * src_height <= th * src_width < (tw + 1) * src_height
            } else {
                &&& tw == canvas_width(geometry)
                &&& th * src_width <= tw * src_height < (th + 1) * src_width
            }
        }),
{
    let cw = canvas_width(geometry);
    let ch = canvas_height(geometry);
    if height_bound(src_height, geometry) {
        lemma_floor_division(ch * src_width, src_height);
    } else {
        lemma_floor_division(cw * src_height, src_width);
    }
}

/// A quotient rounded down, times the divisor, is within one divisor below
/// the dividend.
pub proof fn lemma_floor_division(dividend: int, divisor: int)
    requires
        dividend >= 0,
        divisor >= 1,
    ensures
        (dividend / divisor) * divisor <= dividend < (dividend / divisor + 1) * divisor,
{
    assert((dividend / divisor) * divisor <= dividend < (dividend / divisor + 1) * divisor)
        by (nonlinear_arith)
        requires
            dividend >= 0,
            divisor >= 1,
    ;
}

/// A terminal with fewer than three columns or no more than three rows has
/// an empty canvas, and only such a terminal has one.
pub proof fn lemma_small_terminal_has_no_canvas(geometry: TerminalGeometry)
    ensures
        canvas_is_empty(geometry) <==> canvas_width(geometry) < 1 || canvas_height(geometry) < 1,
{
}

} // verus!
