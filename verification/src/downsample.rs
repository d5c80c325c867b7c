//! Downsampler: the size an image is scaled to, and the check of what the
//! host's resampler hands back.

use vstd::prelude::*;
use crate::frame::{image_result_is, FrameError, GrayImage, ImageView};

verus! {

/// Largest width or height that the host's resampler takes.
pub const MAX_DIMENSION: u32 = 0x7fff_ffff;

/// `target_width * height / width` rounded to the nearest integer, halves
/// upwards.
pub open spec fn rounded_height(width: u32, height: u32, target_width: u32) -> int
    recommends
        width > 0,
{
    (2 * target_width * height + width) / (2 * width)
}

/// A dimension that the host's resampler can produce.
pub open spec fn usable_dimension(n: int) -> bool {
    1 <= n <= MAX_DIMENSION
}

/// The size that a `width` by `height` image is scaled to for a given target
/// width, as `(width, height)`.
///
/// A source without pixels is a malformed frame. A target that is empty or
/// beyond what the resampler takes cannot be produced.
pub open spec fn planned_size(width: u32, height: u32, target_width: u32) -> Result<
    (u32, u32),
    FrameError,
> {
    if width == 0 || height == 0 {
        Err(FrameError::SizeMismatch)
    } else if !usable_dimension(target_width as int) || !usable_dimension(
        rounded_height(width, height, target_width),
    ) {
        Err(FrameError::Resize)
    } else {
        Ok((target_width, rounded_height(width, height, target_width) as u32))
    }
}

/// `r` is the integer nearest to `target_width * height / width`, halves
/// upwards, stated without a division.
pub open spec fn nearest_height(width: u32, height: u32, target_width: u32, r: int) -> bool {
    2 * (target_width * height) - width < 2 * (width * r) <= 2 * (target_width * height) + width
}

/// The source has pixels and both target dimensions are usable, stated
/// without a division.
pub open spec fn plannable(width: u32, height: u32, target_width: u32) -> bool {
    &&& width > 0 && height > 0
    &&& usable_dimension(target_width as int)
    &&& width <= 2 * (target_width * height)
    &&& 2 * (target_width * height) + width < 2 * (width * 0x8000_0000)
}

/// The rounded height is the integer nearest to the exact quotient: twice
/// its distance from `target_width * height / width`, scaled by `width`, is
/// at most `width`.
pub proof fn lemma_rounded_height_is_nearest(width: u32, height: u32, target_width: u32)
    requires
        width > 0,
    ensures
        0 <= rounded_height(width, height, target_width),
        nearest_height(width, height, target_width, rounded_height(width, height, target_width)),
{
    let n: int = 2 * target_width * height + width;
    let d: int = 2 * width;
    let r = n / d;
    vstd::arithmetic::div_mod::lemma_fundamental_div_mod(n, d);
    vstd::arithmetic::div_mod::lemma_mod_bound(n, d);
    assert(n >= 0) by (nonlinear_arith)
        requires
            n == 2 * target_width * height + width,
    ;
    vstd::arithmetic::div_mod::lemma_div_pos_is_pos(n, d);
    assert(d * r == 2 * (width * r)) by (nonlinear_arith)
        requires
            d == 2 * width,
    ;
    assert(2 * target_width * height == 2 * (target_width * height)) by (nonlinear_arith);
}

/// A size is planned exactly for the plannable inputs, and its height is
/// then the nearest integer to the exact quotient.
pub proof fn lemma_planned_size(width: u32, height: u32, target_width: u32)
    ensures
        planned_size(width, height, target_width) is Ok <==> plannable(width, height, target_width),
        planned_size(width, height, target_width) matches Ok(size) ==> size.0 == target_width
            && nearest_height(width, height, target_width, size.1 as int),
{
    if width > 0 {
        let r = rounded_height(width, height, target_width);
        let p: int = target_width * height;
        lemma_rounded_height_is_nearest(width, height, target_width);
        assert((1 <= r <= 0x7fff_ffff) <==> (width <= 2 * p && 2 * p + width < 2 * (width
            * 0x8000_0000))) by (nonlinear_arith)
            requires
                width > 0,
                0 <= r,
                2 * p - width < 2 * (width * r),
                2 * (width * r) <= 2 * p + width,
        ;
    }
}

/// Where the aspect ratio can be kept exactly, it is: if `width` divides
/// `target_width * height`, the rounded height is that quotient.
pub proof fn lemma_rounded_height_exact(width: u32, height: u32, target_width: u32, q: int)
    requires
        width > 0,
        q * width == target_width * height,
    ensures
        rounded_height(width, height, target_width) == q,
{
    let r = rounded_height(width, height, target_width);
    lemma_rounded_height_is_nearest(width, height, target_width);
    assert(r == q) by (nonlinear_arith)
        requires
            width > 0,
            q * width == target_width * height,
            2 * (target_width * height) - width < 2 * (width * r),
            2 * (width * r) <= 2 * (target_width * height) + width,
    ;
}

/// Computes the size to scale a `width` by `height` image to.
pub fn plan_downsample(width: u32, height: u32, target_width: u32) -> (result: Result<
    (u32, u32),
    FrameError,
>)
    ensures
        result == planned_size(width, height, target_width),
        result is Ok <==> plannable(width, height, target_width),
        result matches Ok(size) ==> {
            &&& size.0 == target_width
            &&& size.1 == rounded_height(width, height, target_width)
            &&& nearest_height(width, height, target_width, size.1 as int)
            &&& usable_dimension(size.0 as int) && usable_dimension(size.1 as int)
        },
        result matches Err(e) ==> e == if width == 0 || height == 0 {
            FrameError::SizeMismatch
        } else {
            FrameError::Resize
        },
{
    proof {
        lemma_planned_size(width, height, target_width);
    }
    if width == 0 || height == 0 {
        return Err(FrameError::SizeMismatch);
    }
    if target_width == 0 || target_width > MAX_DIMENSION {
        return Err(FrameError::Resize);
    }
    assert(0 <= target_width * height <= 0xffff_ffff * 0xffff_ffff) by (nonlinear_arith)
        requires
            0 <= target_width <= 0xffff_ffff,
            0 <= height <= 0xffff_ffff,
    ;
    assert(2 * target_width * height == 2 * (target_width * height)) by (nonlinear_arith);
    let scaled: u128 = 2 * ((target_width as u128) * (height as u128)) + (width as u128);
    let rounded: u128 = scaled / (2 * (width as u128));
    if rounded == 0 || rounded > MAX_DIMENSION as u128 {
        return Err(FrameError::Resize);
    }
    Ok((target_width, rounded as u32))
}

/// What accepting the host's answer to a resize request gives: the image,
/// if there is one, it is well formed and it has exactly the size that was
/// asked for.
pub open spec fn accepted(size: (u32, u32), resized: Option<ImageView>) -> Result<
    ImageView,
    FrameError,
> {
    match resized {
        Some(image) if image.width == size.0 && image.height == size.1 && image.wf() => Ok(image),
        _ => Err(FrameError::Resize),
    }
}

/// Checks the host's answer to a resize request for `size`.
pub fn accept_downsampled(size: (u32, u32), resized: Option<GrayImage>) -> (result: Result<
    GrayImage,
    FrameError,
>)
    ensures
        image_result_is(
            result,
            accepted(
                size,
                match resized {
                    Some(image) => Some(image@),
                    None => None,
                },
            ),
        ),
        result matches Ok(image) ==> Some(image) == resized && image.width == size.0
            && image.height == size.1 && image.wf(),
        result matches Err(e) ==> e == FrameError::Resize,
{
    match resized {
        Some(image) => {
            if image.width == size.0 && image.height == size.1 && image.is_consistent() {
                Ok(image)
            } else {
                Err(FrameError::Resize)
            }
        },
        None => Err(FrameError::Resize),
    }
}

} // verus!
