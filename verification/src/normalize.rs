//! Format normaliser: raw frames in, single-channel intensity images out.

use vstd::prelude::*;
use crate::frame::{
    image_result_is, plane_len, plane_size, Encoding, Frame, FrameError, FrameView, GrayImage,
    ImageView,
};

verus! {

/// Intensity of one pixel: red, green and blue weighted by 0.299, 0.587 and
/// 0.114, rounded to the nearest level, halves upwards.
pub open spec fn luma(r: u8, g: u8, b: u8) -> u8 {
    ((299 * r + 587 * g + 114 * b + 500) / 1000) as u8
}

/// Executable `luma`.
pub fn luma_of(r: u8, g: u8, b: u8) -> (y: u8)
    ensures
        y == luma(r, g, b),
{
    let sum: u32 = 299 * (r as u32) + 587 * (g as u32) + 114 * (b as u32) + 500;
    (sum / 1000) as u8
}

/// The weights add up to one: a pixel whose three channels agree keeps their
/// level, and every intensity lies between the smallest and the largest
/// channel of its pixel.
pub proof fn law_luma_is_a_weighted_mean(r: u8, g: u8, b: u8)
    ensures
        r == g && g == b ==> luma(r, g, b) == r,
        luma(r, g, b) >= r || luma(r, g, b) >= g || luma(r, g, b) >= b,
        luma(r, g, b) <= r || luma(r, g, b) <= g || luma(r, g, b) <= b,
{
}

/// Intensities of the first `count` pixels of a packed buffer with
/// `channels` bytes per pixel, the first three being red, green and blue.
pub open spec fn packed_luma(bytes: Seq<u8>, channels: int, count: int) -> Seq<u8> {
    Seq::new(
        count as nat,
        |i: int| luma(bytes[channels * i], bytes[channels * i + 1], bytes[channels * i + 2]),
    )
}

/// What normalising a planar YUV buffer gives: its leading luma plane, or a
/// size mismatch when the buffer is shorter than that plane.
pub open spec fn gray_from_yuv(bytes: Seq<u8>, width: u32, height: u32) -> Result<
    ImageView,
    FrameError,
> {
    if bytes.len() >= width * height {
        Ok(ImageView { width, height, pixels: bytes.take(width * height) })
    } else {
        Err(FrameError::SizeMismatch)
    }
}

/// What normalising a packed buffer gives: one intensity per pixel, or a
/// size mismatch unless the buffer holds exactly `channels` bytes per pixel.
pub open spec fn gray_from_packed(bytes: Seq<u8>, width: u32, height: u32, channels: int) -> Result<
    ImageView,
    FrameError,
> {
    if bytes.len() == width * height * channels {
        Ok(ImageView { width, height, pixels: packed_luma(bytes, channels, width * height) })
    } else {
        Err(FrameError::SizeMismatch)
    }
}

/// What normalising a frame gives, by encoding.
pub open spec fn normalized(frame: FrameView) -> Result<ImageView, FrameError> {
    match frame.encoding {
        Some(Encoding::Yuv420) | Some(Encoding::Yuv422) | Some(Encoding::Yuv444) => gray_from_yuv(
            frame.data,
            frame.width,
            frame.height,
        ),
        Some(Encoding::Rgb888) => gray_from_packed(frame.data, frame.width, frame.height, 3),
        Some(Encoding::Rgba8888) => gray_from_packed(frame.data, frame.width, frame.height, 4),
        Some(Encoding::Unrecognized) | None => Err(FrameError::UnsupportedFormat),
    }
}

/// Takes the luma plane of a planar YUV buffer as the intensity image.
///
/// Only the leading `width * height` bytes are read; whatever chroma bytes
/// follow are ignored, so the three chroma layouts are handled alike.
pub fn yuv_to_gray(bytes: &[u8], width: u32, height: u32) -> (result: Result<GrayImage, FrameError>)
    ensures
        result is Ok <==> bytes@.len() >= width * height,
        result matches Ok(image) ==> image@ == (ImageView {
            width,
            height,
            pixels: bytes@.take(width * height),
        }) && image.wf(),
        result matches Err(e) ==> e == FrameError::SizeMismatch,
        image_result_is(result, gray_from_yuv(bytes@, width, height)),
{
    let plane: u64 = plane_size(width, height);
    if (bytes.len() as u64) < plane {
        return Err(FrameError::SizeMismatch);
    }
    let count: usize = plane as usize;
    let mut data: Vec<u8> = Vec::with_capacity(count);
    let mut i: usize = 0;
    while i < count
        invariant
            i <= count,
            count <= bytes@.len(),
            data@ == bytes@.take(i as int),
        decreases count - i,
    {
        data.push(bytes[i]);
        i = i + 1;
    }
    Ok(GrayImage { width, height, data })
}

/// Converts a packed buffer of `channels` bytes per pixel (3 or 4) to
/// intensities, reading red, green and blue and skipping a fourth byte.
fn packed_to_gray(bytes: &[u8], width: u32, height: u32, channels: u8) -> (result: Result<
    GrayImage,
    FrameError,
>)
    requires
        channels == 3 || channels == 4,
    ensures
        result is Ok <==> bytes@.len() == width * height * channels,
        result matches Ok(image) ==> image@ == (ImageView {
            width,
            height,
            pixels: packed_luma(bytes@, channels as int, width * height),
        }) && image.wf(),
        result matches Err(e) ==> e == FrameError::SizeMismatch,
        image_result_is(
            result,
            gray_from_packed(bytes@, width, height, channels as int),
        ),
{
    let plane: u64 = plane_size(width, height);
    assert(plane * channels <= 0xffff_ffff_ffff_ffff * 4 && plane * channels >= plane)
        by (nonlinear_arith)
        requires
            0 <= plane <= 0xffff_ffff_ffff_ffff,
            1 <= channels <= 4,
    ;
    let expected: u128 = (plane as u128) * (channels as u128);
    if bytes.len() as u128 != expected {
        return Err(FrameError::SizeMismatch);
    }
    let count: usize = plane as usize;
    let step: usize = channels as usize;
    let mut data: Vec<u8> = Vec::with_capacity(count);
    let mut i: usize = 0;
    while i < count
        invariant
            i <= count,
            step == channels,
            channels == 3 || channels == 4,
            bytes@.len() == count * step,
            bytes@.len() <= usize::MAX,
            data@ == packed_luma(bytes@, channels as int, i as int),
        decreases count - i,
    {
        assert(0 <= step * i && step * i + step <= count * step) by (nonlinear_arith)
            requires
                i < count,
                step >= 0,
        ;
        let at: usize = step * i;
        let y: u8 = luma_of(bytes[at], bytes[at + 1], bytes[at + 2]);
        data.push(y);
        i = i + 1;
    }
    Ok(GrayImage { width, height, data })
}

/// Converts packed 3-channel truecolor to intensities.
///
/// The buffer must hold exactly three bytes per pixel.
pub fn rgb888_to_gray(bytes: &[u8], width: u32, height: u32) -> (result: Result<
    GrayImage,
    FrameError,
>)
    ensures
        result is Ok <==> bytes@.len() == width * height * 3,
        result matches Ok(image) ==> image@ == (ImageView {
            width,
            height,
            pixels: packed_luma(bytes@, 3, width * height),
        }) && image.wf(),
        result matches Err(e) ==> e == FrameError::SizeMismatch,
        image_result_is(result, gray_from_packed(bytes@, width, height, 3)),
{
    packed_to_gray(bytes, width, height, 3)
}

/// Converts packed 4-channel truecolor with alpha to intensities; the alpha
/// byte of each pixel is discarded.
///
/// The buffer must hold exactly four bytes per pixel.
pub fn rgba8888_to_gray(bytes: &[u8], width: u32, height: u32) -> (result: Result<
    GrayImage,
    FrameError,
>)
    ensures
        result is Ok <==> bytes@.len() == width * height * 4,
        result matches Ok(image) ==> image@ == (ImageView {
            width,
            height,
            pixels: packed_luma(bytes@, 4, width * height),
        }) && image.wf(),
        result matches Err(e) ==> e == FrameError::SizeMismatch,
        image_result_is(result, gray_from_packed(bytes@, width, height, 4)),
{
    packed_to_gray(bytes, width, height, 4)
}

/// Normalises a frame by its encoding.
///
/// A frame whose encoding is absent or unrecognised is refused before its
/// buffer is looked at.
pub fn normalize(frame: &Frame) -> (result: Result<GrayImage, FrameError>)
    ensures
        image_result_is(result, normalized(frame@)),
        result matches Ok(image) ==> image.wf() && image.width == frame.width && image.height
            == frame.height,
        result matches Err(e) ==> e == FrameError::UnsupportedFormat || e
            == FrameError::SizeMismatch,
{
    match frame.encoding {
        Some(Encoding::Yuv420) | Some(Encoding::Yuv422) | Some(Encoding::Yuv444) => yuv_to_gray(
            frame.data.as_slice(),
            frame.width,
            frame.height,
        ),
        Some(Encoding::Rgb888) => rgb888_to_gray(frame.data.as_slice(), frame.width, frame.height),
        Some(Encoding::Rgba8888) => rgba8888_to_gray(
            frame.data.as_slice(),
            frame.width,
            frame.height,
        ),
        Some(Encoding::Unrecognized) | None => Err(FrameError::UnsupportedFormat),
    }
}

/// The buffer of a frame fits its declared size: at least the luma plane
/// for the planar YUV encodings, exactly three or four bytes per pixel for
/// packed truecolor. No buffer fits an absent or unrecognised encoding.
pub open spec fn well_sized(frame: FrameView) -> bool {
    match frame.encoding {
        Some(Encoding::Yuv420) | Some(Encoding::Yuv422) | Some(Encoding::Yuv444) => frame.data.len()
            >= plane_len(frame.width, frame.height),
        Some(Encoding::Rgb888) => frame.data.len() == plane_len(frame.width, frame.height) * 3,
        Some(Encoding::Rgba8888) => frame.data.len() == plane_len(frame.width, frame.height) * 4,
        Some(Encoding::Unrecognized) | None => false,
    }
}

/// A frame normalises exactly when its buffer fits its declared size, and
/// the image then has the declared width and height and one sample per
/// pixel. A frame that does not is refused as unsupported when its encoding
/// is absent or unrecognised, as a size mismatch otherwise.
pub proof fn law_normalized_iff_well_sized(frame: FrameView)
    ensures
        normalized(frame) is Ok <==> well_sized(frame),
        normalized(frame) matches Ok(image) ==> image.width == frame.width && image.height
            == frame.height && image.wf(),
        normalized(frame) matches Err(e) ==> e == if frame.encoding is None || frame.encoding
            == Some(Encoding::Unrecognized) {
            FrameError::UnsupportedFormat
        } else {
            FrameError::SizeMismatch
        },
{
}

/// True of the three planar YUV encodings.
pub open spec fn is_yuv(encoding: Option<Encoding>) -> bool {
    encoding == Some(Encoding::Yuv420) || encoding == Some(Encoding::Yuv422) || encoding == Some(
        Encoding::Yuv444,
    )
}

/// Chroma is ignored: two YUV frames of equal width and height whose luma
/// planes agree normalise to the same image, whatever their chroma layouts
/// and chroma bytes are.
pub proof fn law_yuv_ignores_chroma(a: FrameView, b: FrameView)
    requires
        is_yuv(a.encoding),
        is_yuv(b.encoding),
        a.width == b.width,
        a.height == b.height,
        a.data.len() >= plane_len(a.width, a.height),
        b.data.len() >= plane_len(b.width, b.height),
        a.data.take(plane_len(a.width, a.height)) == b.data.take(plane_len(b.width, b.height)),
    ensures
        normalized(a) == normalized(b),
        normalized(a) is Ok,
{
}

/// Packed truecolor normalises exactly when the buffer holds the declared
/// number of pixels at three or four bytes each, and the image then has
/// the declared width and height and one sample per pixel.
pub proof fn law_packed_needs_exact_length(frame: FrameView)
    requires
        frame.encoding == Some(Encoding::Rgb888) || frame.encoding == Some(Encoding::Rgba8888),
    ensures
        normalized(frame) is Ok <==> frame.data.len() == plane_len(frame.width, frame.height) * (
        if frame.encoding == Some(Encoding::Rgb888) {
            3int
        } else {
            4int
        }),
        normalized(frame) matches Ok(image) ==> image.width == frame.width && image.height
            == frame.height && image.wf(),
        normalized(frame) matches Err(e) ==> e == FrameError::SizeMismatch,
{
}

} // verus!
