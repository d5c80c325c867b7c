//! Frames, intensity images and the per-frame error categories.

use vstd::prelude::*;

verus! {

/// Pixel layout of a raw frame.
#[derive(Clone, Copy, Debug, PartialEq, Eq, Structural)]
pub enum Encoding {
    /// Planar YUV, chroma subsampled 4:2:0.
    Yuv420,
    /// Planar YUV, chroma subsampled 4:2:2.
    Yuv422,
    /// Planar YUV, full-resolution chroma.
    Yuv444,
    /// Packed red, green, blue: three bytes per pixel.
    Rgb888,
    /// Packed red, green, blue, alpha: four bytes per pixel.
    Rgba8888,
    /// A layout that the pipeline does not handle.
    Unrecognized,
}

/// Why a frame was dropped.
#[derive(Clone, Copy, Debug, PartialEq, Eq, Structural)]
pub enum FrameError {
    /// The encoding is absent or not one the pipeline handles.
    UnsupportedFormat,
    /// The buffer length does not fit the declared width, height and
    /// encoding, or a dimension is zero.
    SizeMismatch,
    /// The downsampling step could not be carried out.
    Resize,
    /// The background-subtraction step failed or gave a malformed mask.
    Detection,
}

/// A raw camera frame as it arrives.
#[derive(Clone, Debug, PartialEq, Eq)]
pub struct Frame {
    /// Pixel layout, `None` when the sender set none.
    pub encoding: Option<Encoding>,
    /// Width in pixels.
    pub width: u32,
    /// Height in pixels.
    pub height: u32,
    /// Raw bytes in the layout that `encoding` names.
    pub data: Vec<u8>,
}

/// Mathematical content of a [`Frame`].
pub struct FrameView {
    pub encoding: Option<Encoding>,
    pub width: u32,
    pub height: u32,
    pub data: Seq<u8>,
}

impl View for Frame {
    type V = FrameView;

    open spec fn view(&self) -> FrameView {
        FrameView {
            encoding: self.encoding,
            width: self.width,
            height: self.height,
            data: self.data@,
        }
    }
}

/// A single-channel intensity image, rows stored one after another.
#[derive(Clone, Debug, PartialEq, Eq)]
pub struct GrayImage {
    /// Width in pixels.
    pub width: u32,
    /// Height in pixels.
    pub height: u32,
    /// One byte per pixel, row-major.
    pub data: Vec<u8>,
}

/// Mathematical content of a [`GrayImage`].
pub struct ImageView {
    pub width: u32,
    pub height: u32,
    pub pixels: Seq<u8>,
}

impl ImageView {
    /// The pixel sequence holds exactly `width * height` samples.
    pub open spec fn wf(self) -> bool {
        self.pixels.len() == self.width * self.height
    }
}

impl View for GrayImage {
    type V = ImageView;

    open spec fn view(&self) -> ImageView {
        ImageView { width: self.width, height: self.height, pixels: self.data@ }
    }
}

/// Number of samples in a plane of `width` by `height` pixels.
pub open spec fn plane_len(width: u32, height: u32) -> int {
    width * height
}

/// The product of two 32-bit sizes fits in 64 bits.
pub proof fn lemma_plane_fits(width: u32, height: u32)
    ensures
        0 <= plane_len(width, height) <= u64::MAX,
        (width * height) as u64 == width * height,
{
    assert(0 <= width * height <= 0xffff_ffff * 0xffff_ffff) by (nonlinear_arith)
        requires
            0 <= width <= 0xffff_ffff,
            0 <= height <= 0xffff_ffff,
    ;
}

/// Executable `plane_len`.
pub fn plane_size(width: u32, height: u32) -> (n: u64)
    ensures
        n == plane_len(width, height),
{
    proof {
        lemma_plane_fits(width, height);
    }
    (width as u64) * (height as u64)
}

impl GrayImage {
    /// The buffer holds exactly `width * height` samples.
    pub open spec fn wf(&self) -> bool {
        self@.wf()
    }

    /// Tests at run time whether the buffer length fits the dimensions.
    pub fn is_consistent(&self) -> (ok: bool)
        ensures
            ok == self.wf(),
    {
        self.data.len() as u64 == plane_size(self.width, self.height)
    }
}

/// `result` is the executable counterpart of `model`.
pub open spec fn image_result_is(
    result: Result<GrayImage, FrameError>,
    model: Result<ImageView, FrameError>,
) -> bool {
    match (result, model) {
        (Ok(image), Ok(view)) => image@ == view,
        (Err(e), Err(m)) => e == m,
        _ => false,
    }
}

} // verus!
