//! Pixel formats and the two frame types that flow through the pipeline:
//! raw decoded frames in the source format and presentation frames in the
//! fixed packed-BGRA output format.

use vstd::prelude::*;

verus! {

/// The pixel layouts the pipeline can describe. `Bgra` is the fixed
/// presentation format; `Rgba` is a packed source format the converter can
/// repack; `Yuv420p` stands for a planar source format the converter does
/// not support, so that format negotiation can fail at startup.
#[derive(Clone, Copy, Debug, PartialEq, Eq, Structural)]
pub enum PixelFormat {
    Bgra,
    Rgba,
    Yuv420p,
}

/// Size in bytes of one frame's pixel data in the given format.
pub open spec fn frame_size(format: PixelFormat, width: int, height: int) -> int {
    match format {
        PixelFormat::Bgra => 4 * width * height,
        PixelFormat::Rgba => 4 * width * height,
        PixelFormat::Yuv420p => (3 * (width * height)) / 2,
    }
}

/// A decoded frame in the decoder's native pixel format, before conversion.
pub struct RawFrame {
    pub format: PixelFormat,
    pub width: u32,
    pub height: u32,
    pub data: Vec<u8>,
    pub pts: Option<i64>,
}

/// Mathematical view of a `RawFrame`.
#[verifier::ext_equal]
pub ghost struct RawFrameView {
    pub format: PixelFormat,
    pub width: int,
    pub height: int,
    pub data: Seq<u8>,
    pub pts: Option<i64>,
}

impl RawFrameView {
    /// The pixel buffer holds exactly one frame in the stated format.
    pub open spec fn wf(self) -> bool {
        &&& 0 <= self.width <= u32::MAX
        &&& 0 <= self.height <= u32::MAX
        &&& self.data.len() == frame_size(self.format, self.width, self.height)
    }
}

impl View for RawFrame {
    type V = RawFrameView;

    open spec fn view(&self) -> RawFrameView {
        RawFrameView {
            format: self.format,
            width: self.width as int,
            height: self.height as int,
            data: self.data@,
            pts: self.pts,
        }
    }
}

/// A converted frame in the fixed packed-BGRA presentation format, annotated
/// with the source timestamp.
pub struct PresentationFrame {
    pub width: u32,
    pub height: u32,
    pub data: Vec<u8>,
    pub pts: Option<i64>,
}

/// Mathematical view of a `PresentationFrame`.
#[verifier::ext_equal]
pub ghost struct PresentationFrameView {
    pub width: int,
    pub height: int,
    pub data: Seq<u8>,
    pub pts: Option<i64>,
}

impl PresentationFrameView {
    /// The buffer holds exactly one packed 32-bit BGRA frame.
    pub open spec fn wf(self) -> bool {
        &&& 0 <= self.width <= u32::MAX
        &&& 0 <= self.height <= u32::MAX
        &&& self.data.len() == 4 * self.width * self.height
    }
}

impl View for PresentationFrame {
    type V = PresentationFrameView;

    open spec fn view(&self) -> PresentationFrameView {
        PresentationFrameView {
            width: self.width as int,
            height: self.height as int,
            data: self.data@,
            pts: self.pts,
        }
    }
}

impl PresentationFrame {
    /// The frame shown before the first successful decode: an empty buffer
    /// with no timestamp.
    pub fn placeholder() -> (r: PresentationFrame)
        ensures
            r@.wf(),
            r@.width == 0,
            r@.height == 0,
            r@.data.len() == 0,
            r@.pts is None,
    {
        PresentationFrame { width: 0, height: 0, data: Vec::new(), pts: None }
    }
}

} // verus!
