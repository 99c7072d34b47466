//! The frame converter: a stateless-per-call repacking stage that turns a
//! raw frame in the source pixel format into a presentation frame in the
//! fixed packed-BGRA format, keeping the dimensions and the timestamp.

use vstd::prelude::*;
use crate::error::VideoError;
use crate::frame::frame_size;
use crate::frame::PixelFormat;
use crate::frame::PresentationFrame;
use crate::frame::PresentationFrameView;
use crate::frame::RawFrame;
use crate::frame::RawFrameView;

verus! {

/// The source formats the converter can repack into BGRA. Planar formats
/// are not supported: asking for one fails at construction.
pub open spec fn supported_source_format(format: PixelFormat) -> bool {
    format is Bgra || format is Rgba
}

/// Byte `i` of the converted pixel buffer. BGRA passes through unchanged;
/// RGBA swaps the first and third byte of every four-byte pixel.
pub open spec fn converted_byte(format: PixelFormat, data: Seq<u8>, i: int) -> u8 {
    match format {
        PixelFormat::Rgba => {
            if i % 4 == 0 {
                data[i + 2]
            } else if i % 4 == 2 {
                data[i - 2]
            } else {
                data[i]
            }
        },
        _ => data[i],
    }
}

/// The converted pixel buffer: same length as the input, each byte given by
/// `converted_byte`.
pub open spec fn convert_bytes(format: PixelFormat, data: Seq<u8>) -> Seq<u8> {
    Seq::new(data.len(), |i: int| converted_byte(format, data, i))
}

/// The converted frame: same dimensions and timestamp, repacked pixel data.
pub open spec fn converted_view(f: RawFrameView) -> PresentationFrameView {
    PresentationFrameView {
        width: f.width,
        height: f.height,
        data: convert_bytes(f.format, f.data),
        pts: f.pts,
    }
}

/// Converting a buffer that is already in the target BGRA format changes
/// nothing: the conversion is the identity on its own output format.
pub proof fn lemma_convert_identity(data: Seq<u8>)
    ensures
        convert_bytes(PixelFormat::Bgra, data) == data,
{
    assert(convert_bytes(PixelFormat::Bgra, data) =~= data);
}

/// Scaling/color-space conversion stage, configured once at startup from the
/// decoder's native format and dimensions. The target dimensions equal the
/// source dimensions, so conversion is a packing change only.
pub struct FrameConverter {
    pub src_format: PixelFormat,
    pub width: u32,
    pub height: u32,
}

impl FrameConverter {
    /// Format negotiation succeeded at construction.
    pub open spec fn wf(self) -> bool {
        supported_source_format(self.src_format)
    }

    /// Configure the converter. Fails exactly when the source pixel format
    /// is one the converter cannot repack; this is a startup-time failure.
    pub fn new(src_format: PixelFormat, width: u32, height: u32) -> (r: Result<
        FrameConverter,
        VideoError,
    >)
        ensures
            supported_source_format(src_format) ==> (r matches Ok(c) && c == (FrameConverter {
                src_format,
                width,
                height,
            })),
            !supported_source_format(src_format) ==> r === Err(VideoError::UnsupportedPixelFormat),
    {
        match src_format {
            PixelFormat::Bgra => Ok(FrameConverter { src_format, width, height }),
            PixelFormat::Rgba => Ok(FrameConverter { src_format, width, height }),
            PixelFormat::Yuv420p => Err(VideoError::UnsupportedPixelFormat),
        }
    }

    /// Convert one raw frame into the presentation format. Deterministic and
    /// pure: the result's bytes are exactly `convert_bytes` of the input, and
    /// dimensions and timestamp carry over.
    pub fn convert(&self, raw: &RawFrame) -> (r: PresentationFrame)
        requires
            self.wf(),
            raw@.wf(),
            raw@.format == self.src_format,
            raw@.width == self.width,
            raw@.height == self.height,
        ensures
            r@ == converted_view(raw@),
            r@.wf(),
    {
        let len: usize = raw.data.len();
        proof {
            let w: int = self.width as int;
            let h: int = self.height as int;
            assert(4 * w * h == 4 * (w * h)) by (nonlinear_arith);
            assert(len == 4 * (w * h));
            assert(len % 4 == 0);
        }
        let mut out: Vec<u8> = Vec::with_capacity(len);
        let mut i: usize = 0;
        while i < len
            invariant
                i <= len,
                i % 4 == 0,
                len % 4 == 0,
                len == raw.data@.len(),
                out@.len() == i,
                forall|j: int|
                    0 <= j < i ==> out@[j] == converted_byte(self.src_format, raw.data@, j),
            decreases len - i,
        {
            proof {
                assert(i + 4 <= len);
            }
            match self.src_format {
                PixelFormat::Rgba => {
                    out.push(raw.data[i + 2]);
                    out.push(raw.data[i + 1]);
                    out.push(raw.data[i]);
                    out.push(raw.data[i + 3]);
                },
                _ => {
                    out.push(raw.data[i]);
                    out.push(raw.data[i + 1]);
                    out.push(raw.data[i + 2]);
                    out.push(raw.data[i + 3]);
                },
            }
            i = i + 4;
        }
        let r = PresentationFrame { width: raw.width, height: raw.height, data: out, pts: raw.pts };
        proof {
            assert(r@.data =~= convert_bytes(raw@.format, raw@.data));
            assert(r@ =~= converted_view(raw@));
        }
        r
    }
}

} // verus!
