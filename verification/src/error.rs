//! The error taxonomy of the pipeline.

use vstd::prelude::*;

verus! {

/// Everything that can go wrong in the pipeline.
///
/// `CouldNotReadNextFrame` is the transient "no frame available" outcome of
/// an advance attempt: it is expected, drives the packet-feeding branch of
/// the tick protocol, and is never fatal. `MalformedPacket` and
/// `DecoderFlushed` are per-call decoder send failures. `NoVideoStream` and
/// `UnsupportedPixelFormat` are startup failures: the container has no video
/// track, or the converter cannot be configured for the decoder's native
/// pixel format.
#[derive(Debug, Copy, Clone, Eq, PartialEq, Structural)]
pub enum VideoError {
    CouldNotReadNextFrame,
    MalformedPacket,
    DecoderFlushed,
    NoVideoStream,
    UnsupportedPixelFormat,
}

} // verus!
