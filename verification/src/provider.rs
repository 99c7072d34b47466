//! The video provider: owns the decoder and the converter, holds the
//! current presentation frame, and drives the pull protocol one step at a
//! time. Each successful advance replaces the current frame and increments
//! the decoded-frame counter; a failed advance changes nothing and asks the
//! caller for more input.

use vstd::prelude::*;
use crate::convert::converted_view;
use crate::convert::supported_source_format;
use crate::convert::FrameConverter;
use crate::decode::CompressedPacket;
use crate::decode::Decoder;
use crate::decode::DecoderView;
use crate::decode::PacketView;
use crate::error::VideoError;
use crate::frame::PixelFormat;
use crate::frame::PresentationFrame;
use crate::frame::PresentationFrameView;
use crate::frame::RawFrameView;

verus! {

/// Timestamp order with the unset timestamp at the bottom: an unset stamp
/// precedes everything, and a set stamp never precedes an unset one.
pub open spec fn pts_le(a: Option<i64>, b: Option<i64>) -> bool {
    match (a, b) {
        (Option::None, _) => true,
        (Option::Some(x), Option::Some(y)) => x <= y,
        (Option::Some(_), Option::None) => false,
    }
}

/// `pts_le` is transitive.
pub proof fn lemma_pts_le_trans(a: Option<i64>, b: Option<i64>, c: Option<i64>)
    requires
        pts_le(a, b),
        pts_le(b, c),
    ensures
        pts_le(a, c),
{
}

/// Buffered frames stand in presentation order: each frame's timestamp is
/// no later than its successor's.
pub open spec fn pending_sorted(pending: Seq<RawFrameView>) -> bool {
    forall|i: int|
        0 <= i < pending.len() - 1 ==> pts_le((#[trigger] pending[i]).pts, pending[i + 1].pts)
}

/// Mathematical view of a `VideoProvider`.
#[verifier::ext_equal]
pub ghost struct ProviderView {
    pub dec: DecoderView,
    pub conv: FrameConverter,
    pub current: PresentationFrameView,
    pub frame_count: int,
    pub video_stream_index: int,
}

/// The provider as configured at startup, before any packet or frame.
pub open spec fn initial_provider(
    format: PixelFormat,
    width: int,
    height: int,
    video_stream_index: int,
    reorder_depth: int,
) -> ProviderView {
    ProviderView {
        dec: DecoderView {
            format,
            width,
            height,
            reorder_depth,
            pending: Seq::<RawFrameView>::empty(),
            eof: false,
        },
        conv: FrameConverter {
            src_format: format,
            width: width as u32,
            height: height as u32,
        },
        current: PresentationFrameView { width: 0, height: 0, data: Seq::<u8>::empty(), pts: None },
        frame_count: 0,
        video_stream_index,
    }
}

impl ProviderView {
    /// The decoder is well formed, the converter was negotiated for exactly
    /// the decoder's output, and the installed frame is a whole BGRA buffer.
    pub open spec fn wf(self) -> bool {
        &&& self.dec.wf()
        &&& self.conv.wf()
        &&& self.conv.src_format == self.dec.format
        &&& self.conv.width as int == self.dec.width
        &&& self.conv.height as int == self.dec.height
        &&& self.current.wf()
    }

    /// What one advance attempt does: when the decoder has a frame ready,
    /// the frame leaves the decoder, is converted, and replaces the current
    /// frame, and the counter grows by one; otherwise nothing changes and
    /// the caller is told no frame was available.
    pub open spec fn advance_step(self) -> (ProviderView, Result<(), VideoError>) {
        if self.dec.frame_ready() {
            (
                ProviderView {
                    dec: self.dec.receive_step().0,
                    current: converted_view(self.dec.pending[0]),
                    frame_count: self.frame_count + 1,
                    ..self
                },
                Ok(()),
            )
        } else {
            (self, Err(VideoError::CouldNotReadNextFrame))
        }
    }

    /// What feeding a packet does: a packet of another stream is silently
    /// discarded; a packet of the bound video stream goes to the decoder.
    pub open spec fn feed_step(self, p: PacketView) -> (ProviderView, Result<(), VideoError>) {
        if p.stream_index != self.video_stream_index {
            (self, Ok(()))
        } else {
            (ProviderView { dec: self.dec.send_step(p).0, ..self }, self.dec.send_step(p).1)
        }
    }

    /// What the end-of-stream signal does: it reaches the decoder; nothing
    /// else moves.
    pub open spec fn flush_step(self) -> ProviderView {
        ProviderView { dec: self.dec.eof_step(), ..self }
    }

    /// Timestamps seen so far never regress: buffered frames are in
    /// presentation order and none is earlier than the installed frame.
    pub open spec fn monotone_ok(self) -> bool {
        &&& pending_sorted(self.dec.pending)
        &&& (self.dec.pending.len() > 0 ==> pts_le(self.current.pts, self.dec.pending[0].pts))
    }

    /// The latest timestamp the provider has accepted: the newest buffered
    /// frame's, or the installed frame's when nothing is buffered.
    pub open spec fn tail_pts(self) -> Option<i64> {
        if self.dec.pending.len() > 0 {
            self.dec.pending.last().pts
        } else {
            self.current.pts
        }
    }
}

/// One advance attempt never moves the current frame to an earlier
/// timestamp, keeps the order invariant, and does not change the newest
/// accepted timestamp.
pub proof fn lemma_advance_monotone(p: ProviderView)
    requires
        p.monotone_ok(),
    ensures
        pts_le(p.current.pts, p.advance_step().0.current.pts),
        p.advance_step().0.monotone_ok(),
        p.advance_step().0.tail_pts() == p.tail_pts(),
{
    if p.dec.frame_ready() {
        let q = p.advance_step().0;
        assert(forall|i: int|
            0 <= i < q.dec.pending.len() ==> #[trigger] q.dec.pending[i] == p.dec.pending[i + 1]);
    }
}

/// Feeding a packet whose timestamp is no earlier than everything accepted
/// so far keeps the order invariant, leaves the current frame alone, and
/// moves the newest accepted timestamp no earlier.
pub proof fn lemma_feed_monotone(p: ProviderView, pk: PacketView)
    requires
        p.monotone_ok(),
        pts_le(p.tail_pts(), pk.pts),
    ensures
        p.feed_step(pk).0.monotone_ok(),
        p.feed_step(pk).0.current == p.current,
        pts_le(p.tail_pts(), p.feed_step(pk).0.tail_pts()),
        pk.stream_index == p.video_stream_index && p.dec.send_step(pk).1 is Ok ==> p.feed_step(
            pk,
        ).0.tail_pts() == pk.pts,
        pk.stream_index != p.video_stream_index || p.dec.send_step(pk).1 is Err ==> p.feed_step(
            pk,
        ).0 == p,
{
    let q = p.feed_step(pk).0;
    if pk.stream_index == p.video_stream_index && p.dec.send_step(pk).1 is Ok {
        assert(q.dec.pending.len() == p.dec.pending.len() + 1);
        assert(forall|i: int|
            0 <= i < p.dec.pending.len() ==> #[trigger] q.dec.pending[i] == p.dec.pending[i]);
        assert(q.dec.pending.last().pts == pk.pts);
    }
}

/// An advance attempt on a provider whose decoder has seen no packet (or
/// has nothing left) returns `CouldNotReadNextFrame` and changes nothing:
/// no default or garbage frame is ever installed.
pub proof fn lemma_advance_on_empty(p: ProviderView)
    requires
        p.dec.pending.len() == 0,
    ensures
        p.advance_step() == (p, Err::<(), VideoError>(VideoError::CouldNotReadNextFrame)),
{
}

/// Orchestrates the decoder and the converter and owns the current
/// presentation frame.
pub struct VideoProvider {
    pub decoder: Decoder,
    pub converter: FrameConverter,
    pub current_frame: PresentationFrame,
    pub frame_count: usize,
    pub video_stream_index: usize,
}

impl View for VideoProvider {
    type V = ProviderView;

    open spec fn view(&self) -> ProviderView {
        ProviderView {
            dec: self.decoder@,
            conv: self.converter,
            current: self.current_frame@,
            frame_count: self.frame_count as int,
            video_stream_index: self.video_stream_index as int,
        }
    }
}

impl VideoProvider {
    /// Build a provider for one video stream from the stream's decoding
    /// parameters. Fails exactly when the converter cannot be configured
    /// for the stream's pixel format; this is a startup-time failure.
    pub fn new(
        format: PixelFormat,
        width: u32,
        height: u32,
        video_stream_index: usize,
        reorder_depth: usize,
    ) -> (r: Result<VideoProvider, VideoError>)
        requires
            4 * (width as int) * (height as int) <= usize::MAX,
        ensures
            supported_source_format(format) ==> (r matches Ok(p) && p@ == initial_provider(
                format,
                width as int,
                height as int,
                video_stream_index as int,
                reorder_depth as int,
            ) && p@.wf()),
            !supported_source_format(format) ==> r === Err(VideoError::UnsupportedPixelFormat),
    {
        let converter = match FrameConverter::new(format, width, height) {
            Ok(c) => c,
            Err(e) => {
                return Err(e);
            },
        };
        let decoder = Decoder::new(format, width, height, reorder_depth);
        let provider = VideoProvider {
            decoder,
            converter,
            current_frame: PresentationFrame::placeholder(),
            frame_count: 0,
            video_stream_index,
        };
        proof {
            assert(provider@ =~= initial_provider(
                format,
                width as int,
                height as int,
                video_stream_index as int,
                reorder_depth as int,
            ));
        }
        Ok(provider)
    }

    /// Attempt to pull exactly one decoded, converted frame and install it
    /// as current. `CouldNotReadNextFrame` is the expected "no frame ready"
    /// outcome that tells the caller to supply more input; it leaves the
    /// provider untouched. The timestamp of the installed frame never
    /// regresses while the order invariant holds.
    pub fn next_frame(&mut self) -> (r: Result<(), VideoError>)
        requires
            old(self)@.wf(),
            old(self).frame_count < usize::MAX,
        ensures
            final(self)@.wf(),
            (final(self)@, r) == old(self)@.advance_step(),
            !old(self)@.dec.frame_ready() ==> r === Err(VideoError::CouldNotReadNextFrame)
                && final(self)@ == old(self)@,
            old(self)@.monotone_ok() ==> {
                &&& pts_le(old(self)@.current.pts, final(self)@.current.pts)
                &&& final(self)@.monotone_ok()
            },
    {
        proof {
            if old(self)@.monotone_ok() {
                lemma_advance_monotone(old(self)@);
            }
        }
        match self.decoder.try_receive_frame() {
            Some(frame) => {
                let converted = self.converter.convert(&frame);
                self.current_frame = converted;
                self.frame_count = self.frame_count + 1;
                proof {
                    assert(self@ =~= old(self)@.advance_step().0);
                }
                Ok(())
            },
            None => Err(VideoError::CouldNotReadNextFrame),
        }
    }

    /// Forward a packet to the decoder if it belongs to the bound video
    /// stream; packets of any other stream are silently discarded and leave
    /// the provider, decoder included, exactly as it was.
    pub fn send_packet_to_decoder(&mut self, packet: CompressedPacket) -> (r: Result<
        (),
        VideoError,
    >)
        requires
            old(self)@.wf(),
        ensures
            final(self)@.wf(),
            (final(self)@, r) == old(self)@.feed_step(packet@),
            packet@.stream_index != old(self)@.video_stream_index ==> r is Ok && final(self)@
                == old(self)@,
    {
        if packet.stream_index != self.video_stream_index {
            return Ok(());
        }
        let r = self.decoder.send(packet);
        proof {
            assert(self@ =~= old(self)@.feed_step(packet@).0);
        }
        r
    }

    /// Forward the end-of-stream signal to the decoder, so that buffered
    /// frames can still be drained by later advance attempts.
    pub fn send_eof_to_decoder(&mut self)
        requires
            old(self)@.wf(),
        ensures
            final(self)@.wf(),
            final(self)@ == old(self)@.flush_step(),
    {
        self.decoder.send_eof();
        proof {
            assert(self@ =~= old(self)@.flush_step());
        }
    }

    /// Read-only access to the latest installed frame; the placeholder
    /// before the first successful decode.
    pub fn current_frame(&self) -> (r: &PresentationFrame)
        ensures
            r@ == self@.current,
    {
        &self.current_frame
    }

    /// How many frames have been decoded and installed so far.
    pub fn frame_count(&self) -> (r: usize)
        ensures
            r == self@.frame_count,
    {
        self.frame_count
    }
}

} // verus!
