//! The decoding stage: compressed packets go in, raw frames come out on
//! demand. The decoder is stateful: it may hold several frames back for
//! reordering before it yields the first one, and after the end-of-stream
//! signal it drains whatever is still buffered. The pull primitive
//! `try_receive_frame` is non-blocking; "no frame yet" is a normal outcome.

use vstd::prelude::*;
use crate::error::VideoError;
use crate::frame::frame_size;
use crate::frame::PixelFormat;
use crate::frame::RawFrame;
use crate::frame::RawFrameView;

verus! {

/// One unit of compressed data belonging to one stream, in container
/// delivery order. Immutable after creation and consumed exactly once.
pub struct CompressedPacket {
    pub stream_index: usize,
    pub pts: Option<i64>,
    pub data: Vec<u8>,
}

/// Mathematical view of a `CompressedPacket`.
#[verifier::ext_equal]
pub ghost struct PacketView {
    pub stream_index: int,
    pub pts: Option<i64>,
    pub data: Seq<u8>,
}

impl View for CompressedPacket {
    type V = PacketView;

    open spec fn view(&self) -> PacketView {
        PacketView { stream_index: self.stream_index as int, pts: self.pts, data: self.data@ }
    }
}

/// Mathematical view of a `Decoder`: its fixed stream parameters, the queue
/// of decoded frames not yet handed out, and whether end of stream has been
/// signalled.
#[verifier::ext_equal]
pub ghost struct DecoderView {
    pub format: PixelFormat,
    pub width: int,
    pub height: int,
    pub reorder_depth: int,
    pub pending: Seq<RawFrameView>,
    pub eof: bool,
}

impl DecoderView {
    /// Stream parameters are sane, one frame's size fits in memory, and
    /// every buffered frame matches the stream parameters.
    pub open spec fn wf(self) -> bool {
        &&& 0 <= self.width <= u32::MAX
        &&& 0 <= self.height <= u32::MAX
        &&& 0 <= self.reorder_depth
        &&& 4 * self.width * self.height <= usize::MAX
        &&& forall|i: int|
            0 <= i < self.pending.len() ==> {
                &&& (#[trigger] self.pending[i]).wf()
                &&& self.pending[i].format == self.format
                &&& self.pending[i].width == self.width
                &&& self.pending[i].height == self.height
            }
    }

    /// A frame can be handed out right now: something is buffered, and
    /// either the stream was flushed or the reorder buffer is full enough
    /// that the oldest frame can no longer be displaced.
    pub open spec fn frame_ready(self) -> bool {
        self.pending.len() > 0 && (self.eof || self.pending.len() > self.reorder_depth)
    }

    /// The frame decoded from a packet under the stored-frame packet layout:
    /// the payload is one frame's pixel data in the stream's format.
    pub open spec fn decoded_frame(self, p: PacketView) -> RawFrameView {
        RawFrameView {
            format: self.format,
            width: self.width,
            height: self.height,
            data: p.data,
            pts: p.pts,
        }
    }

    /// What `send` does: refused after the end-of-stream signal, refused
    /// when the payload is not exactly one frame, otherwise the decoded
    /// frame joins the reorder queue.
    pub open spec fn send_step(self, p: PacketView) -> (DecoderView, Result<(), VideoError>) {
        if self.eof {
            (self, Err(VideoError::DecoderFlushed))
        } else if p.data.len() != frame_size(self.format, self.width, self.height) {
            (self, Err(VideoError::MalformedPacket))
        } else {
            (DecoderView { pending: self.pending.push(self.decoded_frame(p)), ..self }, Ok(()))
        }
    }

    /// What `try_receive_frame` does: the oldest buffered frame leaves the
    /// queue when one is ready, otherwise nothing changes.
    pub open spec fn receive_step(self) -> (DecoderView, Option<RawFrameView>) {
        if self.frame_ready() {
            (DecoderView { pending: self.pending.drop_first(), ..self }, Some(self.pending[0]))
        } else {
            (self, None)
        }
    }

    /// What `send_eof` does: the stream is flushed; buffered frames stay and
    /// become available for draining.
    pub open spec fn eof_step(self) -> DecoderView {
        DecoderView { eof: true, ..self }
    }

    /// The decoder after `n` receive attempts with no further input.
    pub open spec fn drained(self, n: nat) -> DecoderView
        decreases n,
    {
        if n == 0 {
            self
        } else {
            self.receive_step().0.drained((n - 1) as nat)
        }
    }
}

/// A decoder that has seen no packet has nothing buffered, so no receive
/// attempt on it can yield a frame.
pub proof fn lemma_fresh_decoder_not_ready(d: DecoderView)
    requires
        d.pending.len() == 0,
    ensures
        !d.frame_ready(),
        d.receive_step() == (d, None::<RawFrameView>),
{
}

/// After the end-of-stream signal, receive attempts reach a fixed point
/// within as many calls as there are buffered frames: every attempt while a
/// frame is ready hands one out, and once the queue is empty every further
/// attempt returns nothing and changes nothing.
pub proof fn lemma_eof_drain_fixed_point(d: DecoderView, n: nat)
    requires
        d.eof,
        n >= d.pending.len(),
    ensures
        d.drained(n).pending.len() == 0,
        !d.drained(n).frame_ready(),
        d.drained(n).receive_step() == (d.drained(n), None::<RawFrameView>),
    decreases n,
{
    if n > 0 {
        let d1 = d.receive_step().0;
        assert(d1.eof);
        lemma_eof_drain_fixed_point(d1, (n - 1) as nat);
    }
}

/// Stateful decoder for one video stream, bound at construction to the
/// stream's pixel format and dimensions and to a fixed reorder buffer depth.
pub struct Decoder {
    pub format: PixelFormat,
    pub width: u32,
    pub height: u32,
    pub reorder_depth: usize,
    pub pending: Vec<RawFrame>,
    pub eof: bool,
}

impl View for Decoder {
    type V = DecoderView;

    open spec fn view(&self) -> DecoderView {
        DecoderView {
            format: self.format,
            width: self.width as int,
            height: self.height as int,
            reorder_depth: self.reorder_depth as int,
            pending: Seq::new(self.pending@.len(), |i: int| self.pending@[i]@),
            eof: self.eof,
        }
    }
}

impl Decoder {
    /// A fresh decoder: nothing buffered, stream not flushed.
    pub fn new(format: PixelFormat, width: u32, height: u32, reorder_depth: usize) -> (r: Decoder)
        requires
            4 * (width as int) * (height as int) <= usize::MAX,
        ensures
            r@ == (DecoderView {
                format,
                width: width as int,
                height: height as int,
                reorder_depth: reorder_depth as int,
                pending: Seq::<RawFrameView>::empty(),
                eof: false,
            }),
            r@.wf(),
    {
        let r = Decoder { format, width, height, reorder_depth, pending: Vec::new(), eof: false };
        proof {
            assert(r@.pending =~= Seq::<RawFrameView>::empty());
        }
        r
    }

    /// Enqueue one packet's worth of compressed data. Succeeds exactly when
    /// the decoder is still accepting input and the payload is exactly one
    /// frame; the failure cases leave the decoder unchanged.
    pub fn send(&mut self, packet: CompressedPacket) -> (r: Result<(), VideoError>)
        requires
            old(self)@.wf(),
        ensures
            final(self)@.wf(),
            (final(self)@, r) == old(self)@.send_step(packet@),
    {
        if self.eof {
            return Err(VideoError::DecoderFlushed);
        }
        let expected: usize = self.expected_frame_size();
        if packet.data.len() != expected {
            return Err(VideoError::MalformedPacket);
        }
        let frame = RawFrame {
            format: self.format,
            width: self.width,
            height: self.height,
            data: packet.data,
            pts: packet.pts,
        };
        proof {
            assert(frame@ == old(self)@.decoded_frame(packet@));
        }
        self.pending.push(frame);
        proof {
            assert(self@.pending =~= old(self)@.pending.push(old(self)@.decoded_frame(packet@)));
            assert(self@ =~= old(self)@.send_step(packet@).0);
        }
        Ok(())
    }

    /// Tell the decoder no more input will arrive, so that buffered frames
    /// can be drained by subsequent receive attempts.
    pub fn send_eof(&mut self)
        requires
            old(self)@.wf(),
        ensures
            final(self)@.wf(),
            final(self)@ == old(self)@.eof_step(),
    {
        self.eof = true;
        proof {
            assert(self@ =~= old(self)@.eof_step());
        }
    }

    /// Non-blocking pull: the oldest buffered frame if one is ready, or
    /// nothing if the decoder needs more input first.
    pub fn try_receive_frame(&mut self) -> (r: Option<RawFrame>)
        requires
            old(self)@.wf(),
        ensures
            final(self)@.wf(),
            final(self)@ == old(self)@.receive_step().0,
            match r {
                Some(f) => old(self)@.receive_step().1 == Some(f@),
                None => old(self)@.receive_step().1 is None,
            },
    {
        let ready = self.pending.len() > 0 && (self.eof || self.pending.len()
            > self.reorder_depth);
        if ready {
            let f = self.pending.remove(0);
            proof {
                assert(self@.pending =~= old(self)@.pending.drop_first());
                assert(self@ =~= old(self)@.receive_step().0);
            }
            Some(f)
        } else {
            proof {
                assert(self@ =~= old(self)@.receive_step().0);
            }
            None
        }
    }

    /// The byte size of one frame of this stream.
    fn expected_frame_size(&self) -> (r: usize)
        requires
            self@.wf(),
        ensures
            r == frame_size(self@.format, self@.width, self@.height),
    {
        let w: usize = self.width as usize;
        let h: usize = self.height as usize;
        proof {
            let wi: int = self.width as int;
            let hi: int = self.height as int;
            assert(4 * wi * hi == 4 * (wi * hi)) by (nonlinear_arith);
            assert(0 <= wi * hi) by (nonlinear_arith)
                requires
                    wi >= 0,
                    hi >= 0,
            ;
        }
        let pixels: usize = w * h;
        match self.format {
            PixelFormat::Yuv420p => 3 * pixels / 2,
            _ => 4 * pixels,
        }
    }
}

} // verus!
