//! The packet source: the demultiplexer boundary, modeled as the plain
//! values the pipeline reads from it. It yields packets in container order
//! and identifies the container's designated best video stream, chosen once
//! at construction.

use vstd::prelude::*;
use crate::decode::CompressedPacket;
use crate::decode::PacketView;
use crate::error::VideoError;

verus! {

/// What the pipeline reads of one container stream: its index and whether
/// it is a video track.
#[derive(Clone, Copy, Debug, PartialEq, Eq, Structural)]
pub struct StreamInfo {
    pub index: usize,
    pub is_video: bool,
}

/// The container has at least one video track.
pub open spec fn has_video_stream(streams: Seq<StreamInfo>) -> bool {
    exists|i: int| 0 <= i < streams.len() && (#[trigger] streams[i]).is_video
}

/// Position of the designated best video stream: the first video track in
/// the container's stream list.
pub open spec fn first_video_pos(streams: Seq<StreamInfo>) -> int
    decreases streams.len(),
{
    if streams.len() == 0 {
        0
    } else if streams[0].is_video {
        0
    } else {
        1 + first_video_pos(streams.drop_first())
    }
}

/// If no stream before position `i` is a video track and the stream at `i`
/// is one, then `i` is the designated position.
proof fn lemma_first_video_pos_at(streams: Seq<StreamInfo>, i: int)
    requires
        0 <= i < streams.len(),
        forall|j: int| 0 <= j < i ==> !(#[trigger] streams[j]).is_video,
        streams[i].is_video,
    ensures
        first_video_pos(streams) == i,
    decreases i,
{
    if i > 0 {
        let rest = streams.drop_first();
        assert(forall|j: int| 0 <= j < i - 1 ==> #[trigger] rest[j] == streams[j + 1]);
        lemma_first_video_pos_at(rest, i - 1);
    }
}

/// Mathematical view of a `PacketSource`: the packets not yet delivered, in
/// container order, and the chosen video stream index.
#[verifier::ext_equal]
pub ghost struct SourceView {
    pub packets: Seq<PacketView>,
    pub video_stream_index: int,
}

/// Sequential access to a demultiplexed container: packets in delivery
/// order, plus the video stream index resolved once at construction.
pub struct PacketSource {
    pub packets: Vec<CompressedPacket>,
    pub video_stream_index: usize,
}

impl View for PacketSource {
    type V = SourceView;

    open spec fn view(&self) -> SourceView {
        SourceView {
            packets: Seq::new(self.packets@.len(), |i: int| self.packets@[i]@),
            video_stream_index: self.video_stream_index as int,
        }
    }
}

impl PacketSource {
    /// Open a container: bind to its designated best video stream, or fail
    /// at startup when the container has no video track at all.
    pub fn new(streams: &Vec<StreamInfo>, packets: Vec<CompressedPacket>) -> (r: Result<
        PacketSource,
        VideoError,
    >)
        ensures
            has_video_stream(streams@) ==> (r matches Ok(s) && {
                &&& s@.video_stream_index == streams@[first_video_pos(streams@)].index
                &&& s@.packets == Seq::new(packets@.len(), |i: int| packets@[i]@)
            }),
            !has_video_stream(streams@) ==> r === Err(VideoError::NoVideoStream),
    {
        let n: usize = streams.len();
        let mut i: usize = 0;
        while i < n
            invariant
                i <= n,
                n == streams@.len(),
                forall|j: int| 0 <= j < i ==> !(#[trigger] streams@[j]).is_video,
            decreases n - i,
        {
            if streams[i].is_video {
                proof {
                    lemma_first_video_pos_at(streams@, i as int);
                }
                return Ok(
                    PacketSource { packets, video_stream_index: streams[i].index },
                );
            }
            i = i + 1;
        }
        Err(VideoError::NoVideoStream)
    }

    /// The next packet in container order, or nothing at end of input.
    pub fn next(&mut self) -> (r: Option<CompressedPacket>)
        ensures
            final(self)@.video_stream_index == old(self)@.video_stream_index,
            old(self)@.packets.len() > 0 ==> (r matches Some(p) && p@ == old(self)@.packets[0]
                && final(self)@.packets == old(self)@.packets.drop_first()),
            old(self)@.packets.len() == 0 ==> r is None && final(self)@ == old(self)@,
    {
        if self.packets.len() > 0 {
            let p = self.packets.remove(0);
            proof {
                assert(self@.packets =~= old(self)@.packets.drop_first());
            }
            Some(p)
        } else {
            None
        }
    }

    /// The stream index of the bound video track.
    pub fn video_stream_index(&self) -> (r: usize)
        ensures
            r == self@.video_stream_index,
    {
        self.video_stream_index
    }
}

} // verus!
