//! The laws of the player over whole event sequences: well-formedness and
//! presentation order are preserved by every step, the installed frame's
//! timestamp never regresses while playing a well-formed stream, ticks
//! while not playing change nothing at all, and after the end-of-stream
//! signal the advance attempts reach a fixed point within the number of
//! buffered frames.

use vstd::prelude::*;
use crate::decode::PacketView;
use crate::error::VideoError;
use crate::frame::frame_size;
use crate::player::player_run;
use crate::player::player_step;
use crate::player::PlayerView;
use crate::player::VideoPlayerMessage;
use crate::provider::lemma_advance_monotone;
use crate::provider::lemma_feed_monotone;
use crate::provider::lemma_pts_le_trans;
use crate::provider::pts_le;
use crate::provider::ProviderView;

verus! {

/// The packets still to be delivered form a well-formed stream for the
/// bound video track: every packet of that track carries a timestamp no
/// earlier than `floor` and no earlier than any video packet before it.
/// Packets of other streams are unconstrained.
pub open spec fn packets_in_order(packets: Seq<PacketView>, vindex: int, floor: Option<i64>) -> bool
    decreases packets.len(),
{
    if packets.len() == 0 {
        true
    } else if packets[0].stream_index == vindex {
        pts_le(floor, packets[0].pts) && packets_in_order(
            packets.drop_first(),
            vindex,
            packets[0].pts,
        )
    } else {
        packets_in_order(packets.drop_first(), vindex, floor)
    }
}

/// Lowering the floor keeps a stream well ordered.
pub proof fn lemma_packets_in_order_weaken(
    packets: Seq<PacketView>,
    vindex: int,
    f1: Option<i64>,
    f2: Option<i64>,
)
    requires
        pts_le(f1, f2),
        packets_in_order(packets, vindex, f2),
    ensures
        packets_in_order(packets, vindex, f1),
    decreases packets.len(),
{
    if packets.len() > 0 {
        if packets[0].stream_index == vindex {
            lemma_pts_le_trans(f1, f2, packets[0].pts);
        } else {
            lemma_packets_in_order_weaken(packets.drop_first(), vindex, f1, f2);
        }
    }
}

/// The player holds a well-formed stream: timestamps accepted so far never
/// regress, and the packets still in the source continue in presentation
/// order from the newest accepted timestamp.
pub open spec fn well_ordered(v: PlayerView) -> bool {
    &&& v.provider.monotone_ok()
    &&& packets_in_order(
        v.source.packets,
        v.source.video_stream_index,
        v.provider.tail_pts(),
    )
}

/// Every message preserves well-formedness of the player.
pub proof fn lemma_step_wf(v: PlayerView, m: VideoPlayerMessage)
    requires
        v.wf(),
    ensures
        player_step(v, m).0.wf(),
{
    let q = player_step(v, m).0;
    if m is Tick && v.state is Playing {
        if v.provider.dec.frame_ready() {
            let p = v.provider;
            let f = p.dec.pending[0];
            assert(f.wf());
            assert(forall|i: int|
                0 <= i < q.provider.dec.pending.len() ==> #[trigger] q.provider.dec.pending[i]
                    == p.dec.pending[i + 1]);
            assert(q.provider.current.data.len() == frame_size(f.format, f.width, f.height));
            assert(q.provider.current.wf());
        } else if v.source.packets.len() > 0 {
            let pk = v.source.packets[0];
            let p = v.provider;
            if pk.stream_index == p.video_stream_index && p.dec.send_step(pk).1 is Ok {
                assert(forall|i: int|
                    0 <= i < p.dec.pending.len() ==> #[trigger] q.provider.dec.pending[i]
                        == p.dec.pending[i]);
                assert(q.provider.dec.pending.last() == p.dec.decoded_frame(pk));
                assert(q.provider.dec.wf());
            }
        }
    }
}

/// Every message preserves the well-formed-stream invariant, and the
/// installed frame's timestamp never moves backwards.
#[verifier::rlimit(60)]
pub proof fn lemma_step_monotone(v: PlayerView, m: VideoPlayerMessage)
    requires
        v.wf(),
        well_ordered(v),
    ensures
        well_ordered(player_step(v, m).0),
        pts_le(v.provider.current.pts, player_step(v, m).0.provider.current.pts),
{
    let q = player_step(v, m).0;
    if m is Tick && v.state is Playing {
        let p = v.provider;
        if p.dec.frame_ready() {
            lemma_advance_monotone(p);
        } else if v.source.packets.len() > 0 {
            let pk = v.source.packets[0];
            let rest = v.source.packets.drop_first();
            if pk.stream_index == p.video_stream_index {
                lemma_feed_monotone(p, pk);
                if p.dec.send_step(pk).1 is Ok {
                    assert(packets_in_order(rest, v.source.video_stream_index, pk.pts));
                } else {
                    lemma_packets_in_order_weaken(
                        rest,
                        v.source.video_stream_index,
                        p.tail_pts(),
                        pk.pts,
                    );
                }
            }
        }
    }
}

/// Monotonic presentation order: over any sequence of messages — however
/// ticks, intents, packet feeds and the end-of-stream signal interleave —
/// a well-formed player on a well-formed stream never installs a frame with
/// an earlier timestamp than the frame it replaces.
#[verifier::rlimit(60)]
pub proof fn lemma_run_monotone(v: PlayerView, msgs: Seq<VideoPlayerMessage>)
    requires
        v.wf(),
        well_ordered(v),
    ensures
        player_run(v, msgs).wf(),
        well_ordered(player_run(v, msgs)),
        pts_le(v.provider.current.pts, player_run(v, msgs).provider.current.pts),
    decreases msgs.len(),
{
    if msgs.len() > 0 {
        let v1 = player_step(v, msgs[0]).0;
        lemma_step_wf(v, msgs[0]);
        lemma_step_monotone(v, msgs[0]);
        lemma_run_monotone(v1, msgs.drop_first());
        lemma_pts_le_trans(
            v.provider.current.pts,
            v1.provider.current.pts,
            player_run(v, msgs).provider.current.pts,
        );
    }
}

/// Pausing freezes everything: while the player is not playing, any number
/// of ticks leaves the whole player — current frame, decoder position,
/// counter and source position — exactly as it was, so resuming continues
/// from the same place with a bit-identical frame.
pub proof fn lemma_ticks_while_not_playing_noop(v: PlayerView, msgs: Seq<VideoPlayerMessage>)
    requires
        !(v.state is Playing),
        forall|i: int| 0 <= i < msgs.len() ==> (#[trigger] msgs[i]) is Tick,
    ensures
        player_run(v, msgs) == v,
    decreases msgs.len(),
{
    if msgs.len() > 0 {
        assert(player_step(v, msgs[0]).0 == v);
        assert(forall|i: int|
            0 <= i < msgs.drop_first().len() ==> (#[trigger] msgs.drop_first()[i]) == msgs[i + 1]);
        lemma_ticks_while_not_playing_noop(v, msgs.drop_first());
    }
}

/// The provider after `n` advance attempts with no further input.
pub open spec fn advance_n(p: ProviderView, n: nat) -> ProviderView
    decreases n,
{
    if n == 0 {
        p
    } else {
        advance_n(p.advance_step().0, (n - 1) as nat)
    }
}

/// After the end-of-stream signal has reached the decoder, repeated advance
/// attempts stop producing new frames within as many calls as the decoder
/// had buffered: from then on every attempt returns `CouldNotReadNextFrame`
/// and changes nothing — a fixed point.
pub proof fn lemma_drain_after_flush(p: ProviderView, n: nat)
    requires
        p.dec.eof,
        n >= p.dec.pending.len(),
    ensures
        advance_n(p, n).dec.pending.len() == 0,
        advance_n(p, n).advance_step() == (
            advance_n(p, n),
            Err::<(), VideoError>(VideoError::CouldNotReadNextFrame),
        ),
    decreases n,
{
    if n > 0 {
        let p1 = p.advance_step().0;
        assert(p1.dec.eof);
        lemma_drain_after_flush(p1, (n - 1) as nat);
    }
}

} // verus!
