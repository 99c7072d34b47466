//! The playback state machine and the tick-driven player loop. User
//! intents (Play, Pause, Stop) move the state machine; the periodic tick
//! drives the pull protocol only while playing: one advance attempt, and on
//! "no frame available" one packet pulled from the source and routed to the
//! provider, or the end-of-stream signal once the source is exhausted.

use vstd::prelude::*;
use crate::decode::CompressedPacket;
use crate::error::VideoError;
use crate::frame::PixelFormat;
use crate::provider::initial_provider;
use crate::provider::ProviderView;
use crate::provider::VideoProvider;
use crate::source::first_video_pos;
use crate::source::has_video_stream;
use crate::source::PacketSource;
use crate::source::SourceView;
use crate::source::StreamInfo;

verus! {

/// The discrete events the player consumes: the three user intents and the
/// periodic tick, tagged with the tick's timestamp in microseconds (the
/// player only needs the tick's occurrence, not its value).
#[derive(Debug, Clone, Copy, PartialEq, Eq, Structural)]
pub enum VideoPlayerMessage {
    Play,
    Pause,
    Stop,
    Tick(u64),
}

/// The playback states.
#[derive(Debug, Clone, Copy, PartialEq, Eq, Structural)]
pub enum PlaybackState {
    Stopped,
    Playing,
    Paused,
}

/// How an intent moves the state machine: Play starts from anywhere, Pause
/// only pauses actual playback, Stop stops from anywhere, and a tick leaves
/// the state alone.
pub open spec fn state_step(s: PlaybackState, m: VideoPlayerMessage) -> PlaybackState {
    match m {
        VideoPlayerMessage::Play => PlaybackState::Playing,
        VideoPlayerMessage::Pause => if s is Playing {
            PlaybackState::Paused
        } else {
            s
        },
        VideoPlayerMessage::Stop => PlaybackState::Stopped,
        VideoPlayerMessage::Tick(_) => s,
    }
}

/// The playback state machine: interprets user intents and decides whether
/// the provider may advance on a tick.
pub struct PlaybackController {
    pub state: PlaybackState,
}

impl PlaybackController {
    /// A new controller starts stopped.
    pub fn new() -> (r: PlaybackController)
        ensures
            r.state is Stopped,
    {
        PlaybackController { state: PlaybackState::Stopped }
    }

    /// Apply one message to the state machine.
    pub fn apply(&mut self, message: VideoPlayerMessage)
        ensures
            final(self).state == state_step(old(self).state, message),
    {
        match message {
            VideoPlayerMessage::Play => {
                self.state = PlaybackState::Playing;
            },
            VideoPlayerMessage::Pause => {
                if self.is_playing() {
                    self.state = PlaybackState::Paused;
                }
            },
            VideoPlayerMessage::Stop => {
                self.state = PlaybackState::Stopped;
            },
            VideoPlayerMessage::Tick(_) => {},
        }
    }

    /// The pull protocol runs only while playing.
    pub fn is_playing(&self) -> (r: bool)
        ensures
            r == (self.state is Playing),
    {
        match self.state {
            PlaybackState::Playing => true,
            _ => false,
        }
    }
}

/// Mathematical view of a `Player`.
#[verifier::ext_equal]
pub ghost struct PlayerView {
    pub state: PlaybackState,
    pub provider: ProviderView,
    pub source: SourceView,
}

impl PlayerView {
    /// The provider is well formed and is bound to the same video stream
    /// the source selected.
    pub open spec fn wf(self) -> bool {
        &&& self.provider.wf()
        &&& self.provider.video_stream_index == self.source.video_stream_index
    }
}

/// What one tick does. Not playing: nothing. Playing: one advance attempt;
/// when no frame was available, one packet leaves the source and is routed
/// through the stream filter to the decoder, or the end-of-stream signal is
/// sent once the source is exhausted. A decoder send failure is propagated.
pub open spec fn tick_step(v: PlayerView) -> (PlayerView, Result<(), VideoError>) {
    if !(v.state is Playing) {
        (v, Ok(()))
    } else if v.provider.dec.frame_ready() {
        (PlayerView { provider: v.provider.advance_step().0, ..v }, Ok(()))
    } else if v.source.packets.len() > 0 {
        let pk = v.source.packets[0];
        let rest = SourceView { packets: v.source.packets.drop_first(), ..v.source };
        (PlayerView { provider: v.provider.feed_step(pk).0, source: rest, ..v },
        v.provider.feed_step(pk).1)
    } else {
        (PlayerView { provider: v.provider.flush_step(), ..v }, Ok(()))
    }
}

/// What one message does: intents move the state machine and touch nothing
/// else; ticks run the pull protocol.
pub open spec fn player_step(v: PlayerView, m: VideoPlayerMessage) -> (PlayerView, Result<
    (),
    VideoError,
>) {
    match m {
        VideoPlayerMessage::Tick(_) => tick_step(v),
        _ => (PlayerView { state: state_step(v.state, m), ..v }, Ok(())),
    }
}

/// The player after a whole sequence of messages.
pub open spec fn player_run(v: PlayerView, msgs: Seq<VideoPlayerMessage>) -> PlayerView
    decreases msgs.len(),
{
    if msgs.len() == 0 {
        v
    } else {
        player_run(player_step(v, msgs[0]).0, msgs.drop_first())
    }
}

/// The whole player: state machine, provider, and packet source.
pub struct Player {
    pub controller: PlaybackController,
    pub provider: VideoProvider,
    pub source: PacketSource,
}

impl View for Player {
    type V = PlayerView;

    open spec fn view(&self) -> PlayerView {
        PlayerView { state: self.controller.state, provider: self.provider@, source: self.source@ }
    }
}

impl Player {
    /// Open a player on a container: bind to its best video stream and
    /// configure the decoding pipeline for that stream's parameters. Both
    /// failure cases are startup-fatal: a container without a video track,
    /// and a source pixel format the converter cannot repack.
    pub fn new(
        format: PixelFormat,
        width: u32,
        height: u32,
        reorder_depth: usize,
        streams: &Vec<StreamInfo>,
        packets: Vec<CompressedPacket>,
    ) -> (r: Result<Player, VideoError>)
        requires
            4 * (width as int) * (height as int) <= usize::MAX,
        ensures
            !has_video_stream(streams@) ==> r === Err(VideoError::NoVideoStream),
            has_video_stream(streams@) && !crate::convert::supported_source_format(format)
                ==> r === Err(VideoError::UnsupportedPixelFormat),
            has_video_stream(streams@) && crate::convert::supported_source_format(format) ==> (
            r matches Ok(p) && {
                &&& p@.wf()
                &&& p@.state is Stopped
                &&& p@.provider == initial_provider(
                    format,
                    width as int,
                    height as int,
                    streams@[first_video_pos(streams@)].index as int,
                    reorder_depth as int,
                )
                &&& p@.source.packets == Seq::new(packets@.len(), |i: int| packets@[i]@)
            }),
    {
        let source = match PacketSource::new(streams, packets) {
            Ok(s) => s,
            Err(e) => {
                return Err(e);
            },
        };
        let provider = match VideoProvider::new(
            format,
            width,
            height,
            source.video_stream_index(),
            reorder_depth,
        ) {
            Ok(p) => p,
            Err(e) => {
                return Err(e);
            },
        };
        Ok(Player { controller: PlaybackController::new(), provider, source })
    }

    /// Consume one message. Intents only move the state machine; a tick
    /// while not playing is a no-op (the current frame stays bit-identical
    /// and the decoder position is kept); a tick while playing performs one
    /// step of the pull protocol. The only error ever surfaced is a decoder
    /// send failure on a packet of the bound video stream.
    pub fn update(&mut self, message: VideoPlayerMessage) -> (r: Result<(), VideoError>)
        requires
            old(self)@.wf(),
            message is Tick ==> old(self).provider.frame_count < usize::MAX,
        ensures
            final(self)@.wf(),
            (final(self)@, r) == player_step(old(self)@, message),
            message is Tick && !(old(self)@.state is Playing) ==> r is Ok && final(self)@
                == old(self)@,
            !(message is Tick) ==> r is Ok && final(self)@.provider == old(self)@.provider
                && final(self)@.source == old(self)@.source && final(self)@.state == state_step(
                old(self)@.state,
                message,
            ),
    {
        match message {
            VideoPlayerMessage::Tick(_) => {
                if !self.controller.is_playing() {
                    return Ok(());
                }
                match self.provider.next_frame() {
                    Ok(()) => {
                        proof {
                            assert(self@ =~= player_step(old(self)@, message).0);
                        }
                        Ok(())
                    },
                    Err(_) => {
                        match self.source.next() {
                            Some(packet) => {
                                let r = self.provider.send_packet_to_decoder(packet);
                                proof {
                                    assert(self@ =~= player_step(old(self)@, message).0);
                                }
                                r
                            },
                            None => {
                                self.provider.send_eof_to_decoder();
                                proof {
                                    assert(self@ =~= player_step(old(self)@, message).0);
                                }
                                Ok(())
                            },
                        }
                    },
                }
            },
            _ => {
                self.controller.apply(message);
                proof {
                    assert(self@ =~= player_step(old(self)@, message).0);
                }
                Ok(())
            },
        }
    }

    /// Read-only access to the current presentation frame.
    pub fn current_frame(&self) -> (r: &crate::frame::PresentationFrame)
        ensures
            r@ == self@.provider.current,
    {
        self.provider.current_frame()
    }
}

} // verus!
