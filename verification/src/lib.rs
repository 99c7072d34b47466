//! A verified core for a tick-driven video playback pipeline.
//!
//! The crate models the data path of a single-stream movie player: a packet
//! source yields demultiplexed compressed packets, a stateful decoder turns
//! them into raw frames, a converter repacks each raw frame into the fixed
//! presentation pixel format, and a playback state machine decides on every
//! periodic tick whether the pipeline may advance. Each component carries a
//! mathematical view and a contract; the player-level step function ties the
//! components together so that properties of whole tick sequences can be
//! proved, not just single calls.

mod convert;
mod decode;
mod error;
mod frame;
mod laws;
mod player;
mod provider;
mod source;

pub use frame::frame_size;
pub use frame::PixelFormat;
pub use frame::PresentationFrame;
pub use frame::PresentationFrameView;
pub use frame::RawFrame;
pub use frame::RawFrameView;

pub use error::VideoError;

pub use convert::convert_bytes;
pub use convert::converted_byte;
pub use convert::converted_view;
pub use convert::lemma_convert_identity;
pub use convert::supported_source_format;
pub use convert::FrameConverter;

pub use decode::lemma_eof_drain_fixed_point;
pub use decode::lemma_fresh_decoder_not_ready;
pub use decode::CompressedPacket;
pub use decode::Decoder;
pub use decode::DecoderView;
pub use decode::PacketView;

pub use source::first_video_pos;
pub use source::has_video_stream;
pub use source::PacketSource;
pub use source::SourceView;
pub use source::StreamInfo;

pub use provider::initial_provider;
pub use provider::lemma_advance_monotone;
pub use provider::lemma_advance_on_empty;
pub use provider::lemma_feed_monotone;
pub use provider::lemma_pts_le_trans;
pub use provider::pending_sorted;
pub use provider::pts_le;
pub use provider::ProviderView;
pub use provider::VideoProvider;

pub use player::player_run;
pub use player::player_step;
pub use player::state_step;
pub use player::tick_step;
pub use player::PlaybackController;
pub use player::PlaybackState;
pub use player::Player;
pub use player::PlayerView;
pub use player::VideoPlayerMessage;

pub use laws::advance_n;
pub use laws::lemma_drain_after_flush;
pub use laws::lemma_packets_in_order_weaken;
pub use laws::lemma_run_monotone;
pub use laws::lemma_step_monotone;
pub use laws::lemma_step_wf;
pub use laws::lemma_ticks_while_not_playing_noop;
pub use laws::packets_in_order;
pub use laws::well_ordered;
