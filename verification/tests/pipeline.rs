use movie_player::CompressedPacket;
use movie_player::PixelFormat;
use movie_player::PlaybackState;
use movie_player::Player;
use movie_player::StreamInfo;
use movie_player::VideoError;
use movie_player::VideoPlayerMessage;
use movie_player::VideoProvider;

fn video_stream() -> Vec<StreamInfo> {
    vec![
        StreamInfo { index: 0, is_video: true },
        StreamInfo { index: 1, is_video: false },
    ]
}

fn packet(stream_index: usize, pts: i64, data: Vec<u8>) -> CompressedPacket {
    CompressedPacket { stream_index, pts: Some(pts), data }
}

#[test]
fn fresh_decoder_returns_no_frame() {
    let mut provider = VideoProvider::new(PixelFormat::Bgra, 1, 1, 0, 0).unwrap();
    assert_eq!(provider.next_frame(), Err(VideoError::CouldNotReadNextFrame));
    assert_eq!(provider.next_frame(), Err(VideoError::CouldNotReadNextFrame));
    let frame = provider.current_frame();
    assert_eq!(frame.width, 0);
    assert_eq!(frame.height, 0);
    assert!(frame.data.is_empty());
    assert_eq!(frame.pts, None);
    assert_eq!(provider.frame_count(), 0);
}

#[test]
fn other_stream_packet_is_discarded() {
    let mut provider = VideoProvider::new(PixelFormat::Bgra, 1, 1, 7, 0).unwrap();
    let before = provider.current_frame().data.clone();
    assert_eq!(provider.send_packet_to_decoder(packet(3, 10, vec![1, 2, 3, 4])), Ok(()));
    assert_eq!(provider.decoder.pending.len(), 0);
    assert!(!provider.decoder.eof);
    assert_eq!(provider.current_frame().data, before);
    assert_eq!(provider.frame_count(), 0);
}

#[test]
fn eof_drain_reaches_fixed_point() {
    let mut provider = VideoProvider::new(PixelFormat::Bgra, 1, 1, 0, 2).unwrap();
    assert_eq!(provider.send_packet_to_decoder(packet(0, 10, vec![1, 1, 1, 1])), Ok(()));
    assert_eq!(provider.send_packet_to_decoder(packet(0, 20, vec![2, 2, 2, 2])), Ok(()));
    // the reorder buffer holds both frames back until the flush
    assert_eq!(provider.next_frame(), Err(VideoError::CouldNotReadNextFrame));
    provider.send_eof_to_decoder();
    assert_eq!(provider.next_frame(), Ok(()));
    assert_eq!(provider.next_frame(), Ok(()));
    // fixed point within the number of buffered frames
    assert_eq!(provider.next_frame(), Err(VideoError::CouldNotReadNextFrame));
    assert_eq!(provider.next_frame(), Err(VideoError::CouldNotReadNextFrame));
    assert_eq!(provider.frame_count(), 2);
    assert_eq!(provider.current_frame().pts, Some(20));
}

#[test]
fn pause_freezes_frame_and_position() {
    let packets = vec![
        packet(0, 10, vec![1, 1, 1, 1]),
        packet(0, 20, vec![2, 2, 2, 2]),
    ];
    let mut player =
        Player::new(PixelFormat::Bgra, 1, 1, 0, &video_stream(), packets).unwrap();
    assert_eq!(player.update(VideoPlayerMessage::Play), Ok(()));
    // one tick feeds the first packet, the next installs the first frame
    assert_eq!(player.update(VideoPlayerMessage::Tick(1)), Ok(()));
    assert_eq!(player.update(VideoPlayerMessage::Tick(2)), Ok(()));
    assert_eq!(player.provider.frame_count(), 1);
    let frozen = player.current_frame().data.clone();
    let frozen_pts = player.current_frame().pts;

    assert_eq!(player.update(VideoPlayerMessage::Pause), Ok(()));
    for t in 0..10 {
        assert_eq!(player.update(VideoPlayerMessage::Tick(100 + t)), Ok(()));
    }
    assert_eq!(player.current_frame().data, frozen);
    assert_eq!(player.current_frame().pts, frozen_pts);
    assert_eq!(player.provider.frame_count(), 1);
    assert_eq!(player.source.packets.len(), 1);

    // resuming continues from the same position: the second frame comes
    // next, nothing was skipped or duplicated
    assert_eq!(player.update(VideoPlayerMessage::Play), Ok(()));
    assert_eq!(player.update(VideoPlayerMessage::Tick(200)), Ok(()));
    assert_eq!(player.update(VideoPlayerMessage::Tick(201)), Ok(()));
    assert_eq!(player.provider.frame_count(), 2);
    assert_eq!(player.current_frame().pts, Some(20));
}

#[test]
fn three_video_two_audio_yields_three_frames() {
    let packets = vec![
        packet(0, 10, vec![1, 1, 1, 1]),
        packet(1, 11, vec![9, 9]),
        packet(0, 20, vec![2, 2, 2, 2]),
        packet(1, 21, vec![9, 9]),
        packet(0, 30, vec![3, 3, 3, 3]),
    ];
    let mut player =
        Player::new(PixelFormat::Bgra, 1, 1, 0, &video_stream(), packets).unwrap();
    assert_eq!(player.update(VideoPlayerMessage::Play), Ok(()));
    // five packet-feeding ticks and three frame-installing ticks; every
    // outcome is Ok, so no audio payload ever reached the video decoder
    // (an audio payload is not one video frame and would be refused)
    for t in 0..8 {
        assert_eq!(player.update(VideoPlayerMessage::Tick(t)), Ok(()));
    }
    assert_eq!(player.provider.frame_count(), 3);
    assert_eq!(player.current_frame().pts, Some(30));
    assert_eq!(player.source.packets.len(), 0);
    assert_eq!(player.provider.decoder.pending.len(), 0);
}

#[test]
fn timestamps_never_regress_while_playing() {
    let packets = vec![
        packet(0, 5, vec![1, 1, 1, 1]),
        packet(1, 6, vec![9]),
        packet(0, 5, vec![2, 2, 2, 2]),
        packet(0, 12, vec![3, 3, 3, 3]),
    ];
    let mut player =
        Player::new(PixelFormat::Bgra, 1, 1, 0, &video_stream(), packets).unwrap();
    assert_eq!(player.update(VideoPlayerMessage::Play), Ok(()));
    let mut last_pts: Option<i64> = player.current_frame().pts;
    assert_eq!(last_pts, None);
    for t in 0..12 {
        assert_eq!(player.update(VideoPlayerMessage::Tick(t)), Ok(()));
        let pts = player.current_frame().pts;
        if let Some(previous) = last_pts {
            assert!(pts.expect("a frame was installed") >= previous);
        }
        last_pts = pts;
    }
    assert_eq!(player.provider.frame_count(), 3);
    assert_eq!(last_pts, Some(12));
}

#[test]
fn tick_while_stopped_is_a_no_op() {
    let packets = vec![packet(0, 10, vec![1, 1, 1, 1])];
    let mut player =
        Player::new(PixelFormat::Bgra, 1, 1, 0, &video_stream(), packets).unwrap();
    assert_eq!(player.controller.state, PlaybackState::Stopped);
    for t in 0..5 {
        assert_eq!(player.update(VideoPlayerMessage::Tick(t)), Ok(()));
    }
    assert_eq!(player.provider.frame_count(), 0);
    assert_eq!(player.source.packets.len(), 1);
    assert_eq!(player.provider.decoder.pending.len(), 0);
    assert!(player.current_frame().data.is_empty());
}

#[test]
fn intents_move_the_state_machine() {
    let mut player =
        Player::new(PixelFormat::Bgra, 1, 1, 0, &video_stream(), vec![]).unwrap();
    // Pause pauses actual playback only
    assert_eq!(player.update(VideoPlayerMessage::Pause), Ok(()));
    assert_eq!(player.controller.state, PlaybackState::Stopped);
    assert_eq!(player.update(VideoPlayerMessage::Play), Ok(()));
    assert_eq!(player.controller.state, PlaybackState::Playing);
    assert_eq!(player.update(VideoPlayerMessage::Pause), Ok(()));
    assert_eq!(player.controller.state, PlaybackState::Paused);
    assert_eq!(player.update(VideoPlayerMessage::Play), Ok(()));
    assert_eq!(player.controller.state, PlaybackState::Playing);
    assert_eq!(player.update(VideoPlayerMessage::Stop), Ok(()));
    assert_eq!(player.controller.state, PlaybackState::Stopped);
}

#[test]
fn no_video_stream_is_a_startup_error() {
    let streams = vec![
        StreamInfo { index: 0, is_video: false },
        StreamInfo { index: 1, is_video: false },
    ];
    let r = Player::new(PixelFormat::Bgra, 1, 1, 0, &streams, vec![]);
    assert!(matches!(r, Err(VideoError::NoVideoStream)));
}

#[test]
fn unsupported_pixel_format_is_a_startup_error() {
    let r = Player::new(PixelFormat::Yuv420p, 2, 2, 0, &video_stream(), vec![]);
    assert!(matches!(r, Err(VideoError::UnsupportedPixelFormat)));
}

#[test]
fn best_video_stream_is_the_first_video_track() {
    let streams = vec![
        StreamInfo { index: 5, is_video: false },
        StreamInfo { index: 9, is_video: true },
        StreamInfo { index: 2, is_video: true },
    ];
    let player = Player::new(PixelFormat::Bgra, 1, 1, 0, &streams, vec![]).unwrap();
    assert_eq!(player.source.video_stream_index(), 9);
}

#[test]
fn malformed_packet_is_propagated() {
    // a 2x2 BGRA frame is exactly 16 bytes; 15 are refused
    let mut provider = VideoProvider::new(PixelFormat::Bgra, 2, 2, 0, 0).unwrap();
    assert_eq!(
        provider.send_packet_to_decoder(packet(0, 1, vec![0; 15])),
        Err(VideoError::MalformedPacket)
    );
    assert_eq!(provider.decoder.pending.len(), 0);
    assert_eq!(provider.send_packet_to_decoder(packet(0, 1, vec![0; 16])), Ok(()));
    assert_eq!(provider.decoder.pending.len(), 1);
}

#[test]
fn malformed_packet_surfaces_through_a_tick() {
    let packets = vec![packet(0, 10, vec![1, 2, 3])];
    let mut player =
        Player::new(PixelFormat::Bgra, 1, 1, 0, &video_stream(), packets).unwrap();
    assert_eq!(player.update(VideoPlayerMessage::Play), Ok(()));
    assert_eq!(
        player.update(VideoPlayerMessage::Tick(1)),
        Err(VideoError::MalformedPacket)
    );
    assert_eq!(player.provider.frame_count(), 0);
}

#[test]
fn send_after_end_of_stream_is_refused() {
    let mut provider = VideoProvider::new(PixelFormat::Bgra, 1, 1, 0, 0).unwrap();
    provider.send_eof_to_decoder();
    assert_eq!(
        provider.send_packet_to_decoder(packet(0, 1, vec![1, 2, 3, 4])),
        Err(VideoError::DecoderFlushed)
    );
}

#[test]
fn decoded_frame_reaches_the_presenter_converted() {
    // one RGBA pixel decoded and installed: the presenter sees BGRA bytes
    let packets = vec![packet(0, 42, vec![10, 20, 30, 40])];
    let mut player =
        Player::new(PixelFormat::Rgba, 1, 1, 0, &video_stream(), packets).unwrap();
    assert_eq!(player.update(VideoPlayerMessage::Play), Ok(()));
    assert_eq!(player.update(VideoPlayerMessage::Tick(1)), Ok(()));
    assert_eq!(player.update(VideoPlayerMessage::Tick(2)), Ok(()));
    assert_eq!(player.current_frame().data, vec![30, 20, 10, 40]);
    assert_eq!(player.current_frame().pts, Some(42));
    assert_eq!(player.current_frame().width, 1);
    assert_eq!(player.current_frame().height, 1);
}
