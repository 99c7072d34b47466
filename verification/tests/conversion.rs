use movie_player::FrameConverter;
use movie_player::PixelFormat;
use movie_player::RawFrame;
use movie_player::VideoError;

fn raw(format: PixelFormat, width: u32, height: u32, data: Vec<u8>) -> RawFrame {
    RawFrame { format, width, height, data, pts: Some(7) }
}

#[test]
fn bgra_input_converts_to_itself() {
    // a 2x2 checkerboard already in the target format and dimensions:
    // white, red, red, white, as packed BGRA
    let checkerboard = vec![
        255, 255, 255, 255, 0, 0, 255, 255, //
        0, 0, 255, 255, 255, 255, 255, 255,
    ];
    let converter = FrameConverter::new(PixelFormat::Bgra, 2, 2).unwrap();
    let out = converter.convert(&raw(PixelFormat::Bgra, 2, 2, checkerboard.clone()));
    // the reference conversion of BGRA to BGRA is the identity
    assert_eq!(out.data, checkerboard);
    assert_eq!(out.width, 2);
    assert_eq!(out.height, 2);
    assert_eq!(out.pts, Some(7));
}

#[test]
fn rgba_input_is_repacked_exactly() {
    // a 2x2 checkerboard of known RGB values: white, red, red, white
    let rgba = vec![
        255, 255, 255, 255, 255, 0, 0, 255, //
        255, 0, 0, 255, 255, 255, 255, 255,
    ];
    // the reference conversion swaps R and B within every pixel
    let expected_bgra = vec![
        255, 255, 255, 255, 0, 0, 255, 255, //
        0, 0, 255, 255, 255, 255, 255, 255,
    ];
    let converter = FrameConverter::new(PixelFormat::Rgba, 2, 2).unwrap();
    let out = converter.convert(&raw(PixelFormat::Rgba, 2, 2, rgba));
    assert_eq!(out.data, expected_bgra);
    assert_eq!(out.pts, Some(7));
}

#[test]
fn converting_twice_through_bgra_is_stable() {
    let bytes = vec![1, 2, 3, 4, 5, 6, 7, 8];
    let converter = FrameConverter::new(PixelFormat::Bgra, 2, 1).unwrap();
    let once = converter.convert(&raw(PixelFormat::Bgra, 2, 1, bytes.clone()));
    let twice = converter.convert(&raw(PixelFormat::Bgra, 2, 1, once.data.clone()));
    assert_eq!(once.data, bytes);
    assert_eq!(twice.data, bytes);
}

#[test]
fn planar_format_negotiation_fails() {
    let r = FrameConverter::new(PixelFormat::Yuv420p, 2, 2);
    assert!(matches!(r, Err(VideoError::UnsupportedPixelFormat)));
}

#[test]
fn empty_frame_converts_to_empty() {
    let converter = FrameConverter::new(PixelFormat::Rgba, 0, 0).unwrap();
    let out = converter.convert(&raw(PixelFormat::Rgba, 0, 0, vec![]));
    assert!(out.data.is_empty());
}
