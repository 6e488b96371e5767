use aw_screenshot::clock::Timestamp;
use aw_screenshot::error::PipelineError;
use aw_screenshot::frame::{conclude_encoding, encode, EncodedFrame, RawFrame};

fn checkerboard(width: u32, height: u32) -> RawFrame {
    let mut pixels: Vec<u8> = Vec::new();
    for y in 0..height {
        for x in 0..width {
            let lit = (x + y) % 2 == 0;
            pixels.push(if lit { 255 } else { 0 });
            pixels.push((x * 40) as u8);
            pixels.push((y * 60) as u8);
            pixels.push(255);
        }
    }
    RawFrame { width, height, pixels }
}

const T: Timestamp = Timestamp { secs: 1_700_000_000, nanos: 123_456_789 };

#[test]
fn well_formed_frames_are_told_from_malformed_ones() {
    assert!(checkerboard(3, 2).is_well_formed());
    assert!(RawFrame { width: 0, height: 0, pixels: vec![] }.is_well_formed());
    assert!(RawFrame { width: 0, height: 7, pixels: vec![] }.is_well_formed());
    assert!(!RawFrame { width: 1, height: 1, pixels: vec![1, 2, 3] }.is_well_formed());
    assert!(!RawFrame { width: 1, height: 1, pixels: vec![1, 2, 3, 4, 5] }.is_well_formed());
    assert!(!RawFrame { width: 2, height: 2, pixels: vec![0; 15] }.is_well_formed());
    assert!(RawFrame { width: 2, height: 2, pixels: vec![0; 16] }.is_well_formed());
}

#[test]
fn huge_dimensions_do_not_wrap_around() {
    let frame = RawFrame { width: u32::MAX, height: u32::MAX, pixels: vec![0; 4] };
    assert!(!frame.is_well_formed());
    let frame = RawFrame { width: 1 << 31, height: 1 << 31, pixels: vec![] };
    assert!(!frame.is_well_formed());
}

#[test]
fn encode_writes_a_webp_file() {
    let frame = encode(&checkerboard(4, 3), 0, T).unwrap();
    assert_eq!(&frame.blob[0..4], b"RIFF");
    assert_eq!(&frame.blob[8..12], b"WEBP");
    assert_eq!(&frame.blob[12..16], b"VP8L");
    assert_eq!(frame.display, 0);
    assert_eq!(frame.captured_at, T);
}

#[test]
fn encode_is_lossless() {
    let raw = checkerboard(5, 4);
    let frame = encode(&raw, 2, T).unwrap();
    assert_ne!(frame.blob, raw.pixels);
    let decoded = image::load_from_memory_with_format(&frame.blob, image::ImageFormat::WebP)
        .unwrap()
        .to_rgba8();
    assert_eq!(decoded.width(), 5);
    assert_eq!(decoded.height(), 4);
    assert_eq!(decoded.into_raw(), raw.pixels);
}

#[test]
fn encode_is_deterministic() {
    let raw = checkerboard(6, 6);
    let first = encode(&raw, 1, T).unwrap();
    let second = encode(&raw, 1, T).unwrap();
    assert_eq!(first, second);
}

#[test]
fn encode_keeps_display_and_instant() {
    let at = Timestamp { secs: 42, nanos: 7 };
    let frame = encode(&checkerboard(1, 1), 9, at).unwrap();
    assert_eq!(frame.display, 9);
    assert_eq!(frame.captured_at, at);
    assert!(!frame.blob.is_empty());
}

#[test]
fn encode_rejects_a_mismatched_buffer() {
    let raw = RawFrame { width: 2, height: 2, pixels: vec![0; 15] };
    assert_eq!(
        encode(&raw, 4, T),
        Err(PipelineError::Encoding {
            display: 4,
            detail: "pixel buffer does not match the frame's dimensions".to_string(),
        })
    );
    let raw = RawFrame { width: 2, height: 2, pixels: vec![0; 17] };
    assert!(matches!(encode(&raw, 0, T), Err(PipelineError::Encoding { display: 0, .. })));
}

#[test]
fn encode_reports_what_the_encoder_refuses() {
    let empty = RawFrame { width: 0, height: 0, pixels: vec![] };
    match encode(&empty, 1, T) {
        Err(PipelineError::Encoding { display, detail }) => {
            assert_eq!(display, 1);
            assert!(detail.contains("Invalid dimensions"));
        }
        other => panic!("unexpected: {:?}", other),
    }
}

#[test]
fn encode_refuses_a_frame_wider_than_webp_allows() {
    let wide = RawFrame { width: 16385, height: 1, pixels: vec![0; 4 * 16385] };
    assert!(matches!(encode(&wide, 0, T), Err(PipelineError::Encoding { display: 0, .. })));
    let widest = RawFrame { width: 16384, height: 1, pixels: vec![0; 4 * 16384] };
    assert!(encode(&widest, 0, T).is_ok());
}

#[test]
fn conclude_encoding_wraps_both_outcomes() {
    assert_eq!(
        conclude_encoding(Ok(vec![1, 2, 3]), 5, T),
        Ok(EncodedFrame { blob: vec![1, 2, 3], display: 5, captured_at: T })
    );
    assert_eq!(
        conclude_encoding(Err("no".to_string()), 5, T),
        Err(PipelineError::Encoding { display: 5, detail: "no".to_string() })
    );
}
