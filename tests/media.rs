use classroom::capture::{tick_interval_ms, CapturePipeline};
use classroom::media::{
    audio_frame, bgra_to_rgb, bgra_to_u32, decode_frame, encode_capture, le_to_samples,
    packet_samples, playback, rgb_to_u32, samples_to_le, student_frame, teacher_frame,
    AudioPacketizer, CaptureError,
};
use classroom::message::{AudioFrame, BroadcastMode, BroadcastSource, VideoCodec, VideoFrame};
use classroom::net::FramedStream;

#[test]
fn bgra_becomes_rgb_whole_pixels_only() {
    assert_eq!(bgra_to_rgb(&vec![1, 2, 3, 4, 5, 6, 7, 8, 9]), vec![3, 2, 1, 7, 6, 5]);
    assert_eq!(bgra_to_rgb(&vec![]), Vec::<u8>::new());
}

#[test]
fn pixels_pack_as_rgb_words() {
    assert_eq!(rgb_to_u32(&vec![0x12, 0x34, 0x56, 0xff]), vec![0x123456]);
    assert_eq!(bgra_to_u32(&vec![0x56, 0x34, 0x12, 0xff, 1, 2, 3, 4]), vec![0x123456, 0x030201]);
}

#[test]
fn capture_is_jpeg_encoded_and_decodes_back() {
    let (w, h) = (16u32, 8u32);
    let raw: Vec<u8> = (0..w * h).flat_map(|_| [200u8, 100, 50, 255]).collect();
    let jpeg = encode_capture(&raw, w, h, 90).unwrap();
    assert_ne!(jpeg, raw);
    assert_eq!(&jpeg[..2], &[0xff, 0xd8]);
    let frame = teacher_frame(1, 2, BroadcastMode::Window, w, h, jpeg);
    assert_eq!(frame.codec, VideoCodec::Jpeg);
    assert!(!frame.fullscreen);
    let (pixels, dw, dh) = decode_frame(&frame).unwrap();
    assert_eq!((dw, dh), (16, 8));
    assert_eq!(pixels.len(), 128);
    let p = pixels[40];
    let (r, g, b) = ((p >> 16) as i32, ((p >> 8) & 0xff) as i32, (p & 0xff) as i32);
    assert!((r - 50).abs() < 12 && (g - 100).abs() < 12 && (b - 200).abs() < 12);
}

#[test]
fn capture_of_wrong_size_is_refused() {
    assert_eq!(encode_capture(&vec![0; 12], 2, 2, 75), Err(CaptureError::SizeMismatch));
    assert_eq!(encode_capture(&vec![0; 16], 1, 3, 75), Err(CaptureError::SizeMismatch));
}

#[test]
fn garbage_jpeg_fails_to_decode() {
    let frame = VideoFrame { frame_id: 1, timestamp_ms: 0, source: BroadcastSource::Teacher, codec: VideoCodec::Jpeg, width: 1, height: 1, fullscreen: true, data: vec![1, 2, 3] };
    assert!(decode_frame(&frame).is_err());
    let bgra = VideoFrame { codec: VideoCodec::Bgra, data: vec![3, 2, 1, 0], ..frame };
    assert_eq!(decode_frame(&bgra).unwrap(), (vec![0x010203], 1, 1));
}

#[test]
fn student_frames_carry_their_source() {
    let f = student_frame(7, 8, "S1".to_string(), "Ann".to_string(), 4, 3, vec![1]);
    assert_eq!(f.source, BroadcastSource::Student { student_id: "S1".to_string(), student_name: Some("Ann".to_string()) });
    assert!(f.fullscreen);
    assert_eq!(f.frame_id, 7);
}

#[test]
fn ticker_period() {
    assert_eq!(tick_interval_ms(12), 83);
    assert_eq!(tick_interval_ms(60), 16);
    assert_eq!(tick_interval_ms(1000), 16);
    assert_eq!(tick_interval_ms(1), 1000);
    assert_eq!(tick_interval_ms(0), u64::MAX);
}

#[test]
fn pipeline_start_is_idempotent() {
    let mut p = CapturePipeline::new();
    assert!(!p.is_running());
    assert!(p.start());
    assert!(!p.start());
    assert!(p.is_running());
    assert_eq!(p.next_frame_id(), Some(1));
    assert!(p.stop());
    assert!(!p.stop());
    assert_eq!(p.next_frame_id(), Some(2));
}

#[test]
fn samples_round_trip_little_endian() {
    let s = [0i16, 1, -1, i16::MAX, i16::MIN, 258];
    let b = samples_to_le(&s);
    assert_eq!(&b[..6], &[0, 0, 1, 0, 0xff, 0xff]);
    assert_eq!(&b[10..], &[2, 1]);
    assert_eq!(le_to_samples(&b), s.to_vec());
    assert_eq!(le_to_samples(&vec![1, 0, 9]), vec![1]);
}

#[test]
fn packetizer_keeps_leftovers() {
    assert_eq!(packet_samples(48000, 2), 1920);
    assert_eq!(packet_samples(10, 3), 3);
    let mut p = AudioPacketizer::new(3);
    assert!(p.push(&[1, 2]).is_empty());
    let out = p.push(&[3, 4, 5, 6, 7]);
    assert_eq!(out, vec![samples_to_le(&[1, 2, 3]), samples_to_le(&[4, 5, 6])]);
    let out = p.push(&[8, 9]);
    assert_eq!(out, vec![samples_to_le(&[7, 8, 9])]);
}

#[test]
fn playback_rules() {
    let f = AudioFrame { frame_id: 1, timestamp_ms: 0, sample_rate: 8000, channels: 2, force_play: false, data: vec![1, 0, 2, 0] };
    assert_eq!(playback(false, 2, &f), (false, Some(vec![1, 2])));
    assert_eq!(playback(true, 2, &f), (true, None));
    assert_eq!(playback(false, 1, &f), (false, None));
    let forced = AudioFrame { force_play: true, ..f };
    assert_eq!(playback(true, 2, &forced), (false, Some(vec![1, 2])));
    let a = audio_frame(3, 4, 44100, 258, true, vec![9]);
    assert_eq!(a.channels, 2);
    assert!(a.force_play);
}

#[test]
fn framed_stream_returns_its_transport() {
    let s: FramedStream<Vec<u8>> = FramedStream::new(vec![1, 2]);
    assert_eq!(s.into_inner(), vec![1, 2]);
}

#[test]
fn capture_within_jpeg_limits_encodes() {
    let raw = vec![0u8; 4 * 3 * 5];
    assert!(encode_capture(&raw, 3, 5, 50).is_ok());
    assert_eq!(encode_capture(&vec![], 0, 70000, 50), Err(CaptureError::Encode));
}
