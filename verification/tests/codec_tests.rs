use bytes::BytesMut;
use peerlink::msg::codec::{MsgCodec, HEADER_LEN, MSG_MAX_LEN};
use peerlink::msg::msg_codec::MsgCodec as TextCodec;

#[test]
fn frame_roundtrip() {
    let mut codec = MsgCodec::default();
    let mut buf = BytesMut::new();
    codec.encode_frame(b"hello", 0, &mut buf);
    assert_eq!(&buf[..], &[0, 8, 0, b'h', b'e', b'l', b'l', b'o'][..]);
    buf.extend_from_slice(b"xy");
    let body = codec.decode_frame(&mut buf, 0).expect("a whole frame");
    assert_eq!(&body[..], b"hello");
    assert_eq!(&buf[..], b"xy");
}

#[test]
fn two_frames_in_a_row() {
    let mut codec = MsgCodec::default();
    let mut buf = BytesMut::new();
    codec.encode_frame(b"a", 3, &mut buf);
    codec.encode_frame(b"bc", 3, &mut buf);
    assert_eq!(&codec.decode_frame(&mut buf, 3).unwrap()[..], b"a");
    assert_eq!(&codec.decode_frame(&mut buf, 3).unwrap()[..], b"bc");
    assert!(buf.is_empty());
    assert!(codec.decode_frame(&mut buf, 3).is_none());
}

#[test]
fn empty_body_frame() {
    let mut codec = MsgCodec::default();
    let mut buf = BytesMut::new();
    codec.encode_frame(b"", 0, &mut buf);
    assert_eq!(&buf[..], &[0, 3, 0][..]);
    let body = codec.decode_frame(&mut buf, 0).unwrap();
    assert!(body.is_empty());
    assert!(buf.is_empty());
}

#[test]
fn other_version_is_skipped() {
    let mut codec = MsgCodec::default();
    let mut buf = BytesMut::new();
    codec.encode_frame(b"old", 1, &mut buf);
    codec.encode_frame(b"new", 0, &mut buf);
    assert!(codec.decode_frame(&mut buf, 0).is_none());
    assert_eq!(buf.len(), HEADER_LEN + 3);
    assert_eq!(&codec.decode_frame(&mut buf, 0).unwrap()[..], b"new");
}

#[test]
fn short_input_waits() {
    let mut codec = MsgCodec::default();
    let mut buf = BytesMut::from(&[0u8, 10][..]);
    assert!(codec.decode_frame(&mut buf, 0).is_none());
    assert_eq!(&buf[..], &[0, 10][..]);
    let mut buf = BytesMut::from(&[0u8, 10, 0, 1, 2][..]);
    assert!(codec.decode_frame(&mut buf, 0).is_none());
    assert_eq!(&buf[..], &[0, 10, 0, 1, 2][..]);
}

#[test]
fn oversized_header_clears_buffer() {
    let mut codec = MsgCodec::default();
    let too_long = (MSG_MAX_LEN + 1) as u16;
    let mut buf = BytesMut::new();
    buf.extend_from_slice(&too_long.to_be_bytes());
    buf.extend_from_slice(&[0, 1, 2, 3]);
    assert!(codec.decode_frame(&mut buf, 0).is_none());
    assert!(buf.is_empty());
}

#[test]
fn largest_frame_decodes() {
    let mut codec = MsgCodec::default();
    let body = vec![7u8; MSG_MAX_LEN - HEADER_LEN];
    let mut buf = BytesMut::new();
    codec.encode_frame(&body, 0, &mut buf);
    assert_eq!(&buf[..2], &[4, 0][..]);
    assert_eq!(&codec.decode_frame(&mut buf, 0).unwrap()[..], &body[..]);
}

#[test]
fn header_length_wraps_for_huge_bodies() {
    let mut codec = MsgCodec::default();
    let body = vec![0u8; 65536];
    let mut buf = BytesMut::new();
    codec.encode_frame(&body, 0, &mut buf);
    assert_eq!(&buf[..3], &[0, 3, 0][..]);
    assert_eq!(buf.len(), 65536 + 3);
}

#[test]
fn text_codec_takes_everything() {
    let mut codec = TextCodec::new();
    let mut buf = BytesMut::new();
    assert!(codec.decode_text(&mut buf).is_none());
    codec.encode_text(b"Hello(host_id:\"x\")", &mut buf);
    let all = codec.decode_text(&mut buf).unwrap();
    assert_eq!(&all[..], b"Hello(host_id:\"x\")");
    assert!(buf.is_empty());
}
