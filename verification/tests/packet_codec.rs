use bytes::{Bytes, BytesMut};
use pamplona::packet::{Fire2Frame, MessageType, Packet, PacketCodec, HEADER_SIZE};

fn frame(component: u16, command: u16, msg_num: u32, msg_type: MessageType) -> Fire2Frame {
    Fire2Frame {
        component,
        command,
        msg_num,
        msg_type,
    }
}

fn sample() -> Packet {
    Packet::new(
        frame(0x0102, 0x0304, 0x050607, MessageType::Message),
        Bytes::from_static(&[0xAA, 0xBB]),
        Bytes::from_static(&[1, 2, 3]),
    )
}

#[test]
fn write_produces_header_then_sections() {
    let mut dst = BytesMut::new();
    sample().write(&mut dst);
    let expected: Vec<u8> = vec![
        0, 0, 0, 3, // contents length
        0, 2, // metadata length
        0x01, 0x02, // component
        0x03, 0x04, // command
        0x05, 0x06, 0x07, // message number
        0x00, // message type (Message) << 5
        0, 0, // options, reserved
        0xAA, 0xBB, // metadata
        1, 2, 3, // contents
    ];
    assert_eq!(&dst[..], &expected[..]);
}

#[test]
fn message_type_sits_in_top_three_bits() {
    let mut dst = BytesMut::new();
    Packet::empty(frame(1, 2, 3, MessageType::PingReply)).write(&mut dst);
    assert_eq!(dst.len(), HEADER_SIZE);
    assert_eq!(dst[13], 5 << 5);
}

#[test]
fn write_then_read_gives_packet_back() {
    let mut buf = BytesMut::new();
    sample().write(&mut buf);
    let p = Packet::read(&mut buf).expect("complete frame");
    assert_eq!(p.frame, sample().frame);
    assert_eq!(&p.metadata[..], &[0xAA, 0xBB]);
    assert_eq!(&p.contents[..], &[1, 2, 3]);
    assert!(buf.is_empty());
}

#[test]
fn read_leaves_following_bytes() {
    let mut buf = BytesMut::new();
    sample().write(&mut buf);
    buf.extend_from_slice(&[9, 9, 9]);
    let p = Packet::read(&mut buf).expect("complete frame");
    assert_eq!(p.frame.component, 0x0102);
    assert_eq!(&buf[..], &[9, 9, 9]);
}

#[test]
fn two_frames_read_in_order() {
    let mut buf = BytesMut::new();
    sample().write(&mut buf);
    Packet::empty(frame(7, 8, 9, MessageType::Ping)).write(&mut buf);
    let first = Packet::read(&mut buf).unwrap();
    let second = Packet::read(&mut buf).unwrap();
    assert_eq!(first.frame, sample().frame);
    assert_eq!(second.frame, frame(7, 8, 9, MessageType::Ping));
    assert!(second.metadata.is_empty() && second.contents.is_empty());
    assert!(Packet::read(&mut buf).is_none());
}

#[test]
fn message_number_is_cut_to_24_bits() {
    let mut buf = BytesMut::new();
    Packet::empty(frame(1, 1, 0x0123_4567, MessageType::Reply)).write(&mut buf);
    let p = Packet::read(&mut buf).unwrap();
    assert_eq!(p.frame.msg_num, 0x23_4567);
}

#[test]
fn short_header_is_left_untouched() {
    let mut buf = BytesMut::from(&[0u8, 0, 0, 0, 0, 0, 0, 1][..]);
    assert!(Packet::read(&mut buf).is_none());
    assert_eq!(buf.len(), 8);
}

#[test]
fn incomplete_body_is_left_untouched() {
    let mut full = BytesMut::new();
    sample().write(&mut full);
    let mut partial = BytesMut::from(&full[..full.len() - 1]);
    let before = partial.clone();
    assert!(Packet::read(&mut partial).is_none());
    assert_eq!(partial, before);
}

#[test]
fn unknown_message_type_drops_header_through_type_byte() {
    let mut buf = BytesMut::from(
        &[
            0u8, 0, 0, 0, 0, 0, 0, 1, 0, 2, 0, 0, 3, 6 << 5, 0, 0, 42,
        ][..],
    );
    assert!(Packet::read(&mut buf).is_none());
    assert_eq!(&buf[..], &[0, 0, 42]);
}

#[test]
fn header_size_is_sixteen() {
    assert_eq!(HEADER_SIZE, 16);
}

#[test]
fn codec_decodes_and_encodes() {
    let mut codec = PacketCodec;
    let mut buf = BytesMut::new();
    codec.encode(sample(), &mut buf);
    let p = codec.decode(&mut buf).unwrap();
    assert_eq!(p.frame, sample().frame);
    assert!(codec.decode(&mut buf).is_none());
}

#[test]
fn message_type_codes() {
    let all = [
        MessageType::Message,
        MessageType::Reply,
        MessageType::Notification,
        MessageType::ErrorReply,
        MessageType::Ping,
        MessageType::PingReply,
    ];
    for (i, t) in all.iter().enumerate() {
        assert_eq!(t.code() as usize, i);
        assert_eq!(MessageType::from_u8(i as u8), Some(*t));
    }
    assert_eq!(MessageType::from_u8(6), None);
    assert_eq!(MessageType::from_u8(7), None);
}

#[test]
fn reply_and_notification_frames() {
    let f = frame(9, 2, 77, MessageType::Message);
    assert_eq!(f.reply(), frame(9, 2, 77, MessageType::Reply));
    assert_eq!(
        Fire2Frame::notification(30722, 8),
        frame(30722, 8, 0, MessageType::Notification)
    );
}

#[test]
fn empty_and_reply_empty_packets() {
    let request = sample();
    let r = Packet::reply_empty(&request);
    assert_eq!(r.frame, request.frame.reply());
    assert!(r.metadata.is_empty() && r.contents.is_empty());
}
