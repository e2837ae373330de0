use mqtt_sn::packets::{ConAck, Connect, PubAck, Publish, SubAck, Subscribe, Disconnect, Register};
use bytes::BytesMut;
use mqtt_sn::msg_type::MsgType;

#[test]
fn con_ack_round_trip() {
    let m = ConAck { len: 3, msg_type: 0x05, return_code: 2 };
    assert_eq!(m.to_bytes(), vec![3, 0x05, 2]);
    let (back, n) = ConAck::try_read(&[3, 0x05, 2], 3).unwrap();
    assert_eq!(back, m);
    assert_eq!(n, 3);
    assert!(ConAck::try_read(&[3, 0x05], 3).is_none());
}

#[test]
fn publish_layout_is_big_endian_with_trailing_data() {
    let m = Publish {
        len: 12,
        msg_type: 0x0C,
        flags: 0x20,
        topic_id: 0x0102,
        msg_id: 0x0A0B,
        data: b"hello".to_vec(),
    };
    let bytes = m.to_bytes();
    assert_eq!(bytes, vec![12, 0x0C, 0x20, 1, 2, 0x0A, 0x0B, b'h', b'e', b'l', b'l', b'o']);
    let (back, n) = Publish::try_read(&bytes, bytes.len()).unwrap();
    assert_eq!(back.topic_id, 0x0102);
    assert_eq!(back.msg_id, 0x0A0B);
    assert_eq!(back.data, b"hello".to_vec());
    assert_eq!(n, 12);
}

#[test]
fn trailing_field_stops_at_the_datagram_size() {
    let mut buf = vec![9, 0x0C, 0, 0, 1, 0, 2, b'a', b'b'];
    buf.extend_from_slice(&[0u8; 20]);
    let (m, n) = Publish::try_read(&buf, 9).unwrap();
    assert_eq!(m.data, b"ab".to_vec());
    assert_eq!(n, 9);
    // A size beyond the buffer is clipped to it.
    let (m, n) = Publish::try_read(&buf[..9], 40).unwrap();
    assert_eq!(m.data, b"ab".to_vec());
    assert_eq!(n, 9);
    // A size within the fixed fields leaves the trailing field empty.
    let (m, n) = Publish::try_read(&buf, 3).unwrap();
    assert!(m.data.is_empty());
    assert_eq!(n, 7);
}

#[test]
fn other_messages_round_trip() {
    let sub = Subscribe { len: 8, msg_type: 0x12, flags: 0b100100, msg_id: 300, topic_name: b"abc".to_vec() };
    let b = sub.to_bytes();
    assert_eq!(b, vec![8, 0x12, 0b100100, 1, 44, b'a', b'b', b'c']);
    let (s2, n) = Subscribe::try_read(&b, b.len()).unwrap();
    assert_eq!((s2.len, s2.msg_type, s2.flags, s2.msg_id, s2.topic_name, n), (8, 0x12, 0b100100, 300, b"abc".to_vec(), 8));

    let ack = SubAck { len: 8, msg_type: 0x13, flags: 1, topic_id: 7, msg_id: 9, return_code: 0 };
    assert_eq!(ack.to_bytes(), vec![8, 0x13, 1, 0, 7, 0, 9, 0]);
    assert_eq!(SubAck::try_read(&ack.to_bytes(), 8), Some((ack, 8)));

    let pa = PubAck { len: 7, msg_type: 0x0D, topic_id: 258, msg_id: 1, return_code: 3 };
    assert_eq!(pa.to_bytes(), vec![7, 0x0D, 1, 2, 0, 1, 3]);

    let d = Disconnect { len: 2, msg_type: 0x18, duration: 8 };
    assert_eq!(d.to_bytes(), vec![2, 0x18, 0, 8]);

    let c = Connect { len: 8, msg_type: 4, flags: 4, protocol_id: 1, duration: 30, client_id: b"id".to_vec() };
    assert_eq!(c.to_bytes(), vec![8, 4, 4, 1, 0, 30, b'i', b'd']);

    let r = Register { len: 7, msg_type: 0x0A, topic_id: 0, msg_id: 5, topic_name: b"t".to_vec() };
    let (r2, _) = Register::try_read(&r.to_bytes(), 7).unwrap();
    assert_eq!(r2.topic_name, b"t".to_vec());
    assert_eq!(r2.msg_id, 5);
}

#[test]
fn try_write_appends_to_the_buffer() {
    let mut buf = BytesMut::with_capacity(16);
    ConAck { len: 3, msg_type: 5, return_code: 0 }.try_write(&mut buf);
    ConAck { len: 3, msg_type: 5, return_code: 1 }.try_write(&mut buf);
    assert_eq!(buf.to_vec(), vec![3, 5, 0, 3, 5, 1]);
}

#[test]
fn message_type_codes() {
    assert_eq!(MsgType::CONNECT.code(), 0x04);
    assert_eq!(MsgType::WILLMSGRESP.code(), 0x1D);
    assert_eq!(MsgType::from_u8(0x0C), Some(MsgType::PUBLISH));
    assert_eq!(MsgType::from_u8(0x11), None);
    assert_eq!(MsgType::from_u8(0x03), None);
    for c in 0..=255u8 {
        if let Some(t) = MsgType::from_u8(c) {
            assert_eq!(t.code(), c);
        }
    }
}
