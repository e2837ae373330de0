use mqtt_sn::client::{
    connect, connect2, get_qos_level, pub_ack, publish, publish_socket, return_code, set_qos_bits,
    subscribe, verify_connack2, verify_puback2, verify_publish2, verify_publish3,
    verify_suback2, ClientError,
};
use mqtt_sn::con_ack::ConnAckError;
use mqtt_sn::packets::ConAck;
use mqtt_sn::message_db::{MessageDbKey, MessageDbValue};
use bytes::BytesMut;

#[test]
fn qos_bits_and_levels() {
    assert_eq!(set_qos_bits(0), 0);
    assert_eq!(set_qos_bits(1), 0b0010_0000);
    assert_eq!(set_qos_bits(2), 0b0100_0000);
    assert_eq!(set_qos_bits(-1), 0b0110_0000);
    assert_eq!(set_qos_bits(5), 0);
    assert_eq!(get_qos_level(0b0010_0000), 1);
    assert_eq!(get_qos_level(0b0110_0000), -1);
    assert_eq!(get_qos_level(0b0010_0001), 0);
    for q in -1..=2i8 {
        assert_eq!(get_qos_level(set_qos_bits(q)), q);
    }
}

#[test]
fn return_codes() {
    assert_eq!(return_code(0), Ok(()));
    assert_eq!(return_code(1), Err(ClientError::Congestion(1)));
    assert_eq!(return_code(2), Err(ClientError::InvalidTopicId(2)));
    assert_eq!(return_code(3), Err(ClientError::NotSupported(3)));
    assert_eq!(return_code(9), Err(ClientError::Reserved(9)));
}

#[test]
fn outgoing_datagrams() {
    assert_eq!(&pub_ack(0x0102, 7)[..], &[7, 0x0D, 1, 2, 0, 7, 0][..]);
    assert_eq!(
        &publish(1, 25, "hi".to_string(), 1)[..],
        &[9, 0x0C, 0b0010_0000, 0, 1, 0, 25, b'h', b'i'][..]
    );
    assert_eq!(
        &subscribe("humidity".to_string(), 15)[..],
        &[13, 0x12, 0b0010_0100, 0, 15, b'h', b'u', b'm', b'i', b'd', b'i', b't', b'y'][..]
    );
    assert_eq!(&connect2("c1".to_string())[..], &[8, 0x04, 0b100, 1, 0, 30, b'c', b'1'][..]);
}

fn local_socket() -> (tokio::runtime::Runtime, tokio::net::UdpSocket) {
    let rt = tokio::runtime::Builder::new_current_thread().enable_io().build().unwrap();
    let socket = rt.block_on(tokio::net::UdpSocket::bind("127.0.0.1:0")).unwrap();
    (rt, socket)
}

#[test]
fn datagrams_built_for_a_socket() {
    let (_rt, socket) = local_socket();
    assert_eq!(&connect(&socket, "c1".to_string())[..], &[8, 0x04, 0b100, 1, 0, 30, b'c', b'1'][..]);
    assert_eq!(
        &publish_socket(&socket, 3, "x".to_string())[..],
        &[6, 0x0C, 0b100, 0, 3, 0, 30, b'x'][..]
    );
}

#[test]
fn long_payload_length_byte_wraps() {
    let text = "a".repeat(300);
    let b = publish(1, 1, text, 0);
    assert_eq!(b.len(), 307);
    assert_eq!(b[0], (307 % 256) as u8);
}

#[test]
fn connack_answers() {
    assert_eq!(verify_connack2(&[3, 5, 0], 3), Ok(()));
    assert_eq!(verify_connack2(&[3, 5, 1], 3), Err(ClientError::Congestion(1)));
    assert_eq!(verify_connack2(&[3, 5, 3], 3), Err(ClientError::NotSupported(3)));
    assert_eq!(verify_connack2(&[3, 9, 0], 3), Ok(()));
}

#[test]
fn puback_reads_seven_bytes() {
    assert_eq!(verify_puback2(&[7, 0x0D, 0, 1, 0, 2, 0], 7), Err(ClientError::LenError(7, 8)));
}

#[test]
fn suback_answers() {
    assert_eq!(verify_suback2(&[8, 0x13, 0, 0, 4, 1, 2, 0], 8), Ok(0x0102));
    assert_eq!(verify_suback2(&[8, 0x13, 0, 0, 4, 1, 2, 2], 8), Err(ClientError::InvalidTopicId(2)));
}

#[test]
fn reading_publish() {
    let dg = [9, 0x0C, 0b0010_0000, 0, 4, 0, 6, b'o', b'k'];
    assert_eq!(verify_publish2(&dg, 9), Ok((4, 6, "ok".to_string())));
    let (t, m, text, ack) = verify_publish3(&dg, 9).unwrap();
    assert_eq!((t, m, text.as_str()), (4, 6, "ok"));
    assert_eq!(&ack[..], &[7, 0x0D, 0, 4, 0, 6, 0][..]);
    let dg0 = [9, 0x0C, 0, 0, 4, 0, 6, b'o', b'k'];
    let (_, _, _, ack0) = verify_publish3(&dg0, 9).unwrap();
    assert!(ack0.is_empty());
}

#[test]
fn invalid_utf8_is_replaced() {
    let dg = [10, 0x0C, 0, 0, 4, 0, 6, b'a', 0xFF, b'b'];
    let (_, _, text) = verify_publish2(&dg, 10).unwrap();
    assert_eq!(text, "a\u{FFFD}b");
    let dg = [9, 0x0C, 0, 0, 4, 0, 6, 0xC3, 0xA9];
    let (_, _, text) = verify_publish2(&dg, 9).unwrap();
    assert_eq!(text, "é");
}

#[test]
fn conack_constraints() {
    assert!(ConAck::constraint_len(&3));
    assert!(ConAck::constraint_return_code(&0));
    assert_eq!(ConAck::constraint_msg_type(&0), Err(ConnAckError::ConnAckRejection(0)));
    assert_eq!(ConAck::constraint_msg_type(&2), Err(ConnAckError::ConnAckRejection(2)));
    assert_eq!(ConAck::constraint_msg_type(&5), Err(ConnAckError::ConnAckUnknownCode(5)));
}

#[test]
fn message_store_encoding() {
    assert!(MessageDbKey::constraint_topic_id(&1));
    assert!(MessageDbValue::constraint_message(&"x".to_string()));
    let mut k = BytesMut::with_capacity(4);
    MessageDbKey { topic_id: 0x0203 }.try_write(&mut k);
    assert_eq!(k.to_vec(), vec![2, 3]);
    let mut v = BytesMut::with_capacity(4);
    MessageDbValue { message: "hé".to_string() }.try_write(&mut v);
    assert_eq!(v.to_vec(), "hé".as_bytes().to_vec());
    assert_eq!(MessageDbKey { topic_id: 0x0203 }.to_bytes(), vec![2, 3]);
    assert_eq!(MessageDbValue { message: "hé".to_string() }.to_bytes(), "hé".as_bytes().to_vec());
}
