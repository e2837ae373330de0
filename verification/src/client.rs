//! What an MQTT-SN client sends and how it reads the gateway's answers: building CONNECT,
//! SUBSCRIBE, PUBLISH and PUBACK datagrams, checking CONNACK, PUBACK and SUBACK, and reading
//! PUBLISH.
use vstd::prelude::*;
use vstd::string::StrSliceExecFns;
use bytes::BytesMut;
use crate::buffer::{buffer_contents, new_buffer};
use crate::message_db::text_bytes;
use crate::packets::{be16_at, trailing, ConAck, Connect, PubAck, Publish, SubAck, Subscribe};
use crate::text::{lossy_text, text_from_bytes};
use crate::transfer::MTU;
use tokio::net::UdpSocket;

verus! {

/// `tokio::net::UdpSocket`, the socket a client talks to its gateway on; the functions here
/// only carry it.
#[verifier::external_type_specification]
#[verifier::external_body]
pub struct ExUdpSocket(tokio::net::UdpSocket);

/// Why a gateway's answer is not accepted.
#[derive(Clone, Copy, Debug, PartialEq, Eq, Structural)]
pub enum ClientError {
    /// The message read has this many bytes, not the expected number.
    LenError(usize, usize),
    /// The message has the wrong type.
    WrongMessageType(u8, u8),
    /// Return code 1: rejected because of congestion.
    Congestion(u8),
    /// Return code 2: rejected because of an invalid topic id.
    InvalidTopicId(u8),
    /// Return code 3: rejected as not supported.
    NotSupported(u8),
    /// Any other nonzero return code.
    Reserved(u8),
}

/// What an MQTT-SN return code means: 0 accepts, 1 to 3 are the defined rejections, and the
/// rest are reserved.
pub open spec fn spec_return_code(val: u8) -> Result<(), ClientError> {
    if val == 0 {
        Ok(())
    } else if val == 1 {
        Err(ClientError::Congestion(val))
    } else if val == 2 {
        Err(ClientError::InvalidTopicId(val))
    } else if val == 3 {
        Err(ClientError::NotSupported(val))
    } else {
        Err(ClientError::Reserved(val))
    }
}

/// The QoS level of the QoS bits of a flags byte (`-1` for the bits `11`); any byte other
/// than the four exact patterns reads as 0.
pub open spec fn spec_qos_level(qos_bits: u8) -> i8 {
    if qos_bits == 0 {
        0
    } else if qos_bits == 0b00100000 {
        1
    } else if qos_bits == 0b01000000 {
        2
    } else if qos_bits == 0b01100000 {
        -1i8
    } else {
        0
    }
}

/// The flags byte carrying QoS level `qos_level`; any level other than -1 to 2 gives 0.
pub open spec fn spec_qos_bits(qos_level: i8) -> u8 {
    if qos_level == 0 {
        0
    } else if qos_level == 1 {
        0b00100000
    } else if qos_level == 2 {
        0b01000000
    } else if qos_level == -1 {
        0b01100000
    } else {
        0
    }
}

/// Checks an MQTT-SN return code.
pub fn return_code(val: u8) -> (r: Result<(), ClientError>)
    ensures
        r == spec_return_code(val),
{
    if val == 0 {
        Ok(())
    } else if val == 1 {
        Err(ClientError::Congestion(val))
    } else if val == 2 {
        Err(ClientError::InvalidTopicId(val))
    } else if val == 3 {
        Err(ClientError::NotSupported(val))
    } else {
        Err(ClientError::Reserved(val))
    }
}

/// The QoS level carried by a flags byte.
pub fn get_qos_level(qos_bits: u8) -> (r: i8)
    ensures
        r == spec_qos_level(qos_bits),
{
    if qos_bits == 0 {
        0
    } else if qos_bits == 0b00100000 {
        1
    } else if qos_bits == 0b01000000 {
        2
    } else if qos_bits == 0b01100000 {
        -1i8
    } else {
        0
    }
}

/// The flags byte for QoS level `qos_level`.
pub fn set_qos_bits(qos_level: i8) -> (r: u8)
    ensures
        r == spec_qos_bits(qos_level),
{
    if qos_level == 0 {
        0
    } else if qos_level == 1 {
        0b00100000
    } else if qos_level == 2 {
        0b01000000
    } else if qos_level == -1 {
        0b01100000
    } else {
        0
    }
}

/// A return code accepts exactly when it is 0, and every rejection carries the code it was
/// made from; codes 1, 2 and 3 are the three rejections MQTT-SN defines, and no two codes give
/// the same result.
pub proof fn lemma_return_codes(a: u8, b: u8)
    ensures
        spec_return_code(a) is Ok <==> a == 0,
        spec_return_code(a) matches Err(e) ==> match e {
            ClientError::Congestion(c) => c == a && a == 1,
            ClientError::InvalidTopicId(c) => c == a && a == 2,
            ClientError::NotSupported(c) => c == a && a == 3,
            ClientError::Reserved(c) => c == a && a > 3,
            _ => false,
        },
        spec_return_code(a) == spec_return_code(b) ==> a == b,
{
}

/// Reading back the QoS level from the flags made for it gives it back, for the four levels
/// MQTT-SN defines; and the flags of the level read from one of the four QoS patterns are
/// that pattern.
pub proof fn lemma_qos_roundtrip(qos_level: i8, qos_bits: u8)
    ensures
        -1 <= qos_level <= 2 ==> spec_qos_level(spec_qos_bits(qos_level)) == qos_level,
        (qos_bits == 0 || qos_bits == 0b00100000 || qos_bits == 0b01000000 || qos_bits
            == 0b01100000) ==> spec_qos_bits(spec_qos_level(qos_bits)) == qos_bits,
{
}

/// A PUBACK for message `msg_id` on topic `topic_id`, accepting it.
pub fn pub_ack(topic_id: u16, msg_id: u16) -> (r: BytesMut)
    ensures
        buffer_contents(r)[0] == buffer_contents(r).len(),
        buffer_contents(r) == (PubAck { len: 7, msg_type: 0x0D, topic_id, msg_id, return_code: 0 }).spec_encode(),
{
    let pub_ack = PubAck { len: 7, msg_type: 0x0D, topic_id, msg_id, return_code: 0 };
    let mut bytes_buf = new_buffer(7);
    pub_ack.try_write(&mut bytes_buf);
    bytes_buf
}

/// The length byte of a message of `fixed` bytes of fields plus `n` bytes of text: the total,
/// cut to its low 8 bits.
pub open spec fn length_byte(n: int, fixed: int) -> u8 {
    ((n + fixed) % 256) as u8
}

fn length_byte_of(n: usize, fixed: usize) -> (r: u8)
    requires
        n + fixed <= usize::MAX,
    ensures
        r == length_byte(n as int, fixed as int),
{
    ((n + fixed) % 256) as u8
}

/// A PUBLISH of `message` as message `msg_id` on topic `topic_id` with QoS `qos_level`.
pub fn publish(topic_id: u16, msg_id: u16, message: String, qos_level: i8) -> (r: BytesMut)
    requires
        text_bytes(message@).len() + 7 <= isize::MAX,
    ensures
        buffer_contents(r)[0] == buffer_contents(r).len() % 256,
        buffer_contents(r) == seq![
            length_byte(text_bytes(message@).len() as int, 7),
            0x0Cu8,
            spec_qos_bits(qos_level),
        ] + crate::packets::be16(topic_id) + crate::packets::be16(msg_id) + text_bytes(message@),
{
    let flags = set_qos_bits(qos_level);
    let data = message.as_str().as_bytes_vec();
    let len = data.len() + 7;
    let publish = Publish {
        len: length_byte_of(data.len(), 7),
        msg_type: 0x0C,
        flags,
        topic_id,
        msg_id,
        data,
    };
    let mut bytes_buf = new_buffer(len);
    publish.try_write(&mut bytes_buf);
    bytes_buf
}

/// A SUBSCRIBE to the topic named `topic_name`, as message `msg_id`.
pub fn subscribe(topic_name: String, msg_id: u16) -> (r: BytesMut)
    requires
        text_bytes(topic_name@).len() + 5 <= isize::MAX,
    ensures
        buffer_contents(r)[0] == buffer_contents(r).len() % 256,
        buffer_contents(r) == seq![length_byte(text_bytes(topic_name@).len() as int, 5), 0x12u8, 0b00100100u8]
            + crate::packets::be16(msg_id) + text_bytes(topic_name@),
{
    let name = topic_name.as_str().as_bytes_vec();
    let len = name.len() + 5;
    let subscribe = Subscribe {
        len: length_byte_of(name.len(), 5),
        msg_type: 0x12,
        flags: 0b00100100,
        msg_id,
        topic_name: name,
    };
    let mut bytes_buf = new_buffer(len);
    subscribe.try_write(&mut bytes_buf);
    bytes_buf
}

/// A CONNECT for client `client_id`, asking for a keep-alive of 30 seconds.
pub fn connect2(client_id: String) -> (r: BytesMut)
    requires
        text_bytes(client_id@).len() + 6 <= isize::MAX,
    ensures
        buffer_contents(r)[0] == buffer_contents(r).len() % 256,
        buffer_contents(r) == seq![
            length_byte(text_bytes(client_id@).len() as int, 6),
            0x04u8,
            0b00000100u8,
            1u8,
        ] + crate::packets::be16(30) + text_bytes(client_id@),
{
    let id = client_id.as_str().as_bytes_vec();
    let len = id.len() + 6;
    let connect = Connect {
        len: length_byte_of(id.len(), 6),
        msg_type: 0x04,
        flags: 0b00000100,
        protocol_id: 1,
        duration: 30,
        client_id: id,
    };
    let mut bytes_buf = new_buffer(len);
    connect.try_write(&mut bytes_buf);
    bytes_buf
}

/// A CONNECT for client `client_id`, the same as `connect2` builds; nothing is sent on
/// `_socket`.
pub fn connect(_socket: &UdpSocket, client_id: String) -> (r: BytesMut)
    requires
        text_bytes(client_id@).len() + 6 <= isize::MAX,
    ensures
        buffer_contents(r)[0] == buffer_contents(r).len() % 256,
        buffer_contents(r) == seq![
            length_byte(text_bytes(client_id@).len() as int, 6),
            0x04u8,
            0b00000100u8,
            1u8,
        ] + crate::packets::be16(30) + text_bytes(client_id@),
{
    let id = client_id.as_str().as_bytes_vec();
    let len = id.len() + 6;
    let connect = Connect {
        len: length_byte_of(id.len(), 6),
        msg_type: 0x04,
        flags: 0b00000100,
        protocol_id: 1,
        duration: 30,
        client_id: id,
    };
    let mut bytes_buf = new_buffer(len);
    connect.try_write(&mut bytes_buf);
    bytes_buf
}

/// A PUBLISH of `msg` on topic `topic_id`, as message 30 with the flags byte `0b100`; its
/// length byte counts 5 bytes of fields.  Nothing is sent on `_socket`.
pub fn publish_socket(_socket: &UdpSocket, topic_id: u16, msg: String) -> (r: BytesMut)
    requires
        text_bytes(msg@).len() + 7 <= isize::MAX,
    ensures
        buffer_contents(r)[0] == (buffer_contents(r).len() - 2) % 256,
        buffer_contents(r) == seq![length_byte(text_bytes(msg@).len() as int, 5), 0x0Cu8, 0b00000100u8]
            + crate::packets::be16(topic_id) + crate::packets::be16(30) + text_bytes(msg@),
{
    let data = msg.as_str().as_bytes_vec();
    let publish = Publish {
        len: length_byte_of(data.len(), 5),
        msg_type: 0x0C,
        flags: 0b00000100,
        topic_id,
        msg_id: 30,
        data,
    };
    let mut bytes_buf = new_buffer(MTU);
    publish.try_write(&mut bytes_buf);
    bytes_buf
}

/// Checks a CONNACK: the result is its return code's meaning.  Its type byte is not checked.
pub fn verify_connack2(buf: &[u8], size: usize) -> (r: Result<(), ClientError>)
    requires
        buf@.len() >= 3,
    ensures
        r == spec_return_code(buf@[2]),
{
    let (conn_ack, read_len) = ConAck::try_read(buf, size).unwrap();
    if read_len != 3 {
        return Err(ClientError::LenError(read_len, 3));
    }
    return_code(conn_ack.return_code)
}

/// Checks a PUBACK, expecting 8 bytes; a PUBACK reads as 7, so this always reports a length
/// error.
pub fn verify_puback2(buf: &[u8], size: usize) -> (r: Result<(u16, u16), ClientError>)
    requires
        buf@.len() >= 7,
    ensures
        r == Err::<(u16, u16), ClientError>(ClientError::LenError(7, 8)),
{
    let (pub_ack, read_len) = PubAck::try_read(buf, size).unwrap();
    if read_len != 8 {
        return Err(ClientError::LenError(read_len, 8));
    }
    match return_code(pub_ack.return_code) {
        Ok(_) => Ok((pub_ack.topic_id, pub_ack.msg_id)),
        Err(why) => Err(why),
    }
}

/// Checks a SUBACK: its message id when its return code accepts, else the code's meaning.
/// Its type byte is not checked.
pub fn verify_suback2(buf: &[u8], size: usize) -> (r: Result<u16, ClientError>)
    requires
        buf@.len() >= 8,
    ensures
        spec_return_code(buf@[7]) is Ok ==> r == Ok::<u16, ClientError>(be16_at(buf@, 5)),
        spec_return_code(buf@[7]) matches Err(e) ==> r == Err::<u16, ClientError>(e),
{
    let (sub_ack, read_len) = SubAck::try_read(buf, size).unwrap();
    if read_len != 8 {
        return Err(ClientError::LenError(read_len, 8));
    }
    match return_code(sub_ack.return_code) {
        Ok(_) => Ok(sub_ack.msg_id),
        Err(why) => Err(why),
    }
}

/// Reads a PUBLISH: its topic id, message id and text.  Its type byte is not checked.
pub fn verify_publish2(buf: &[u8], size: usize) -> (r: Result<(u16, u16, String), ClientError>)
    requires
        buf@.len() >= 7,
    ensures
        r matches Ok((topic_id, msg_id, data)) && topic_id == be16_at(buf@, 3) && msg_id == be16_at(buf@, 5)
            && data@ == lossy_text(trailing(buf@, 7, size as int)),
{
    let (publish, _read_len) = Publish::try_read(buf, size).unwrap();
    let data = text_from_bytes(publish.data.as_slice());
    Ok((publish.topic_id, publish.msg_id, data))
}

/// Reads a PUBLISH: its topic id, message id and text, and the PUBACK to send back, which
/// is empty unless the message asks for QoS 1 or 2.  Its type byte is not checked.
pub fn verify_publish3(buf: &[u8], size: usize) -> (r: Result<(u16, u16, String, BytesMut), ClientError>)
    requires
        buf@.len() >= 7,
    ensures
        r matches Ok((topic_id, msg_id, data, ack)) && topic_id == be16_at(buf@, 3) && msg_id == be16_at(buf@, 5)
            && data@ == lossy_text(trailing(buf@, 7, size as int))
            && buffer_contents(ack) == if spec_qos_level(buf@[2]) == 1 || spec_qos_level(buf@[2]) == 2 {
                (PubAck { len: 7, msg_type: 0x0D, topic_id, msg_id, return_code: 0 }).spec_encode()
            } else {
                Seq::<u8>::empty()
            },
{
    let (publish, _read_len) = Publish::try_read(buf, size).unwrap();
    let qos = get_qos_level(publish.flags);
    let bytes_buf = if qos == 1 || qos == 2 {
        pub_ack(publish.topic_id, publish.msg_id)
    } else {
        new_buffer(MTU)
    };
    let data = text_from_bytes(publish.data.as_slice());
    Ok((publish.topic_id, publish.msg_id, data, bytes_buf))
}

} // verus!
