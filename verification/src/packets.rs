//! The MQTT-SN messages and their byte layout.
//!
//! Every message is its fields in declaration order: `u8` fields take one byte, `u16` fields
//! two bytes in network (big-endian) order, and a trailing byte-string field takes the rest
//! of the datagram.  Reading a message needs the fixed-size fields to be present in the
//! buffer; the trailing field is taken from the end of the fixed fields up to the datagram
//! size (clipped to the buffer), and is empty when the size does not reach past them.
use vstd::prelude::*;
use bytes::BytesMut;
use crate::buffer::{buffer_contents, append_bytes};

verus! {

/// The two bytes of `v` in network order.
pub open spec fn be16(v: u16) -> Seq<u8> {
    seq![(v / 256) as u8, (v % 256) as u8]
}

/// The `u16` stored in network order at `b[i]`, `b[i + 1]`.
pub open spec fn be16_at(b: Seq<u8>, i: int) -> u16 {
    (b[i] * 256 + b[i + 1]) as u16
}

/// The trailing field of a datagram of `size` bytes whose fixed fields end at `start`.
pub open spec fn trailing(b: Seq<u8>, start: int, size: int) -> Seq<u8> {
    if size <= start {
        Seq::empty()
    } else if size <= b.len() {
        b.subrange(start, size)
    } else {
        b.subrange(start, b.len() as int)
    }
}

/// Reading a `u16` back from its two bytes gives it back.
pub proof fn lemma_be16_roundtrip(v: u16, rest: Seq<u8>, prefix: Seq<u8>)
    ensures
        be16_at(prefix + be16(v) + rest, prefix.len() as int) == v,
{
    let b = prefix + be16(v) + rest;
    assert(b[prefix.len() as int] == (v / 256) as u8);
    assert(b[prefix.len() + 1int] == (v % 256) as u8);
}

fn read_u16(buf: &[u8], i: usize) -> (r: u16)
    requires
        i + 2 <= buf@.len(),
    ensures
        r == be16_at(buf@, i as int),
{
    (buf[i] as u16) * 256 + (buf[i + 1] as u16)
}

fn push_u16(v: &mut Vec<u8>, x: u16)
    ensures
        final(v)@ == old(v)@ + be16(x),
{
    v.push((x / 256) as u8);
    v.push((x % 256) as u8);
    assert(final(v)@ =~= old(v)@ + be16(x));
}

fn read_trailing(buf: &[u8], start: usize, size: usize) -> (r: Vec<u8>)
    requires
        start <= buf@.len(),
    ensures
        r@ == trailing(buf@, start as int, size as int),
{
    let end = if size <= start {
        start
    } else if size <= buf.len() {
        size
    } else {
        buf.len()
    };
    let mut r: Vec<u8> = Vec::new();
    let mut i = start;
    while i < end
        invariant
            start <= i <= end <= buf@.len(),
            r@ == buf@.subrange(start as int, i as int),
        decreases end - i,
    {
        r.push(buf[i]);
        i += 1;
        assert(r@ =~= buf@.subrange(start as int, i as int));
    }
    assert(trailing(buf@, start as int, size as int) =~= buf@.subrange(start as int, end as int));
    r
}

fn push_all(v: &mut Vec<u8>, src: &Vec<u8>)
    ensures
        final(v)@ == old(v)@ + src@,
{
    let mut i: usize = 0;
    while i < src.len()
        invariant
            i <= src@.len(),
            v@ == old(v)@ + src@.subrange(0, i as int),
        decreases src@.len() - i,
    {
        v.push(src[i]);
        i += 1;
        assert(v@ =~= old(v)@ + src@.subrange(0, i as int));
    }
    assert(src@.subrange(0, src@.len() as int) =~= src@);
}

/// CONNACK: the gateway's answer to CONNECT.
#[derive(Clone, Copy, Debug, PartialEq, Eq, Structural, Default)]
pub struct ConAck {
    pub len: u8,
    pub msg_type: u8,
    pub return_code: u8,
}

impl ConAck {
    /// The number of bytes of the fixed-size fields.
    pub open spec fn fixed_len() -> int {
        3
    }

    /// The bytes this message is sent as.
    pub open spec fn spec_encode(self) -> Seq<u8> {
        seq![self.len] + seq![self.msg_type] + seq![self.return_code]
    }

    /// `m` is what reading a datagram of `size` bytes from `b` gives, having consumed `n`
    /// bytes.
    pub open spec fn parsed_from(m: ConAck, b: Seq<u8>, size: int, n: int) -> bool {
        &&& m.len == b[0]
        &&& m.msg_type == b[1]
        &&& m.return_code == b[2]
        &&& n == 3
    }

    /// Reads the message from the first bytes of `buf`, `size` being the datagram size;
    /// `None` when `buf` is shorter than the fixed-size fields.  Also gives the number of
    /// bytes consumed.
    pub fn try_read(buf: &[u8], size: usize) -> (r: Option<(ConAck, usize)>)
        ensures
            r is Some <==> buf@.len() >= 3,
            r matches Some((m, n)) ==> ConAck::parsed_from(m, buf@, size as int, n as int),
    {
        if buf.len() < 3 {
            return None;
        }
        let len = buf[0];
        let msg_type = buf[1];
        let return_code = buf[2];
        let n: usize = 3;
        Some((ConAck { len, msg_type, return_code }, n))
    }

    /// The bytes this message is sent as.
    pub fn to_bytes(&self) -> (r: Vec<u8>)
        ensures
            r@ == self.spec_encode(),
    {
        let mut r: Vec<u8> = Vec::new();
        r.push(self.len);
        r.push(self.msg_type);
        r.push(self.return_code);
        assert(r@ =~= self.spec_encode());
        r
    }

    /// Appends the bytes of this message to `buf`.
    pub fn try_write(&self, buf: &mut BytesMut)
        requires
            buffer_contents(*old(buf)).len() + self.spec_encode().len() <= isize::MAX,
        ensures
            buffer_contents(*final(buf)) == buffer_contents(*old(buf)) + self.spec_encode(),
    {
        let bytes = self.to_bytes();
        append_bytes(buf, bytes.as_slice());
    }

    /// The message is sent as its fields in declaration order: the length byte at offset 0,
    /// the type byte at offset 1, then each further field, a `u16` as its high byte then its
    /// low byte.
    pub proof fn lemma_layout(self)
        ensures
            ({
                let e = self.spec_encode();
                &&& e.len() == 3
                &&& e[0] == self.len
                &&& e[1] == self.msg_type
                &&& e[2] == self.return_code
            }),
    {
        let e = self.spec_encode();
    }

    /// Reading a datagram takes each field from its place in the layout.
    pub proof fn lemma_read_layout(m: ConAck, b: Seq<u8>, size: int, n: int)
        requires
            b.len() >= 3,
            ConAck::parsed_from(m, b, size, n),
        ensures
            m.len == b[0],
            m.msg_type == b[1],
            m.return_code == b[2],
    {
    }

    /// Reading the bytes of a message gives the message back, having consumed all of them.
    pub proof fn lemma_roundtrip(self)
        ensures
            self.spec_encode().len() >= 3,
            ConAck::parsed_from(self, self.spec_encode(), self.spec_encode().len() as int, self.spec_encode().len() as int),
    {
    }
}

/// CONNECT: a client asks to set up a connection.
#[derive(Clone, Debug)]
pub struct Connect {
    pub len: u8,
    pub msg_type: u8,
    pub flags: u8,
    pub protocol_id: u8,
    pub duration: u16,
    pub client_id: Vec<u8>,
}

impl Connect {
    /// The number of bytes of the fixed-size fields.
    pub open spec fn fixed_len() -> int {
        6
    }

    /// The bytes this message is sent as.
    pub open spec fn spec_encode(self) -> Seq<u8> {
        seq![self.len] + seq![self.msg_type] + seq![self.flags] + seq![self.protocol_id] + be16(self.duration) + self.client_id@
    }

    /// `m` is what reading a datagram of `size` bytes from `b` gives, having consumed `n`
    /// bytes.
    pub open spec fn parsed_from(m: Connect, b: Seq<u8>, size: int, n: int) -> bool {
        &&& m.len == b[0]
        &&& m.msg_type == b[1]
        &&& m.flags == b[2]
        &&& m.protocol_id == b[3]
        &&& m.duration == be16_at(b, 4)
        &&& m.client_id@ == trailing(b, 6, size)
        &&& n == 6 + trailing(b, 6, size).len()
    }

    /// Reads the message from the first bytes of `buf`, `size` being the datagram size;
    /// `None` when `buf` is shorter than the fixed-size fields.  Also gives the number of
    /// bytes consumed.
    pub fn try_read(buf: &[u8], size: usize) -> (r: Option<(Connect, usize)>)
        ensures
            r is Some <==> buf@.len() >= 6,
            r matches Some((m, n)) ==> Connect::parsed_from(m, buf@, size as int, n as int),
    {
        if buf.len() < 6 {
            return None;
        }
        let len = buf[0];
        let msg_type = buf[1];
        let flags = buf[2];
        let protocol_id = buf[3];
        let duration = read_u16(buf, 4);
        let client_id = read_trailing(buf, 6, size);
        let n = 6 + client_id.len();
        Some((Connect { len, msg_type, flags, protocol_id, duration, client_id }, n))
    }

    /// The bytes this message is sent as.
    pub fn to_bytes(&self) -> (r: Vec<u8>)
        ensures
            r@ == self.spec_encode(),
    {
        let mut r: Vec<u8> = Vec::new();
        r.push(self.len);
        r.push(self.msg_type);
        r.push(self.flags);
        r.push(self.protocol_id);
        push_u16(&mut r, self.duration);
        push_all(&mut r, &self.client_id);
        assert(r@ =~= self.spec_encode());
        r
    }

    /// Appends the bytes of this message to `buf`.
    pub fn try_write(&self, buf: &mut BytesMut)
        requires
            buffer_contents(*old(buf)).len() + self.spec_encode().len() <= isize::MAX,
        ensures
            buffer_contents(*final(buf)) == buffer_contents(*old(buf)) + self.spec_encode(),
    {
        let bytes = self.to_bytes();
        append_bytes(buf, bytes.as_slice());
    }

    /// The message is sent as its fields in declaration order: the length byte at offset 0,
    /// the type byte at offset 1, then each further field, a `u16` as its high byte then its
    /// low byte, and the trailing bytes last.
    pub proof fn lemma_layout(self)
        ensures
            ({
                let e = self.spec_encode();
                &&& e.len() == 6 + self.client_id@.len()
                &&& e[0] == self.len
                &&& e[1] == self.msg_type
                &&& e[2] == self.flags
                &&& e[3] == self.protocol_id
                &&& e[4] as int * 256 + e[5] as int == self.duration as int
                &&& e.subrange(6, e.len() as int) == self.client_id@
            }),
    {
        let e = self.spec_encode();
        assert(e.subrange(6, e.len() as int) =~= self.client_id@);
    }

    /// Reading a datagram takes each field from its place in the layout: the trailing bytes
    /// run from the end of the fixed fields to the datagram size, clipped to the buffer.
    pub proof fn lemma_read_layout(m: Connect, b: Seq<u8>, size: int, n: int)
        requires
            b.len() >= 6,
            Connect::parsed_from(m, b, size, n),
        ensures
            m.len == b[0],
            m.msg_type == b[1],
            m.flags == b[2],
            m.protocol_id == b[3],
            m.duration as int == b[4] as int * 256 + b[5] as int,
            m.client_id@ == b.subrange(6, if size <= 6 {
                6
            } else if size <= b.len() {
                size
            } else {
                b.len() as int
            }),
    {
    }

    /// Reading the bytes of a message gives the message back, having consumed all of them.
    pub proof fn lemma_roundtrip(self)
        ensures
            self.spec_encode().len() >= 6,
            Connect::parsed_from(self, self.spec_encode(), self.spec_encode().len() as int, self.spec_encode().len() as int),
    {
        let b = self.spec_encode();
        assert(be16_at(b, 4) == self.duration) by {
            lemma_be16_roundtrip(self.duration, self.client_id@, seq![self.len] + seq![self.msg_type] + seq![self.flags] + seq![self.protocol_id]);
            assert(b =~= (seq![self.len] + seq![self.msg_type] + seq![self.flags] + seq![self.protocol_id]) + be16(self.duration) + (self.client_id@));
        }
        assert(trailing(b, 6, b.len() as int) =~= self.client_id@);
    }
}

/// DISCONNECT, with the sleep duration.
#[derive(Clone, Copy, Debug, PartialEq, Eq, Structural, Default)]
pub struct Disconnect {
    pub len: u8,
    pub msg_type: u8,
    pub duration: u16,
}

impl Disconnect {
    /// The number of bytes of the fixed-size fields.
    pub open spec fn fixed_len() -> int {
        4
    }

    /// The bytes this message is sent as.
    pub open spec fn spec_encode(self) -> Seq<u8> {
        seq![self.len] + seq![self.msg_type] + be16(self.duration)
    }

    /// `m` is what reading a datagram of `size` bytes from `b` gives, having consumed `n`
    /// bytes.
    pub open spec fn parsed_from(m: Disconnect, b: Seq<u8>, size: int, n: int) -> bool {
        &&& m.len == b[0]
        &&& m.msg_type == b[1]
        &&& m.duration == be16_at(b, 2)
        &&& n == 4
    }

    /// Reads the message from the first bytes of `buf`, `size` being the datagram size;
    /// `None` when `buf` is shorter than the fixed-size fields.  Also gives the number of
    /// bytes consumed.
    pub fn try_read(buf: &[u8], size: usize) -> (r: Option<(Disconnect, usize)>)
        ensures
            r is Some <==> buf@.len() >= 4,
            r matches Some((m, n)) ==> Disconnect::parsed_from(m, buf@, size as int, n as int),
    {
        if buf.len() < 4 {
            return None;
        }
        let len = buf[0];
        let msg_type = buf[1];
        let duration = read_u16(buf, 2);
        let n: usize = 4;
        Some((Disconnect { len, msg_type, duration }, n))
    }

    /// The bytes this message is sent as.
    pub fn to_bytes(&self) -> (r: Vec<u8>)
        ensures
            r@ == self.spec_encode(),
    {
        let mut r: Vec<u8> = Vec::new();
        r.push(self.len);
        r.push(self.msg_type);
        push_u16(&mut r, self.duration);
        assert(r@ =~= self.spec_encode());
        r
    }

    /// Appends the bytes of this message to `buf`.
    pub fn try_write(&self, buf: &mut BytesMut)
        requires
            buffer_contents(*old(buf)).len() + self.spec_encode().len() <= isize::MAX,
        ensures
            buffer_contents(*final(buf)) == buffer_contents(*old(buf)) + self.spec_encode(),
    {
        let bytes = self.to_bytes();
        append_bytes(buf, bytes.as_slice());
    }

    /// The message is sent as its fields in declaration order: the length byte at offset 0,
    /// the type byte at offset 1, then each further field, a `u16` as its high byte then its
    /// low byte.
    pub proof fn lemma_layout(self)
        ensures
            ({
                let e = self.spec_encode();
                &&& e.len() == 4
                &&& e[0] == self.len
                &&& e[1] == self.msg_type
                &&& e[2] as int * 256 + e[3] as int == self.duration as int
            }),
    {
        let e = self.spec_encode();
    }

    /// Reading a datagram takes each field from its place in the layout.
    pub proof fn lemma_read_layout(m: Disconnect, b: Seq<u8>, size: int, n: int)
        requires
            b.len() >= 4,
            Disconnect::parsed_from(m, b, size, n),
        ensures
            m.len == b[0],
            m.msg_type == b[1],
            m.duration as int == b[2] as int * 256 + b[3] as int,
    {
    }

    /// Reading the bytes of a message gives the message back, having consumed all of them.
    pub proof fn lemma_roundtrip(self)
        ensures
            self.spec_encode().len() >= 4,
            Disconnect::parsed_from(self, self.spec_encode(), self.spec_encode().len() as int, self.spec_encode().len() as int),
    {
        let b = self.spec_encode();
        assert(be16_at(b, 2) == self.duration) by {
            lemma_be16_roundtrip(self.duration, Seq::<u8>::empty(), seq![self.len] + seq![self.msg_type]);
            assert(b =~= (seq![self.len] + seq![self.msg_type]) + be16(self.duration) + (Seq::<u8>::empty()));
        }
    }
}

/// PINGREQ: a keep-alive probe.
#[derive(Clone, Copy, Debug, PartialEq, Eq, Structural, Default)]
pub struct PingReq {
    pub len: u8,
    pub msg_type: u8,
}

impl PingReq {
    /// The number of bytes of the fixed-size fields.
    pub open spec fn fixed_len() -> int {
        2
    }

    /// The bytes this message is sent as.
    pub open spec fn spec_encode(self) -> Seq<u8> {
        seq![self.len] + seq![self.msg_type]
    }

    /// `m` is what reading a datagram of `size` bytes from `b` gives, having consumed `n`
    /// bytes.
    pub open spec fn parsed_from(m: PingReq, b: Seq<u8>, size: int, n: int) -> bool {
        &&& m.len == b[0]
        &&& m.msg_type == b[1]
        &&& n == 2
    }

    /// Reads the message from the first bytes of `buf`, `size` being the datagram size;
    /// `None` when `buf` is shorter than the fixed-size fields.  Also gives the number of
    /// bytes consumed.
    pub fn try_read(buf: &[u8], size: usize) -> (r: Option<(PingReq, usize)>)
        ensures
            r is Some <==> buf@.len() >= 2,
            r matches Some((m, n)) ==> PingReq::parsed_from(m, buf@, size as int, n as int),
    {
        if buf.len() < 2 {
            return None;
        }
        let len = buf[0];
        let msg_type = buf[1];
        let n: usize = 2;
        Some((PingReq { len, msg_type }, n))
    }

    /// The bytes this message is sent as.
    pub fn to_bytes(&self) -> (r: Vec<u8>)
        ensures
            r@ == self.spec_encode(),
    {
        let mut r: Vec<u8> = Vec::new();
        r.push(self.len);
        r.push(self.msg_type);
        assert(r@ =~= self.spec_encode());
        r
    }

    /// Appends the bytes of this message to `buf`.
    pub fn try_write(&self, buf: &mut BytesMut)
        requires
            buffer_contents(*old(buf)).len() + self.spec_encode().len() <= isize::MAX,
        ensures
            buffer_contents(*final(buf)) == buffer_contents(*old(buf)) + self.spec_encode(),
    {
        let bytes = self.to_bytes();
        append_bytes(buf, bytes.as_slice());
    }

    /// The message is sent as its fields in declaration order: the length byte at offset 0,
    /// the type byte at offset 1, then each further field, a `u16` as its high byte then its
    /// low byte.
    pub proof fn lemma_layout(self)
        ensures
            ({
                let e = self.spec_encode();
                &&& e.len() == 2
                &&& e[0] == self.len
                &&& e[1] == self.msg_type
            }),
    {
        let e = self.spec_encode();
    }

    /// Reading a datagram takes each field from its place in the layout.
    pub proof fn lemma_read_layout(m: PingReq, b: Seq<u8>, size: int, n: int)
        requires
            b.len() >= 2,
            PingReq::parsed_from(m, b, size, n),
        ensures
            m.len == b[0],
            m.msg_type == b[1],
    {
    }

    /// Reading the bytes of a message gives the message back, having consumed all of them.
    pub proof fn lemma_roundtrip(self)
        ensures
            self.spec_encode().len() >= 2,
            PingReq::parsed_from(self, self.spec_encode(), self.spec_encode().len() as int, self.spec_encode().len() as int),
    {
    }
}

/// PINGRESP: the answer to PINGREQ.
#[derive(Clone, Copy, Debug, PartialEq, Eq, Structural, Default)]
pub struct PingResp {
    pub len: u8,
    pub msg_type: u8,
}

impl PingResp {
    /// The number of bytes of the fixed-size fields.
    pub open spec fn fixed_len() -> int {
        2
    }

    /// The bytes this message is sent as.
    pub open spec fn spec_encode(self) -> Seq<u8> {
        seq![self.len] + seq![self.msg_type]
    }

    /// `m` is what reading a datagram of `size` bytes from `b` gives, having consumed `n`
    /// bytes.
    pub open spec fn parsed_from(m: PingResp, b: Seq<u8>, size: int, n: int) -> bool {
        &&& m.len == b[0]
        &&& m.msg_type == b[1]
        &&& n == 2
    }

    /// Reads the message from the first bytes of `buf`, `size` being the datagram size;
    /// `None` when `buf` is shorter than the fixed-size fields.  Also gives the number of
    /// bytes consumed.
    pub fn try_read(buf: &[u8], size: usize) -> (r: Option<(PingResp, usize)>)
        ensures
            r is Some <==> buf@.len() >= 2,
            r matches Some((m, n)) ==> PingResp::parsed_from(m, buf@, size as int, n as int),
    {
        if buf.len() < 2 {
            return None;
        }
        let len = buf[0];
        let msg_type = buf[1];
        let n: usize = 2;
        Some((PingResp { len, msg_type }, n))
    }

    /// The bytes this message is sent as.
    pub fn to_bytes(&self) -> (r: Vec<u8>)
        ensures
            r@ == self.spec_encode(),
    {
        let mut r: Vec<u8> = Vec::new();
        r.push(self.len);
        r.push(self.msg_type);
        assert(r@ =~= self.spec_encode());
        r
    }

    /// Appends the bytes of this message to `buf`.
    pub fn try_write(&self, buf: &mut BytesMut)
        requires
            buffer_contents(*old(buf)).len() + self.spec_encode().len() <= isize::MAX,
        ensures
            buffer_contents(*final(buf)) == buffer_contents(*old(buf)) + self.spec_encode(),
    {
        let bytes = self.to_bytes();
        append_bytes(buf, bytes.as_slice());
    }

    /// The message is sent as its fields in declaration order: the length byte at offset 0,
    /// the type byte at offset 1, then each further field, a `u16` as its high byte then its
    /// low byte.
    pub proof fn lemma_layout(self)
        ensures
            ({
                let e = self.spec_encode();
                &&& e.len() == 2
                &&& e[0] == self.len
                &&& e[1] == self.msg_type
            }),
    {
        let e = self.spec_encode();
    }

    /// Reading a datagram takes each field from its place in the layout.
    pub proof fn lemma_read_layout(m: PingResp, b: Seq<u8>, size: int, n: int)
        requires
            b.len() >= 2,
            PingResp::parsed_from(m, b, size, n),
        ensures
            m.len == b[0],
            m.msg_type == b[1],
    {
    }

    /// Reading the bytes of a message gives the message back, having consumed all of them.
    pub proof fn lemma_roundtrip(self)
        ensures
            self.spec_encode().len() >= 2,
            PingResp::parsed_from(self, self.spec_encode(), self.spec_encode().len() as int, self.spec_encode().len() as int),
    {
    }
}

/// PUBLISH: a message for a topic.
#[derive(Clone, Debug)]
pub struct Publish {
    pub len: u8,
    pub msg_type: u8,
    pub flags: u8,
    pub topic_id: u16,
    pub msg_id: u16,
    pub data: Vec<u8>,
}

impl Publish {
    /// The number of bytes of the fixed-size fields.
    pub open spec fn fixed_len() -> int {
        7
    }

    /// The bytes this message is sent as.
    pub open spec fn spec_encode(self) -> Seq<u8> {
        seq![self.len] + seq![self.msg_type] + seq![self.flags] + be16(self.topic_id) + be16(self.msg_id) + self.data@
    }

    /// `m` is what reading a datagram of `size` bytes from `b` gives, having consumed `n`
    /// bytes.
    pub open spec fn parsed_from(m: Publish, b: Seq<u8>, size: int, n: int) -> bool {
        &&& m.len == b[0]
        &&& m.msg_type == b[1]
        &&& m.flags == b[2]
        &&& m.topic_id == be16_at(b, 3)
        &&& m.msg_id == be16_at(b, 5)
        &&& m.data@ == trailing(b, 7, size)
        &&& n == 7 + trailing(b, 7, size).len()
    }

    /// Reads the message from the first bytes of `buf`, `size` being the datagram size;
    /// `None` when `buf` is shorter than the fixed-size fields.  Also gives the number of
    /// bytes consumed.
    pub fn try_read(buf: &[u8], size: usize) -> (r: Option<(Publish, usize)>)
        ensures
            r is Some <==> buf@.len() >= 7,
            r matches Some((m, n)) ==> Publish::parsed_from(m, buf@, size as int, n as int),
    {
        if buf.len() < 7 {
            return None;
        }
        let len = buf[0];
        let msg_type = buf[1];
        let flags = buf[2];
        let topic_id = read_u16(buf, 3);
        let msg_id = read_u16(buf, 5);
        let data = read_trailing(buf, 7, size);
        let n = 7 + data.len();
        Some((Publish { len, msg_type, flags, topic_id, msg_id, data }, n))
    }

    /// The bytes this message is sent as.
    pub fn to_bytes(&self) -> (r: Vec<u8>)
        ensures
            r@ == self.spec_encode(),
    {
        let mut r: Vec<u8> = Vec::new();
        r.push(self.len);
        r.push(self.msg_type);
        r.push(self.flags);
        push_u16(&mut r, self.topic_id);
        push_u16(&mut r, self.msg_id);
        push_all(&mut r, &self.data);
        assert(r@ =~= self.spec_encode());
        r
    }

    /// Appends the bytes of this message to `buf`.
    pub fn try_write(&self, buf: &mut BytesMut)
        requires
            buffer_contents(*old(buf)).len() + self.spec_encode().len() <= isize::MAX,
        ensures
            buffer_contents(*final(buf)) == buffer_contents(*old(buf)) + self.spec_encode(),
    {
        let bytes = self.to_bytes();
        append_bytes(buf, bytes.as_slice());
    }

    /// The message is sent as its fields in declaration order: the length byte at offset 0,
    /// the type byte at offset 1, then each further field, a `u16` as its high byte then its
    /// low byte, and the trailing bytes last.
    pub proof fn lemma_layout(self)
        ensures
            ({
                let e = self.spec_encode();
                &&& e.len() == 7 + self.data@.len()
                &&& e[0] == self.len
                &&& e[1] == self.msg_type
                &&& e[2] == self.flags
                &&& e[3] as int * 256 + e[4] as int == self.topic_id as int
                &&& e[5] as int * 256 + e[6] as int == self.msg_id as int
                &&& e.subrange(7, e.len() as int) == self.data@
            }),
    {
        let e = self.spec_encode();
        assert(e.subrange(7, e.len() as int) =~= self.data@);
    }

    /// Reading a datagram takes each field from its place in the layout: the trailing bytes
    /// run from the end of the fixed fields to the datagram size, clipped to the buffer.
    pub proof fn lemma_read_layout(m: Publish, b: Seq<u8>, size: int, n: int)
        requires
            b.len() >= 7,
            Publish::parsed_from(m, b, size, n),
        ensures
            m.len == b[0],
            m.msg_type == b[1],
            m.flags == b[2],
            m.topic_id as int == b[3] as int * 256 + b[4] as int,
            m.msg_id as int == b[5] as int * 256 + b[6] as int,
            m.data@ == b.subrange(7, if size <= 7 {
                7
            } else if size <= b.len() {
                size
            } else {
                b.len() as int
            }),
    {
    }

    /// Reading the bytes of a message gives the message back, having consumed all of them.
    pub proof fn lemma_roundtrip(self)
        ensures
            self.spec_encode().len() >= 7,
            Publish::parsed_from(self, self.spec_encode(), self.spec_encode().len() as int, self.spec_encode().len() as int),
    {
        let b = self.spec_encode();
        assert(be16_at(b, 3) == self.topic_id) by {
            lemma_be16_roundtrip(self.topic_id, be16(self.msg_id) + self.data@, seq![self.len] + seq![self.msg_type] + seq![self.flags]);
            assert(b =~= (seq![self.len] + seq![self.msg_type] + seq![self.flags]) + be16(self.topic_id) + (be16(self.msg_id) + self.data@));
        }
        assert(be16_at(b, 5) == self.msg_id) by {
            lemma_be16_roundtrip(self.msg_id, self.data@, seq![self.len] + seq![self.msg_type] + seq![self.flags] + be16(self.topic_id));
            assert(b =~= (seq![self.len] + seq![self.msg_type] + seq![self.flags] + be16(self.topic_id)) + be16(self.msg_id) + (self.data@));
        }
        assert(trailing(b, 7, b.len() as int) =~= self.data@);
    }
}

/// PUBACK: acknowledges a PUBLISH.
#[derive(Clone, Copy, Debug, PartialEq, Eq, Structural, Default)]
pub struct PubAck {
    pub len: u8,
    pub msg_type: u8,
    pub topic_id: u16,
    pub msg_id: u16,
    pub return_code: u8,
}

impl PubAck {
    /// The number of bytes of the fixed-size fields.
    pub open spec fn fixed_len() -> int {
        7
    }

    /// The bytes this message is sent as.
    pub open spec fn spec_encode(self) -> Seq<u8> {
        seq![self.len] + seq![self.msg_type] + be16(self.topic_id) + be16(self.msg_id) + seq![self.return_code]
    }

    /// `m` is what reading a datagram of `size` bytes from `b` gives, having consumed `n`
    /// bytes.
    pub open spec fn parsed_from(m: PubAck, b: Seq<u8>, size: int, n: int) -> bool {
        &&& m.len == b[0]
        &&& m.msg_type == b[1]
        &&& m.topic_id == be16_at(b, 2)
        &&& m.msg_id == be16_at(b, 4)
        &&& m.return_code == b[6]
        &&& n == 7
    }

    /// Reads the message from the first bytes of `buf`, `size` being the datagram size;
    /// `None` when `buf` is shorter than the fixed-size fields.  Also gives the number of
    /// bytes consumed.
    pub fn try_read(buf: &[u8], size: usize) -> (r: Option<(PubAck, usize)>)
        ensures
            r is Some <==> buf@.len() >= 7,
            r matches Some((m, n)) ==> PubAck::parsed_from(m, buf@, size as int, n as int),
    {
        if buf.len() < 7 {
            return None;
        }
        let len = buf[0];
        let msg_type = buf[1];
        let topic_id = read_u16(buf, 2);
        let msg_id = read_u16(buf, 4);
        let return_code = buf[6];
        let n: usize = 7;
        Some((PubAck { len, msg_type, topic_id, msg_id, return_code }, n))
    }

    /// The bytes this message is sent as.
    pub fn to_bytes(&self) -> (r: Vec<u8>)
        ensures
            r@ == self.spec_encode(),
    {
        let mut r: Vec<u8> = Vec::new();
        r.push(self.len);
        r.push(self.msg_type);
        push_u16(&mut r, self.topic_id);
        push_u16(&mut r, self.msg_id);
        r.push(self.return_code);
        assert(r@ =~= self.spec_encode());
        r
    }

    /// Appends the bytes of this message to `buf`.
    pub fn try_write(&self, buf: &mut BytesMut)
        requires
            buffer_contents(*old(buf)).len() + self.spec_encode().len() <= isize::MAX,
        ensures
            buffer_contents(*final(buf)) == buffer_contents(*old(buf)) + self.spec_encode(),
    {
        let bytes = self.to_bytes();
        append_bytes(buf, bytes.as_slice());
    }

    /// The message is sent as its fields in declaration order: the length byte at offset 0,
    /// the type byte at offset 1, then each further field, a `u16` as its high byte then its
    /// low byte.
    pub proof fn lemma_layout(self)
        ensures
            ({
                let e = self.spec_encode();
                &&& e.len() == 7
                &&& e[0] == self.len
                &&& e[1] == self.msg_type
                &&& e[2] as int * 256 + e[3] as int == self.topic_id as int
                &&& e[4] as int * 256 + e[5] as int == self.msg_id as int
                &&& e[6] == self.return_code
            }),
    {
        let e = self.spec_encode();
    }

    /// Reading a datagram takes each field from its place in the layout.
    pub proof fn lemma_read_layout(m: PubAck, b: Seq<u8>, size: int, n: int)
        requires
            b.len() >= 7,
            PubAck::parsed_from(m, b, size, n),
        ensures
            m.len == b[0],
            m.msg_type == b[1],
            m.topic_id as int == b[2] as int * 256 + b[3] as int,
            m.msg_id as int == b[4] as int * 256 + b[5] as int,
            m.return_code == b[6],
    {
    }

    /// Reading the bytes of a message gives the message back, having consumed all of them.
    pub proof fn lemma_roundtrip(self)
        ensures
            self.spec_encode().len() >= 7,
            PubAck::parsed_from(self, self.spec_encode(), self.spec_encode().len() as int, self.spec_encode().len() as int),
    {
        let b = self.spec_encode();
        assert(be16_at(b, 2) == self.topic_id) by {
            lemma_be16_roundtrip(self.topic_id, be16(self.msg_id) + seq![self.return_code], seq![self.len] + seq![self.msg_type]);
            assert(b =~= (seq![self.len] + seq![self.msg_type]) + be16(self.topic_id) + (be16(self.msg_id) + seq![self.return_code]));
        }
        assert(be16_at(b, 4) == self.msg_id) by {
            lemma_be16_roundtrip(self.msg_id, seq![self.return_code], seq![self.len] + seq![self.msg_type] + be16(self.topic_id));
            assert(b =~= (seq![self.len] + seq![self.msg_type] + be16(self.topic_id)) + be16(self.msg_id) + (seq![self.return_code]));
        }
    }
}

/// PUBREL: releases a QoS 2 PUBLISH.
#[derive(Clone, Copy, Debug, PartialEq, Eq, Structural, Default)]
pub struct PubRel {
    pub len: u8,
    pub msg_type: u8,
    pub msg_id: u16,
}

impl PubRel {
    /// The number of bytes of the fixed-size fields.
    pub open spec fn fixed_len() -> int {
        4
    }

    /// The bytes this message is sent as.
    pub open spec fn spec_encode(self) -> Seq<u8> {
        seq![self.len] + seq![self.msg_type] + be16(self.msg_id)
    }

    /// `m` is what reading a datagram of `size` bytes from `b` gives, having consumed `n`
    /// bytes.
    pub open spec fn parsed_from(m: PubRel, b: Seq<u8>, size: int, n: int) -> bool {
        &&& m.len == b[0]
        &&& m.msg_type == b[1]
        &&& m.msg_id == be16_at(b, 2)
        &&& n == 4
    }

    /// Reads the message from the first bytes of `buf`, `size` being the datagram size;
    /// `None` when `buf` is shorter than the fixed-size fields.  Also gives the number of
    /// bytes consumed.
    pub fn try_read(buf: &[u8], size: usize) -> (r: Option<(PubRel, usize)>)
        ensures
            r is Some <==> buf@.len() >= 4,
            r matches Some((m, n)) ==> PubRel::parsed_from(m, buf@, size as int, n as int),
    {
        if buf.len() < 4 {
            return None;
        }
        let len = buf[0];
        let msg_type = buf[1];
        let msg_id = read_u16(buf, 2);
        let n: usize = 4;
        Some((PubRel { len, msg_type, msg_id }, n))
    }

    /// The bytes this message is sent as.
    pub fn to_bytes(&self) -> (r: Vec<u8>)
        ensures
            r@ == self.spec_encode(),
    {
        let mut r: Vec<u8> = Vec::new();
        r.push(self.len);
        r.push(self.msg_type);
        push_u16(&mut r, self.msg_id);
        assert(r@ =~= self.spec_encode());
        r
    }

    /// Appends the bytes of this message to `buf`.
    pub fn try_write(&self, buf: &mut BytesMut)
        requires
            buffer_contents(*old(buf)).len() + self.spec_encode().len() <= isize::MAX,
        ensures
            buffer_contents(*final(buf)) == buffer_contents(*old(buf)) + self.spec_encode(),
    {
        let bytes = self.to_bytes();
        append_bytes(buf, bytes.as_slice());
    }

    /// The message is sent as its fields in declaration order: the length byte at offset 0,
    /// the type byte at offset 1, then each further field, a `u16` as its high byte then its
    /// low byte.
    pub proof fn lemma_layout(self)
        ensures
            ({
                let e = self.spec_encode();
                &&& e.len() == 4
                &&& e[0] == self.len
                &&& e[1] == self.msg_type
                &&& e[2] as int * 256 + e[3] as int == self.msg_id as int
            }),
    {
        let e = self.spec_encode();
    }

    /// Reading a datagram takes each field from its place in the layout.
    pub proof fn lemma_read_layout(m: PubRel, b: Seq<u8>, size: int, n: int)
        requires
            b.len() >= 4,
            PubRel::parsed_from(m, b, size, n),
        ensures
            m.len == b[0],
            m.msg_type == b[1],
            m.msg_id as int == b[2] as int * 256 + b[3] as int,
    {
    }

    /// Reading the bytes of a message gives the message back, having consumed all of them.
    pub proof fn lemma_roundtrip(self)
        ensures
            self.spec_encode().len() >= 4,
            PubRel::parsed_from(self, self.spec_encode(), self.spec_encode().len() as int, self.spec_encode().len() as int),
    {
        let b = self.spec_encode();
        assert(be16_at(b, 2) == self.msg_id) by {
            lemma_be16_roundtrip(self.msg_id, Seq::<u8>::empty(), seq![self.len] + seq![self.msg_type]);
            assert(b =~= (seq![self.len] + seq![self.msg_type]) + be16(self.msg_id) + (Seq::<u8>::empty()));
        }
    }
}

/// REGACK: acknowledges a REGISTER with the topic id.
#[derive(Clone, Copy, Debug, PartialEq, Eq, Structural, Default)]
pub struct RegAck {
    pub len: u8,
    pub msg_type: u8,
    pub topic_id: u16,
    pub msg_id: u16,
    pub return_code: u8,
}

impl RegAck {
    /// The number of bytes of the fixed-size fields.
    pub open spec fn fixed_len() -> int {
        7
    }

    /// The bytes this message is sent as.
    pub open spec fn spec_encode(self) -> Seq<u8> {
        seq![self.len] + seq![self.msg_type] + be16(self.topic_id) + be16(self.msg_id) + seq![self.return_code]
    }

    /// `m` is what reading a datagram of `size` bytes from `b` gives, having consumed `n`
    /// bytes.
    pub open spec fn parsed_from(m: RegAck, b: Seq<u8>, size: int, n: int) -> bool {
        &&& m.len == b[0]
        &&& m.msg_type == b[1]
        &&& m.topic_id == be16_at(b, 2)
        &&& m.msg_id == be16_at(b, 4)
        &&& m.return_code == b[6]
        &&& n == 7
    }

    /// Reads the message from the first bytes of `buf`, `size` being the datagram size;
    /// `None` when `buf` is shorter than the fixed-size fields.  Also gives the number of
    /// bytes consumed.
    pub fn try_read(buf: &[u8], size: usize) -> (r: Option<(RegAck, usize)>)
        ensures
            r is Some <==> buf@.len() >= 7,
            r matches Some((m, n)) ==> RegAck::parsed_from(m, buf@, size as int, n as int),
    {
        if buf.len() < 7 {
            return None;
        }
        let len = buf[0];
        let msg_type = buf[1];
        let topic_id = read_u16(buf, 2);
        let msg_id = read_u16(buf, 4);
        let return_code = buf[6];
        let n: usize = 7;
        Some((RegAck { len, msg_type, topic_id, msg_id, return_code }, n))
    }

    /// The bytes this message is sent as.
    pub fn to_bytes(&self) -> (r: Vec<u8>)
        ensures
            r@ == self.spec_encode(),
    {
        let mut r: Vec<u8> = Vec::new();
        r.push(self.len);
        r.push(self.msg_type);
        push_u16(&mut r, self.topic_id);
        push_u16(&mut r, self.msg_id);
        r.push(self.return_code);
        assert(r@ =~= self.spec_encode());
        r
    }

    /// Appends the bytes of this message to `buf`.
    pub fn try_write(&self, buf: &mut BytesMut)
        requires
            buffer_contents(*old(buf)).len() + self.spec_encode().len() <= isize::MAX,
        ensures
            buffer_contents(*final(buf)) == buffer_contents(*old(buf)) + self.spec_encode(),
    {
        let bytes = self.to_bytes();
        append_bytes(buf, bytes.as_slice());
    }

    /// The message is sent as its fields in declaration order: the length byte at offset 0,
    /// the type byte at offset 1, then each further field, a `u16` as its high byte then its
    /// low byte.
    pub proof fn lemma_layout(self)
        ensures
            ({
                let e = self.spec_encode();
                &&& e.len() == 7
                &&& e[0] == self.len
                &&& e[1] == self.msg_type
                &&& e[2] as int * 256 + e[3] as int == self.topic_id as int
                &&& e[4] as int * 256 + e[5] as int == self.msg_id as int
                &&& e[6] == self.return_code
            }),
    {
        let e = self.spec_encode();
    }

    /// Reading a datagram takes each field from its place in the layout.
    pub proof fn lemma_read_layout(m: RegAck, b: Seq<u8>, size: int, n: int)
        requires
            b.len() >= 7,
            RegAck::parsed_from(m, b, size, n),
        ensures
            m.len == b[0],
            m.msg_type == b[1],
            m.topic_id as int == b[2] as int * 256 + b[3] as int,
            m.msg_id as int == b[4] as int * 256 + b[5] as int,
            m.return_code == b[6],
    {
    }

    /// Reading the bytes of a message gives the message back, having consumed all of them.
    pub proof fn lemma_roundtrip(self)
        ensures
            self.spec_encode().len() >= 7,
            RegAck::parsed_from(self, self.spec_encode(), self.spec_encode().len() as int, self.spec_encode().len() as int),
    {
        let b = self.spec_encode();
        assert(be16_at(b, 2) == self.topic_id) by {
            lemma_be16_roundtrip(self.topic_id, be16(self.msg_id) + seq![self.return_code], seq![self.len] + seq![self.msg_type]);
            assert(b =~= (seq![self.len] + seq![self.msg_type]) + be16(self.topic_id) + (be16(self.msg_id) + seq![self.return_code]));
        }
        assert(be16_at(b, 4) == self.msg_id) by {
            lemma_be16_roundtrip(self.msg_id, seq![self.return_code], seq![self.len] + seq![self.msg_type] + be16(self.topic_id));
            assert(b =~= (seq![self.len] + seq![self.msg_type] + be16(self.topic_id)) + be16(self.msg_id) + (seq![self.return_code]));
        }
    }
}

/// REGISTER: asks for the id of a topic name.
#[derive(Clone, Debug)]
pub struct Register {
    pub len: u8,
    pub msg_type: u8,
    pub topic_id: u16,
    pub msg_id: u16,
    pub topic_name: Vec<u8>,
}

impl Register {
    /// The number of bytes of the fixed-size fields.
    pub open spec fn fixed_len() -> int {
        6
    }

    /// The bytes this message is sent as.
    pub open spec fn spec_encode(self) -> Seq<u8> {
        seq![self.len] + seq![self.msg_type] + be16(self.topic_id) + be16(self.msg_id) + self.topic_name@
    }

    /// `m` is what reading a datagram of `size` bytes from `b` gives, having consumed `n`
    /// bytes.
    pub open spec fn parsed_from(m: Register, b: Seq<u8>, size: int, n: int) -> bool {
        &&& m.len == b[0]
        &&& m.msg_type == b[1]
        &&& m.topic_id == be16_at(b, 2)
        &&& m.msg_id == be16_at(b, 4)
        &&& m.topic_name@ == trailing(b, 6, size)
        &&& n == 6 + trailing(b, 6, size).len()
    }

    /// Reads the message from the first bytes of `buf`, `size` being the datagram size;
    /// `None` when `buf` is shorter than the fixed-size fields.  Also gives the number of
    /// bytes consumed.
    pub fn try_read(buf: &[u8], size: usize) -> (r: Option<(Register, usize)>)
        ensures
            r is Some <==> buf@.len() >= 6,
            r matches Some((m, n)) ==> Register::parsed_from(m, buf@, size as int, n as int),
    {
        if buf.len() < 6 {
            return None;
        }
        let len = buf[0];
        let msg_type = buf[1];
        let topic_id = read_u16(buf, 2);
        let msg_id = read_u16(buf, 4);
        let topic_name = read_trailing(buf, 6, size);
        let n = 6 + topic_name.len();
        Some((Register { len, msg_type, topic_id, msg_id, topic_name }, n))
    }

    /// The bytes this message is sent as.
    pub fn to_bytes(&self) -> (r: Vec<u8>)
        ensures
            r@ == self.spec_encode(),
    {
        let mut r: Vec<u8> = Vec::new();
        r.push(self.len);
        r.push(self.msg_type);
        push_u16(&mut r, self.topic_id);
        push_u16(&mut r, self.msg_id);
        push_all(&mut r, &self.topic_name);
        assert(r@ =~= self.spec_encode());
        r
    }

    /// Appends the bytes of this message to `buf`.
    pub fn try_write(&self, buf: &mut BytesMut)
        requires
            buffer_contents(*old(buf)).len() + self.spec_encode().len() <= isize::MAX,
        ensures
            buffer_contents(*final(buf)) == buffer_contents(*old(buf)) + self.spec_encode(),
    {
        let bytes = self.to_bytes();
        append_bytes(buf, bytes.as_slice());
    }

    /// The message is sent as its fields in declaration order: the length byte at offset 0,
    /// the type byte at offset 1, then each further field, a `u16` as its high byte then its
    /// low byte, and the trailing bytes last.
    pub proof fn lemma_layout(self)
        ensures
            ({
                let e = self.spec_encode();
                &&& e.len() == 6 + self.topic_name@.len()
                &&& e[0] == self.len
                &&& e[1] == self.msg_type
                &&& e[2] as int * 256 + e[3] as int == self.topic_id as int
                &&& e[4] as int * 256 + e[5] as int == self.msg_id as int
                &&& e.subrange(6, e.len() as int) == self.topic_name@
            }),
    {
        let e = self.spec_encode();
        assert(e.subrange(6, e.len() as int) =~= self.topic_name@);
    }

    /// Reading a datagram takes each field from its place in the layout: the trailing bytes
    /// run from the end of the fixed fields to the datagram size, clipped to the buffer.
    pub proof fn lemma_read_layout(m: Register, b: Seq<u8>, size: int, n: int)
        requires
            b.len() >= 6,
            Register::parsed_from(m, b, size, n),
        ensures
            m.len == b[0],
            m.msg_type == b[1],
            m.topic_id as int == b[2] as int * 256 + b[3] as int,
            m.msg_id as int == b[4] as int * 256 + b[5] as int,
            m.topic_name@ == b.subrange(6, if size <= 6 {
                6
            } else if size <= b.len() {
                size
            } else {
                b.len() as int
            }),
    {
    }

    /// Reading the bytes of a message gives the message back, having consumed all of them.
    pub proof fn lemma_roundtrip(self)
        ensures
            self.spec_encode().len() >= 6,
            Register::parsed_from(self, self.spec_encode(), self.spec_encode().len() as int, self.spec_encode().len() as int),
    {
        let b = self.spec_encode();
        assert(be16_at(b, 2) == self.topic_id) by {
            lemma_be16_roundtrip(self.topic_id, be16(self.msg_id) + self.topic_name@, seq![self.len] + seq![self.msg_type]);
            assert(b =~= (seq![self.len] + seq![self.msg_type]) + be16(self.topic_id) + (be16(self.msg_id) + self.topic_name@));
        }
        assert(be16_at(b, 4) == self.msg_id) by {
            lemma_be16_roundtrip(self.msg_id, self.topic_name@, seq![self.len] + seq![self.msg_type] + be16(self.topic_id));
            assert(b =~= (seq![self.len] + seq![self.msg_type] + be16(self.topic_id)) + be16(self.msg_id) + (self.topic_name@));
        }
        assert(trailing(b, 6, b.len() as int) =~= self.topic_name@);
    }
}

/// SUBSCRIBE: asks to receive a topic.
#[derive(Clone, Debug)]
pub struct Subscribe {
    pub len: u8,
    pub msg_type: u8,
    pub flags: u8,
    pub msg_id: u16,
    pub topic_name: Vec<u8>,
}

impl Subscribe {
    /// The number of bytes of the fixed-size fields.
    pub open spec fn fixed_len() -> int {
        5
    }

    /// The bytes this message is sent as.
    pub open spec fn spec_encode(self) -> Seq<u8> {
        seq![self.len] + seq![self.msg_type] + seq![self.flags] + be16(self.msg_id) + self.topic_name@
    }

    /// `m` is what reading a datagram of `size` bytes from `b` gives, having consumed `n`
    /// bytes.
    pub open spec fn parsed_from(m: Subscribe, b: Seq<u8>, size: int, n: int) -> bool {
        &&& m.len == b[0]
        &&& m.msg_type == b[1]
        &&& m.flags == b[2]
        &&& m.msg_id == be16_at(b, 3)
        &&& m.topic_name@ == trailing(b, 5, size)
        &&& n == 5 + trailing(b, 5, size).len()
    }

    /// Reads the message from the first bytes of `buf`, `size` being the datagram size;
    /// `None` when `buf` is shorter than the fixed-size fields.  Also gives the number of
    /// bytes consumed.
    pub fn try_read(buf: &[u8], size: usize) -> (r: Option<(Subscribe, usize)>)
        ensures
            r is Some <==> buf@.len() >= 5,
            r matches Some((m, n)) ==> Subscribe::parsed_from(m, buf@, size as int, n as int),
    {
        if buf.len() < 5 {
            return None;
        }
        let len = buf[0];
        let msg_type = buf[1];
        let flags = buf[2];
        let msg_id = read_u16(buf, 3);
        let topic_name = read_trailing(buf, 5, size);
        let n = 5 + topic_name.len();
        Some((Subscribe { len, msg_type, flags, msg_id, topic_name }, n))
    }

    /// The bytes this message is sent as.
    pub fn to_bytes(&self) -> (r: Vec<u8>)
        ensures
            r@ == self.spec_encode(),
    {
        let mut r: Vec<u8> = Vec::new();
        r.push(self.len);
        r.push(self.msg_type);
        r.push(self.flags);
        push_u16(&mut r, self.msg_id);
        push_all(&mut r, &self.topic_name);
        assert(r@ =~= self.spec_encode());
        r
    }

    /// Appends the bytes of this message to `buf`.
    pub fn try_write(&self, buf: &mut BytesMut)
        requires
            buffer_contents(*old(buf)).len() + self.spec_encode().len() <= isize::MAX,
        ensures
            buffer_contents(*final(buf)) == buffer_contents(*old(buf)) + self.spec_encode(),
    {
        let bytes = self.to_bytes();
        append_bytes(buf, bytes.as_slice());
    }

    /// The message is sent as its fields in declaration order: the length byte at offset 0,
    /// the type byte at offset 1, then each further field, a `u16` as its high byte then its
    /// low byte, and the trailing bytes last.
    pub proof fn lemma_layout(self)
        ensures
            ({
                let e = self.spec_encode();
                &&& e.len() == 5 + self.topic_name@.len()
                &&& e[0] == self.len
                &&& e[1] == self.msg_type
                &&& e[2] == self.flags
                &&& e[3] as int * 256 + e[4] as int == self.msg_id as int
                &&& e.subrange(5, e.len() as int) == self.topic_name@
            }),
    {
        let e = self.spec_encode();
        assert(e.subrange(5, e.len() as int) =~= self.topic_name@);
    }

    /// Reading a datagram takes each field from its place in the layout: the trailing bytes
    /// run from the end of the fixed fields to the datagram size, clipped to the buffer.
    pub proof fn lemma_read_layout(m: Subscribe, b: Seq<u8>, size: int, n: int)
        requires
            b.len() >= 5,
            Subscribe::parsed_from(m, b, size, n),
        ensures
            m.len == b[0],
            m.msg_type == b[1],
            m.flags == b[2],
            m.msg_id as int == b[3] as int * 256 + b[4] as int,
            m.topic_name@ == b.subrange(5, if size <= 5 {
                5
            } else if size <= b.len() {
                size
            } else {
                b.len() as int
            }),
    {
    }

    /// Reading the bytes of a message gives the message back, having consumed all of them.
    pub proof fn lemma_roundtrip(self)
        ensures
            self.spec_encode().len() >= 5,
            Subscribe::parsed_from(self, self.spec_encode(), self.spec_encode().len() as int, self.spec_encode().len() as int),
    {
        let b = self.spec_encode();
        assert(be16_at(b, 3) == self.msg_id) by {
            lemma_be16_roundtrip(self.msg_id, self.topic_name@, seq![self.len] + seq![self.msg_type] + seq![self.flags]);
            assert(b =~= (seq![self.len] + seq![self.msg_type] + seq![self.flags]) + be16(self.msg_id) + (self.topic_name@));
        }
        assert(trailing(b, 5, b.len() as int) =~= self.topic_name@);
    }
}

/// SUBACK: acknowledges a SUBSCRIBE with the topic id.
#[derive(Clone, Copy, Debug, PartialEq, Eq, Structural, Default)]
pub struct SubAck {
    pub len: u8,
    pub msg_type: u8,
    pub flags: u8,
    pub topic_id: u16,
    pub msg_id: u16,
    pub return_code: u8,
}

impl SubAck {
    /// The number of bytes of the fixed-size fields.
    pub open spec fn fixed_len() -> int {
        8
    }

    /// The bytes this message is sent as.
    pub open spec fn spec_encode(self) -> Seq<u8> {
        seq![self.len] + seq![self.msg_type] + seq![self.flags] + be16(self.topic_id) + be16(self.msg_id) + seq![self.return_code]
    }

    /// `m` is what reading a datagram of `size` bytes from `b` gives, having consumed `n`
    /// bytes.
    pub open spec fn parsed_from(m: SubAck, b: Seq<u8>, size: int, n: int) -> bool {
        &&& m.len == b[0]
        &&& m.msg_type == b[1]
        &&& m.flags == b[2]
        &&& m.topic_id == be16_at(b, 3)
        &&& m.msg_id == be16_at(b, 5)
        &&& m.return_code == b[7]
        &&& n == 8
    }

    /// Reads the message from the first bytes of `buf`, `size` being the datagram size;
    /// `None` when `buf` is shorter than the fixed-size fields.  Also gives the number of
    /// bytes consumed.
    pub fn try_read(buf: &[u8], size: usize) -> (r: Option<(SubAck, usize)>)
        ensures
            r is Some <==> buf@.len() >= 8,
            r matches Some((m, n)) ==> SubAck::parsed_from(m, buf@, size as int, n as int),
    {
        if buf.len() < 8 {
            return None;
        }
        let len = buf[0];
        let msg_type = buf[1];
        let flags = buf[2];
        let topic_id = read_u16(buf, 3);
        let msg_id = read_u16(buf, 5);
        let return_code = buf[7];
        let n: usize = 8;
        Some((SubAck { len, msg_type, flags, topic_id, msg_id, return_code }, n))
    }

    /// The bytes this message is sent as.
    pub fn to_bytes(&self) -> (r: Vec<u8>)
        ensures
            r@ == self.spec_encode(),
    {
        let mut r: Vec<u8> = Vec::new();
        r.push(self.len);
        r.push(self.msg_type);
        r.push(self.flags);
        push_u16(&mut r, self.topic_id);
        push_u16(&mut r, self.msg_id);
        r.push(self.return_code);
        assert(r@ =~= self.spec_encode());
        r
    }

    /// Appends the bytes of this message to `buf`.
    pub fn try_write(&self, buf: &mut BytesMut)
        requires
            buffer_contents(*old(buf)).len() + self.spec_encode().len() <= isize::MAX,
        ensures
            buffer_contents(*final(buf)) == buffer_contents(*old(buf)) + self.spec_encode(),
    {
        let bytes = self.to_bytes();
        append_bytes(buf, bytes.as_slice());
    }

    /// The message is sent as its fields in declaration order: the length byte at offset 0,
    /// the type byte at offset 1, then each further field, a `u16` as its high byte then its
    /// low byte.
    pub proof fn lemma_layout(self)
        ensures
            ({
                let e = self.spec_encode();
                &&& e.len() == 8
                &&& e[0] == self.len
                &&& e[1] == self.msg_type
                &&& e[2] == self.flags
                &&& e[3] as int * 256 + e[4] as int == self.topic_id as int
                &&& e[5] as int * 256 + e[6] as int == self.msg_id as int
                &&& e[7] == self.return_code
            }),
    {
        let e = self.spec_encode();
    }

    /// Reading a datagram takes each field from its place in the layout.
    pub proof fn lemma_read_layout(m: SubAck, b: Seq<u8>, size: int, n: int)
        requires
            b.len() >= 8,
            SubAck::parsed_from(m, b, size, n),
        ensures
            m.len == b[0],
            m.msg_type == b[1],
            m.flags == b[2],
            m.topic_id as int == b[3] as int * 256 + b[4] as int,
            m.msg_id as int == b[5] as int * 256 + b[6] as int,
            m.return_code == b[7],
    {
    }

    /// Reading the bytes of a message gives the message back, having consumed all of them.
    pub proof fn lemma_roundtrip(self)
        ensures
            self.spec_encode().len() >= 8,
            SubAck::parsed_from(self, self.spec_encode(), self.spec_encode().len() as int, self.spec_encode().len() as int),
    {
        let b = self.spec_encode();
        assert(be16_at(b, 3) == self.topic_id) by {
            lemma_be16_roundtrip(self.topic_id, be16(self.msg_id) + seq![self.return_code], seq![self.len] + seq![self.msg_type] + seq![self.flags]);
            assert(b =~= (seq![self.len] + seq![self.msg_type] + seq![self.flags]) + be16(self.topic_id) + (be16(self.msg_id) + seq![self.return_code]));
        }
        assert(be16_at(b, 5) == self.msg_id) by {
            lemma_be16_roundtrip(self.msg_id, seq![self.return_code], seq![self.len] + seq![self.msg_type] + seq![self.flags] + be16(self.topic_id));
            assert(b =~= (seq![self.len] + seq![self.msg_type] + seq![self.flags] + be16(self.topic_id)) + be16(self.msg_id) + (seq![self.return_code]));
        }
    }
}

/// UNSUBSCRIBE: stops receiving a topic.
#[derive(Clone, Debug)]
pub struct Unsubscribe {
    pub len: u8,
    pub msg_type: u8,
    pub flags: u8,
    pub msg_id: u16,
    pub topic_name: Vec<u8>,
}

impl Unsubscribe {
    /// The number of bytes of the fixed-size fields.
    pub open spec fn fixed_len() -> int {
        5
    }

    /// The bytes this message is sent as.
    pub open spec fn spec_encode(self) -> Seq<u8> {
        seq![self.len] + seq![self.msg_type] + seq![self.flags] + be16(self.msg_id) + self.topic_name@
    }

    /// `m` is what reading a datagram of `size` bytes from `b` gives, having consumed `n`
    /// bytes.
    pub open spec fn parsed_from(m: Unsubscribe, b: Seq<u8>, size: int, n: int) -> bool {
        &&& m.len == b[0]
        &&& m.msg_type == b[1]
        &&& m.flags == b[2]
        &&& m.msg_id == be16_at(b, 3)
        &&& m.topic_name@ == trailing(b, 5, size)
        &&& n == 5 + trailing(b, 5, size).len()
    }

    /// Reads the message from the first bytes of `buf`, `size` being the datagram size;
    /// `None` when `buf` is shorter than the fixed-size fields.  Also gives the number of
    /// bytes consumed.
    pub fn try_read(buf: &[u8], size: usize) -> (r: Option<(Unsubscribe, usize)>)
        ensures
            r is Some <==> buf@.len() >= 5,
            r matches Some((m, n)) ==> Unsubscribe::parsed_from(m, buf@, size as int, n as int),
    {
        if buf.len() < 5 {
            return None;
        }
        let len = buf[0];
        let msg_type = buf[1];
        let flags = buf[2];
        let msg_id = read_u16(buf, 3);
        let topic_name = read_trailing(buf, 5, size);
        let n = 5 + topic_name.len();
        Some((Unsubscribe { len, msg_type, flags, msg_id, topic_name }, n))
    }

    /// The bytes this message is sent as.
    pub fn to_bytes(&self) -> (r: Vec<u8>)
        ensures
            r@ == self.spec_encode(),
    {
        let mut r: Vec<u8> = Vec::new();
        r.push(self.len);
        r.push(self.msg_type);
        r.push(self.flags);
        push_u16(&mut r, self.msg_id);
        push_all(&mut r, &self.topic_name);
        assert(r@ =~= self.spec_encode());
        r
    }

    /// Appends the bytes of this message to `buf`.
    pub fn try_write(&self, buf: &mut BytesMut)
        requires
            buffer_contents(*old(buf)).len() + self.spec_encode().len() <= isize::MAX,
        ensures
            buffer_contents(*final(buf)) == buffer_contents(*old(buf)) + self.spec_encode(),
    {
        let bytes = self.to_bytes();
        append_bytes(buf, bytes.as_slice());
    }

    /// The message is sent as its fields in declaration order: the length byte at offset 0,
    /// the type byte at offset 1, then each further field, a `u16` as its high byte then its
    /// low byte, and the trailing bytes last.
    pub proof fn lemma_layout(self)
        ensures
            ({
                let e = self.spec_encode();
                &&& e.len() == 5 + self.topic_name@.len()
                &&& e[0] == self.len
                &&& e[1] == self.msg_type
                &&& e[2] == self.flags
                &&& e[3] as int * 256 + e[4] as int == self.msg_id as int
                &&& e.subrange(5, e.len() as int) == self.topic_name@
            }),
    {
        let e = self.spec_encode();
        assert(e.subrange(5, e.len() as int) =~= self.topic_name@);
    }

    /// Reading a datagram takes each field from its place in the layout: the trailing bytes
    /// run from the end of the fixed fields to the datagram size, clipped to the buffer.
    pub proof fn lemma_read_layout(m: Unsubscribe, b: Seq<u8>, size: int, n: int)
        requires
            b.len() >= 5,
            Unsubscribe::parsed_from(m, b, size, n),
        ensures
            m.len == b[0],
            m.msg_type == b[1],
            m.flags == b[2],
            m.msg_id as int == b[3] as int * 256 + b[4] as int,
            m.topic_name@ == b.subrange(5, if size <= 5 {
                5
            } else if size <= b.len() {
                size
            } else {
                b.len() as int
            }),
    {
    }

    /// Reading the bytes of a message gives the message back, having consumed all of them.
    pub proof fn lemma_roundtrip(self)
        ensures
            self.spec_encode().len() >= 5,
            Unsubscribe::parsed_from(self, self.spec_encode(), self.spec_encode().len() as int, self.spec_encode().len() as int),
    {
        let b = self.spec_encode();
        assert(be16_at(b, 3) == self.msg_id) by {
            lemma_be16_roundtrip(self.msg_id, self.topic_name@, seq![self.len] + seq![self.msg_type] + seq![self.flags]);
            assert(b =~= (seq![self.len] + seq![self.msg_type] + seq![self.flags]) + be16(self.msg_id) + (self.topic_name@));
        }
        assert(trailing(b, 5, b.len() as int) =~= self.topic_name@);
    }
}

/// UNSUBACK: acknowledges an UNSUBSCRIBE.
#[derive(Clone, Copy, Debug, PartialEq, Eq, Structural, Default)]
pub struct UnsubAck {
    pub len: u8,
    pub msg_type: u8,
    pub msg_id: u16,
}

impl UnsubAck {
    /// The number of bytes of the fixed-size fields.
    pub open spec fn fixed_len() -> int {
        4
    }

    /// The bytes this message is sent as.
    pub open spec fn spec_encode(self) -> Seq<u8> {
        seq![self.len] + seq![self.msg_type] + be16(self.msg_id)
    }

    /// `m` is what reading a datagram of `size` bytes from `b` gives, having consumed `n`
    /// bytes.
    pub open spec fn parsed_from(m: UnsubAck, b: Seq<u8>, size: int, n: int) -> bool {
        &&& m.len == b[0]
        &&& m.msg_type == b[1]
        &&& m.msg_id == be16_at(b, 2)
        &&& n == 4
    }

    /// Reads the message from the first bytes of `buf`, `size` being the datagram size;
    /// `None` when `buf` is shorter than the fixed-size fields.  Also gives the number of
    /// bytes consumed.
    pub fn try_read(buf: &[u8], size: usize) -> (r: Option<(UnsubAck, usize)>)
        ensures
            r is Some <==> buf@.len() >= 4,
            r matches Some((m, n)) ==> UnsubAck::parsed_from(m, buf@, size as int, n as int),
    {
        if buf.len() < 4 {
            return None;
        }
        let len = buf[0];
        let msg_type = buf[1];
        let msg_id = read_u16(buf, 2);
        let n: usize = 4;
        Some((UnsubAck { len, msg_type, msg_id }, n))
    }

    /// The bytes this message is sent as.
    pub fn to_bytes(&self) -> (r: Vec<u8>)
        ensures
            r@ == self.spec_encode(),
    {
        let mut r: Vec<u8> = Vec::new();
        r.push(self.len);
        r.push(self.msg_type);
        push_u16(&mut r, self.msg_id);
        assert(r@ =~= self.spec_encode());
        r
    }

    /// Appends the bytes of this message to `buf`.
    pub fn try_write(&self, buf: &mut BytesMut)
        requires
            buffer_contents(*old(buf)).len() + self.spec_encode().len() <= isize::MAX,
        ensures
            buffer_contents(*final(buf)) == buffer_contents(*old(buf)) + self.spec_encode(),
    {
        let bytes = self.to_bytes();
        append_bytes(buf, bytes.as_slice());
    }

    /// The message is sent as its fields in declaration order: the length byte at offset 0,
    /// the type byte at offset 1, then each further field, a `u16` as its high byte then its
    /// low byte.
    pub proof fn lemma_layout(self)
        ensures
            ({
                let e = self.spec_encode();
                &&& e.len() == 4
                &&& e[0] == self.len
                &&& e[1] == self.msg_type
                &&& e[2] as int * 256 + e[3] as int == self.msg_id as int
            }),
    {
        let e = self.spec_encode();
    }

    /// Reading a datagram takes each field from its place in the layout.
    pub proof fn lemma_read_layout(m: UnsubAck, b: Seq<u8>, size: int, n: int)
        requires
            b.len() >= 4,
            UnsubAck::parsed_from(m, b, size, n),
        ensures
            m.len == b[0],
            m.msg_type == b[1],
            m.msg_id as int == b[2] as int * 256 + b[3] as int,
    {
    }

    /// Reading the bytes of a message gives the message back, having consumed all of them.
    pub proof fn lemma_roundtrip(self)
        ensures
            self.spec_encode().len() >= 4,
            UnsubAck::parsed_from(self, self.spec_encode(), self.spec_encode().len() as int, self.spec_encode().len() as int),
    {
        let b = self.spec_encode();
        assert(be16_at(b, 2) == self.msg_id) by {
            lemma_be16_roundtrip(self.msg_id, Seq::<u8>::empty(), seq![self.len] + seq![self.msg_type]);
            assert(b =~= (seq![self.len] + seq![self.msg_type]) + be16(self.msg_id) + (Seq::<u8>::empty()));
        }
    }
}

/// WILLTOPICREQ: the gateway asks for the will topic.
#[derive(Clone, Copy, Debug, PartialEq, Eq, Structural, Default)]
pub struct WillTopicReq {
    pub len: u8,
    pub msg_type: u8,
}

impl WillTopicReq {
    /// The number of bytes of the fixed-size fields.
    pub open spec fn fixed_len() -> int {
        2
    }

    /// The bytes this message is sent as.
    pub open spec fn spec_encode(self) -> Seq<u8> {
        seq![self.len] + seq![self.msg_type]
    }

    /// `m` is what reading a datagram of `size` bytes from `b` gives, having consumed `n`
    /// bytes.
    pub open spec fn parsed_from(m: WillTopicReq, b: Seq<u8>, size: int, n: int) -> bool {
        &&& m.len == b[0]
        &&& m.msg_type == b[1]
        &&& n == 2
    }

    /// Reads the message from the first bytes of `buf`, `size` being the datagram size;
    /// `None` when `buf` is shorter than the fixed-size fields.  Also gives the number of
    /// bytes consumed.
    pub fn try_read(buf: &[u8], size: usize) -> (r: Option<(WillTopicReq, usize)>)
        ensures
            r is Some <==> buf@.len() >= 2,
            r matches Some((m, n)) ==> WillTopicReq::parsed_from(m, buf@, size as int, n as int),
    {
        if buf.len() < 2 {
            return None;
        }
        let len = buf[0];
        let msg_type = buf[1];
        let n: usize = 2;
        Some((WillTopicReq { len, msg_type }, n))
    }

    /// The bytes this message is sent as.
    pub fn to_bytes(&self) -> (r: Vec<u8>)
        ensures
            r@ == self.spec_encode(),
    {
        let mut r: Vec<u8> = Vec::new();
        r.push(self.len);
        r.push(self.msg_type);
        assert(r@ =~= self.spec_encode());
        r
    }

    /// Appends the bytes of this message to `buf`.
    pub fn try_write(&self, buf: &mut BytesMut)
        requires
            buffer_contents(*old(buf)).len() + self.spec_encode().len() <= isize::MAX,
        ensures
            buffer_contents(*final(buf)) == buffer_contents(*old(buf)) + self.spec_encode(),
    {
        let bytes = self.to_bytes();
        append_bytes(buf, bytes.as_slice());
    }

    /// The message is sent as its fields in declaration order: the length byte at offset 0,
    /// the type byte at offset 1, then each further field, a `u16` as its high byte then its
    /// low byte.
    pub proof fn lemma_layout(self)
        ensures
            ({
                let e = self.spec_encode();
                &&& e.len() == 2
                &&& e[0] == self.len
                &&& e[1] == self.msg_type
            }),
    {
        let e = self.spec_encode();
    }

    /// Reading a datagram takes each field from its place in the layout.
    pub proof fn lemma_read_layout(m: WillTopicReq, b: Seq<u8>, size: int, n: int)
        requires
            b.len() >= 2,
            WillTopicReq::parsed_from(m, b, size, n),
        ensures
            m.len == b[0],
            m.msg_type == b[1],
    {
    }

    /// Reading the bytes of a message gives the message back, having consumed all of them.
    pub proof fn lemma_roundtrip(self)
        ensures
            self.spec_encode().len() >= 2,
            WillTopicReq::parsed_from(self, self.spec_encode(), self.spec_encode().len() as int, self.spec_encode().len() as int),
    {
    }
}

/// WILLMSGREQ: the gateway asks for the will message.
#[derive(Clone, Copy, Debug, PartialEq, Eq, Structural, Default)]
pub struct WillMsgReq {
    pub len: u8,
    pub msg_type: u8,
}

impl WillMsgReq {
    /// The number of bytes of the fixed-size fields.
    pub open spec fn fixed_len() -> int {
        2
    }

    /// The bytes this message is sent as.
    pub open spec fn spec_encode(self) -> Seq<u8> {
        seq![self.len] + seq![self.msg_type]
    }

    /// `m` is what reading a datagram of `size` bytes from `b` gives, having consumed `n`
    /// bytes.
    pub open spec fn parsed_from(m: WillMsgReq, b: Seq<u8>, size: int, n: int) -> bool {
        &&& m.len == b[0]
        &&& m.msg_type == b[1]
        &&& n == 2
    }

    /// Reads the message from the first bytes of `buf`, `size` being the datagram size;
    /// `None` when `buf` is shorter than the fixed-size fields.  Also gives the number of
    /// bytes consumed.
    pub fn try_read(buf: &[u8], size: usize) -> (r: Option<(WillMsgReq, usize)>)
        ensures
            r is Some <==> buf@.len() >= 2,
            r matches Some((m, n)) ==> WillMsgReq::parsed_from(m, buf@, size as int, n as int),
    {
        if buf.len() < 2 {
            return None;
        }
        let len = buf[0];
        let msg_type = buf[1];
        let n: usize = 2;
        Some((WillMsgReq { len, msg_type }, n))
    }

    /// The bytes this message is sent as.
    pub fn to_bytes(&self) -> (r: Vec<u8>)
        ensures
            r@ == self.spec_encode(),
    {
        let mut r: Vec<u8> = Vec::new();
        r.push(self.len);
        r.push(self.msg_type);
        assert(r@ =~= self.spec_encode());
        r
    }

    /// Appends the bytes of this message to `buf`.
    pub fn try_write(&self, buf: &mut BytesMut)
        requires
            buffer_contents(*old(buf)).len() + self.spec_encode().len() <= isize::MAX,
        ensures
            buffer_contents(*final(buf)) == buffer_contents(*old(buf)) + self.spec_encode(),
    {
        let bytes = self.to_bytes();
        append_bytes(buf, bytes.as_slice());
    }

    /// The message is sent as its fields in declaration order: the length byte at offset 0,
    /// the type byte at offset 1, then each further field, a `u16` as its high byte then its
    /// low byte.
    pub proof fn lemma_layout(self)
        ensures
            ({
                let e = self.spec_encode();
                &&& e.len() == 2
                &&& e[0] == self.len
                &&& e[1] == self.msg_type
            }),
    {
        let e = self.spec_encode();
    }

    /// Reading a datagram takes each field from its place in the layout.
    pub proof fn lemma_read_layout(m: WillMsgReq, b: Seq<u8>, size: int, n: int)
        requires
            b.len() >= 2,
            WillMsgReq::parsed_from(m, b, size, n),
        ensures
            m.len == b[0],
            m.msg_type == b[1],
    {
    }

    /// Reading the bytes of a message gives the message back, having consumed all of them.
    pub proof fn lemma_roundtrip(self)
        ensures
            self.spec_encode().len() >= 2,
            WillMsgReq::parsed_from(self, self.spec_encode(), self.spec_encode().len() as int, self.spec_encode().len() as int),
    {
    }
}

/// WILLTOPIC: the will topic.
#[derive(Clone, Debug)]
pub struct WillTopic {
    pub len: u8,
    pub msg_type: u8,
    pub flags: u8,
    pub will_topic: Vec<u8>,
}

impl WillTopic {
    /// The number of bytes of the fixed-size fields.
    pub open spec fn fixed_len() -> int {
        3
    }

    /// The bytes this message is sent as.
    pub open spec fn spec_encode(self) -> Seq<u8> {
        seq![self.len] + seq![self.msg_type] + seq![self.flags] + self.will_topic@
    }

    /// `m` is what reading a datagram of `size` bytes from `b` gives, having consumed `n`
    /// bytes.
    pub open spec fn parsed_from(m: WillTopic, b: Seq<u8>, size: int, n: int) -> bool {
        &&& m.len == b[0]
        &&& m.msg_type == b[1]
        &&& m.flags == b[2]
        &&& m.will_topic@ == trailing(b, 3, size)
        &&& n == 3 + trailing(b, 3, size).len()
    }

    /// Reads the message from the first bytes of `buf`, `size` being the datagram size;
    /// `None` when `buf` is shorter than the fixed-size fields.  Also gives the number of
    /// bytes consumed.
    pub fn try_read(buf: &[u8], size: usize) -> (r: Option<(WillTopic, usize)>)
        ensures
            r is Some <==> buf@.len() >= 3,
            r matches Some((m, n)) ==> WillTopic::parsed_from(m, buf@, size as int, n as int),
    {
        if buf.len() < 3 {
            return None;
        }
        let len = buf[0];
        let msg_type = buf[1];
        let flags = buf[2];
        let will_topic = read_trailing(buf, 3, size);
        let n = 3 + will_topic.len();
        Some((WillTopic { len, msg_type, flags, will_topic }, n))
    }

    /// The bytes this message is sent as.
    pub fn to_bytes(&self) -> (r: Vec<u8>)
        ensures
            r@ == self.spec_encode(),
    {
        let mut r: Vec<u8> = Vec::new();
        r.push(self.len);
        r.push(self.msg_type);
        r.push(self.flags);
        push_all(&mut r, &self.will_topic);
        assert(r@ =~= self.spec_encode());
        r
    }

    /// Appends the bytes of this message to `buf`.
    pub fn try_write(&self, buf: &mut BytesMut)
        requires
            buffer_contents(*old(buf)).len() + self.spec_encode().len() <= isize::MAX,
        ensures
            buffer_contents(*final(buf)) == buffer_contents(*old(buf)) + self.spec_encode(),
    {
        let bytes = self.to_bytes();
        append_bytes(buf, bytes.as_slice());
    }

    /// The message is sent as its fields in declaration order: the length byte at offset 0,
    /// the type byte at offset 1, then each further field, a `u16` as its high byte then its
    /// low byte, and the trailing bytes last.
    pub proof fn lemma_layout(self)
        ensures
            ({
                let e = self.spec_encode();
                &&& e.len() == 3 + self.will_topic@.len()
                &&& e[0] == self.len
                &&& e[1] == self.msg_type
                &&& e[2] == self.flags
                &&& e.subrange(3, e.len() as int) == self.will_topic@
            }),
    {
        let e = self.spec_encode();
        assert(e.subrange(3, e.len() as int) =~= self.will_topic@);
    }

    /// Reading a datagram takes each field from its place in the layout: the trailing bytes
    /// run from the end of the fixed fields to the datagram size, clipped to the buffer.
    pub proof fn lemma_read_layout(m: WillTopic, b: Seq<u8>, size: int, n: int)
        requires
            b.len() >= 3,
            WillTopic::parsed_from(m, b, size, n),
        ensures
            m.len == b[0],
            m.msg_type == b[1],
            m.flags == b[2],
            m.will_topic@ == b.subrange(3, if size <= 3 {
                3
            } else if size <= b.len() {
                size
            } else {
                b.len() as int
            }),
    {
    }

    /// Reading the bytes of a message gives the message back, having consumed all of them.
    pub proof fn lemma_roundtrip(self)
        ensures
            self.spec_encode().len() >= 3,
            WillTopic::parsed_from(self, self.spec_encode(), self.spec_encode().len() as int, self.spec_encode().len() as int),
    {
        let b = self.spec_encode();
        assert(trailing(b, 3, b.len() as int) =~= self.will_topic@);
    }
}

/// WILLMSG: the will message.
#[derive(Clone, Debug)]
pub struct WillMsg {
    pub len: u8,
    pub msg_type: u8,
    pub will_msg: Vec<u8>,
}

impl WillMsg {
    /// The number of bytes of the fixed-size fields.
    pub open spec fn fixed_len() -> int {
        2
    }

    /// The bytes this message is sent as.
    pub open spec fn spec_encode(self) -> Seq<u8> {
        seq![self.len] + seq![self.msg_type] + self.will_msg@
    }

    /// `m` is what reading a datagram of `size` bytes from `b` gives, having consumed `n`
    /// bytes.
    pub open spec fn parsed_from(m: WillMsg, b: Seq<u8>, size: int, n: int) -> bool {
        &&& m.len == b[0]
        &&& m.msg_type == b[1]
        &&& m.will_msg@ == trailing(b, 2, size)
        &&& n == 2 + trailing(b, 2, size).len()
    }

    /// Reads the message from the first bytes of `buf`, `size` being the datagram size;
    /// `None` when `buf` is shorter than the fixed-size fields.  Also gives the number of
    /// bytes consumed.
    pub fn try_read(buf: &[u8], size: usize) -> (r: Option<(WillMsg, usize)>)
        ensures
            r is Some <==> buf@.len() >= 2,
            r matches Some((m, n)) ==> WillMsg::parsed_from(m, buf@, size as int, n as int),
    {
        if buf.len() < 2 {
            return None;
        }
        let len = buf[0];
        let msg_type = buf[1];
        let will_msg = read_trailing(buf, 2, size);
        let n = 2 + will_msg.len();
        Some((WillMsg { len, msg_type, will_msg }, n))
    }

    /// The bytes this message is sent as.
    pub fn to_bytes(&self) -> (r: Vec<u8>)
        ensures
            r@ == self.spec_encode(),
    {
        let mut r: Vec<u8> = Vec::new();
        r.push(self.len);
        r.push(self.msg_type);
        push_all(&mut r, &self.will_msg);
        assert(r@ =~= self.spec_encode());
        r
    }

    /// Appends the bytes of this message to `buf`.
    pub fn try_write(&self, buf: &mut BytesMut)
        requires
            buffer_contents(*old(buf)).len() + self.spec_encode().len() <= isize::MAX,
        ensures
            buffer_contents(*final(buf)) == buffer_contents(*old(buf)) + self.spec_encode(),
    {
        let bytes = self.to_bytes();
        append_bytes(buf, bytes.as_slice());
    }

    /// The message is sent as its fields in declaration order: the length byte at offset 0,
    /// the type byte at offset 1, then each further field, a `u16` as its high byte then its
    /// low byte, and the trailing bytes last.
    pub proof fn lemma_layout(self)
        ensures
            ({
                let e = self.spec_encode();
                &&& e.len() == 2 + self.will_msg@.len()
                &&& e[0] == self.len
                &&& e[1] == self.msg_type
                &&& e.subrange(2, e.len() as int) == self.will_msg@
            }),
    {
        let e = self.spec_encode();
        assert(e.subrange(2, e.len() as int) =~= self.will_msg@);
    }

    /// Reading a datagram takes each field from its place in the layout: the trailing bytes
    /// run from the end of the fixed fields to the datagram size, clipped to the buffer.
    pub proof fn lemma_read_layout(m: WillMsg, b: Seq<u8>, size: int, n: int)
        requires
            b.len() >= 2,
            WillMsg::parsed_from(m, b, size, n),
        ensures
            m.len == b[0],
            m.msg_type == b[1],
            m.will_msg@ == b.subrange(2, if size <= 2 {
                2
            } else if size <= b.len() {
                size
            } else {
                b.len() as int
            }),
    {
    }

    /// Reading the bytes of a message gives the message back, having consumed all of them.
    pub proof fn lemma_roundtrip(self)
        ensures
            self.spec_encode().len() >= 2,
            WillMsg::parsed_from(self, self.spec_encode(), self.spec_encode().len() as int, self.spec_encode().len() as int),
    {
        let b = self.spec_encode();
        assert(trailing(b, 2, b.len() as int) =~= self.will_msg@);
    }
}

/// WILLTOPICUPD: updates the will topic.
#[derive(Clone, Debug)]
pub struct WillTopicUpd {
    pub len: u8,
    pub msg_type: u8,
    pub flags: u8,
    pub will_topic: Vec<u8>,
}

impl WillTopicUpd {
    /// The number of bytes of the fixed-size fields.
    pub open spec fn fixed_len() -> int {
        3
    }

    /// The bytes this message is sent as.
    pub open spec fn spec_encode(self) -> Seq<u8> {
        seq![self.len] + seq![self.msg_type] + seq![self.flags] + self.will_topic@
    }

    /// `m` is what reading a datagram of `size` bytes from `b` gives, having consumed `n`
    /// bytes.
    pub open spec fn parsed_from(m: WillTopicUpd, b: Seq<u8>, size: int, n: int) -> bool {
        &&& m.len == b[0]
        &&& m.msg_type == b[1]
        &&& m.flags == b[2]
        &&& m.will_topic@ == trailing(b, 3, size)
        &&& n == 3 + trailing(b, 3, size).len()
    }

    /// Reads the message from the first bytes of `buf`, `size` being the datagram size;
    /// `None` when `buf` is shorter than the fixed-size fields.  Also gives the number of
    /// bytes consumed.
    pub fn try_read(buf: &[u8], size: usize) -> (r: Option<(WillTopicUpd, usize)>)
        ensures
            r is Some <==> buf@.len() >= 3,
            r matches Some((m, n)) ==> WillTopicUpd::parsed_from(m, buf@, size as int, n as int),
    {
        if buf.len() < 3 {
            return None;
        }
        let len = buf[0];
        let msg_type = buf[1];
        let flags = buf[2];
        let will_topic = read_trailing(buf, 3, size);
        let n = 3 + will_topic.len();
        Some((WillTopicUpd { len, msg_type, flags, will_topic }, n))
    }

    /// The bytes this message is sent as.
    pub fn to_bytes(&self) -> (r: Vec<u8>)
        ensures
            r@ == self.spec_encode(),
    {
        let mut r: Vec<u8> = Vec::new();
        r.push(self.len);
        r.push(self.msg_type);
        r.push(self.flags);
        push_all(&mut r, &self.will_topic);
        assert(r@ =~= self.spec_encode());
        r
    }

    /// Appends the bytes of this message to `buf`.
    pub fn try_write(&self, buf: &mut BytesMut)
        requires
            buffer_contents(*old(buf)).len() + self.spec_encode().len() <= isize::MAX,
        ensures
            buffer_contents(*final(buf)) == buffer_contents(*old(buf)) + self.spec_encode(),
    {
        let bytes = self.to_bytes();
        append_bytes(buf, bytes.as_slice());
    }

    /// The message is sent as its fields in declaration order: the length byte at offset 0,
    /// the type byte at offset 1, then each further field, a `u16` as its high byte then its
    /// low byte, and the trailing bytes last.
    pub proof fn lemma_layout(self)
        ensures
            ({
                let e = self.spec_encode();
                &&& e.len() == 3 + self.will_topic@.len()
                &&& e[0] == self.len
                &&& e[1] == self.msg_type
                &&& e[2] == self.flags
                &&& e.subrange(3, e.len() as int) == self.will_topic@
            }),
    {
        let e = self.spec_encode();
        assert(e.subrange(3, e.len() as int) =~= self.will_topic@);
    }

    /// Reading a datagram takes each field from its place in the layout: the trailing bytes
    /// run from the end of the fixed fields to the datagram size, clipped to the buffer.
    pub proof fn lemma_read_layout(m: WillTopicUpd, b: Seq<u8>, size: int, n: int)
        requires
            b.len() >= 3,
            WillTopicUpd::parsed_from(m, b, size, n),
        ensures
            m.len == b[0],
            m.msg_type == b[1],
            m.flags == b[2],
            m.will_topic@ == b.subrange(3, if size <= 3 {
                3
            } else if size <= b.len() {
                size
            } else {
                b.len() as int
            }),
    {
    }

    /// Reading the bytes of a message gives the message back, having consumed all of them.
    pub proof fn lemma_roundtrip(self)
        ensures
            self.spec_encode().len() >= 3,
            WillTopicUpd::parsed_from(self, self.spec_encode(), self.spec_encode().len() as int, self.spec_encode().len() as int),
    {
        let b = self.spec_encode();
        assert(trailing(b, 3, b.len() as int) =~= self.will_topic@);
    }
}

/// WILLMSGUPD: updates the will message.
#[derive(Clone, Debug)]
pub struct WillMsgUpd {
    pub len: u8,
    pub msg_type: u8,
    pub will_msg: Vec<u8>,
}

impl WillMsgUpd {
    /// The number of bytes of the fixed-size fields.
    pub open spec fn fixed_len() -> int {
        2
    }

    /// The bytes this message is sent as.
    pub open spec fn spec_encode(self) -> Seq<u8> {
        seq![self.len] + seq![self.msg_type] + self.will_msg@
    }

    /// `m` is what reading a datagram of `size` bytes from `b` gives, having consumed `n`
    /// bytes.
    pub open spec fn parsed_from(m: WillMsgUpd, b: Seq<u8>, size: int, n: int) -> bool {
        &&& m.len == b[0]
        &&& m.msg_type == b[1]
        &&& m.will_msg@ == trailing(b, 2, size)
        &&& n == 2 + trailing(b, 2, size).len()
    }

    /// Reads the message from the first bytes of `buf`, `size` being the datagram size;
    /// `None` when `buf` is shorter than the fixed-size fields.  Also gives the number of
    /// bytes consumed.
    pub fn try_read(buf: &[u8], size: usize) -> (r: Option<(WillMsgUpd, usize)>)
        ensures
            r is Some <==> buf@.len() >= 2,
            r matches Some((m, n)) ==> WillMsgUpd::parsed_from(m, buf@, size as int, n as int),
    {
        if buf.len() < 2 {
            return None;
        }
        let len = buf[0];
        let msg_type = buf[1];
        let will_msg = read_trailing(buf, 2, size);
        let n = 2 + will_msg.len();
        Some((WillMsgUpd { len, msg_type, will_msg }, n))
    }

    /// The bytes this message is sent as.
    pub fn to_bytes(&self) -> (r: Vec<u8>)
        ensures
            r@ == self.spec_encode(),
    {
        let mut r: Vec<u8> = Vec::new();
        r.push(self.len);
        r.push(self.msg_type);
        push_all(&mut r, &self.will_msg);
        assert(r@ =~= self.spec_encode());
        r
    }

    /// Appends the bytes of this message to `buf`.
    pub fn try_write(&self, buf: &mut BytesMut)
        requires
            buffer_contents(*old(buf)).len() + self.spec_encode().len() <= isize::MAX,
        ensures
            buffer_contents(*final(buf)) == buffer_contents(*old(buf)) + self.spec_encode(),
    {
        let bytes = self.to_bytes();
        append_bytes(buf, bytes.as_slice());
    }

    /// The message is sent as its fields in declaration order: the length byte at offset 0,
    /// the type byte at offset 1, then each further field, a `u16` as its high byte then its
    /// low byte, and the trailing bytes last.
    pub proof fn lemma_layout(self)
        ensures
            ({
                let e = self.spec_encode();
                &&& e.len() == 2 + self.will_msg@.len()
                &&& e[0] == self.len
                &&& e[1] == self.msg_type
                &&& e.subrange(2, e.len() as int) == self.will_msg@
            }),
    {
        let e = self.spec_encode();
        assert(e.subrange(2, e.len() as int) =~= self.will_msg@);
    }

    /// Reading a datagram takes each field from its place in the layout: the trailing bytes
    /// run from the end of the fixed fields to the datagram size, clipped to the buffer.
    pub proof fn lemma_read_layout(m: WillMsgUpd, b: Seq<u8>, size: int, n: int)
        requires
            b.len() >= 2,
            WillMsgUpd::parsed_from(m, b, size, n),
        ensures
            m.len == b[0],
            m.msg_type == b[1],
            m.will_msg@ == b.subrange(2, if size <= 2 {
                2
            } else if size <= b.len() {
                size
            } else {
                b.len() as int
            }),
    {
    }

    /// Reading the bytes of a message gives the message back, having consumed all of them.
    pub proof fn lemma_roundtrip(self)
        ensures
            self.spec_encode().len() >= 2,
            WillMsgUpd::parsed_from(self, self.spec_encode(), self.spec_encode().len() as int, self.spec_encode().len() as int),
    {
        let b = self.spec_encode();
        assert(trailing(b, 2, b.len() as int) =~= self.will_msg@);
    }
}

/// WILLTOPICRESP: answers WILLTOPICUPD.
#[derive(Clone, Copy, Debug, PartialEq, Eq, Structural, Default)]
pub struct WillTopicResp {
    pub len: u8,
    pub msg_type: u8,
    pub return_code: u8,
}

impl WillTopicResp {
    /// The number of bytes of the fixed-size fields.
    pub open spec fn fixed_len() -> int {
        3
    }

    /// The bytes this message is sent as.
    pub open spec fn spec_encode(self) -> Seq<u8> {
        seq![self.len] + seq![self.msg_type] + seq![self.return_code]
    }

    /// `m` is what reading a datagram of `size` bytes from `b` gives, having consumed `n`
    /// bytes.
    pub open spec fn parsed_from(m: WillTopicResp, b: Seq<u8>, size: int, n: int) -> bool {
        &&& m.len == b[0]
        &&& m.msg_type == b[1]
        &&& m.return_code == b[2]
        &&& n == 3
    }

    /// Reads the message from the first bytes of `buf`, `size` being the datagram size;
    /// `None` when `buf` is shorter than the fixed-size fields.  Also gives the number of
    /// bytes consumed.
    pub fn try_read(buf: &[u8], size: usize) -> (r: Option<(WillTopicResp, usize)>)
        ensures
            r is Some <==> buf@.len() >= 3,
            r matches Some((m, n)) ==> WillTopicResp::parsed_from(m, buf@, size as int, n as int),
    {
        if buf.len() < 3 {
            return None;
        }
        let len = buf[0];
        let msg_type = buf[1];
        let return_code = buf[2];
        let n: usize = 3;
        Some((WillTopicResp { len, msg_type, return_code }, n))
    }

    /// The bytes this message is sent as.
    pub fn to_bytes(&self) -> (r: Vec<u8>)
        ensures
            r@ == self.spec_encode(),
    {
        let mut r: Vec<u8> = Vec::new();
        r.push(self.len);
        r.push(self.msg_type);
        r.push(self.return_code);
        assert(r@ =~= self.spec_encode());
        r
    }

    /// Appends the bytes of this message to `buf`.
    pub fn try_write(&self, buf: &mut BytesMut)
        requires
            buffer_contents(*old(buf)).len() + self.spec_encode().len() <= isize::MAX,
        ensures
            buffer_contents(*final(buf)) == buffer_contents(*old(buf)) + self.spec_encode(),
    {
        let bytes = self.to_bytes();
        append_bytes(buf, bytes.as_slice());
    }

    /// The message is sent as its fields in declaration order: the length byte at offset 0,
    /// the type byte at offset 1, then each further field, a `u16` as its high byte then its
    /// low byte.
    pub proof fn lemma_layout(self)
        ensures
            ({
                let e = self.spec_encode();
                &&& e.len() == 3
                &&& e[0] == self.len
                &&& e[1] == self.msg_type
                &&& e[2] == self.return_code
            }),
    {
        let e = self.spec_encode();
    }

    /// Reading a datagram takes each field from its place in the layout.
    pub proof fn lemma_read_layout(m: WillTopicResp, b: Seq<u8>, size: int, n: int)
        requires
            b.len() >= 3,
            WillTopicResp::parsed_from(m, b, size, n),
        ensures
            m.len == b[0],
            m.msg_type == b[1],
            m.return_code == b[2],
    {
    }

    /// Reading the bytes of a message gives the message back, having consumed all of them.
    pub proof fn lemma_roundtrip(self)
        ensures
            self.spec_encode().len() >= 3,
            WillTopicResp::parsed_from(self, self.spec_encode(), self.spec_encode().len() as int, self.spec_encode().len() as int),
    {
    }
}

/// WILLMSGRESP: answers WILLMSGUPD.
#[derive(Clone, Copy, Debug, PartialEq, Eq, Structural, Default)]
pub struct WillMsgResp {
    pub len: u8,
    pub msg_type: u8,
    pub return_code: u8,
}

impl WillMsgResp {
    /// The number of bytes of the fixed-size fields.
    pub open spec fn fixed_len() -> int {
        3
    }

    /// The bytes this message is sent as.
    pub open spec fn spec_encode(self) -> Seq<u8> {
        seq![self.len] + seq![self.msg_type] + seq![self.return_code]
    }

    /// `m` is what reading a datagram of `size` bytes from `b` gives, having consumed `n`
    /// bytes.
    pub open spec fn parsed_from(m: WillMsgResp, b: Seq<u8>, size: int, n: int) -> bool {
        &&& m.len == b[0]
        &&& m.msg_type == b[1]
        &&& m.return_code == b[2]
        &&& n == 3
    }

    /// Reads the message from the first bytes of `buf`, `size` being the datagram size;
    /// `None` when `buf` is shorter than the fixed-size fields.  Also gives the number of
    /// bytes consumed.
    pub fn try_read(buf: &[u8], size: usize) -> (r: Option<(WillMsgResp, usize)>)
        ensures
            r is Some <==> buf@.len() >= 3,
            r matches Some((m, n)) ==> WillMsgResp::parsed_from(m, buf@, size as int, n as int),
    {
        if buf.len() < 3 {
            return None;
        }
        let len = buf[0];
        let msg_type = buf[1];
        let return_code = buf[2];
        let n: usize = 3;
        Some((WillMsgResp { len, msg_type, return_code }, n))
    }

    /// The bytes this message is sent as.
    pub fn to_bytes(&self) -> (r: Vec<u8>)
        ensures
            r@ == self.spec_encode(),
    {
        let mut r: Vec<u8> = Vec::new();
        r.push(self.len);
        r.push(self.msg_type);
        r.push(self.return_code);
        assert(r@ =~= self.spec_encode());
        r
    }

    /// Appends the bytes of this message to `buf`.
    pub fn try_write(&self, buf: &mut BytesMut)
        requires
            buffer_contents(*old(buf)).len() + self.spec_encode().len() <= isize::MAX,
        ensures
            buffer_contents(*final(buf)) == buffer_contents(*old(buf)) + self.spec_encode(),
    {
        let bytes = self.to_bytes();
        append_bytes(buf, bytes.as_slice());
    }

    /// The message is sent as its fields in declaration order: the length byte at offset 0,
    /// the type byte at offset 1, then each further field, a `u16` as its high byte then its
    /// low byte.
    pub proof fn lemma_layout(self)
        ensures
            ({
                let e = self.spec_encode();
                &&& e.len() == 3
                &&& e[0] == self.len
                &&& e[1] == self.msg_type
                &&& e[2] == self.return_code
            }),
    {
        let e = self.spec_encode();
    }

    /// Reading a datagram takes each field from its place in the layout.
    pub proof fn lemma_read_layout(m: WillMsgResp, b: Seq<u8>, size: int, n: int)
        requires
            b.len() >= 3,
            WillMsgResp::parsed_from(m, b, size, n),
        ensures
            m.len == b[0],
            m.msg_type == b[1],
            m.return_code == b[2],
    {
    }

    /// Reading the bytes of a message gives the message back, having consumed all of them.
    pub proof fn lemma_roundtrip(self)
        ensures
            self.spec_encode().len() >= 3,
            WillMsgResp::parsed_from(self, self.spec_encode(), self.spec_encode().len() as int, self.spec_encode().len() as int),
    {
    }
}

} // verus!
