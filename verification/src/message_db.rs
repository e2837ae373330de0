//! The keys and values of the store of last messages per topic, and the bytes they are
//! stored as.
use vstd::prelude::*;
use vstd::string::StrSliceExecFns;
use vstd::string::StringSliceAdditionalSpecFns;
use crate::packets::be16;
use crate::buffer::{buffer_contents, append_bytes};
use bytes::BytesMut;

verus! {

/// The key of a stored message: the topic it was published on.
#[derive(Clone, Copy, Debug, PartialEq, Eq, Structural, Default)]
pub struct MessageDbKey {
    pub topic_id: u16,
}

/// A stored message.
#[derive(Clone, Debug, Default)]
pub struct MessageDbValue {
    pub message: String,
}

/// The UTF-8 bytes of `s`.
pub open spec fn text_bytes(s: Seq<char>) -> Seq<u8> {
    vstd::utf8::encode_utf8(s)
}

impl MessageDbKey {
    /// Every topic id is accepted.
    pub fn constraint_topic_id(_val: &u16) -> (r: bool)
        ensures
            r,
    {
        true
    }

    /// The bytes the key is stored as: the topic id in network order.
    pub open spec fn spec_encode(self) -> Seq<u8> {
        be16(self.topic_id)
    }

    /// The bytes the key is stored as.
    pub fn to_bytes(&self) -> (r: Vec<u8>)
        ensures
            r@ == self.spec_encode(),
    {
        let mut v: Vec<u8> = Vec::new();
        v.push((self.topic_id / 256) as u8);
        v.push((self.topic_id % 256) as u8);
        assert(v@ =~= self.spec_encode());
        v
    }

    /// Appends the bytes of the key to `buf`.
    pub fn try_write(&self, buf: &mut BytesMut)
        requires
            buffer_contents(*old(buf)).len() + 2 <= isize::MAX,
        ensures
            buffer_contents(*final(buf)) == buffer_contents(*old(buf)) + self.spec_encode(),
    {
        let mut v: Vec<u8> = Vec::new();
        v.push((self.topic_id / 256) as u8);
        v.push((self.topic_id % 256) as u8);
        assert(v@ =~= self.spec_encode());
        append_bytes(buf, v.as_slice());
    }
}

impl MessageDbValue {
    /// Every message is accepted.
    pub fn constraint_message(_val: &String) -> (r: bool)
        ensures
            r,
    {
        true
    }

    /// The bytes the value is stored as: the UTF-8 bytes of the message.
    pub open spec fn spec_encode(self) -> Seq<u8> {
        text_bytes(self.message@)
    }

    /// The bytes the value is stored as.
    pub fn to_bytes(&self) -> (r: Vec<u8>)
        ensures
            r@ == self.spec_encode(),
    {
        self.message.as_str().as_bytes_vec()
    }

    /// Appends the bytes of the value to `buf`.
    pub fn try_write(&self, buf: &mut BytesMut)
        requires
            buffer_contents(*old(buf)).len() + self.spec_encode().len() <= isize::MAX,
        ensures
            buffer_contents(*final(buf)) == buffer_contents(*old(buf)) + self.spec_encode(),
    {
        let v = self.message.as_str().as_bytes_vec();
        append_bytes(buf, v.as_slice());
    }
}

} // verus!
