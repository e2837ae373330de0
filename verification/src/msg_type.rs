//! The MQTT-SN message types and their one-byte codes.
use vstd::prelude::*;

verus! {

/// The type of an MQTT-SN message, as carried in its second byte.  `MSG_TYPE_ERR` is the
/// output the state machines give when a message is refused.
#[allow(non_camel_case_types)]
#[derive(Clone, Copy, Debug, PartialEq, Eq, Structural, Hash)]
pub enum MsgType {
    ADVERTISE,
    SEARCHGW,
    GWINFO,
    CONNECT,
    CONNACK,
    WILLTOPICREQ,
    WILLTOPIC,
    WILLMSGREQ,
    WILLMSG,
    REGISTER,
    REGACK,
    PUBLISH,
    PUBACK,
    PUBCOMP,
    PUBREC,
    PUBREL,
    SUBSCRIBE,
    SUBACK,
    UNSUBSCRIBE,
    UNSUBACK,
    PINGREQ,
    PINGRESP,
    DISCONNECT,
    WILLTOPICUPD,
    WILLTOPICRESP,
    WILLMSGUPD,
    WILLMSGRESP,
    MSG_TYPE_ERR,
}

/// The code of message type `t`.
pub open spec fn spec_code(t: MsgType) -> u8 {
    match t {
        MsgType::ADVERTISE => 0x00,
        MsgType::SEARCHGW => 0x01,
        MsgType::GWINFO => 0x02,
        MsgType::CONNECT => 0x04,
        MsgType::CONNACK => 0x05,
        MsgType::WILLTOPICREQ => 0x06,
        MsgType::WILLTOPIC => 0x07,
        MsgType::WILLMSGREQ => 0x08,
        MsgType::WILLMSG => 0x09,
        MsgType::REGISTER => 0x0A,
        MsgType::REGACK => 0x0B,
        MsgType::PUBLISH => 0x0C,
        MsgType::PUBACK => 0x0D,
        MsgType::PUBCOMP => 0x0E,
        MsgType::PUBREC => 0x0F,
        MsgType::PUBREL => 0x10,
        MsgType::SUBSCRIBE => 0x12,
        MsgType::SUBACK => 0x13,
        MsgType::UNSUBSCRIBE => 0x14,
        MsgType::UNSUBACK => 0x15,
        MsgType::PINGREQ => 0x16,
        MsgType::PINGRESP => 0x17,
        MsgType::DISCONNECT => 0x18,
        MsgType::WILLTOPICUPD => 0x1A,
        MsgType::WILLTOPICRESP => 0x1B,
        MsgType::WILLMSGUPD => 0x1C,
        MsgType::WILLMSGRESP => 0x1D,
        MsgType::MSG_TYPE_ERR => 0xFF,
    }
}

/// The message type with code `c`, if any.
pub open spec fn spec_from_u8(c: u8) -> Option<MsgType> {
    if c == 0x00 {
        Some(MsgType::ADVERTISE)
    } else if c == 0x01 {
        Some(MsgType::SEARCHGW)
    } else if c == 0x02 {
        Some(MsgType::GWINFO)
    } else if c == 0x04 {
        Some(MsgType::CONNECT)
    } else if c == 0x05 {
        Some(MsgType::CONNACK)
    } else if c == 0x06 {
        Some(MsgType::WILLTOPICREQ)
    } else if c == 0x07 {
        Some(MsgType::WILLTOPIC)
    } else if c == 0x08 {
        Some(MsgType::WILLMSGREQ)
    } else if c == 0x09 {
        Some(MsgType::WILLMSG)
    } else if c == 0x0A {
        Some(MsgType::REGISTER)
    } else if c == 0x0B {
        Some(MsgType::REGACK)
    } else if c == 0x0C {
        Some(MsgType::PUBLISH)
    } else if c == 0x0D {
        Some(MsgType::PUBACK)
    } else if c == 0x0E {
        Some(MsgType::PUBCOMP)
    } else if c == 0x0F {
        Some(MsgType::PUBREC)
    } else if c == 0x10 {
        Some(MsgType::PUBREL)
    } else if c == 0x12 {
        Some(MsgType::SUBSCRIBE)
    } else if c == 0x13 {
        Some(MsgType::SUBACK)
    } else if c == 0x14 {
        Some(MsgType::UNSUBSCRIBE)
    } else if c == 0x15 {
        Some(MsgType::UNSUBACK)
    } else if c == 0x16 {
        Some(MsgType::PINGREQ)
    } else if c == 0x17 {
        Some(MsgType::PINGRESP)
    } else if c == 0x18 {
        Some(MsgType::DISCONNECT)
    } else if c == 0x1A {
        Some(MsgType::WILLTOPICUPD)
    } else if c == 0x1B {
        Some(MsgType::WILLTOPICRESP)
    } else if c == 0x1C {
        Some(MsgType::WILLMSGUPD)
    } else if c == 0x1D {
        Some(MsgType::WILLMSGRESP)
    } else if c == 0xFF {
        Some(MsgType::MSG_TYPE_ERR)
    } else {
        None
    }
}

impl MsgType {
    /// The one-byte code of this message type.
    pub fn code(self) -> (r: u8)
        ensures
            r == spec_code(self),
    {
        match self {
            MsgType::ADVERTISE => 0x00,
            MsgType::SEARCHGW => 0x01,
            MsgType::GWINFO => 0x02,
            MsgType::CONNECT => 0x04,
            MsgType::CONNACK => 0x05,
            MsgType::WILLTOPICREQ => 0x06,
            MsgType::WILLTOPIC => 0x07,
            MsgType::WILLMSGREQ => 0x08,
            MsgType::WILLMSG => 0x09,
            MsgType::REGISTER => 0x0A,
            MsgType::REGACK => 0x0B,
            MsgType::PUBLISH => 0x0C,
            MsgType::PUBACK => 0x0D,
            MsgType::PUBCOMP => 0x0E,
            MsgType::PUBREC => 0x0F,
            MsgType::PUBREL => 0x10,
            MsgType::SUBSCRIBE => 0x12,
            MsgType::SUBACK => 0x13,
            MsgType::UNSUBSCRIBE => 0x14,
            MsgType::UNSUBACK => 0x15,
            MsgType::PINGREQ => 0x16,
            MsgType::PINGRESP => 0x17,
            MsgType::DISCONNECT => 0x18,
            MsgType::WILLTOPICUPD => 0x1A,
            MsgType::WILLTOPICRESP => 0x1B,
            MsgType::WILLMSGUPD => 0x1C,
            MsgType::WILLMSGRESP => 0x1D,
            MsgType::MSG_TYPE_ERR => 0xFF,
        }
    }

    /// The message type with code `c`, or `None` for a code that names no type.
    pub fn from_u8(c: u8) -> (r: Option<MsgType>)
        ensures
            r == spec_from_u8(c),
    {
        if c == 0x00 {
            Some(MsgType::ADVERTISE)
        } else if c == 0x01 {
            Some(MsgType::SEARCHGW)
        } else if c == 0x02 {
            Some(MsgType::GWINFO)
        } else if c == 0x04 {
            Some(MsgType::CONNECT)
        } else if c == 0x05 {
            Some(MsgType::CONNACK)
        } else if c == 0x06 {
            Some(MsgType::WILLTOPICREQ)
        } else if c == 0x07 {
            Some(MsgType::WILLTOPIC)
        } else if c == 0x08 {
            Some(MsgType::WILLMSGREQ)
        } else if c == 0x09 {
            Some(MsgType::WILLMSG)
        } else if c == 0x0A {
            Some(MsgType::REGISTER)
        } else if c == 0x0B {
            Some(MsgType::REGACK)
        } else if c == 0x0C {
            Some(MsgType::PUBLISH)
        } else if c == 0x0D {
            Some(MsgType::PUBACK)
        } else if c == 0x0E {
            Some(MsgType::PUBCOMP)
        } else if c == 0x0F {
            Some(MsgType::PUBREC)
        } else if c == 0x10 {
            Some(MsgType::PUBREL)
        } else if c == 0x12 {
            Some(MsgType::SUBSCRIBE)
        } else if c == 0x13 {
            Some(MsgType::SUBACK)
        } else if c == 0x14 {
            Some(MsgType::UNSUBSCRIBE)
        } else if c == 0x15 {
            Some(MsgType::UNSUBACK)
        } else if c == 0x16 {
            Some(MsgType::PINGREQ)
        } else if c == 0x17 {
            Some(MsgType::PINGRESP)
        } else if c == 0x18 {
            Some(MsgType::DISCONNECT)
        } else if c == 0x1A {
            Some(MsgType::WILLTOPICUPD)
        } else if c == 0x1B {
            Some(MsgType::WILLTOPICRESP)
        } else if c == 0x1C {
            Some(MsgType::WILLMSGUPD)
        } else if c == 0x1D {
            Some(MsgType::WILLMSGRESP)
        } else if c == 0xFF {
            Some(MsgType::MSG_TYPE_ERR)
        } else {
            None
        }
    }
}

/// Codes and message types correspond one to one.
pub proof fn lemma_code_roundtrip(t: MsgType, c: u8)
    ensures
        spec_from_u8(spec_code(t)) == Some(t),
        spec_from_u8(c) == Some(t) <==> spec_code(t) == c,
{
}

/// The codes are those the MQTT-SN specification gives each message type, each answer's code
/// being one above its request's (CONNECT and CONNACK, REGISTER and REGACK, PUBLISH and
/// PUBACK, SUBSCRIBE and SUBACK, UNSUBSCRIBE and UNSUBACK, PINGREQ and PINGRESP, and the will
/// requests, updates and responses).
pub proof fn lemma_codes()
    ensures
        spec_code(MsgType::ADVERTISE) == 0x00,
        spec_code(MsgType::SEARCHGW) == 0x01,
        spec_code(MsgType::GWINFO) == 0x02,
        spec_code(MsgType::CONNECT) == 0x04,
        spec_code(MsgType::CONNACK) == 0x05,
        spec_code(MsgType::WILLTOPICREQ) == 0x06,
        spec_code(MsgType::WILLTOPIC) == 0x07,
        spec_code(MsgType::WILLMSGREQ) == 0x08,
        spec_code(MsgType::WILLMSG) == 0x09,
        spec_code(MsgType::REGISTER) == 0x0A,
        spec_code(MsgType::REGACK) == 0x0B,
        spec_code(MsgType::PUBLISH) == 0x0C,
        spec_code(MsgType::PUBACK) == 0x0D,
        spec_code(MsgType::PUBCOMP) == 0x0E,
        spec_code(MsgType::PUBREC) == 0x0F,
        spec_code(MsgType::PUBREL) == 0x10,
        spec_code(MsgType::SUBSCRIBE) == 0x12,
        spec_code(MsgType::SUBACK) == 0x13,
        spec_code(MsgType::UNSUBSCRIBE) == 0x14,
        spec_code(MsgType::UNSUBACK) == 0x15,
        spec_code(MsgType::PINGREQ) == 0x16,
        spec_code(MsgType::PINGRESP) == 0x17,
        spec_code(MsgType::DISCONNECT) == 0x18,
        spec_code(MsgType::WILLTOPICUPD) == 0x1A,
        spec_code(MsgType::WILLTOPICRESP) == 0x1B,
        spec_code(MsgType::WILLMSGUPD) == 0x1C,
        spec_code(MsgType::WILLMSGRESP) == 0x1D,
        spec_code(MsgType::MSG_TYPE_ERR) == 0xFF,
        spec_code(MsgType::CONNACK) == spec_code(MsgType::CONNECT) + 1,
        spec_code(MsgType::REGACK) == spec_code(MsgType::REGISTER) + 1,
        spec_code(MsgType::PUBACK) == spec_code(MsgType::PUBLISH) + 1,
        spec_code(MsgType::SUBACK) == spec_code(MsgType::SUBSCRIBE) + 1,
        spec_code(MsgType::UNSUBACK) == spec_code(MsgType::UNSUBSCRIBE) + 1,
        spec_code(MsgType::PINGRESP) == spec_code(MsgType::PINGREQ) + 1,
        spec_code(MsgType::WILLTOPIC) == spec_code(MsgType::WILLTOPICREQ) + 1,
        spec_code(MsgType::WILLMSG) == spec_code(MsgType::WILLMSGREQ) + 1,
        spec_code(MsgType::WILLTOPICRESP) == spec_code(MsgType::WILLTOPICUPD) + 1,
        spec_code(MsgType::WILLMSGRESP) == spec_code(MsgType::WILLMSGUPD) + 1,
{
}

} // verus!
