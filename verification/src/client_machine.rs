//! The client side of MQTT-SN: its state machine, the checks it runs on each message, and
//! the handling of one received datagram.
use vstd::prelude::*;
use crate::guards::{
    fanout, lemma_publish_reencode, subscribe_counter_fits, received, register_effect, replied, subscribed_to_topic,
    unchanged, unsubscribe_effect, forward_publish, subscribe_sender, verify_ping_req,
    verify_register, verify_unsubscribe, verify_will_msg, verify_will_msg_update,
    verify_will_topic, verify_will_topic_update,
};
use crate::message_db::{MessageDbKey, MessageDbValue};
use crate::msg_type::{MsgType, spec_from_u8};
use crate::packets::{
    be16_at, trailing, ConAck, Disconnect, PingResp, PubAck, PubRel, Publish, RegAck, SubAck,
    UnsubAck, WillMsgReq, WillMsgResp, WillTopicReq, WillTopicResp,
};
use crate::text::{lossy_text, text_from_bytes};
use crate::topics::subscriptions_of;
use crate::transfer::{Transfer, updates_view};

verus! {

/// The state of a client's machine; besides the gateway's states, a client can be setting up
/// its will.
#[allow(non_camel_case_types)]
#[derive(Clone, Copy, Debug, PartialEq, Eq, Structural, Hash)]
pub enum ClientStateEnum {
    ACTIVE,
    DISCONNECTED,
    ASLEEP,
    AWAKE,
    LOST,
    WILLSETUP,
}

/// A transition: the next state and the output.
pub type ClientStep = (ClientStateEnum, MsgType);

/// The client's transitions: for a state and an input, the step taken when the check of the
/// message passes and the step taken when it fails; `None` where no transition is defined.
pub open spec fn client_table(state: ClientStateEnum, input: MsgType) -> Option<(ClientStep, ClientStep)> {
    match state {
        ClientStateEnum::DISCONNECTED => match input {
            MsgType::CONNACK => Some(((ClientStateEnum::ACTIVE, MsgType::REGISTER), (ClientStateEnum::DISCONNECTED, MsgType::MSG_TYPE_ERR))),
            MsgType::WILLTOPICREQ => Some(((ClientStateEnum::WILLSETUP, MsgType::WILLTOPIC), (ClientStateEnum::DISCONNECTED, MsgType::MSG_TYPE_ERR))),
            _ => None,
        },
        ClientStateEnum::WILLSETUP => match input {
            MsgType::WILLMSGREQ => Some(((ClientStateEnum::ACTIVE, MsgType::WILLMSG), (ClientStateEnum::DISCONNECTED, MsgType::MSG_TYPE_ERR))),
            _ => None,
        },
        ClientStateEnum::ACTIVE => match input {
            MsgType::CONNACK => Some(((ClientStateEnum::ACTIVE, MsgType::REGISTER), (ClientStateEnum::DISCONNECTED, MsgType::MSG_TYPE_ERR))),
            MsgType::REGACK => Some(((ClientStateEnum::ACTIVE, MsgType::PUBLISH), (ClientStateEnum::ACTIVE, MsgType::MSG_TYPE_ERR))),
            MsgType::PUBACK => Some(((ClientStateEnum::ACTIVE, MsgType::PUBLISH), (ClientStateEnum::ACTIVE, MsgType::MSG_TYPE_ERR))),
            MsgType::REGISTER => Some(((ClientStateEnum::ACTIVE, MsgType::REGACK), (ClientStateEnum::ACTIVE, MsgType::REGACK))),
            MsgType::PUBLISH => Some(((ClientStateEnum::ACTIVE, MsgType::PUBACK), (ClientStateEnum::ACTIVE, MsgType::PUBACK))),
            MsgType::PUBREL => Some(((ClientStateEnum::ACTIVE, MsgType::PUBCOMP), (ClientStateEnum::ACTIVE, MsgType::MSG_TYPE_ERR))),
            MsgType::SUBACK => Some(((ClientStateEnum::ACTIVE, MsgType::PUBLISH), (ClientStateEnum::ACTIVE, MsgType::MSG_TYPE_ERR))),
            MsgType::UNSUBACK => Some(((ClientStateEnum::ACTIVE, MsgType::MSG_TYPE_ERR), (ClientStateEnum::ACTIVE, MsgType::MSG_TYPE_ERR))),
            MsgType::PINGREQ => Some(((ClientStateEnum::ACTIVE, MsgType::PINGRESP), (ClientStateEnum::ACTIVE, MsgType::MSG_TYPE_ERR))),
            MsgType::PINGRESP => Some(((ClientStateEnum::ACTIVE, MsgType::DISCONNECT), (ClientStateEnum::ACTIVE, MsgType::MSG_TYPE_ERR))),
            MsgType::DISCONNECT => Some(((ClientStateEnum::ASLEEP, MsgType::PINGREQ), (ClientStateEnum::LOST, MsgType::CONNECT))),
            MsgType::WILLTOPICRESP => Some(((ClientStateEnum::ACTIVE, MsgType::PUBLISH), (ClientStateEnum::ACTIVE, MsgType::MSG_TYPE_ERR))),
            MsgType::WILLMSGRESP => Some(((ClientStateEnum::ACTIVE, MsgType::PUBLISH), (ClientStateEnum::ACTIVE, MsgType::MSG_TYPE_ERR))),
            _ => None,
        },
        ClientStateEnum::LOST => match input {
            MsgType::CONNACK => Some(((ClientStateEnum::ACTIVE, MsgType::REGISTER), (ClientStateEnum::LOST, MsgType::CONNECT))),
            _ => None,
        },
        _ => None,
    }
}

/// The client's transitions, as `client_table` gives them.
pub fn client_transition(state: ClientStateEnum, input: MsgType) -> (r: Option<(ClientStep, ClientStep)>)
    ensures
        r == client_table(state, input),
{
    match state {
        ClientStateEnum::DISCONNECTED => match input {
            MsgType::CONNACK => Some(((ClientStateEnum::ACTIVE, MsgType::REGISTER), (ClientStateEnum::DISCONNECTED, MsgType::MSG_TYPE_ERR))),
            MsgType::WILLTOPICREQ => Some(((ClientStateEnum::WILLSETUP, MsgType::WILLTOPIC), (ClientStateEnum::DISCONNECTED, MsgType::MSG_TYPE_ERR))),
            _ => None,
        },
        ClientStateEnum::WILLSETUP => match input {
            MsgType::WILLMSGREQ => Some(((ClientStateEnum::ACTIVE, MsgType::WILLMSG), (ClientStateEnum::DISCONNECTED, MsgType::MSG_TYPE_ERR))),
            _ => None,
        },
        ClientStateEnum::ACTIVE => match input {
            MsgType::CONNACK => Some(((ClientStateEnum::ACTIVE, MsgType::REGISTER), (ClientStateEnum::DISCONNECTED, MsgType::MSG_TYPE_ERR))),
            MsgType::REGACK => Some(((ClientStateEnum::ACTIVE, MsgType::PUBLISH), (ClientStateEnum::ACTIVE, MsgType::MSG_TYPE_ERR))),
            MsgType::PUBACK => Some(((ClientStateEnum::ACTIVE, MsgType::PUBLISH), (ClientStateEnum::ACTIVE, MsgType::MSG_TYPE_ERR))),
            MsgType::REGISTER => Some(((ClientStateEnum::ACTIVE, MsgType::REGACK), (ClientStateEnum::ACTIVE, MsgType::REGACK))),
            MsgType::PUBLISH => Some(((ClientStateEnum::ACTIVE, MsgType::PUBACK), (ClientStateEnum::ACTIVE, MsgType::PUBACK))),
            MsgType::PUBREL => Some(((ClientStateEnum::ACTIVE, MsgType::PUBCOMP), (ClientStateEnum::ACTIVE, MsgType::MSG_TYPE_ERR))),
            MsgType::SUBACK => Some(((ClientStateEnum::ACTIVE, MsgType::PUBLISH), (ClientStateEnum::ACTIVE, MsgType::MSG_TYPE_ERR))),
            MsgType::UNSUBACK => Some(((ClientStateEnum::ACTIVE, MsgType::MSG_TYPE_ERR), (ClientStateEnum::ACTIVE, MsgType::MSG_TYPE_ERR))),
            MsgType::PINGREQ => Some(((ClientStateEnum::ACTIVE, MsgType::PINGRESP), (ClientStateEnum::ACTIVE, MsgType::MSG_TYPE_ERR))),
            MsgType::PINGRESP => Some(((ClientStateEnum::ACTIVE, MsgType::DISCONNECT), (ClientStateEnum::ACTIVE, MsgType::MSG_TYPE_ERR))),
            MsgType::DISCONNECT => Some(((ClientStateEnum::ASLEEP, MsgType::PINGREQ), (ClientStateEnum::LOST, MsgType::CONNECT))),
            MsgType::WILLTOPICRESP => Some(((ClientStateEnum::ACTIVE, MsgType::PUBLISH), (ClientStateEnum::ACTIVE, MsgType::MSG_TYPE_ERR))),
            MsgType::WILLMSGRESP => Some(((ClientStateEnum::ACTIVE, MsgType::PUBLISH), (ClientStateEnum::ACTIVE, MsgType::MSG_TYPE_ERR))),
            _ => None,
        },
        ClientStateEnum::LOST => match input {
            MsgType::CONNACK => Some(((ClientStateEnum::ACTIVE, MsgType::REGISTER), (ClientStateEnum::LOST, MsgType::CONNECT))),
            _ => None,
        },
        _ => None,
    }
}

/// The number of bytes the client's check for `input` reads: the fixed-size fields of the
/// message it parses.
pub open spec fn client_read_len(input: MsgType) -> int {
    match input {
        MsgType::CONNACK => 3,
        MsgType::WILLTOPICREQ => 2,
        MsgType::WILLMSGREQ => 2,
        MsgType::REGACK => 7,
        MsgType::PUBACK => 7,
        MsgType::REGISTER => 6,
        MsgType::PUBLISH => 7,
        MsgType::PUBREL => 4,
        MsgType::SUBACK => 8,
        MsgType::UNSUBACK => 4,
        MsgType::PINGREQ => 2,
        MsgType::PINGRESP => 2,
        MsgType::DISCONNECT => 4,
        MsgType::WILLTOPICRESP => 3,
        MsgType::WILLMSGRESP => 3,
        _ => 0,
    }
}

/// What the client's check for `input` needs: the bytes it reads and consistent registries.
pub open spec fn client_check_ok(input: MsgType, t: Transfer, b: Seq<u8>) -> bool {
    &&& b.len() >= client_read_len(input)
    &&& b.len() <= isize::MAX
    &&& t.wf()
}

/// What receiving a PUBLISH does at a client: the message text is queued for storing under
/// its topic, and it is forwarded, as received, to every subscriber of the topic; accepted
/// exactly when there is one.
pub open spec fn client_publish_effect(before: Transfer, after: Transfer, b: Seq<u8>, size: int, ok: bool) -> bool {
    let topic = be16_at(b, 3);
    let subs = subscriptions_of(before.subscriber_db@, topic);
    &&& ok == (subs.len() > 0)
    &&& after.egress() == before.egress() + fanout(subs, received(b, 7, size))
    &&& after.updates() == before.updates().push((topic, lossy_text(trailing(b, 7, size))))
    &&& after.peer == before.peer
    &&& after.subscriber_db@ == before.subscriber_db@
    &&& after.topic_db@ == before.topic_db@
    &&& after.topic_id_counter == before.topic_id_counter
    &&& after.input_bytes@ == before.input_bytes@
    &&& after.size == before.size
}

/// `after` is `before` with the topic id counter set to `counter`.
pub open spec fn counter_set(before: Transfer, after: Transfer, counter: u16) -> bool {
    &&& after.egress() == before.egress()
    &&& after.peer == before.peer
    &&& after.subscriber_db@ == before.subscriber_db@
    &&& after.topic_db@ == before.topic_db@
    &&& after.topic_id_counter == counter
    &&& after.input_bytes@ == before.input_bytes@
    &&& after.size == before.size
    &&& after.updates() == before.updates()
}

/// What the client's check for `input` does to `before`, making it `after`, and whether it
/// passes (`ok`), for the datagram of `size` bytes in `b`.
pub open spec fn client_effect(input: MsgType, before: Transfer, after: Transfer, b: Seq<u8>, size: int, ok: bool) -> bool {
    match input {
        MsgType::CONNACK => ok == (b[1] == 0x05 && b[2] == 0) && unchanged(before, after),
        MsgType::WILLTOPICREQ => ok == (b[1] == 0x06) && unchanged(before, after),
        MsgType::WILLMSGREQ => ok == (b[1] == 0x08) && unchanged(before, after),
        MsgType::REGACK => ok == (b[1] == 0x0B && b[6] == 0) && (ok ==> counter_set(before, after, be16_at(b, 2)))
            && (!ok ==> unchanged(before, after)),
        MsgType::PUBACK => ok == (b[1] == 0x0D && b[6] == 0) && unchanged(before, after),
        MsgType::REGISTER => register_effect(before, after, b, size, ok),
        MsgType::PUBLISH => client_publish_effect(before, after, b, size, ok),
        MsgType::PUBREL => ok == (b[1] == 0x10) && unchanged(before, after),
        MsgType::SUBACK => ok && unchanged(before, after),
        MsgType::UNSUBACK => ok == (b[1] == 0x15) && unchanged(before, after),
        MsgType::PINGREQ => ok && replied(before, after, PingResp { len: 2, msg_type: 0x17 }.spec_encode()),
        MsgType::PINGRESP => ok == (b[1] == 0x17) && unchanged(before, after),
        MsgType::DISCONNECT => ok && unchanged(before, after),
        MsgType::WILLTOPICRESP => ok == (b[2] == 0) && unchanged(before, after),
        MsgType::WILLMSGRESP => ok == (b[1] == 0x1D && b[2] == 0) && unchanged(before, after),
        _ => ok && unchanged(before, after),
    }
}

/// DISCONNECT: accepted as it is.
pub fn verify_disconnect(_state: ClientStateEnum, _input: MsgType, transfer: &mut Transfer, buf: &[u8], size: usize) -> (r: bool)
    requires
        buf@.len() >= 4,
    ensures
        r,
        unchanged(*old(transfer), *final(transfer)),
{
    let (_disconnect, _read_len) = Disconnect::try_read(buf, size).unwrap();
    true
}

/// WILLMSGREQ: accepted when its type byte is that of WILLMSGREQ.
pub fn verify_will_msg_req(_state: ClientStateEnum, _input: MsgType, transfer: &mut Transfer, buf: &[u8], size: usize) -> (r: bool)
    requires
        buf@.len() >= 2,
    ensures
        r == (buf@[1] == 0x08),
        unchanged(*old(transfer), *final(transfer)),
{
    let (will_msg_req, _read_len) = WillMsgReq::try_read(buf, size).unwrap();
    will_msg_req.msg_type == 0x08
}

/// WILLTOPICREQ: accepted when its type byte is that of WILLTOPICREQ.
pub fn verify_will_topic_req(_state: ClientStateEnum, _input: MsgType, transfer: &mut Transfer, buf: &[u8], size: usize) -> (r: bool)
    requires
        buf@.len() >= 2,
    ensures
        r == (buf@[1] == 0x06),
        unchanged(*old(transfer), *final(transfer)),
{
    let (will_topic_req, _read_len) = WillTopicReq::try_read(buf, size).unwrap();
    will_topic_req.msg_type == 0x06
}

/// WILLTOPICRESP: accepted when its return code is 0 (accepted); codes 1 to 3 are
/// rejections and others are unknown.
pub fn verify_will_topic_resp(_state: ClientStateEnum, _input: MsgType, transfer: &mut Transfer, buf: &[u8], size: usize) -> (r: bool)
    requires
        buf@.len() >= 3,
    ensures
        r == (buf@[2] == 0),
        unchanged(*old(transfer), *final(transfer)),
{
    let (will_topic_resp, _read_len) = WillTopicResp::try_read(buf, size).unwrap();
    will_topic_resp.return_code == 0
}

/// WILLMSGRESP: accepted when its type byte is that of WILLMSGRESP and its return code is 0.
pub fn verify_will_msg_resp(_state: ClientStateEnum, _input: MsgType, transfer: &mut Transfer, buf: &[u8], size: usize) -> (r: bool)
    requires
        buf@.len() >= 3,
    ensures
        r == (buf@[1] == 0x1D && buf@[2] == 0),
        unchanged(*old(transfer), *final(transfer)),
{
    let (will_msg_resp, _read_len) = WillMsgResp::try_read(buf, size).unwrap();
    if will_msg_resp.msg_type == 0x1D {
        will_msg_resp.return_code == 0
    } else {
        false
    }
}

/// PINGRESP: accepted when its type byte is that of PINGRESP.
pub fn verify_ping_resp(_state: ClientStateEnum, _input: MsgType, transfer: &mut Transfer, buf: &[u8], size: usize) -> (r: bool)
    requires
        buf@.len() >= 2,
    ensures
        r == (buf@[1] == 0x17),
        unchanged(*old(transfer), *final(transfer)),
{
    let (ping_resp, _read_len) = PingResp::try_read(buf, size).unwrap();
    ping_resp.msg_type == 0x17
}

/// CONNACK: accepted when its type byte is that of CONNACK and its return code is 0.
pub fn verify_connack(_state: ClientStateEnum, _input: MsgType, transfer: &mut Transfer, buf: &[u8], size: usize) -> (r: bool)
    requires
        buf@.len() >= 3,
    ensures
        r == (buf@[1] == 0x05 && buf@[2] == 0),
        unchanged(*old(transfer), *final(transfer)),
{
    let (conn_ack, _read_len) = ConAck::try_read(buf, size).unwrap();
    if conn_ack.msg_type == 0x05 {
        conn_ack.return_code == 0
    } else {
        false
    }
}

/// REGACK: accepted when its type byte is that of REGACK and its return code is 0; the topic
/// id it carries then becomes the topic id counter.
pub fn verify_regack(_state: ClientStateEnum, _input: MsgType, transfer: &mut Transfer, buf: &[u8], size: usize) -> (r: bool)
    requires
        buf@.len() >= 7,
    ensures
        r == (buf@[1] == 0x0B && buf@[6] == 0),
        r ==> counter_set(*old(transfer), *final(transfer), be16_at(buf@, 2)),
        !r ==> unchanged(*old(transfer), *final(transfer)),
{
    let (reg_ack, _read_len) = RegAck::try_read(buf, size).unwrap();
    if reg_ack.msg_type == 0x0B && reg_ack.return_code == 0 {
        transfer.topic_id_counter = reg_ack.topic_id;
        true
    } else {
        false
    }
}

/// UNSUBACK: accepted when its type byte is that of UNSUBACK.
pub fn verify_unsuback(_state: ClientStateEnum, _input: MsgType, transfer: &mut Transfer, buf: &[u8], size: usize) -> (r: bool)
    requires
        buf@.len() >= 4,
    ensures
        r == (buf@[1] == 0x15),
        unchanged(*old(transfer), *final(transfer)),
{
    let (unsuback, _read_len) = UnsubAck::try_read(buf, size).unwrap();
    unsuback.msg_type == 0x15
}

/// SUBACK: accepted as it is.
pub fn verify_suback(_state: ClientStateEnum, _input: MsgType, transfer: &mut Transfer, buf: &[u8], size: usize) -> (r: bool)
    requires
        buf@.len() >= 8,
    ensures
        r,
        unchanged(*old(transfer), *final(transfer)),
{
    let (_suback, _read_len) = SubAck::try_read(buf, size).unwrap();
    true
}

/// PUBACK: accepted when its type byte is that of PUBACK and its return code is 0.
pub fn verify_puback(_state: ClientStateEnum, _input: MsgType, transfer: &mut Transfer, buf: &[u8], size: usize) -> (r: bool)
    requires
        buf@.len() >= 7,
    ensures
        r == (buf@[1] == 0x0D && buf@[6] == 0),
        unchanged(*old(transfer), *final(transfer)),
{
    let (pub_ack, _read_len) = PubAck::try_read(buf, size).unwrap();
    if pub_ack.msg_type == 0x0D {
        pub_ack.return_code == 0
    } else {
        false
    }
}

/// PUBREL: accepted when its type byte is that of PUBREL.
pub fn verify_pub_rel(_state: ClientStateEnum, _input: MsgType, transfer: &mut Transfer, buf: &[u8], size: usize) -> (r: bool)
    requires
        buf@.len() >= 4,
    ensures
        r == (buf@[1] == 0x10),
        unchanged(*old(transfer), *final(transfer)),
{
    let (pub_rel, _read_len) = PubRel::try_read(buf, size).unwrap();
    pub_rel.msg_type == 0x10
}

/// PUBLISH: queues the message text for storing as the last one of its topic, and forwards
/// the message, as received, to every subscriber of the topic; refused when there is none.
pub fn verify_publish(_state: ClientStateEnum, _input: MsgType, transfer: &mut Transfer, buf: &[u8], size: usize) -> (r: bool)
    requires
        buf@.len() >= 7,
        buf@.len() <= isize::MAX,
    ensures
        client_publish_effect(*old(transfer), *final(transfer), buf@, size as int, r),
{
    let (publish, read_len) = Publish::try_read(buf, size).unwrap();
    proof {
        lemma_publish_reencode(publish, buf@, size as int, read_len as int);
    }
    let msg_key = MessageDbKey { topic_id: publish.topic_id };
    let msg_val = MessageDbValue { message: text_from_bytes(publish.data.as_slice()) };
    let ghost before = transfer.message_updates@;
    transfer.message_updates.push((msg_key, msg_val));
    assert(updates_view(transfer.message_updates@) =~= updates_view(before).push(
        (publish.topic_id, lossy_text(publish.data@)),
    ));
    forward_publish(transfer, &publish)
}

/// SUBSCRIBE: subscribes the sender to the named topic and queues a SUBACK.
pub fn verify_subscribe(_state: ClientStateEnum, _input: MsgType, transfer: &mut Transfer, buf: &[u8], size: usize) -> (r: bool)
    requires
        buf@.len() >= 5,
        old(transfer).wf(),
        subscribe_counter_fits(*old(transfer), trailing(buf@, 5, size as int)),
    ensures
        r,
        final(transfer).wf(),
        subscribed_to_topic(*old(transfer), *final(transfer), trailing(buf@, 5, size as int), be16_at(buf@, 3)),
{
    let _sub = subscribe_sender(transfer, buf, size);
    true
}

/// Runs the client's check for `input` on the datagram of `size` bytes in `buf`.
pub fn client_guard(state: ClientStateEnum, input: MsgType, transfer: &mut Transfer, buf: &[u8], size: usize) -> (r: bool)
    requires
        client_check_ok(input, *old(transfer), buf@),
    ensures
        client_effect(input, *old(transfer), *final(transfer), buf@, size as int, r),
        final(transfer).wf(),
{
    match input {
        MsgType::CONNACK => verify_connack(state, input, transfer, buf, size),
        MsgType::WILLTOPICREQ => verify_will_topic_req(state, input, transfer, buf, size),
        MsgType::WILLMSGREQ => verify_will_msg_req(state, input, transfer, buf, size),
        MsgType::REGACK => verify_regack(state, input, transfer, buf, size),
        MsgType::PUBACK => verify_puback(state, input, transfer, buf, size),
        MsgType::REGISTER => verify_register(transfer, buf, size),
        MsgType::PUBLISH => verify_publish(state, input, transfer, buf, size),
        MsgType::PUBREL => verify_pub_rel(state, input, transfer, buf, size),
        MsgType::SUBACK => verify_suback(state, input, transfer, buf, size),
        MsgType::UNSUBACK => verify_unsuback(state, input, transfer, buf, size),
        MsgType::PINGREQ => verify_ping_req(transfer, buf, size),
        MsgType::PINGRESP => verify_ping_resp(state, input, transfer, buf, size),
        MsgType::DISCONNECT => verify_disconnect(state, input, transfer, buf, size),
        MsgType::WILLTOPICRESP => verify_will_topic_resp(state, input, transfer, buf, size),
        MsgType::WILLMSGRESP => verify_will_msg_resp(state, input, transfer, buf, size),
        _ => true,
    }
}

/// Feeds `input` to a client machine in `state`: where a transition is defined, runs its
/// check and takes the step the check selects; otherwise changes nothing and gives `None`.
pub fn client_consume(state: ClientStateEnum, input: MsgType, transfer: &mut Transfer, buf: &[u8], size: usize) -> (r: Option<ClientStep>)
    requires
        client_table(state, input) is Some ==> client_check_ok(input, *old(transfer), buf@),
        old(transfer).wf(),
    ensures
        final(transfer).wf(),
        client_table(state, input) is None ==> r is None && unchanged(*old(transfer), *final(transfer)),
        client_table(state, input) matches Some((accept, refuse)) ==> exists|ok: bool|
            client_effect(input, *old(transfer), *final(transfer), buf@, size as int, ok)
                && r == Some(if ok { accept } else { refuse }),
{
    match client_transition(state, input) {
        None => None,
        Some((accept, refuse)) => {
            let ok = client_guard(state, input, transfer, buf, size);
            if ok {
                Some(accept)
            } else {
                Some(refuse)
            }
        },
    }
}

/// A machine: its current state.
#[derive(Clone, Copy, Debug, PartialEq, Eq, Structural)]
pub struct MainMachine {
    pub machine: ClientStateEnum,
}

impl MainMachine {
    /// A machine in its initial state, DISCONNECTED.
    pub fn new() -> (m: MainMachine)
        ensures
            m.machine == ClientStateEnum::DISCONNECTED,
    {
        MainMachine { machine: ClientStateEnum::DISCONNECTED }
    }

    /// The current state.
    pub fn state(&self) -> (s: ClientStateEnum)
        ensures
            s == self.machine,
    {
        self.machine
    }

    /// Feeds `input` to the machine: where a transition is defined, runs its check, moves to
    /// the state the check selects and gives the output; otherwise changes nothing and gives
    /// `None`.
    pub fn consume(&mut self, input: MsgType, transfer: &mut Transfer, buf: &[u8], size: usize) -> (r: Option<MsgType>)
        requires
            client_table(old(self).machine, input) is Some ==> client_check_ok(input, *old(transfer), buf@),
            old(transfer).wf(),
        ensures
            final(transfer).wf(),
            client_table(old(self).machine, input) is None ==> r is None && final(self).machine == old(self).machine
                && unchanged(*old(transfer), *final(transfer)),
            client_table(old(self).machine, input) matches Some((accept, refuse)) ==> exists|ok: bool|
                client_effect(input, *old(transfer), *final(transfer), buf@, size as int, ok)
                    && (final(self).machine, r) == (if ok { (accept.0, Some(accept.1)) } else { (refuse.0, Some(refuse.1)) }),
    {
        match client_consume(self.machine, input, transfer, buf, size) {
            Some((next, output)) => {
                self.machine = next;
                Some(output)
            },
            None => None,
        }
    }
}

/// The state a datagram is fed to at a client: that of the sender's machine, or a new
/// machine's (DISCONNECTED) when the sender has none and the datagram is a CONNACK or a
/// CONNECT; `None` when the datagram is not fed to any machine.
pub open spec fn client_entry_state(machine: Option<ClientStateEnum>, code: u8) -> Option<ClientStateEnum> {
    match machine {
        Some(s) => Some(s),
        None => if code == 0x05 || code == 0x04 {
            Some(ClientStateEnum::DISCONNECTED)
        } else {
            None
        },
    }
}

/// The datagram of `size` bytes in `b`, from a sender whose machine is `machine`, can be
/// handled by `process_input`.
pub open spec fn client_input_ok(b: Seq<u8>, size: int, t: Transfer, machine: Option<ClientStateEnum>) -> bool {
    &&& b.len() >= 1
    &&& t.wf()
    &&& size == b[0] ==> {
        &&& b.len() >= 2
        &&& machine is Some ==> spec_from_u8(b[1]) is Some
        &&& client_entry_state(machine, b[1]) matches Some(s) ==> (client_table(s, spec_from_u8(b[1]).unwrap()) is Some
            ==> client_check_ok(spec_from_u8(b[1]).unwrap(), t, b))
    }
}

/// Whether `client_input_ok` holds, so that a caller can test it first.
pub fn client_input_acceptable(buf: &[u8], size: usize, transfer: &Transfer, machine: Option<ClientStateEnum>) -> (r: bool)
    requires
        transfer.wf(),
    ensures
        r == client_input_ok(buf@, size as int, *transfer, machine),
{
    if buf.len() < 1 {
        return false;
    }
    if size != buf[0] as usize {
        return true;
    }
    if buf.len() < 2 {
        return false;
    }
    let code = buf[1];
    let input = MsgType::from_u8(code);
    let entry = match machine {
        Some(s) => Some(s),
        None => if code == 0x05 || code == 0x04 {
            Some(ClientStateEnum::DISCONNECTED)
        } else {
            None
        },
    };
    match input {
        None => machine.is_none(),
        Some(t) => match entry {
            None => true,
            Some(s) => match client_transition(s, t) {
                None => true,
                Some(_) => {
                    let need: usize = match t {
                        MsgType::CONNACK => 3,
                        MsgType::WILLTOPICREQ => 2,
                        MsgType::WILLMSGREQ => 2,
                        MsgType::REGACK => 7,
                        MsgType::PUBACK => 7,
                        MsgType::REGISTER => 6,
                        MsgType::PUBLISH => 7,
                        MsgType::PUBREL => 4,
                        MsgType::SUBACK => 8,
                        MsgType::UNSUBACK => 4,
                        MsgType::PINGREQ => 2,
                        MsgType::PINGRESP => 2,
                        MsgType::DISCONNECT => 4,
                        MsgType::WILLTOPICRESP => 3,
                        MsgType::WILLMSGRESP => 3,
                        _ => 0,
                    };
                    buf.len() >= need && buf.len() <= isize::MAX as usize
                },
            },
        },
    }
}

/// Handles one datagram of `size` bytes in `buf` from `transfer.peer`, whose client machine
/// is `machine` (`None` when it has none).  A datagram whose size differs from its length
/// byte is ignored.  Otherwise it is fed to the sender's machine, or to a new one when it is
/// a CONNACK or a CONNECT from a sender without a machine.  Gives the state to record for the
/// sender, or `None` when nothing is to be recorded.
pub fn process_input(buf: &[u8], size: usize, transfer: &mut Transfer, machine: Option<ClientStateEnum>) -> (r: Option<ClientStateEnum>)
    requires
        client_input_ok(buf@, size as int, *old(transfer), machine),
    ensures
        final(transfer).wf(),
        size != buf@[0] ==> r is None && unchanged(*old(transfer), *final(transfer)),
        size == buf@[0] && client_entry_state(machine, buf@[1]) is None ==> r is None && unchanged(*old(transfer), *final(transfer)),
        size == buf@[0] ==> (client_entry_state(machine, buf@[1]) matches Some(s) ==> {
            let input = spec_from_u8(buf@[1]).unwrap();
            &&& client_table(s, input) is None ==> r == Some(s) && unchanged(*old(transfer), *final(transfer))
            &&& client_table(s, input) matches Some((accept, refuse)) ==> exists|ok: bool|
                client_effect(input, *old(transfer), *final(transfer), buf@, size as int, ok)
                    && r == Some(if ok { accept.0 } else { refuse.0 })
        }),
{
    let len: u8 = buf[0];
    if size != len as usize {
        return None;
    }
    let msg_type_u8 = buf[1];
    let msg_type = MsgType::from_u8(msg_type_u8);
    let start = match machine {
        Some(s) => s,
        None => {
            if msg_type_u8 == 0x05 || msg_type_u8 == 0x04 {
                ClientStateEnum::DISCONNECTED
            } else {
                return None;
            }
        },
    };
    let input = msg_type.unwrap();
    match client_consume(start, input, transfer, buf, size) {
        Some((next, _output)) => Some(next),
        None => Some(start),
    }
}

/// An ACTIVE client stays ACTIVE on every message but a DISCONNECT (to ASLEEP when accepted,
/// LOST when refused) and a refused CONNACK (to DISCONNECTED); a client setting up its will
/// becomes ACTIVE on an accepted WILLMSGREQ and DISCONNECTED on a refused one.
pub proof fn lemma_client_active(state: ClientStateEnum, input: MsgType, accept: ClientStep, refuse: ClientStep)
    requires
        client_table(state, input) == Some((accept, refuse)),
    ensures
        state == ClientStateEnum::ACTIVE ==> (accept.0 != ClientStateEnum::ACTIVE ==> input == MsgType::DISCONNECT
            && accept.0 == ClientStateEnum::ASLEEP),
        state == ClientStateEnum::ACTIVE ==> (refuse.0 != ClientStateEnum::ACTIVE ==> (input == MsgType::DISCONNECT
            && refuse.0 == ClientStateEnum::LOST) || (input == MsgType::CONNACK && refuse.0
            == ClientStateEnum::DISCONNECTED)),
        state == ClientStateEnum::WILLSETUP ==> input == MsgType::WILLMSGREQ && accept.0
            == ClientStateEnum::ACTIVE && refuse.0 == ClientStateEnum::DISCONNECTED,
{
}

/// How the client answers: an accepted message is answered with MSG_TYPE_ERR only for
/// UNSUBACK, which gets that answer either way; a refused one is answered with MSG_TYPE_ERR
/// except that a REGISTER or PUBLISH still gets its acknowledgement (REGACK, PUBACK) and a
/// refused DISCONNECT, or a refused CONNACK while LOST, asks to CONNECT again.
pub proof fn lemma_client_outputs(state: ClientStateEnum, input: MsgType, accept: ClientStep, refuse: ClientStep)
    requires
        client_table(state, input) == Some((accept, refuse)),
    ensures
        (accept.1 == MsgType::MSG_TYPE_ERR) <==> input == MsgType::UNSUBACK,
        input == MsgType::REGISTER ==> accept.1 == MsgType::REGACK && refuse.1 == MsgType::REGACK,
        input == MsgType::PUBLISH ==> accept.1 == MsgType::PUBACK && refuse.1 == MsgType::PUBACK,
        input == MsgType::DISCONNECT ==> accept.1 == MsgType::PINGREQ && refuse.1 == MsgType::CONNECT,
        input == MsgType::CONNACK ==> accept.1 == MsgType::REGISTER && refuse.1 == (if state
            == ClientStateEnum::LOST {
            MsgType::CONNECT
        } else {
            MsgType::MSG_TYPE_ERR
        }),
        input != MsgType::REGISTER && input != MsgType::PUBLISH && input != MsgType::DISCONNECT
            && input != MsgType::CONNACK ==> refuse.1 == MsgType::MSG_TYPE_ERR,
        input == MsgType::SUBACK || input == MsgType::REGACK || input == MsgType::PUBACK
            || input == MsgType::WILLTOPICRESP || input == MsgType::WILLMSGRESP ==> accept.1
            == MsgType::PUBLISH,
{
}

/// A client leaves DISCONNECTED only on an accepted CONNACK (to ACTIVE) or an accepted
/// WILLTOPICREQ (to WILLSETUP); a refused message leaves it DISCONNECTED.
pub proof fn lemma_client_leaves_disconnected(input: MsgType, accept: ClientStep, refuse: ClientStep)
    requires
        client_table(ClientStateEnum::DISCONNECTED, input) == Some((accept, refuse)),
    ensures
        refuse.0 == ClientStateEnum::DISCONNECTED,
        input == MsgType::CONNACK ==> accept.0 == ClientStateEnum::ACTIVE,
        input == MsgType::WILLTOPICREQ ==> accept.0 == ClientStateEnum::WILLSETUP,
        input == MsgType::CONNACK || input == MsgType::WILLTOPICREQ,
{
}

/// An accepted CONNACK makes a client ACTIVE from every state in which it is expected.
pub proof fn lemma_client_connack_activates(state: ClientStateEnum, accept: ClientStep, refuse: ClientStep)
    requires
        client_table(state, MsgType::CONNACK) == Some((accept, refuse)),
    ensures
        accept.0 == ClientStateEnum::ACTIVE,
{
}

/// A client becomes LOST only when a DISCONNECT is refused while ACTIVE, and stays LOST until
/// a CONNACK is accepted.
pub proof fn lemma_client_lost(state: ClientStateEnum, input: MsgType, accept: ClientStep, refuse: ClientStep)
    requires
        client_table(state, input) == Some((accept, refuse)),
    ensures
        accept.0 == ClientStateEnum::LOST ==> false,
        refuse.0 == ClientStateEnum::LOST ==> (state == ClientStateEnum::ACTIVE && input == MsgType::DISCONNECT)
            || state == ClientStateEnum::LOST,
        state == ClientStateEnum::LOST ==> input == MsgType::CONNACK && accept.0 == ClientStateEnum::ACTIVE,
{
}

} // verus!
