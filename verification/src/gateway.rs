//! The gateway (broker) side of MQTT-SN: its state machine, the checks it runs on each
//! message, and the handling of one received datagram.
use vstd::prelude::*;
use crate::guards::{
    fanout, lemma_publish_reencode, subscribe_counter_fits, received, register_effect, replied, subscribed_to_topic,
    unchanged, unsubscribe_effect, forward_publish, subscribe_sender, verify_ping_req,
    verify_register, verify_unsubscribe, verify_will_msg, verify_will_msg_update,
    verify_will_topic, verify_will_topic_update,
};
use crate::msg_type::{MsgType, spec_from_u8};
use crate::packets::{be16_at, trailing, ConAck, Connect, Disconnect, Publish, Subscribe};
use crate::state::StateEnum;
use crate::topics::{Peer, is_subscribed, subscriptions_of, topic_lookup};
use crate::transfer::Transfer;

verus! {

/// A transition: the next state and the output.
pub type Step = (StateEnum, MsgType);

/// The gateway's transitions: for a state and an input, the step taken when the check of the
/// message passes and the step taken when it fails; `None` where no transition is defined.
pub open spec fn gateway_table(state: StateEnum, input: MsgType) -> Option<(Step, Step)> {
    match state {
        StateEnum::ACTIVE => match input {
            MsgType::PUBLISH => Some(((StateEnum::ACTIVE, MsgType::PUBLISH), (StateEnum::ACTIVE, MsgType::MSG_TYPE_ERR))),
            MsgType::PINGREQ => Some(((StateEnum::ACTIVE, MsgType::SUBACK), (StateEnum::ACTIVE, MsgType::MSG_TYPE_ERR))),
            MsgType::WILLTOPIC => Some(((StateEnum::ACTIVE, MsgType::MSG_TYPE_ERR), (StateEnum::ACTIVE, MsgType::MSG_TYPE_ERR))),
            MsgType::WILLMSG => Some(((StateEnum::ACTIVE, MsgType::MSG_TYPE_ERR), (StateEnum::ACTIVE, MsgType::MSG_TYPE_ERR))),
            MsgType::SUBSCRIBE => Some(((StateEnum::ACTIVE, MsgType::SUBACK), (StateEnum::ACTIVE, MsgType::MSG_TYPE_ERR))),
            MsgType::REGISTER => Some(((StateEnum::ACTIVE, MsgType::SUBACK), (StateEnum::ACTIVE, MsgType::MSG_TYPE_ERR))),
            MsgType::UNSUBSCRIBE => Some(((StateEnum::ACTIVE, MsgType::SUBACK), (StateEnum::ACTIVE, MsgType::MSG_TYPE_ERR))),
            MsgType::DISCONNECT => Some(((StateEnum::ASLEEP, MsgType::DISCONNECT), (StateEnum::ACTIVE, MsgType::MSG_TYPE_ERR))),
            MsgType::WILLTOPICUPD => Some(((StateEnum::ACTIVE, MsgType::WILLTOPICRESP), (StateEnum::ACTIVE, MsgType::MSG_TYPE_ERR))),
            MsgType::WILLMSGUPD => Some(((StateEnum::ACTIVE, MsgType::WILLMSGRESP), (StateEnum::ACTIVE, MsgType::MSG_TYPE_ERR))),
            _ => None,
        },
        StateEnum::DISCONNECTED => match input {
            MsgType::CONNECT => Some(((StateEnum::ACTIVE, MsgType::CONNACK), (StateEnum::DISCONNECTED, MsgType::MSG_TYPE_ERR))),
            _ => None,
        },
        _ => None,
    }
}

/// The gateway's transitions, as `gateway_table` gives them.
pub fn gateway_transition(state: StateEnum, input: MsgType) -> (r: Option<(Step, Step)>)
    ensures
        r == gateway_table(state, input),
{
    match state {
        StateEnum::ACTIVE => match input {
            MsgType::PUBLISH => Some(((StateEnum::ACTIVE, MsgType::PUBLISH), (StateEnum::ACTIVE, MsgType::MSG_TYPE_ERR))),
            MsgType::PINGREQ => Some(((StateEnum::ACTIVE, MsgType::SUBACK), (StateEnum::ACTIVE, MsgType::MSG_TYPE_ERR))),
            MsgType::WILLTOPIC => Some(((StateEnum::ACTIVE, MsgType::MSG_TYPE_ERR), (StateEnum::ACTIVE, MsgType::MSG_TYPE_ERR))),
            MsgType::WILLMSG => Some(((StateEnum::ACTIVE, MsgType::MSG_TYPE_ERR), (StateEnum::ACTIVE, MsgType::MSG_TYPE_ERR))),
            MsgType::SUBSCRIBE => Some(((StateEnum::ACTIVE, MsgType::SUBACK), (StateEnum::ACTIVE, MsgType::MSG_TYPE_ERR))),
            MsgType::REGISTER => Some(((StateEnum::ACTIVE, MsgType::SUBACK), (StateEnum::ACTIVE, MsgType::MSG_TYPE_ERR))),
            MsgType::UNSUBSCRIBE => Some(((StateEnum::ACTIVE, MsgType::SUBACK), (StateEnum::ACTIVE, MsgType::MSG_TYPE_ERR))),
            MsgType::DISCONNECT => Some(((StateEnum::ASLEEP, MsgType::DISCONNECT), (StateEnum::ACTIVE, MsgType::MSG_TYPE_ERR))),
            MsgType::WILLTOPICUPD => Some(((StateEnum::ACTIVE, MsgType::WILLTOPICRESP), (StateEnum::ACTIVE, MsgType::MSG_TYPE_ERR))),
            MsgType::WILLMSGUPD => Some(((StateEnum::ACTIVE, MsgType::WILLMSGRESP), (StateEnum::ACTIVE, MsgType::MSG_TYPE_ERR))),
            _ => None,
        },
        StateEnum::DISCONNECTED => match input {
            MsgType::CONNECT => Some(((StateEnum::ACTIVE, MsgType::CONNACK), (StateEnum::DISCONNECTED, MsgType::MSG_TYPE_ERR))),
            _ => None,
        },
        _ => None,
    }
}

/// The number of bytes the gateway's check for `input` reads: the fixed-size fields of the
/// message it parses.
pub open spec fn gateway_read_len(input: MsgType) -> int {
    match input {
        MsgType::PUBLISH => 7,
        MsgType::PINGREQ => 2,
        MsgType::WILLTOPIC => 3,
        MsgType::WILLMSG => 2,
        MsgType::SUBSCRIBE => 5,
        MsgType::REGISTER => 6,
        MsgType::UNSUBSCRIBE => 5,
        MsgType::DISCONNECT => 4,
        MsgType::WILLTOPICUPD => 3,
        MsgType::WILLMSGUPD => 2,
        MsgType::CONNECT => 6,
        _ => 0,
    }
}

/// What the gateway's check for `input` needs: the bytes it reads, consistent registries,
/// and room for one more topic id when it may hand one out.
pub open spec fn gateway_check_ok(input: MsgType, t: Transfer, b: Seq<u8>, size: int) -> bool {
    &&& b.len() >= gateway_read_len(input)
    &&& b.len() <= isize::MAX
    &&& t.wf()
    &&& input == MsgType::SUBSCRIBE ==> subscribe_counter_fits(t, trailing(b, 5, size))
}

/// What forwarding a PUBLISH does: it is accepted exactly when its topic has subscribers, and
/// then the datagram, as received, is queued to each of them.
pub open spec fn publish_effect(before: Transfer, after: Transfer, b: Seq<u8>, size: int, ok: bool) -> bool {
    let subs = subscriptions_of(before.subscriber_db@, be16_at(b, 3));
    &&& ok == (subs.len() > 0)
    &&& after.egress() == before.egress() + fanout(subs, received(b, 7, size))
    &&& after.same_but_egress(&before)
}

/// What the gateway's check for `input` does to `before`, making it `after`, and whether it
/// passes (`ok`), for the datagram of `size` bytes in `b`.
pub open spec fn gateway_effect(input: MsgType, before: Transfer, after: Transfer, b: Seq<u8>, size: int, ok: bool) -> bool {
    match input {
        MsgType::PUBLISH => publish_effect(before, after, b, size, ok),
        MsgType::PINGREQ => ok && replied(before, after, crate::packets::PingResp { len: 2, msg_type: 0x17 }.spec_encode()),
        MsgType::WILLTOPIC => ok && unchanged(before, after),
        MsgType::WILLMSG => ok && unchanged(before, after),
        MsgType::SUBSCRIBE => subscribed_to_topic(before, after, crate::packets::trailing(b, 5, size), be16_at(b, 3))
            && ok == (size == b[0]) && after.wf(),
        MsgType::REGISTER => register_effect(before, after, b, size, ok),
        MsgType::UNSUBSCRIBE => unsubscribe_effect(before, after, b, size, ok) && after.wf(),
        MsgType::DISCONNECT => ok && replied(before, after, Disconnect { len: 2, msg_type: 0x18, duration: 8 }.spec_encode()),
        MsgType::WILLTOPICUPD => ok && replied(before, after, crate::packets::WillTopicResp { len: 3, msg_type: 0x1B, return_code: 0 }.spec_encode()),
        MsgType::WILLMSGUPD => ok && replied(before, after, crate::packets::WillMsgResp { len: 3, msg_type: 0x1D, return_code: 0 }.spec_encode()),
        MsgType::CONNECT => ok && replied(before, after, ConAck { len: 3, msg_type: 0x05, return_code: 0 }.spec_encode()),
        _ => ok && unchanged(before, after),
    }
}

/// PUBLISH: queues the message, as received, to every subscriber of its topic; refused when
/// the topic has none.
pub fn verify_publish(_state: StateEnum, _input: MsgType, transfer: &mut Transfer, buf: &[u8], size: usize) -> (r: bool)
    requires
        buf@.len() >= 7,
        buf@.len() <= isize::MAX,
    ensures
        publish_effect(*old(transfer), *final(transfer), buf@, size as int, r),
{
    let (publish, read_len) = Publish::try_read(buf, size).unwrap();
    proof {
        lemma_publish_reencode(publish, buf@, size as int, read_len as int);
    }
    forward_publish(transfer, &publish)
}

/// CONNECT: queues a CONNACK accepting the connection.
pub fn verify_connect(_state: StateEnum, _input: MsgType, transfer: &mut Transfer, buf: &[u8], size: usize) -> (r: bool)
    requires
        buf@.len() >= 6,
    ensures
        r,
        replied(*old(transfer), *final(transfer), ConAck { len: 3, msg_type: 0x05, return_code: 0 }.spec_encode()),
{
    let (_conn, _read_len) = Connect::try_read(buf, size).unwrap();
    let con_ack = ConAck { len: 3, msg_type: 0x05, return_code: 0 };
    let bytes = con_ack.to_bytes();
    let peer = transfer.peer;
    transfer.send(peer, bytes.as_slice());
    true
}

/// DISCONNECT: queues a DISCONNECT back to the sender.
pub fn verify_disconnect(_state: StateEnum, _input: MsgType, transfer: &mut Transfer, buf: &[u8], size: usize) -> (r: bool)
    requires
        buf@.len() >= 4,
    ensures
        r,
        replied(*old(transfer), *final(transfer), Disconnect { len: 2, msg_type: 0x18, duration: 8 }.spec_encode()),
{
    let (_disconnect, _read_len) = Disconnect::try_read(buf, size).unwrap();
    let new_disconnect = Disconnect { len: 2, msg_type: 0x18, duration: 8 };
    let bytes = new_disconnect.to_bytes();
    let peer = transfer.peer;
    transfer.send(peer, bytes.as_slice());
    true
}

/// SUBSCRIBE: subscribes the sender to the named topic and queues a SUBACK; the check then
/// fails when the datagram size differs from its length byte, though the subscription and
/// the SUBACK stand.
pub fn verify_subscribe(_state: StateEnum, _input: MsgType, transfer: &mut Transfer, buf: &[u8], size: usize) -> (r: bool)
    requires
        buf@.len() >= 5,
        old(transfer).wf(),
        subscribe_counter_fits(*old(transfer), trailing(buf@, 5, size as int)),
    ensures
        final(transfer).wf(),
        subscribed_to_topic(*old(transfer), *final(transfer), crate::packets::trailing(buf@, 5, size as int), be16_at(buf@, 3)),
        r == (size == buf@[0]),
{
    let sub = subscribe_sender(transfer, buf, size);
    if size != sub.len as usize {
        return false;
    }
    true
}

/// Runs the gateway's check for `input` on the datagram of `size` bytes in `buf`.
pub fn gateway_guard(state: StateEnum, input: MsgType, transfer: &mut Transfer, buf: &[u8], size: usize) -> (r: bool)
    requires
        gateway_check_ok(input, *old(transfer), buf@, size as int),
    ensures
        gateway_effect(input, *old(transfer), *final(transfer), buf@, size as int, r),
        final(transfer).wf(),
{
    match input {
        MsgType::PUBLISH => verify_publish(state, input, transfer, buf, size),
        MsgType::PINGREQ => verify_ping_req(transfer, buf, size),
        MsgType::WILLTOPIC => verify_will_topic(transfer, buf, size),
        MsgType::WILLMSG => verify_will_msg(transfer, buf, size),
        MsgType::SUBSCRIBE => verify_subscribe(state, input, transfer, buf, size),
        MsgType::REGISTER => verify_register(transfer, buf, size),
        MsgType::UNSUBSCRIBE => verify_unsubscribe(transfer, buf, size),
        MsgType::DISCONNECT => verify_disconnect(state, input, transfer, buf, size),
        MsgType::WILLTOPICUPD => verify_will_topic_update(transfer, buf, size),
        MsgType::WILLMSGUPD => verify_will_msg_update(transfer, buf, size),
        MsgType::CONNECT => verify_connect(state, input, transfer, buf, size),
        _ => true,
    }
}

/// Feeds `input` to a gateway machine in `state`: where a transition is defined, runs its
/// check and takes the step the check selects; otherwise changes nothing and gives `None`.
pub fn gateway_consume(state: StateEnum, input: MsgType, transfer: &mut Transfer, buf: &[u8], size: usize) -> (r: Option<Step>)
    requires
        gateway_table(state, input) is Some ==> gateway_check_ok(input, *old(transfer), buf@, size as int),
        old(transfer).wf(),
    ensures
        final(transfer).wf(),
        gateway_table(state, input) is None ==> r is None && unchanged(*old(transfer), *final(transfer)),
        gateway_table(state, input) matches Some((accept, refuse)) ==> exists|ok: bool|
            gateway_effect(input, *old(transfer), *final(transfer), buf@, size as int, ok)
                && r == Some(if ok { accept } else { refuse }),
{
    match gateway_transition(state, input) {
        None => None,
        Some((accept, refuse)) => {
            let ok = gateway_guard(state, input, transfer, buf, size);
            if ok {
                Some(accept)
            } else {
                Some(refuse)
            }
        },
    }
}

/// A machine: its current state.
#[derive(Clone, Copy, Debug, PartialEq, Eq, Structural)]
pub struct MainMachine {
    pub machine: StateEnum,
}

impl MainMachine {
    /// A machine in its initial state, DISCONNECTED.
    pub fn new() -> (m: MainMachine)
        ensures
            m.machine == StateEnum::DISCONNECTED,
    {
        MainMachine { machine: StateEnum::DISCONNECTED }
    }

    /// The current state.
    pub fn state(&self) -> (s: StateEnum)
        ensures
            s == self.machine,
    {
        self.machine
    }

    /// Feeds `input` to the machine: where a transition is defined, runs its check, moves to
    /// the state the check selects and gives the output; otherwise changes nothing and gives
    /// `None`.
    pub fn consume(&mut self, input: MsgType, transfer: &mut Transfer, buf: &[u8], size: usize) -> (r: Option<MsgType>)
        requires
            gateway_table(old(self).machine, input) is Some ==> gateway_check_ok(input, *old(transfer), buf@, size as int),
            old(transfer).wf(),
        ensures
            final(transfer).wf(),
            gateway_table(old(self).machine, input) is None ==> r is None && final(self).machine == old(self).machine
                && unchanged(*old(transfer), *final(transfer)),
            gateway_table(old(self).machine, input) matches Some((accept, refuse)) ==> exists|ok: bool|
                gateway_effect(input, *old(transfer), *final(transfer), buf@, size as int, ok)
                    && (final(self).machine, r) == (if ok { (accept.0, Some(accept.1)) } else { (refuse.0, Some(refuse.1)) }),
    {
        match gateway_consume(self.machine, input, transfer, buf, size) {
            Some((next, output)) => {
                self.machine = next;
                Some(output)
            },
            None => None,
        }
    }
}

/// The state a datagram is fed to: that of the sender's machine, or a new machine's
/// (DISCONNECTED) when the sender has none and the datagram is a CONNACK or a CONNECT;
/// `None` when the datagram is not fed to any machine.
pub open spec fn entry_state(machine: Option<StateEnum>, code: u8) -> Option<StateEnum> {
    match machine {
        Some(s) => Some(s),
        None => if code == 0x05 || code == 0x04 {
            Some(StateEnum::DISCONNECTED)
        } else {
            None
        },
    }
}

/// The datagram of `size` bytes in `b`, from a sender whose machine is `machine`, can be
/// handled: its length byte is there; when the size matches it, its type byte is there and
/// names a type if the sender has a machine, and the check of the transition it triggers
/// can run.
pub open spec fn gateway_input_ok(b: Seq<u8>, size: int, t: Transfer, machine: Option<StateEnum>) -> bool {
    &&& b.len() >= 1
    &&& t.wf()
    &&& size == b[0] ==> {
        &&& b.len() >= 2
        &&& machine is Some ==> spec_from_u8(b[1]) is Some
        &&& entry_state(machine, b[1]) matches Some(s) ==> (gateway_table(s, spec_from_u8(b[1]).unwrap()) is Some
            ==> gateway_check_ok(spec_from_u8(b[1]).unwrap(), t, b, size))
    }
}

/// Whether `subscribe_counter_fits` holds for the topic named in the SUBSCRIBE in `buf`.
fn subscribe_counter_room(buf: &[u8], size: usize, transfer: &Transfer) -> (r: bool)
    requires
        buf@.len() >= 5,
    ensures
        r == subscribe_counter_fits(*transfer, trailing(buf@, 5, size as int)),
{
    if transfer.topic_id_counter < u16::MAX {
        return true;
    }
    let (sub, _n) = Subscribe::try_read(buf, size).unwrap();
    match transfer.topic_db.get(&sub.topic_name) {
        Some(id) => id != transfer.topic_id_counter,
        None => false,
    }
}

/// Whether `gateway_input_ok` holds, so that a caller can test it first.
pub fn gateway_input_acceptable(buf: &[u8], size: usize, transfer: &Transfer, machine: Option<StateEnum>) -> (r: bool)
    requires
        transfer.wf(),
    ensures
        r == gateway_input_ok(buf@, size as int, *transfer, machine),
{
    if buf.len() < 1 {
        return false;
    }
    if size != buf[0] as usize {
        return true;
    }
    if buf.len() < 2 {
        return false;
    }
    let code = buf[1];
    let input = MsgType::from_u8(code);
    let entry = match machine {
        Some(s) => Some(s),
        None => if code == 0x05 || code == 0x04 {
            Some(StateEnum::DISCONNECTED)
        } else {
            None
        },
    };
    match input {
        None => machine.is_none(),
        Some(t) => match entry {
            None => true,
            Some(s) => match gateway_transition(s, t) {
                None => true,
                Some(_) => {
                    let need: usize = match t {
                        MsgType::PUBLISH => 7,
                        MsgType::PINGREQ => 2,
                        MsgType::WILLTOPIC => 3,
                        MsgType::WILLMSG => 2,
                        MsgType::SUBSCRIBE => 5,
                        MsgType::REGISTER => 6,
                        MsgType::UNSUBSCRIBE => 5,
                        MsgType::DISCONNECT => 4,
                        MsgType::WILLTOPICUPD => 3,
                        MsgType::WILLMSGUPD => 2,
                        MsgType::CONNECT => 6,
                        _ => 0,
                    };
                    buf.len() >= need && buf.len() <= isize::MAX as usize && (t != MsgType::SUBSCRIBE
                        || subscribe_counter_room(buf, size, transfer))
                },
            },
        },
    }
}

/// Handles one datagram of `size` bytes in `buf` from `transfer.peer`, whose gateway machine
/// is `machine` (`None` when it has none).  A datagram whose size differs from its length
/// byte is ignored.  Otherwise it is fed to the sender's machine, or to a new one when it is
/// a CONNACK or a CONNECT from a sender without a machine.  Gives the state to record for the
/// sender, or `None` when nothing is to be recorded.
pub fn process_gateway_input(buf: &[u8], size: usize, transfer: &mut Transfer, machine: Option<StateEnum>) -> (r: Option<StateEnum>)
    requires
        gateway_input_ok(buf@, size as int, *old(transfer), machine),
    ensures
        final(transfer).wf(),
        size != buf@[0] ==> r is None && unchanged(*old(transfer), *final(transfer)),
        size == buf@[0] && entry_state(machine, buf@[1]) is None ==> r is None && unchanged(*old(transfer), *final(transfer)),
        size == buf@[0] ==> (entry_state(machine, buf@[1]) matches Some(s) ==> {
            let input = spec_from_u8(buf@[1]).unwrap();
            &&& gateway_table(s, input) is None ==> r == Some(s) && unchanged(*old(transfer), *final(transfer))
            &&& gateway_table(s, input) matches Some((accept, refuse)) ==> exists|ok: bool|
                gateway_effect(input, *old(transfer), *final(transfer), buf@, size as int, ok)
                    && r == Some(if ok { accept.0 } else { refuse.0 })
        }),
{
    let len: u8 = buf[0];
    if size != len as usize {
        return None;
    }
    let msg_type_u8 = buf[1];
    let msg_type = MsgType::from_u8(msg_type_u8);
    let start = match machine {
        Some(s) => s,
        None => {
            if msg_type_u8 == 0x05 || msg_type_u8 == 0x04 {
                StateEnum::DISCONNECTED
            } else {
                return None;
            }
        },
    };
    let input = msg_type.unwrap();
    match gateway_consume(start, input, transfer, buf, size) {
        Some((next, _output)) => Some(next),
        None => Some(start),
    }
}

/// How the gateway answers: a refused message is always answered with MSG_TYPE_ERR and leaves
/// the state as it was; an accepted one is answered with MSG_TYPE_ERR only for WILLTOPIC and
/// WILLMSG, which get that answer either way.  An accepted SUBSCRIBE, REGISTER, UNSUBSCRIBE or
/// PINGREQ is answered with SUBACK, an accepted CONNECT with CONNACK, PUBLISH with PUBLISH,
/// DISCONNECT with DISCONNECT, and the will updates with their responses.
pub proof fn lemma_gateway_outputs(state: StateEnum, input: MsgType, accept: Step, refuse: Step)
    requires
        gateway_table(state, input) == Some((accept, refuse)),
    ensures
        refuse.1 == MsgType::MSG_TYPE_ERR,
        refuse.0 == state,
        (accept.1 == MsgType::MSG_TYPE_ERR) <==> (input == MsgType::WILLTOPIC || input == MsgType::WILLMSG),
        input == MsgType::SUBSCRIBE || input == MsgType::REGISTER || input == MsgType::UNSUBSCRIBE
            || input == MsgType::PINGREQ ==> accept.1 == MsgType::SUBACK,
        input == MsgType::CONNECT ==> accept.1 == MsgType::CONNACK,
        input == MsgType::PUBLISH ==> accept.1 == MsgType::PUBLISH,
        input == MsgType::DISCONNECT ==> accept.1 == MsgType::DISCONNECT,
        input == MsgType::WILLTOPICUPD ==> accept.1 == MsgType::WILLTOPICRESP,
        input == MsgType::WILLMSGUPD ==> accept.1 == MsgType::WILLMSGRESP,
{
}

/// From DISCONNECTED the gateway only moves, to ACTIVE, on a CONNECT whose check passes.
pub proof fn lemma_gateway_leaves_disconnected(input: MsgType, accept: Step, refuse: Step)
    requires
        gateway_table(StateEnum::DISCONNECTED, input) == Some((accept, refuse)),
    ensures
        input == MsgType::CONNECT,
        accept.0 == StateEnum::ACTIVE,
        refuse.0 == StateEnum::DISCONNECTED,
{
}

/// An ACTIVE gateway machine stays ACTIVE on every input but an accepted DISCONNECT, which
/// puts it to sleep; refused messages never change its state.
pub proof fn lemma_gateway_active(input: MsgType, accept: Step, refuse: Step)
    requires
        gateway_table(StateEnum::ACTIVE, input) == Some((accept, refuse)),
    ensures
        refuse.0 == StateEnum::ACTIVE,
        input == MsgType::DISCONNECT ==> accept.0 == StateEnum::ASLEEP,
        input != MsgType::DISCONNECT ==> accept.0 == StateEnum::ACTIVE,
{
}

/// A gateway machine that is ASLEEP, AWAKE or LOST takes no transition.
pub proof fn lemma_gateway_other_states(state: StateEnum, input: MsgType)
    requires
        state != StateEnum::ACTIVE,
        state != StateEnum::DISCONNECTED,
    ensures
        gateway_table(state, input) is None,
{
}

/// Every subscriber of a topic gets a copy in the fan-out to that topic.
pub proof fn lemma_fanout_reaches(entries: Seq<(u16, Peer, u8)>, topic: u16, peer: Peer, bytes: Seq<u8>)
    requires
        is_subscribed(entries, topic, peer),
    ensures
        fanout(subscriptions_of(entries, topic), bytes).contains((peer, bytes)),
        subscriptions_of(entries, topic).len() > 0,
    decreases entries.len(),
{
    let i = choose|i: int| 0 <= i < entries.len() && entries[i].0 == topic && entries[i].1 == peer;
    let last = entries.last();
    let f = fanout(subscriptions_of(entries, topic), bytes);
    if i == entries.len() - 1 {
        let subs = subscriptions_of(entries, topic);
        assert(subs.last() == (peer, last.2));
        assert(f[subs.len() - 1] == (peer, bytes));
    } else {
        assert(entries.drop_last()[i] == entries[i]);
        lemma_fanout_reaches(entries.drop_last(), topic, peer, bytes);
        let prev = subscriptions_of(entries.drop_last(), topic);
        let g = fanout(prev, bytes);
        let j = choose|j: int| 0 <= j < g.len() && g[j] == (peer, bytes);
        let subs = subscriptions_of(entries, topic);
        assert(subs.subrange(0, prev.len() as int) =~= prev);
        assert(f[j] == g[j]);
    }
}

/// A PUBLISH on a topic reaches every peer subscribed to it: the check passes, and the
/// datagram, as received, is queued to the peer.
pub proof fn lemma_publish_reaches_subscriber(before: Transfer, after: Transfer, b: Seq<u8>, size: int, ok: bool, peer: Peer)
    requires
        publish_effect(before, after, b, size, ok),
        is_subscribed(before.subscriber_db@, be16_at(b, 3), peer),
    ensures
        ok,
        after.egress().contains((peer, received(b, 7, size))),
{
    let subs = subscriptions_of(before.subscriber_db@, be16_at(b, 3));
    lemma_fanout_reaches(before.subscriber_db@, be16_at(b, 3), peer, received(b, 7, size));
    let f = fanout(subs, received(b, 7, size));
    let j = choose|j: int| 0 <= j < f.len() && f[j] == (peer, received(b, 7, size));
    assert(after.egress()[before.egress().len() + j] == f[j]);
}

/// Once a peer's SUBSCRIBE to a topic name has been handled, a PUBLISH carrying the topic id
/// the SUBACK gave reaches that peer.
pub proof fn lemma_subscribe_then_publish(t0: Transfer, t1: Transfer, t2: Transfer, name: Seq<u8>, msg_id: u16, b: Seq<u8>, size: int, ok: bool)
    requires
        subscribed_to_topic(t0, t1, name, msg_id),
        publish_effect(t1, t2, b, size, ok),
        be16_at(b, 3) == topic_lookup(t1.topic_db@, name).unwrap(),
    ensures
        ok,
        t2.egress().contains((t0.peer, received(b, 7, size))),
{
    lemma_publish_reaches_subscriber(t1, t2, b, size, ok, t0.peer);
}

/// After a peer's UNSUBSCRIBE from a topic is accepted, the peer is no longer subscribed to
/// it, so later PUBLISH datagrams on it are not sent to the peer.
pub proof fn lemma_unsubscribe_removes(before: Transfer, after: Transfer, b: Seq<u8>, size: int)
    requires
        before.wf(),
        unsubscribe_effect(before, after, b, size, true),
    ensures
        !is_subscribed(after.subscriber_db@, topic_lookup(before.topic_db@, trailing(b, 5, size)).unwrap(), before.peer),
{
    let id = topic_lookup(before.topic_db@, trailing(b, 5, size)).unwrap();
    let e = before.subscriber_db@;
    let i = choose|i: int| 0 <= i < e.len() && e[i].0 == id && e[i].1 == before.peer
        && after.subscriber_db@ == e.remove(i);
    if is_subscribed(after.subscriber_db@, id, before.peer) {
        let k = choose|k: int| 0 <= k < after.subscriber_db@.len() && after.subscriber_db@[k].0 == id
            && after.subscriber_db@[k].1 == before.peer;
        if k < i {
            assert(after.subscriber_db@[k] == e[k]);
        } else {
            assert(after.subscriber_db@[k] == e[k + 1]);
        }
    }
}

} // verus!
