//! The checks both state machines run on a received message before taking a transition,
//! together with the answers they queue and the registry updates they make.
use vstd::prelude::*;
use crate::buffer::{buffer_contents, new_buffer, clone_buffer};
use crate::packets::{
    be16, be16_at, trailing, PingReq, PingResp, Publish, RegAck, Register, SubAck, Subscribe,
    UnsubAck, Unsubscribe, WillMsg, WillMsgResp, WillMsgUpd, WillTopic, WillTopicResp,
    WillTopicUpd,
};
use crate::topics::{Peer, is_subscribed, subscriptions_of, topic_lookup};
use crate::transfer::{Transfer, MTU, egress_view};

verus! {

/// The bytes a datagram of `size` bytes in `b` amounts to as a message whose fixed fields
/// take `fixed` bytes: those fields, then the trailing field.
pub open spec fn received(b: Seq<u8>, fixed: int, size: int) -> Seq<u8> {
    b.subrange(0, fixed) + trailing(b, fixed, size)
}

/// One copy of `bytes` for each subscription, addressed to its peer.
pub open spec fn fanout(subs: Seq<(Peer, u8)>, bytes: Seq<u8>) -> Seq<(Peer, Seq<u8>)> {
    subs.map_values(|s: (Peer, u8)| (s.0, bytes))
}

/// `after` is `before` with `bytes` queued to the sender and nothing else changed.
pub open spec fn replied(before: Transfer, after: Transfer, bytes: Seq<u8>) -> bool {
    &&& after.egress() == before.egress().push((before.peer, bytes))
    &&& after.same_but_egress(&before)
}

/// `after` is `before` unchanged.
pub open spec fn unchanged(before: Transfer, after: Transfer) -> bool {
    &&& after.egress() == before.egress()
    &&& after.same_but_egress(&before)
}

/// What REGISTER does: with `name` the topic name of the datagram, it is accepted exactly
/// when the name has an id, and then a REGACK with the id is queued to the sender.
pub open spec fn register_effect(before: Transfer, after: Transfer, b: Seq<u8>, size: int, ok: bool) -> bool {
    let name = trailing(b, 6, size);
    &&& ok == (topic_lookup(before.topic_db@, name) is Some)
    &&& topic_lookup(before.topic_db@, name) matches Some(id) ==> replied(
        before,
        after,
        RegAck { len: 7, msg_type: 0x0B, topic_id: id, msg_id: be16_at(b, 4), return_code: 0 }.spec_encode(),
    )
    &&& !ok ==> unchanged(before, after)
}

/// What UNSUBSCRIBE does: with `name` the topic name of the datagram, it is accepted exactly
/// when the name has an id the sender is subscribed to; then that subscription is removed and
/// an UNSUBACK is queued to the sender.  Nothing changes when it is refused.
pub open spec fn unsubscribe_effect(before: Transfer, after: Transfer, b: Seq<u8>, size: int, ok: bool) -> bool {
    let name = trailing(b, 5, size);
    let id = topic_lookup(before.topic_db@, name).unwrap();
    &&& ok == (topic_lookup(before.topic_db@, name) is Some && is_subscribed(
        before.subscriber_db@,
        id,
        before.peer,
    ))
    &&& ok ==> after.egress() == before.egress().push(
        (before.peer, UnsubAck { len: 8, msg_type: 0x15, msg_id: be16_at(b, 3) }.spec_encode()),
    )
    &&& ok ==> exists|i: int|
        0 <= i < before.subscriber_db@.len() && before.subscriber_db@[i].0 == id
            && before.subscriber_db@[i].1 == before.peer && after.subscriber_db@
            == before.subscriber_db@.remove(i)
    &&& !ok ==> unchanged(before, after)
    &&& after.peer == before.peer
    &&& after.topic_db@ == before.topic_db@
    &&& after.topic_id_counter == before.topic_id_counter
    &&& after.input_bytes@ == before.input_bytes@
    &&& after.size == before.size
    &&& after.updates() == before.updates()
}

/// Writing a `u16` read from two bytes gives those bytes back.
pub proof fn lemma_be16_of_bytes(b: Seq<u8>, i: int)
    requires
        0 <= i,
        i + 2 <= b.len(),
    ensures
        be16(be16_at(b, i)) == b.subrange(i, i + 2),
{
    assert(be16(be16_at(b, i)) =~= b.subrange(i, i + 2));
}

/// A PUBLISH read from a datagram is sent on as the same bytes.
pub proof fn lemma_publish_reencode(m: Publish, b: Seq<u8>, size: int, n: int)
    requires
        b.len() >= 7,
        Publish::parsed_from(m, b, size, n),
    ensures
        m.spec_encode() == received(b, 7, size),
{
    lemma_be16_of_bytes(b, 3);
    lemma_be16_of_bytes(b, 5);
    assert(m.spec_encode() =~= received(b, 7, size));
}

/// Queues a PUBLISH for every subscriber of its topic; `false`, with nothing queued, when the
/// topic has no subscriber.
pub(crate) fn forward_publish(transfer: &mut Transfer, publish: &Publish) -> (r: bool)
    requires
        publish.spec_encode().len() <= isize::MAX,
    ensures
        r == (subscriptions_of(old(transfer).subscriber_db@, publish.topic_id).len() > 0),
        final(transfer).egress() == old(transfer).egress() + fanout(
            subscriptions_of(old(transfer).subscriber_db@, publish.topic_id),
            publish.spec_encode(),
        ),
        final(transfer).same_but_egress(old(transfer)),
{
    match transfer.subscriber_db.get(publish.topic_id) {
        Some(subs) => {
            let mut bytes_buf = new_buffer(MTU);
            publish.try_write(&mut bytes_buf);
            let ghost bytes = buffer_contents(bytes_buf);
            assert(bytes =~= publish.spec_encode());
            let ghost start = transfer.egress();
            let mut i: usize = 0;
            while i < subs.len()
                invariant
                    i <= subs@.len(),
                    buffer_contents(bytes_buf) == bytes,
                    transfer.egress() == start + fanout(subs@.subrange(0, i as int), bytes),
                    transfer.same_but_egress(old(transfer)),
                decreases subs@.len() - i,
            {
                let copy = clone_buffer(&bytes_buf);
                let ghost before = transfer.egress_buffers@;
                transfer.egress_buffers.push((subs[i].0, copy));
                assert(egress_view(transfer.egress_buffers@) =~= egress_view(before).push(
                    (subs@[i as int].0, bytes),
                ));
                assert(fanout(subs@.subrange(0, i + 1), bytes) =~= fanout(
                    subs@.subrange(0, i as int),
                    bytes,
                ).push((subs@[i as int].0, bytes)));
                i += 1;
            }
            assert(subs@.subrange(0, subs@.len() as int) =~= subs@);
            true
        },
        None => {
            assert(fanout(Seq::<(Peer, u8)>::empty(), publish.spec_encode()) =~= Seq::empty());
            assert(old(transfer).egress() + Seq::<(Peer, Seq<u8>)>::empty() =~= old(transfer).egress());
            false
        },
    }
}

/// PINGREQ: queues a PINGRESP to the sender.
pub fn verify_ping_req(transfer: &mut Transfer, buf: &[u8], size: usize) -> (r: bool)
    requires
        buf@.len() >= 2,
    ensures
        r,
        replied(*old(transfer), *final(transfer), PingResp { len: 2, msg_type: 0x17 }.spec_encode()),
{
    let (_ping_req, _read_len) = PingReq::try_read(buf, size).unwrap();
    let ping_resp = PingResp { len: 2, msg_type: 0x17 };
    let bytes = ping_resp.to_bytes();
    let peer = transfer.peer;
    transfer.send(peer, bytes.as_slice());
    true
}

/// WILLMSGUPD: queues a WILLMSGRESP accepting it.
pub fn verify_will_msg_update(transfer: &mut Transfer, buf: &[u8], size: usize) -> (r: bool)
    requires
        buf@.len() >= 2,
    ensures
        r,
        replied(
            *old(transfer),
            *final(transfer),
            WillMsgResp { len: 3, msg_type: 0x1D, return_code: 0 }.spec_encode(),
        ),
{
    let (_will_msg_update, _read_len) = WillMsgUpd::try_read(buf, size).unwrap();
    let will_msg_resp = WillMsgResp { len: 3, msg_type: 0x1D, return_code: 0 };
    let bytes = will_msg_resp.to_bytes();
    let peer = transfer.peer;
    transfer.send(peer, bytes.as_slice());
    true
}

/// WILLTOPICUPD: queues a WILLTOPICRESP accepting it.
pub fn verify_will_topic_update(transfer: &mut Transfer, buf: &[u8], size: usize) -> (r: bool)
    requires
        buf@.len() >= 3,
    ensures
        r,
        replied(
            *old(transfer),
            *final(transfer),
            WillTopicResp { len: 3, msg_type: 0x1B, return_code: 0 }.spec_encode(),
        ),
{
    let (_will_topic_update, _read_len) = WillTopicUpd::try_read(buf, size).unwrap();
    let will_topic_resp = WillTopicResp { len: 3, msg_type: 0x1B, return_code: 0 };
    let bytes = will_topic_resp.to_bytes();
    let peer = transfer.peer;
    transfer.send(peer, bytes.as_slice());
    true
}

/// WILLMSG: accepted as it is.
pub fn verify_will_msg(transfer: &mut Transfer, buf: &[u8], size: usize) -> (r: bool)
    requires
        buf@.len() >= 2,
    ensures
        r,
        unchanged(*old(transfer), *final(transfer)),
{
    let (_will_msg, _read_len) = WillMsg::try_read(buf, size).unwrap();
    true
}

/// WILLTOPIC: accepted as it is.
pub fn verify_will_topic(transfer: &mut Transfer, buf: &[u8], size: usize) -> (r: bool)
    requires
        buf@.len() >= 3,
    ensures
        r,
        unchanged(*old(transfer), *final(transfer)),
{
    let (_will_topic, _read_len) = WillTopic::try_read(buf, size).unwrap();
    true
}

/// REGISTER: when the topic name has an id, queues a REGACK with it and accepts; refuses an
/// unknown name.
pub fn verify_register(transfer: &mut Transfer, buf: &[u8], size: usize) -> (r: bool)
    requires
        buf@.len() >= 6,
    ensures
        register_effect(*old(transfer), *final(transfer), buf@, size as int, r),
{
    let (register, _read_len) = Register::try_read(buf, size).unwrap();
    match transfer.topic_db.get(&register.topic_name) {
        Some(id) => {
            let reg_ack = RegAck {
                len: 7,
                msg_type: 0x0B,
                topic_id: id,
                msg_id: register.msg_id,
                return_code: 0,
            };
            let bytes = reg_ack.to_bytes();
            let peer = transfer.peer;
            transfer.send(peer, bytes.as_slice());
            true
        },
        None => false,
    }
}

/// UNSUBSCRIBE: when the topic name has an id and the sender is subscribed to it, removes the
/// subscription, queues an UNSUBACK and accepts; refuses otherwise, changing nothing.
pub fn verify_unsubscribe(transfer: &mut Transfer, buf: &[u8], size: usize) -> (r: bool)
    requires
        buf@.len() >= 5,
        old(transfer).wf(),
    ensures
        final(transfer).wf(),
        unsubscribe_effect(*old(transfer), *final(transfer), buf@, size as int, r),
{
    let (unsub, _read_len) = Unsubscribe::try_read(buf, size).unwrap();
    match transfer.topic_db.get(&unsub.topic_name) {
        Some(topic_id) => {
            let peer = transfer.peer;
            match transfer.subscriber_db.delete(topic_id, peer) {
                Some(_qos) => {
                    let unsub_ack = UnsubAck { len: 8, msg_type: 0x15, msg_id: unsub.msg_id };
                    let bytes = unsub_ack.to_bytes();
                    transfer.send(peer, bytes.as_slice());
                    true
                },
                None => false,
            }
        },
        None => false,
    }
}

/// Subscribing `t`'s peer to the topic `name` leaves the topic id counter in range: the counter
/// is advanced only when the id the name ends up with is the counter's value, which happens
/// when the name is new or already has that id.
pub open spec fn subscribe_counter_fits(t: Transfer, name: Seq<u8>) -> bool {
    t.topic_id_counter < u16::MAX || match topic_lookup(t.topic_db@, name) {
        Some(id) => id != t.topic_id_counter,
        None => false,
    }
}

/// Subscribes the sender to the topic named in a SUBSCRIBE, giving the name the next topic
/// id when it has none (and then advancing the counter), and queues a SUBACK with the id.
/// Returns the parsed message.
pub(crate) fn subscribe_sender(transfer: &mut Transfer, buf: &[u8], size: usize) -> (r: Subscribe)
    requires
        buf@.len() >= 5,
        old(transfer).wf(),
        subscribe_counter_fits(*old(transfer), trailing(buf@, 5, size as int)),
    ensures
        final(transfer).wf(),
        Subscribe::parsed_from(r, buf@, size as int, 5 + trailing(buf@, 5, size as int).len() as int),
        subscribed_to_topic(*old(transfer), *final(transfer), r.topic_name@, be16_at(buf@, 3)),
{
    let (sub, _read_len) = Subscribe::try_read(buf, size).unwrap();
    let ghost before = *transfer;
    let counter = transfer.topic_id_counter;
    let topic_id = transfer.topic_db.create(&sub.topic_name, counter);
    if topic_id == counter {
        transfer.topic_id_counter = counter + 1;
    }
    let peer = transfer.peer;
    transfer.subscriber_db.insert(topic_id, peer, 1);
    let sub_ack = SubAck {
        len: 8,
        msg_type: 0x13,
        flags: 0b101111,
        topic_id,
        msg_id: sub.msg_id,
        return_code: 0,
    };
    let bytes = sub_ack.to_bytes();
    transfer.send(peer, bytes.as_slice());
    assert(topic_lookup(transfer.topic_db@, sub.topic_name@) == Some(topic_id));
    assert(is_subscribed(transfer.subscriber_db@, topic_id, peer));
    assert(transfer.egress() == before.egress().push((peer, sub_ack.spec_encode())));
    assert(transfer.updates() == before.updates());
    sub
}

/// `after` is `before` once its peer has subscribed with QoS 1 to the topic `name` in reply to
/// a SUBSCRIBE numbered `msg_id`: the name has an id (the counter's value, when it had none),
/// the counter has moved past that id if it was the counter's value, the peer is subscribed
/// to that id, and a SUBACK with the id is queued to the peer.
pub open spec fn subscribed_to_topic(before: Transfer, after: Transfer, name: Seq<u8>, msg_id: u16) -> bool {
    let id = topic_lookup(after.topic_db@, name).unwrap();
    &&& topic_lookup(after.topic_db@, name) is Some
    &&& topic_lookup(before.topic_db@, name) matches Some(old_id) ==> old_id == id
        && after.topic_db@ == before.topic_db@
    &&& topic_lookup(before.topic_db@, name) is None ==> id == before.topic_id_counter
        && after.topic_db@ == before.topic_db@.push((name, id))
    &&& after.topic_id_counter == if id == before.topic_id_counter {
        before.topic_id_counter + 1
    } else {
        before.topic_id_counter as int
    }
    &&& is_subscribed(after.subscriber_db@, id, before.peer)
    &&& is_subscribed(before.subscriber_db@, id, before.peer) ==> exists|i: int|
        0 <= i < before.subscriber_db@.len() && before.subscriber_db@[i].0 == id
            && before.subscriber_db@[i].1 == before.peer
            && after.subscriber_db@ == before.subscriber_db@.update(i, (id, before.peer, 1u8))
    &&& !is_subscribed(before.subscriber_db@, id, before.peer) ==> after.subscriber_db@
        == before.subscriber_db@.push((id, before.peer, 1u8))
    &&& after.egress() == before.egress().push(
        (
            before.peer,
            SubAck {
                len: 8,
                msg_type: 0x13,
                flags: 0b101111,
                topic_id: id,
                msg_id,
                return_code: 0,
            }.spec_encode(),
        ),
    )
    &&& after.peer == before.peer
    &&& after.updates() == before.updates()
    &&& after.input_bytes@ == before.input_bytes@
    &&& after.size == before.size
}

} // verus!
