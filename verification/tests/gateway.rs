use mqtt_sn::gateway::{gateway_input_acceptable, gateway_transition, process_gateway_input};
use mqtt_sn::msg_type::MsgType;
use mqtt_sn::state::StateEnum;
use mqtt_sn::topics::{SubscriberDb, TopicDb};
use mqtt_sn::transfer::Transfer;

fn fresh(peer: u64) -> Transfer {
    Transfer::new(peer, SubscriberDb::new(), TopicDb::new(), 1)
}

fn sent(t: &Transfer) -> Vec<(u64, Vec<u8>)> {
    t.egress_buffers.iter().map(|(p, b)| (*p, b[..].to_vec())).collect()
}

#[test]
fn connect_from_a_new_peer_activates_it() {
    let mut t = fresh(7);
    let dg = [8u8, 0x04, 0b100, 1, 0, 30, b'c', b'1'];
    assert!(gateway_input_acceptable(&dg, 8, &t, None));
    let r = process_gateway_input(&dg, 8, &mut t, None);
    assert_eq!(r, Some(StateEnum::ACTIVE));
    assert_eq!(sent(&t), vec![(7, vec![3, 0x05, 0])]);
}

#[test]
fn size_mismatch_is_ignored() {
    let mut t = fresh(7);
    let dg = [8u8, 0x04, 0b100, 1, 0, 30, b'c', b'1'];
    assert_eq!(process_gateway_input(&dg, 5, &mut t, None), None);
    assert!(t.egress_buffers.is_empty());
}

#[test]
fn unknown_peer_without_connect_is_not_fed() {
    let mut t = fresh(7);
    let dg = [2u8, 0x16];
    assert_eq!(process_gateway_input(&dg, 2, &mut t, None), None);
    assert!(t.egress_buffers.is_empty());
}

#[test]
fn subscribe_then_publish_reaches_the_subscriber() {
    let mut t = fresh(1);
    let sub = [9u8, 0x12, 0b100100, 0, 5, b'r', b'o', b'o', b'm'];
    let r = process_gateway_input(&sub, 9, &mut t, Some(StateEnum::ACTIVE));
    assert_eq!(r, Some(StateEnum::ACTIVE));
    assert_eq!(sent(&t), vec![(1, vec![8, 0x13, 0b101111, 0, 1, 0, 5, 0])]);
    assert_eq!(t.topic_id_counter, 2);
    assert_eq!(t.topic_db.get(&b"room".to_vec()), Some(1));

    // Another peer publishes on topic 1.
    t.peer = 2;
    t.egress_buffers.clear();
    let publ = [10u8, 0x0C, 0, 0, 1, 0, 9, b'2', b'1', b'C'];
    let r = process_gateway_input(&publ, 10, &mut t, Some(StateEnum::ACTIVE));
    assert_eq!(r, Some(StateEnum::ACTIVE));
    assert_eq!(sent(&t), vec![(1, publ.to_vec())]);

    // A publish on a topic nobody subscribed to is refused but the machine stays active.
    t.egress_buffers.clear();
    let other = [8u8, 0x0C, 0, 0, 9, 0, 9, b'x'];
    let r = process_gateway_input(&other, 8, &mut t, Some(StateEnum::ACTIVE));
    assert_eq!(r, Some(StateEnum::ACTIVE));
    assert!(t.egress_buffers.is_empty());
}

#[test]
fn subscribing_again_keeps_the_topic_id() {
    let mut t = fresh(1);
    let sub = [9u8, 0x12, 0, 0, 5, b'r', b'o', b'o', b'm'];
    process_gateway_input(&sub, 9, &mut t, Some(StateEnum::ACTIVE));
    t.peer = 3;
    process_gateway_input(&sub, 9, &mut t, Some(StateEnum::ACTIVE));
    assert_eq!(t.topic_id_counter, 2);
    let subs = t.subscriber_db.get(1).unwrap();
    assert_eq!(subs, vec![(1, 1), (3, 1)]);
}

#[test]
fn subscribe_with_wrong_length_byte_still_subscribes() {
    let mut t = fresh(1);
    // The length byte says 9 but the datagram size is 10: the message is ignored whole.
    let sub = [9u8, 0x12, 0, 0, 5, b'r', b'o', b'o', b'm', 0];
    assert_eq!(process_gateway_input(&sub, 10, &mut t, Some(StateEnum::ACTIVE)), None);
    assert!(t.subscriber_db.get(1).is_none());
}

#[test]
fn register_and_unsubscribe() {
    let mut t = fresh(1);
    let reg = [8u8, 0x0A, 0, 0, 0, 4, b'a', b'b'];
    // Unknown topic name: refused, nothing sent.
    assert_eq!(process_gateway_input(&reg, 8, &mut t, Some(StateEnum::ACTIVE)), Some(StateEnum::ACTIVE));
    assert!(t.egress_buffers.is_empty());

    let sub = [7u8, 0x12, 0, 0, 5, b'a', b'b'];
    process_gateway_input(&sub, 7, &mut t, Some(StateEnum::ACTIVE));
    t.egress_buffers.clear();
    process_gateway_input(&reg, 8, &mut t, Some(StateEnum::ACTIVE));
    assert_eq!(sent(&t), vec![(1, vec![7, 0x0B, 0, 1, 0, 4, 0])]);

    t.egress_buffers.clear();
    let unsub = [7u8, 0x14, 0, 0, 6, b'a', b'b'];
    process_gateway_input(&unsub, 7, &mut t, Some(StateEnum::ACTIVE));
    assert_eq!(sent(&t), vec![(1, vec![8, 0x15, 0, 6])]);
    assert!(t.subscriber_db.get(1).is_none());

    // A second unsubscribe is refused.
    t.egress_buffers.clear();
    process_gateway_input(&unsub, 7, &mut t, Some(StateEnum::ACTIVE));
    assert!(t.egress_buffers.is_empty());
}

#[test]
fn ping_will_and_disconnect() {
    let mut t = fresh(4);
    assert_eq!(process_gateway_input(&[2u8, 0x16], 2, &mut t, Some(StateEnum::ACTIVE)), Some(StateEnum::ACTIVE));
    assert_eq!(sent(&t), vec![(4, vec![2, 0x17])]);
    t.egress_buffers.clear();
    assert_eq!(process_gateway_input(&[3u8, 0x1A, 0], 3, &mut t, Some(StateEnum::ACTIVE)), Some(StateEnum::ACTIVE));
    assert_eq!(sent(&t), vec![(4, vec![3, 0x1B, 0])]);
    t.egress_buffers.clear();
    assert_eq!(process_gateway_input(&[2u8, 0x1C], 2, &mut t, Some(StateEnum::ACTIVE)), Some(StateEnum::ACTIVE));
    assert_eq!(sent(&t), vec![(4, vec![3, 0x1D, 0])]);
    t.egress_buffers.clear();
    let dg = [4u8, 0x18, 0, 0];
    assert_eq!(process_gateway_input(&dg, 4, &mut t, Some(StateEnum::ACTIVE)), Some(StateEnum::ASLEEP));
    assert_eq!(sent(&t), vec![(4, vec![2, 0x18, 0, 8])]);
    // An asleep machine takes no transition.
    t.egress_buffers.clear();
    assert_eq!(process_gateway_input(&[2u8, 0x16], 2, &mut t, Some(StateEnum::ASLEEP)), Some(StateEnum::ASLEEP));
    assert!(t.egress_buffers.is_empty());
}

#[test]
fn transition_table() {
    assert_eq!(
        gateway_transition(StateEnum::DISCONNECTED, MsgType::CONNECT),
        Some(((StateEnum::ACTIVE, MsgType::CONNACK), (StateEnum::DISCONNECTED, MsgType::MSG_TYPE_ERR)))
    );
    assert_eq!(gateway_transition(StateEnum::DISCONNECTED, MsgType::PUBLISH), None);
    assert_eq!(gateway_transition(StateEnum::LOST, MsgType::CONNECT), None);
}

#[test]
fn unacceptable_inputs_are_reported() {
    let t = fresh(1);
    // Unknown message type from a peer with a machine.
    assert!(!gateway_input_acceptable(&[2u8, 0x11], 2, &t, Some(StateEnum::ACTIVE)));
    // A PUBLISH too short to hold its fields.
    assert!(!gateway_input_acceptable(&[3u8, 0x0C, 0], 3, &t, Some(StateEnum::ACTIVE)));
    assert!(!gateway_input_acceptable(&[], 0, &t, None));
}

#[test]
fn subscribe_with_full_counter_to_a_known_topic() {
    let mut topics = TopicDb::new();
    assert_eq!(topics.create(&b"t".to_vec(), 5), 5);
    let mut t = Transfer::new(7, SubscriberDb::new(), topics, u16::MAX);
    let known = [6u8, 0x12, 0, 0, 9, b't'];
    assert!(gateway_input_acceptable(&known, 6, &t, Some(StateEnum::ACTIVE)));
    let r = process_gateway_input(&known, 6, &mut t, Some(StateEnum::ACTIVE));
    assert_eq!(r, Some(StateEnum::ACTIVE));
    assert_eq!(t.topic_id_counter, u16::MAX);
    assert_eq!(sent(&t), vec![(7, vec![8, 0x13, 0b101111, 0, 5, 0, 9, 0])]);
    // A new name would need the counter to advance past its largest value.
    let new_name = [6u8, 0x12, 0, 0, 9, b'u'];
    assert!(!gateway_input_acceptable(&new_name, 6, &t, Some(StateEnum::ACTIVE)));
}
