use mqtt_sn::client_machine::{client_input_acceptable, client_transition, process_input, ClientStateEnum};
use mqtt_sn::msg_type::MsgType;
use mqtt_sn::topics::{SubscriberDb, TopicDb};
use mqtt_sn::transfer::Transfer;

fn fresh(peer: u64) -> Transfer {
    Transfer::new(peer, SubscriberDb::new(), TopicDb::new(), 1)
}

#[test]
fn connack_from_a_new_peer() {
    let mut t = fresh(1);
    assert!(client_input_acceptable(&[3u8, 0x05, 0], 3, &t, None));
    assert_eq!(process_input(&[3u8, 0x05, 0], 3, &mut t, None), Some(ClientStateEnum::ACTIVE));
    let mut t = fresh(1);
    assert_eq!(process_input(&[3u8, 0x05, 2], 3, &mut t, None), Some(ClientStateEnum::DISCONNECTED));
    // A CONNECT creates a machine but no transition applies.
    let mut t = fresh(1);
    let dg = [6u8, 0x04, 0, 1, 0, 30];
    assert_eq!(process_input(&dg, 6, &mut t, None), Some(ClientStateEnum::DISCONNECTED));
    // Other messages from unknown peers are dropped.
    assert_eq!(process_input(&[2u8, 0x16], 2, &mut t, None), None);
}

#[test]
fn disconnect_puts_the_client_to_sleep() {
    let mut t = fresh(1);
    assert_eq!(process_input(&[4u8, 0x18, 0, 0], 4, &mut t, Some(ClientStateEnum::ACTIVE)), Some(ClientStateEnum::ASLEEP));
    assert_eq!(process_input(&[3u8, 0x05, 0], 3, &mut t, Some(ClientStateEnum::LOST)), Some(ClientStateEnum::ACTIVE));
    assert_eq!(process_input(&[3u8, 0x05, 1], 3, &mut t, Some(ClientStateEnum::LOST)), Some(ClientStateEnum::LOST));
}

#[test]
fn will_setup() {
    let mut t = fresh(1);
    assert_eq!(process_input(&[2u8, 0x06], 2, &mut t, Some(ClientStateEnum::DISCONNECTED)), Some(ClientStateEnum::WILLSETUP));
    assert_eq!(process_input(&[2u8, 0x08], 2, &mut t, Some(ClientStateEnum::WILLSETUP)), Some(ClientStateEnum::ACTIVE));
}

#[test]
fn regack_sets_the_topic_counter() {
    let mut t = fresh(1);
    let dg = [7u8, 0x0B, 0, 42, 0, 1, 0];
    assert_eq!(process_input(&dg, 7, &mut t, Some(ClientStateEnum::ACTIVE)), Some(ClientStateEnum::ACTIVE));
    assert_eq!(t.topic_id_counter, 42);
    let bad = [7u8, 0x0B, 0, 43, 0, 1, 2];
    assert_eq!(process_input(&bad, 7, &mut t, Some(ClientStateEnum::ACTIVE)), Some(ClientStateEnum::ACTIVE));
    assert_eq!(t.topic_id_counter, 42);
}

#[test]
fn publish_is_stored_for_its_topic() {
    let mut t = fresh(1);
    let dg = [9u8, 0x0C, 0, 0, 3, 0, 1, b'h', b'i'];
    assert_eq!(process_input(&dg, 9, &mut t, Some(ClientStateEnum::ACTIVE)), Some(ClientStateEnum::ACTIVE));
    assert_eq!(t.message_updates.len(), 1);
    assert_eq!(t.message_updates[0].0.topic_id, 3);
    assert_eq!(t.message_updates[0].1.message, "hi");
    assert!(t.egress_buffers.is_empty());
}

#[test]
fn ping_request_is_answered() {
    let mut t = fresh(5);
    assert_eq!(process_input(&[2u8, 0x16], 2, &mut t, Some(ClientStateEnum::ACTIVE)), Some(ClientStateEnum::ACTIVE));
    assert_eq!(&t.egress_buffers[0].1[..], &[2, 0x17][..]);
    assert_eq!(t.egress_buffers[0].0, 5);
}

#[test]
fn client_table() {
    assert_eq!(
        client_transition(ClientStateEnum::ACTIVE, MsgType::DISCONNECT),
        Some(((ClientStateEnum::ASLEEP, MsgType::PINGREQ), (ClientStateEnum::LOST, MsgType::CONNECT)))
    );
    assert_eq!(client_transition(ClientStateEnum::ASLEEP, MsgType::CONNACK), None);
}
