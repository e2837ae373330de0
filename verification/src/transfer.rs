//! What a state machine step reads and changes besides the state: the sending peer, the
//! datagrams to send, the registries and the messages to store.
use vstd::prelude::*;
use bytes::BytesMut;
use crate::buffer::{buffer_contents, new_buffer, append_bytes};
use crate::message_db::{MessageDbKey, MessageDbValue};
use crate::topics::{Peer, SubscriberDb, TopicDb};

verus! {

/// The maximum size of a datagram.
pub const MTU: usize = 1500;

/// The state a step of a state machine works on besides the machine's own state.
pub struct Transfer {
    /// The peer the datagram being handled came from.
    pub peer: Peer,
    /// Datagrams to send, with their destination, oldest first.
    pub egress_buffers: Vec<(Peer, BytesMut)>,
    /// Who is subscribed to which topic id.
    pub subscriber_db: SubscriberDb,
    /// The topic names and their ids.
    pub topic_db: TopicDb,
    /// The next topic id to give out.
    pub topic_id_counter: u16,
    /// The datagram being handled.
    pub input_bytes: Vec<u8>,
    /// Its size.
    pub size: usize,
    /// Messages to store as the last one of their topic, oldest first.
    pub message_updates: Vec<(MessageDbKey, MessageDbValue)>,
}

/// The destinations and bytes of datagrams to send.
pub open spec fn egress_view(e: Seq<(Peer, BytesMut)>) -> Seq<(Peer, Seq<u8>)> {
    e.map_values(|p: (Peer, BytesMut)| (p.0, buffer_contents(p.1)))
}

/// The topic ids and texts of messages to store.
pub open spec fn updates_view(u: Seq<(MessageDbKey, MessageDbValue)>) -> Seq<(u16, Seq<char>)> {
    u.map_values(|p: (MessageDbKey, MessageDbValue)| (p.0.topic_id, p.1.message@))
}

impl Transfer {
    /// The registries are consistent: no peer is subscribed twice to a topic.
    pub open spec fn wf(&self) -> bool {
        self.subscriber_db.wf()
    }

    /// The datagrams to send, as destinations and bytes.
    pub open spec fn egress(&self) -> Seq<(Peer, Seq<u8>)> {
        egress_view(self.egress_buffers@)
    }

    /// The messages to store, as topic ids and texts.
    pub open spec fn updates(&self) -> Seq<(u16, Seq<char>)> {
        updates_view(self.message_updates@)
    }

    /// `self` and `other` agree on everything but the datagrams to send.
    pub open spec fn same_but_egress(&self, other: &Transfer) -> bool {
        &&& self.peer == other.peer
        &&& self.subscriber_db@ == other.subscriber_db@
        &&& self.topic_db@ == other.topic_db@
        &&& self.topic_id_counter == other.topic_id_counter
        &&& self.input_bytes@ == other.input_bytes@
        &&& self.size == other.size
        &&& self.updates() == other.updates()
    }

    /// A step with nothing to send and nothing stored yet, for `peer`.
    pub fn new(peer: Peer, subscriber_db: SubscriberDb, topic_db: TopicDb, topic_id_counter: u16) -> (t: Transfer)
        ensures
            t.peer == peer,
            t.egress() == Seq::<(Peer, Seq<u8>)>::empty(),
            t.subscriber_db@ == subscriber_db@,
            t.topic_db@ == topic_db@,
            t.topic_id_counter == topic_id_counter,
            t.input_bytes@ == Seq::<u8>::empty(),
            t.size == 0,
            t.updates() == Seq::<(u16, Seq<char>)>::empty(),
    {
        let t = Transfer {
            peer,
            egress_buffers: Vec::new(),
            subscriber_db,
            topic_db,
            topic_id_counter,
            input_bytes: Vec::new(),
            size: 0,
            message_updates: Vec::new(),
        };
        assert(t.egress() =~= Seq::<(Peer, Seq<u8>)>::empty());
        assert(t.updates() =~= Seq::<(u16, Seq<char>)>::empty());
        t
    }

    /// Queues `bytes` to be sent to `to`, in a fresh buffer of MTU capacity.
    pub fn send(&mut self, to: Peer, bytes: &[u8])
        requires
            bytes@.len() <= isize::MAX,
        ensures
            final(self).egress() == old(self).egress().push((to, bytes@)),
            final(self).same_but_egress(old(self)),
    {
        let mut buf = new_buffer(MTU);
        append_bytes(&mut buf, bytes);
        assert(buffer_contents(buf) =~= bytes@);
        self.egress_buffers.push((to, buf));
        assert(self.egress() =~= old(self).egress().push((to, bytes@)));
    }
}

} // verus!
