//! The gateway's registries: topic names with their ids, and the peers subscribed to each
//! topic id with the QoS they asked for.
use vstd::prelude::*;

verus! {

/// A peer, as the handle the transport gives it.
pub type Peer = u64;

/// The id of the first entry named `name`, if any.
pub open spec fn topic_lookup(entries: Seq<(Seq<u8>, u16)>, name: Seq<u8>) -> Option<u16>
    decreases entries.len(),
{
    if entries.len() == 0 {
        None
    } else if entries[0].0 == name {
        Some(entries[0].1)
    } else {
        topic_lookup(entries.drop_first(), name)
    }
}

/// Whether the two byte vectors hold the same bytes.
pub fn bytes_equal(a: &Vec<u8>, b: &Vec<u8>) -> (r: bool)
    ensures
        r == (a@ == b@),
{
    if a.len() != b.len() {
        return false;
    }
    let mut i: usize = 0;
    while i < a.len()
        invariant
            a@.len() == b@.len(),
            i <= a@.len(),
            forall|j: int| 0 <= j < i ==> a@[j] == b@[j],
        decreases a@.len() - i,
    {
        if a[i] != b[i] {
            return false;
        }
        i += 1;
    }
    assert(a@ =~= b@);
    true
}

/// Topic names and the ids given to them.
pub struct TopicDb {
    entries: Vec<(Vec<u8>, u16)>,
}

impl View for TopicDb {
    type V = Seq<(Seq<u8>, u16)>;

    /// The (name, id) entries, oldest first.
    closed spec fn view(&self) -> Seq<(Seq<u8>, u16)> {
        self.entries@.map_values(|e: (Vec<u8>, u16)| (e.0@, e.1))
    }
}

impl TopicDb {
    /// An empty registry.
    pub fn new() -> (db: TopicDb)
        ensures
            db@ == Seq::<(Seq<u8>, u16)>::empty(),
    {
        let db = TopicDb { entries: Vec::new() };
        assert(db@ =~= Seq::<(Seq<u8>, u16)>::empty());
        db
    }

    /// The id of topic `name`, if it has one.
    pub fn get(&self, name: &Vec<u8>) -> (r: Option<u16>)
        ensures
            r == topic_lookup(self@, name@),
    {
        let mut i: usize = 0;
        assert(self@.subrange(0, self@.len() as int) =~= self@);
        while i < self.entries.len()
            invariant
                i <= self.entries@.len(),
                self@.len() == self.entries@.len(),
                topic_lookup(self@, name@) == topic_lookup(self@.subrange(i as int, self@.len() as int), name@),
            decreases self.entries@.len() - i,
        {
            let ghost rest = self@.subrange(i as int, self@.len() as int);
            assert(rest[0] == (self.entries@[i as int].0@, self.entries@[i as int].1));
            if bytes_equal(&self.entries[i].0, name) {
                return Some(self.entries[i].1);
            }
            assert(rest.drop_first() =~= self@.subrange(i + 1, self@.len() as int));
            i += 1;
        }
        None
    }

    /// Gives `name` the id `id` unless it already has one; returns the id `name` has
    /// afterwards.
    pub fn create(&mut self, name: &Vec<u8>, id: u16) -> (r: u16)
        ensures
            topic_lookup(old(self)@, name@) matches Some(old_id) ==> r == old_id && final(self)@
                == old(self)@,
            topic_lookup(old(self)@, name@) is None ==> r == id && final(self)@ == old(self)@.push(
                (name@, id),
            ),
            topic_lookup(final(self)@, name@) == Some(r),
    {
        match self.get(name) {
            Some(existing) => existing,
            None => {
                let ghost before = self@;
                self.entries.push((name.clone(), id));
                assert(self@ =~= before.push((name@, id)));
                proof {
                    lemma_lookup_push(before, name@, id);
                }
                id
            },
        }
    }
}

/// Adding a name that has no id yet gives it the added id.
pub proof fn lemma_lookup_push(entries: Seq<(Seq<u8>, u16)>, name: Seq<u8>, id: u16)
    requires
        topic_lookup(entries, name) is None,
    ensures
        topic_lookup(entries.push((name, id)), name) == Some(id),
    decreases entries.len(),
{
    if entries.len() > 0 {
        assert(entries.push((name, id)).drop_first() =~= entries.drop_first().push((name, id)));
        lemma_lookup_push(entries.drop_first(), name, id);
    }
}

/// The (peer, QoS) pairs subscribed to `topic`, in entry order.
pub open spec fn subscriptions_of(entries: Seq<(u16, Peer, u8)>, topic: u16) -> Seq<(Peer, u8)>
    decreases entries.len(),
{
    if entries.len() == 0 {
        Seq::empty()
    } else {
        let last = entries.last();
        subscriptions_of(entries.drop_last(), topic) + if last.0 == topic {
            seq![(last.1, last.2)]
        } else {
            Seq::empty()
        }
    }
}

/// Whether `peer` is subscribed to `topic`.
pub open spec fn is_subscribed(entries: Seq<(u16, Peer, u8)>, topic: u16, peer: Peer) -> bool {
    exists|i: int| 0 <= i < entries.len() && entries[i].0 == topic && entries[i].1 == peer
}

/// No peer is subscribed twice to the same topic.
pub open spec fn no_duplicates(entries: Seq<(u16, Peer, u8)>) -> bool {
    forall|i: int, j: int|
        0 <= i < entries.len() && 0 <= j < entries.len() && entries[i].0 == entries[j].0
            && entries[i].1 == entries[j].1 ==> i == j
}

/// The subscriptions, one (topic id, peer, QoS) entry per subscribed peer and topic.
pub struct SubscriberDb {
    entries: Vec<(u16, Peer, u8)>,
}

impl View for SubscriberDb {
    type V = Seq<(u16, Peer, u8)>;

    /// The entries, oldest first.
    closed spec fn view(&self) -> Seq<(u16, Peer, u8)> {
        self.entries@
    }
}

impl SubscriberDb {
    /// Every peer is subscribed at most once to each topic.
    pub open spec fn wf(&self) -> bool {
        no_duplicates(self@)
    }

    /// A registry with no subscription.
    pub fn new() -> (db: SubscriberDb)
        ensures
            db@ == Seq::<(u16, Peer, u8)>::empty(),
            db.wf(),
    {
        SubscriberDb { entries: Vec::new() }
    }

    /// The position of the subscription of `peer` to `topic`.
    fn find(&self, topic: u16, peer: Peer) -> (r: Option<usize>)
        ensures
            r matches Some(i) ==> i < self@.len() && self@[i as int].0 == topic && self@[i as int].1
                == peer,
            r is None ==> !is_subscribed(self@, topic, peer),
    {
        let mut i: usize = 0;
        while i < self.entries.len()
            invariant
                i <= self@.len(),
                forall|j: int| 0 <= j < i ==> !(self@[j].0 == topic && self@[j].1 == peer),
            decreases self@.len() - i,
        {
            if self.entries[i].0 == topic && self.entries[i].1 == peer {
                return Some(i);
            }
            i += 1;
        }
        None
    }

    /// Subscribes `peer` to `topic` with QoS `qos`, replacing the QoS of an existing
    /// subscription.
    pub fn insert(&mut self, topic: u16, peer: Peer, qos: u8)
        requires
            old(self).wf(),
        ensures
            final(self).wf(),
            is_subscribed(old(self)@, topic, peer) ==> exists|i: int|
                0 <= i < old(self)@.len() && old(self)@[i].0 == topic && old(self)@[i].1 == peer
                    && final(self)@ == old(self)@.update(i, (topic, peer, qos)),
            !is_subscribed(old(self)@, topic, peer) ==> final(self)@ == old(self)@.push(
                (topic, peer, qos),
            ),
            is_subscribed(final(self)@, topic, peer),
    {
        match self.find(topic, peer) {
            Some(i) => {
                self.entries.set(i, (topic, peer, qos));
                assert(self@[i as int] == (topic, peer, qos));
            },
            None => {
                self.entries.push((topic, peer, qos));
                assert(self@[self@.len() - 1] == (topic, peer, qos));
            },
        }
    }

    /// The peers subscribed to `topic` with their QoS, or `None` when there is none.
    pub fn get(&self, topic: u16) -> (r: Option<Vec<(Peer, u8)>>)
        ensures
            subscriptions_of(self@, topic).len() == 0 ==> r is None,
            subscriptions_of(self@, topic).len() > 0 ==> (r matches Some(v) && v@
                == subscriptions_of(self@, topic)),
    {
        let mut out: Vec<(Peer, u8)> = Vec::new();
        let mut i: usize = 0;
        while i < self.entries.len()
            invariant
                i <= self@.len(),
                out@ == subscriptions_of(self@.subrange(0, i as int), topic),
            decreases self@.len() - i,
        {
            let e = self.entries[i];
            proof {
                assert(self@.subrange(0, i + 1).drop_last() =~= self@.subrange(0, i as int));
            }
            if e.0 == topic {
                out.push((e.1, e.2));
            }
            i += 1;
        }
        assert(self@.subrange(0, self@.len() as int) =~= self@);
        if out.len() == 0 {
            None
        } else {
            Some(out)
        }
    }

    /// Removes the subscription of `peer` to `topic`, giving back its QoS, or `None` when
    /// there was none.
    pub fn delete(&mut self, topic: u16, peer: Peer) -> (r: Option<u8>)
        requires
            old(self).wf(),
        ensures
            final(self).wf(),
            r is None <==> !is_subscribed(old(self)@, topic, peer),
            r is None ==> final(self)@ == old(self)@,
            r matches Some(q) ==> exists|i: int|
                0 <= i < old(self)@.len() && old(self)@[i] == (topic, peer, q) && final(self)@
                    == old(self)@.remove(i),
            !is_subscribed(final(self)@, topic, peer),
    {
        match self.find(topic, peer) {
            Some(i) => {
                let ghost before = self@;
                let (_, _, q) = self.entries.remove(i);
                assert forall|k: int| 0 <= k < self@.len() implies !(self@[k].0 == topic
                    && self@[k].1 == peer) by {
                    if k < i {
                        assert(self@[k] == before[k]);
                    } else {
                        assert(self@[k] == before[k + 1]);
                    }
                }
                Some(q)
            },
            None => None,
        }
    }
}

} // verus!
