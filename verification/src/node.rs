//! The node: one bounded broadcast channel per topic, opened on first use
//! and shared by every publisher and subscriber of that topic.
use vstd::prelude::*;
use std::collections::HashMap;
use std::marker::PhantomData;
use crate::channel::open;
use crate::channel::erase;
use crate::channel::restore;
use crate::channel::ChannelCounter;
use crate::channel::ErasedSender;
use crate::channel::TopicSender;
use crate::erased::type_id_of;
use crate::erased::same_type_id;
use crate::error::Error;
use crate::handle::Publisher;
use crate::handle::Subscriber;

verus! {

/// A topic: a value naming one channel of a node. Topics with equal keys are
/// the same topic (for a topic enum of fieldless variants, the key is the
/// variant's position).
pub trait CrosstalkTopic: Copy + Eq + std::hash::Hash {
    /// The key that identifies the topic.
    spec fn topic_key(&self) -> u64;

    /// Distinct topics have distinct keys.
    proof fn lemma_keys_distinct(a: Self, b: Self)
        ensures
            a.topic_key() == b.topic_key() ==> a == b;

    /// Computes the key of the topic.
    fn key(&self) -> (k: u64)
        ensures
            k == self.topic_key();
}

/// The data carried on a topic: any value that can be cloned for each
/// subscriber and sent across threads.
pub trait CrosstalkData: Clone + Send + 'static {}

impl<D: Clone + Send + 'static> CrosstalkData for D {}

/// What a node holds, as mathematics: the channel of each topic key that has
/// one, and how many channels the node has opened so far. Channels are
/// numbered in the order the node opened them.
pub ghost struct Registry {
    pub channels: Map<u64, nat>,
    pub opened: nat,
}

impl Registry {
    /// Every channel was opened by the node, and no two topics share one.
    pub open spec fn consistent(self) -> bool {
        &&& forall|k: u64| #[trigger] self.channels.contains_key(k) ==> self.channels[k] < self.opened
        &&& forall|k1: u64, k2: u64|
            #[trigger] self.channels.contains_key(k1) && #[trigger] self.channels.contains_key(k2)
                && k1 != k2 ==> self.channels[k1] != self.channels[k2]
    }

    /// The registry once a new channel is opened for topic key `k`.
    pub open spec fn with_new_channel(self, k: u64) -> Registry {
        Registry { channels: self.channels.insert(k, self.opened), opened: self.opened + 1 }
    }

    /// The registry once topic key `k` has lost its channel.
    pub open spec fn without(self, k: u64) -> Registry {
        Registry { channels: self.channels.remove(k), opened: self.opened }
    }
}

/// A handle on channel `c` was handed out for topic key `k`: the topic's
/// channel is reused when it has one, else the next channel is opened.
pub open spec fn hands_out(before: Registry, after: Registry, k: u64, c: nat) -> bool {
    if before.channels.contains_key(k) {
        after == before && c == before.channels[k]
    } else {
        after == before.with_new_channel(k) && c == before.opened
    }
}

/// The effects a failed request for topic key `k` may have had: none; or
/// the topic's stored sender, found to be of another data type than the one
/// asked for, was dropped. A failed request never opens a channel.
pub open spec fn failed_request(before: Registry, after: Registry, k: u64) -> bool {
    ||| after == before
    ||| before.channels.contains_key(k) && after == before.without(k)
}

/// The node behind a `BoundedNode`: the senders of the channels opened so
/// far, by topic key, the counter that labels the channels it opens, and the
/// capacity of each channel.
#[verifier::reject_recursive_types(T)]
pub struct ImplementedBoundedNode<T> {
    senders: HashMap<u64, ErasedSender>,
    size: usize,
    counter: ChannelCounter,
    topic: PhantomData<T>,
}

/// The labels of the channels of stored senders, by topic key.
pub open spec fn labels(senders: Map<u64, ErasedSender>) -> Map<u64, nat> {
    senders.map_values(|e: ErasedSender| e.label())
}

impl<T> ImplementedBoundedNode<T> {
    #[verifier::type_invariant]
    spec fn inv(self) -> bool {
        &&& 0 < self.size <= usize::MAX / 2
        &&& self.registry().consistent()
        &&& forall|k: u64| #[trigger] self.senders@.contains_key(k) ==> self.senders@[k].capacity() == self.size
    }

    /// The channels of the node, by topic key: the labels of the senders it
    /// keeps, and the count of channels it has opened.
    pub closed spec fn registry(&self) -> Registry {
        Registry { channels: labels(self.senders@), opened: self.counter.next() }
    }

    /// The capacity each channel of the node is opened with.
    pub closed spec fn capacity(&self) -> nat {
        self.size as nat
    }

    /// A node whose channels hold `size` messages each, with no channel yet.
    /// A broadcast channel cannot be opened with no room, nor with more than
    /// `usize::MAX / 2`: such a node could never serve a topic.
    pub fn new(size: usize) -> (n: Self)
        requires
            0 < size <= usize::MAX / 2,
        ensures
            n.capacity() == size,
            n.registry() == (Registry { channels: Map::empty(), opened: 0 }),
    {
        let n = ImplementedBoundedNode {
            senders: HashMap::new(),
            size,
            counter: ChannelCounter::new(),
            topic: PhantomData,
        };
        assert(labels(n.senders@) =~= Map::<u64, nat>::empty());
        n
    }

    /// The capacity each channel of the node is opened with.
    pub fn size(&self) -> (s: usize)
        ensures
            s == self.capacity(),
            0 < s <= usize::MAX / 2,
    {
        proof { use_type_invariant(self); }
        self.size
    }

    /// A sender of the channel of topic key `key`, typed as `E`: a second
    /// handle on the stored sender when the topic has one, else the sender of
    /// a channel opened now. When the stored sender is not of type `E`, it is
    /// dropped and `err` is returned.
    fn channel_for<E: CrosstalkData>(&mut self, key: u64, err: Error) -> (r: Result<TopicSender<E>, Error>)
        ensures
            final(self).capacity() == old(self).capacity(),
            final(self).registry().consistent(),
            match r {
                Ok(s) => hands_out(old(self).registry(), final(self).registry(), key, s.label())
                    && s.capacity() == old(self).capacity(),
                Err(e) => e == err && old(self).registry().channels.contains_key(key)
                    && final(self).registry() == old(self).registry().without(key),
            },
    {
        proof { use_type_invariant(&*self); }
        let ghost before = self.registry();
        // Work on the node's parts outside the node, leaving an empty node in
        // its place, so that the node stays well formed at every call.
        let mut work = ImplementedBoundedNode::<T> {
            senders: HashMap::new(),
            size: self.size,
            counter: ChannelCounter::new(),
            topic: PhantomData,
        };
        assert(labels(work.senders@) =~= Map::<u64, nat>::empty());
        std::mem::swap(self, &mut work);
        proof { use_type_invariant(&work); }
        let ImplementedBoundedNode { mut senders, size, mut counter, topic } = work;
        let ghost stored_all = senders@;
        match senders.remove(&key) {
            Some(stored) => {
                assert(stored.label() == before.channels[key]);
                assert(labels(senders@) =~= before.without(key).channels);
                match restore::<E>(stored, err) {
                    Ok(kept) => {
                        let handed = kept.another();
                        senders.insert(key, erase(kept));
                        assert(labels(senders@) =~= before.channels);
                        *self = ImplementedBoundedNode { senders, size, counter, topic };
                        Ok(handed)
                    },
                    Err(e) => {
                        *self = ImplementedBoundedNode { senders, size, counter, topic };
                        Err(e)
                    },
                }
            },
            None => {
                let (sender, _) = open::<E>(size, &mut counter);
                senders.insert(key, erase(sender.another()));
                assert(labels(senders@) =~= before.with_new_channel(key).channels);
                *self = ImplementedBoundedNode { senders, size, counter, topic };
                Ok(sender)
            },
        }
    }
}

/// The outcome of a request for a handle of topic key `k` that was answered
/// with channel `c` (when it succeeded) on the node going from `before` to
/// `after`: a success hands out the topic's channel; a failure leaves at most
/// the traces `failed_request` allows. Other topics are never touched.
pub open spec fn served(before: Registry, after: Registry, k: u64, ok: bool, c: nat) -> bool {
    &&& after.consistent()
    &&& ok ==> hands_out(before, after, k, c)
    &&& !ok ==> failed_request(before, after, k)
}

/// The outcome of a request for topic key `k` whose data type is the
/// topic's declared one (`agree`) or another, answered with channel `c` when
/// it succeeded (`ok`). A request of another data type is refused and
/// changes nothing. A request of the declared type is served on the topic's
/// channel, opened now when the topic has none; it is refused only when the
/// sender stored for the topic cannot be taken back as one of that type,
/// which is then dropped.
pub open spec fn answered(before: Registry, after: Registry, k: u64, agree: bool, ok: bool, c: nat) -> bool {
    &&& after.consistent()
    &&& !agree ==> !ok && after == before
    &&& agree && ok ==> hands_out(before, after, k, c)
    &&& agree && !ok ==> before.channels.contains_key(k) && after == before.without(k)
}

/// What a node holds, seen from the requests it serves: its channels by
/// topic key, and the capacity of each channel.
pub trait NodeRegistry {
    /// The channels by topic key, and the count of channels opened.
    spec fn registry_of(&self) -> Registry;

    /// The capacity each channel is opened with.
    spec fn capacity_of(&self) -> nat;
}

impl<T> NodeRegistry for ImplementedBoundedNode<T> {
    open spec fn registry_of(&self) -> Registry {
        self.registry()
    }

    open spec fn capacity_of(&self) -> nat {
        self.capacity()
    }
}

/// The requests a node serves for the topics of a topic enum, each topic
/// with the data type declared for it. For a topic enum, the implementation
/// answers each topic with the `*_arm` method of `ImplementedBoundedNode`
/// for the topic's declared type (`String` where none is declared), whose
/// contracts give what these methods promise.
pub trait CrosstalkPubSub<T: CrosstalkTopic>: NodeRegistry {
    /// A publisher for `topic`, or an error when `D` is not its data type.
    /// The publisher writes to the topic's channel, opened now if the topic
    /// has none yet.
    fn publisher<D: CrosstalkData>(&mut self, topic: T) -> (r: Result<Publisher<D, T>, Error>)
        ensures
            final(self).capacity_of() == old(self).capacity_of(),
            served(old(self).registry_of(), final(self).registry_of(), topic.topic_key(), r is Ok,
                match r { Ok(p) => p.channel(), Err(_) => 0 }),
            r matches Ok(p) ==> p.topic_of() == topic && p.capacity() == old(self).capacity_of(),
            r matches Err(e) ==> e is PublisherMismatch;

    /// A subscriber for `topic`, or an error when `D` is not its data type.
    /// The subscriber reads the topic's channel, opened now if the topic has
    /// none yet.
    fn subscriber<D: CrosstalkData>(&mut self, topic: T) -> (r: Result<Subscriber<D, T>, Error>)
        ensures
            final(self).capacity_of() == old(self).capacity_of(),
            served(old(self).registry_of(), final(self).registry_of(), topic.topic_key(), r is Ok,
                match r { Ok(s) => s.channel(), Err(_) => 0 }),
            r matches Ok(s) ==> s.topic_of() == topic && s.reads_own_channel()
                && s.capacity() == old(self).capacity_of()
                && s.deliveries() == Seq::<crate::channel::Delivery<D>>::empty(),
            r matches Err(e) ==> e is SubscriberMismatch;

    /// A publisher and a subscriber for `topic`, on the topic's channel, or
    /// the first error.
    fn pubsub<D: CrosstalkData>(&mut self, topic: T) -> (r: Result<(Publisher<D, T>, Subscriber<D, T>), Error>)
        ensures
            final(self).capacity_of() == old(self).capacity_of(),
            final(self).registry_of().consistent(),
            r matches Ok((p, s)) ==> p.topic_of() == topic && s.topic_of() == topic
                && p.channel() == s.channel() && s.reads_own_channel()
                && p.capacity() == old(self).capacity_of() && s.capacity() == old(self).capacity_of()
                && s.deliveries() == Seq::<crate::channel::Delivery<D>>::empty()
                && served(old(self).registry_of(), final(self).registry_of(), topic.topic_key(), true, p.channel()),
            r matches Err(e) ==> e is PublisherMismatch || e is SubscriberMismatch;
}

impl<T: CrosstalkTopic> ImplementedBoundedNode<T> {
    /// A publisher of data type `D` for `topic`; `agree` tells whether `D`
    /// is the topic's declared data type, and `requested` and `declared`
    /// name the two types in the error given when it is not. The publisher
    /// writes to the topic's channel, opened now if the topic has none yet.
    pub fn publisher_for<D: CrosstalkData>(
        &mut self,
        topic: T,
        agree: bool,
        requested: &'static str,
        declared: &'static str,
    ) -> (r: Result<Publisher<D, T>, Error>)
        ensures
            final(self).capacity() == old(self).capacity(),
            answered(old(self).registry(), final(self).registry(), topic.topic_key(), agree, r is Ok,
                match r { Ok(p) => p.channel(), Err(_) => 0 }),
            r matches Ok(p) ==> p.topic_of() == topic && p.capacity() == old(self).capacity(),
            r matches Err(e) ==> e == Error::PublisherMismatch(requested, declared),
    {
        proof { use_type_invariant(&*self); }
        let err = Error::PublisherMismatch(requested, declared);
        if agree {
            let key = topic.key();
            match self.channel_for::<D>(key, err) {
                Ok(sender) => Ok(Publisher::attach(topic, sender)),
                Err(e) => Err(e),
            }
        } else {
            Err(err)
        }
    }

    /// A subscriber of data type `D` for `topic`; `agree` tells whether `D`
    /// is the topic's declared data type, and `requested` and `declared`
    /// name the two types in the error given when it is not. The subscriber
    /// reads the topic's channel, opened now if the topic has none yet, from
    /// the messages sent after this call.
    pub fn subscriber_for<D: CrosstalkData>(
        &mut self,
        topic: T,
        agree: bool,
        requested: &'static str,
        declared: &'static str,
    ) -> (r: Result<Subscriber<D, T>, Error>)
        ensures
            final(self).capacity() == old(self).capacity(),
            answered(old(self).registry(), final(self).registry(), topic.topic_key(), agree, r is Ok,
                match r { Ok(s) => s.channel(), Err(_) => 0 }),
            r matches Ok(s) ==> s.topic_of() == topic && s.reads_own_channel()
                && s.capacity() == old(self).capacity()
                && s.refusals() == 0
                && s.deliveries() == Seq::<crate::channel::Delivery<D>>::empty(),
            r matches Err(e) ==> e == Error::SubscriberMismatch(requested, declared),
    {
        proof { use_type_invariant(&*self); }
        let err = Error::SubscriberMismatch(requested, declared);
        if agree {
            let key = topic.key();
            match self.channel_for::<D>(key, err) {
                Ok(sender) => Ok(Subscriber::attach(topic, sender)),
                Err(e) => Err(e),
            }
        } else {
            Err(err)
        }
    }

    /// A publisher and a subscriber of data type `D` for `topic`; `agree`
    /// tells whether `D` is the topic's declared data type. Both requests are
    /// made, the publisher's first, and the first error is given; the pair
    /// shares the topic's channel.
    pub fn pubsub_for<D: CrosstalkData>(
        &mut self,
        topic: T,
        agree: bool,
        requested: &'static str,
        declared: &'static str,
    ) -> (r: Result<(Publisher<D, T>, Subscriber<D, T>), Error>)
        ensures
            final(self).capacity() == old(self).capacity(),
            final(self).registry().consistent(),
            !agree ==> r == Err::<(Publisher<D, T>, Subscriber<D, T>), Error>(Error::PublisherMismatch(requested, declared))
                && final(self).registry() == old(self).registry(),
            r matches Ok((p, s)) ==> {
                &&& agree
                &&& p.topic_of() == topic && s.topic_of() == topic
                &&& p.channel() == s.channel()
                &&& p.capacity() == old(self).capacity() && s.capacity() == old(self).capacity()
                &&& s.reads_own_channel() && s.refusals() == 0
                &&& s.deliveries() == Seq::<crate::channel::Delivery<D>>::empty()
                &&& hands_out(old(self).registry(), final(self).registry(), topic.topic_key(), p.channel())
            },
            r matches Err(e) ==> {
                &&& e == Error::PublisherMismatch(requested, declared)
                    || e == Error::SubscriberMismatch(requested, declared)
                &&& exists|mid: Registry, c1: nat, ok2: bool, c2: nat| {
                    &&& #[trigger] answered(old(self).registry(), mid, topic.topic_key(), agree, e is SubscriberMismatch, c1)
                    &&& #[trigger] answered(mid, final(self).registry(), topic.topic_key(), agree, ok2, c2)
                    &&& e is SubscriberMismatch ==> !ok2
                }
            },
    {
        let ghost before = self.registry();
        let pr = self.publisher_for::<D>(topic, agree, requested, declared);
        let ghost mid = self.registry();
        let sr = self.subscriber_for::<D>(topic, agree, requested, declared);
        let ghost c1 = match pr { Ok(ref p) => p.channel(), Err(_) => 0 };
        let ghost c2 = match sr { Ok(ref s) => s.channel(), Err(_) => 0 };
        proof {
            assert(answered(before, mid, topic.topic_key(), agree, pr is Ok, c1));
            assert(answered(mid, self.registry(), topic.topic_key(), agree, sr is Ok, c2));
        }
        match (pr, sr) {
            (Ok(p), Ok(s)) => Ok((p, s)),
            (Err(e), _) => {
                assert(answered(before, mid, topic.topic_key(), agree, e is SubscriberMismatch, c1));
                Err(e)
            },
            (_, Err(e)) => {
                assert(answered(before, mid, topic.topic_key(), agree, e is SubscriberMismatch, c1));
                assert(answered(mid, self.registry(), topic.topic_key(), agree, false, c2));
                Err(e)
            },
        }
    }

    /// A publisher of data type `D` for `topic`, whose declared data type is
    /// `E`; `requested` and `declared` name `D` and `E` in the error given
    /// when the two differ. The publisher writes to the topic's channel,
    /// opened now if the topic has none yet.
    pub fn publisher_arm<D: CrosstalkData, E: CrosstalkData>(
        &mut self,
        topic: T,
        requested: &'static str,
        declared: &'static str,
    ) -> (r: Result<Publisher<D, T>, Error>)
        ensures
            final(self).capacity() == old(self).capacity(),
            served(old(self).registry(), final(self).registry(), topic.topic_key(), r is Ok,
                match r { Ok(p) => p.channel(), Err(_) => 0 }),
            r matches Ok(p) ==> p.topic_of() == topic && p.capacity() == old(self).capacity(),
            r matches Err(e) ==> e == Error::PublisherMismatch(requested, declared),
    {
        let agree = same_type_id(&type_id_of::<D>(), &type_id_of::<E>());
        self.publisher_for::<D>(topic, agree, requested, declared)
    }

    /// A subscriber of data type `D` for `topic`, whose declared data type
    /// is `E`; `requested` and `declared` name `D` and `E` in the error given
    /// when the two differ. The subscriber reads the topic's channel, opened
    /// now if the topic has none yet, from the messages sent after this call.
    pub fn subscriber_arm<D: CrosstalkData, E: CrosstalkData>(
        &mut self,
        topic: T,
        requested: &'static str,
        declared: &'static str,
    ) -> (r: Result<Subscriber<D, T>, Error>)
        ensures
            final(self).capacity() == old(self).capacity(),
            served(old(self).registry(), final(self).registry(), topic.topic_key(), r is Ok,
                match r { Ok(s) => s.channel(), Err(_) => 0 }),
            r matches Ok(s) ==> s.topic_of() == topic && s.reads_own_channel()
                && s.capacity() == old(self).capacity()
                && s.deliveries() == Seq::<crate::channel::Delivery<D>>::empty(),
            r matches Err(e) ==> e == Error::SubscriberMismatch(requested, declared),
    {
        let agree = same_type_id(&type_id_of::<D>(), &type_id_of::<E>());
        self.subscriber_for::<D>(topic, agree, requested, declared)
    }

    /// A publisher and a subscriber of data type `D` for `topic`, whose
    /// declared data type is `E`: both requests are made, the publisher's
    /// first, and the first error is given. The pair shares the topic's
    /// channel.
    pub fn pubsub_arm<D: CrosstalkData, E: CrosstalkData>(
        &mut self,
        topic: T,
        requested: &'static str,
        declared: &'static str,
    ) -> (r: Result<(Publisher<D, T>, Subscriber<D, T>), Error>)
        ensures
            final(self).capacity() == old(self).capacity(),
            r matches Ok((p, s)) ==> {
                &&& p.topic_of() == topic && s.topic_of() == topic
                &&& p.channel() == s.channel()
                &&& p.capacity() == old(self).capacity() && s.capacity() == old(self).capacity()
                &&& s.reads_own_channel()
                &&& s.deliveries() == Seq::<crate::channel::Delivery<D>>::empty()
                &&& served(old(self).registry(), final(self).registry(), topic.topic_key(), true, p.channel())
            },
            r matches Err(e) ==> {
                &&& e == Error::PublisherMismatch(requested, declared)
                    || e == Error::SubscriberMismatch(requested, declared)
                &&& exists|mid: Registry, c1: nat, ok2: bool, c2: nat| {
                    &&& #[trigger] served(old(self).registry(), mid, topic.topic_key(), e is SubscriberMismatch, c1)
                    &&& #[trigger] served(mid, final(self).registry(), topic.topic_key(), ok2, c2)
                    &&& e is SubscriberMismatch ==> !ok2
                }
            },
    {
        let ghost before = self.registry();
        let agree = same_type_id(&type_id_of::<D>(), &type_id_of::<E>());
        let r = self.pubsub_for::<D>(topic, agree, requested, declared);
        proof {
            if r is Err {
                let k = topic.topic_key();
                let e = r->Err_0;
                let (mid, c1, ok2, c2) = choose|mid: Registry, c1: nat, ok2: bool, c2: nat| {
                    &&& #[trigger] answered(before, mid, k, agree, e is SubscriberMismatch, c1)
                    &&& #[trigger] answered(mid, self.registry(), k, agree, ok2, c2)
                    &&& e is SubscriberMismatch ==> !ok2
                };
                if e is SubscriberMismatch {
                    assert(served(before, mid, k, true, c1));
                    assert(served(mid, self.registry(), k, false, c2));
                } else {
                    assert(served(before, mid, k, false, c1));
                    assert(served(mid, self.registry(), k, ok2, c2));
                }
            }
        }
        r
    }
}

} // verus!
