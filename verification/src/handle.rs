//! Publishers and subscribers: the handles through which a topic's channel
//! is written and read.
use vstd::prelude::*;
use std::sync::Arc;
use tokio::sync::broadcast::Sender as TokioSender;
use tokio::sync::broadcast::Receiver as TokioReceiver;
use crate::channel::Delivery;
use crate::channel::delivered;
use crate::channel::subscribe;
use crate::listener::Listener;
use crate::channel::TopicSender;

verus! {

/// The number of messages that the lags among `s` skipped.
pub open spec fn skipped<D>(s: Seq<Delivery<D>>) -> nat
    decreases s.len(),
{
    if s.len() == 0 {
        0
    } else {
        skipped(s.drop_last()) + match s.last() {
            Delivery::Lagged(n) => n as nat,
            _ => 0nat,
        }
    }
}

/// The deliveries taken since `before`, oldest first, when `after` extends
/// it.
pub open spec fn taken<D>(before: Seq<Delivery<D>>, after: Seq<Delivery<D>>) -> Seq<Delivery<D>> {
    after.subrange(before.len() as int, after.len() as int)
}

/// `after` extends `before` by lags only (possibly none).
pub open spec fn only_lags_added<D>(before: Seq<Delivery<D>>, after: Seq<Delivery<D>>) -> bool {
    &&& before.len() <= after.len()
    &&& after.subrange(0, before.len() as int) == before
    &&& forall|i: int| before.len() <= i < after.len() ==> (#[trigger] after[i]) is Lagged
}

/// A read that passes over lags: from `before`, the receiver saw a run of
/// lags and then one delivery that is not a lag, whose message (if any) is
/// `r`. Only when the lags of one read skip more than `u64::MAX` messages in
/// all (more messages than could be sent while the read runs) does the read
/// stop on a lag, with nothing.
pub open spec fn read_past_lags<D>(before: Seq<Delivery<D>>, after: Seq<Delivery<D>>, r: Option<D>) -> bool {
    let new = after.subrange(before.len() as int, after.len() as int);
    &&& before.len() < after.len()
    &&& after.subrange(0, before.len() as int) == before
    &&& forall|i: int| 0 <= i < new.len() - 1 ==> (#[trigger] new[i]) is Lagged
    &&& if new.last() is Lagged {
        r is None && skipped(new) > u64::MAX
    } else {
        r == delivered(new.last())
    }
}

/// How a read that passes over lags ends, delivery by delivery: every
/// delivery it took but the last is a lag; a message ends it and is given;
/// it ends with nothing on an empty or closed channel, or on a lag only past
/// `u64::MAX` skipped messages.
proof fn lemma_read_ends<D>(before: Seq<Delivery<D>>, after: Seq<Delivery<D>>, r: Option<D>)
    requires
        read_past_lags(before, after, r),
    ensures
        forall|i: int| before.len() <= i < after.len() - 1 ==> (#[trigger] after[i]) is Lagged,
        r matches Some(m) ==> after.last() == Delivery::Message(m),
        r is None ==> after.last() is Empty || after.last() is Closed
            || skipped(taken(before, after)) > u64::MAX,
{
    let new = taken(before, after);
    assert(new.last() == after.last());
    assert forall|i: int| before.len() <= i < after.len() - 1 implies (#[trigger] after[i]) is Lagged by {
        assert(new[i - before.len()] == after[i]);
    }
}

/// A single attempt: the receiver saw exactly one more delivery, whose
/// message (if any) is `r`.
pub open spec fn read_once<D>(before: Seq<Delivery<D>>, after: Seq<Delivery<D>>, r: Option<D>) -> bool {
    &&& after.len() == before.len() + 1
    &&& after.subrange(0, before.len() as int) == before
    &&& r == delivered(after.last())
}

/// Where a read that passes over lags stands after one delivery.
pub enum ReadStep<D> {
    /// The read is over, with this message or with nothing.
    Done(Option<D>),
    /// The delivery was a lag: the read goes on.
    Again,
}

/// The step a read that passes over lags takes on delivery `o`: a lag lets
/// the read go on; anything else ends it, with its message if any.
pub fn read_step<D>(o: Delivery<D>) -> (step: ReadStep<D>)
    ensures
        step == (if o is Lagged { ReadStep::Again } else { ReadStep::Done(delivered(o)) }),
{
    match o {
        Delivery::Message(d) => ReadStep::Done(Some(d)),
        Delivery::Lagged(_) => ReadStep::Again,
        _ => ReadStep::Done(None),
    }
}

/// What a single read that may time out gives: the message of the delivery
/// taken, if one was taken and carries one; nothing when the read timed out
/// or could not wait (`o` is `None`).
pub fn read_within<D>(o: Option<Delivery<D>>) -> (r: Option<D>)
    ensures
        r == (match o { Some(d) => delivered(d), None => None }),
{
    match o {
        Some(Delivery::Message(d)) => Some(d),
        _ => None,
    }
}

/// A publisher: writes messages to the channel of its topic.
#[verifier::reject_recursive_types(D)]
pub struct Publisher<D, T> {
    pub topic: T,
    tx: TopicSender<D>,
}

impl<D, T> Publisher<D, T> {
    /// The topic this publisher writes on.
    pub closed spec fn topic_of(&self) -> T {
        self.topic
    }

    /// The label of the channel this publisher writes to.
    pub closed spec fn channel(&self) -> nat {
        self.tx.label()
    }

    /// The capacity the channel of this publisher was opened with.
    pub closed spec fn capacity(&self) -> nat {
        self.tx.capacity()
    }

    /// A publisher on `topic` that writes through `buf`.
    pub fn new(topic: T, buf: TokioSender<D>) -> (p: Self)
        ensures
            p.topic_of() == topic,
    {
        Publisher { topic, tx: TopicSender::adopt(Arc::new(buf)) }
    }

    /// A publisher on `topic` that writes through `tx`.
    pub(crate) fn attach(topic: T, tx: TopicSender<D>) -> (p: Self)
        ensures
            p.topic_of() == topic,
            p.channel() == tx.label(),
            p.capacity() == tx.capacity(),
    {
        Publisher { topic, tx }
    }

    /// Broadcasts `sample` to every subscriber of the topic. When no
    /// subscriber exists the sample is dropped.
    pub fn write(&self, sample: D) {
        let _ = self.tx.send(sample);
    }
}

impl<D, T: Copy> Clone for Publisher<D, T> {
    /// A second publisher on the same topic and channel.
    fn clone(&self) -> (p: Self)
        ensures
            p.topic_of() == self.topic_of(),
            p.channel() == self.channel(),
            p.capacity() == self.capacity(),
    {
        Publisher { topic: self.topic, tx: self.tx.another() }
    }
}

/// A subscriber: reads the messages written to the channel of its topic after
/// it subscribed.
#[verifier::reject_recursive_types(D)]
pub struct Subscriber<D, T> {
    pub topic: T,
    rx: Listener<D>,
    sndr: TopicSender<D>,
}

impl<D, T> Subscriber<D, T> {
    /// The topic this subscriber reads.
    pub closed spec fn topic_of(&self) -> T {
        self.topic
    }

    /// The label of the channel this subscriber belongs to: that of the
    /// sender it keeps, from which its clones subscribe.
    pub closed spec fn channel(&self) -> nat {
        self.sndr.label()
    }

    /// The capacity the channel of this subscriber was opened with.
    pub closed spec fn capacity(&self) -> nat {
        self.sndr.capacity()
    }

    /// The subscriber reads the channel it belongs to.
    pub closed spec fn reads_own_channel(&self) -> bool {
        self.rx.label() == self.sndr.label()
    }

    /// Every delivery this subscriber's reads have taken, oldest first.
    pub closed spec fn deliveries(&self) -> Seq<Delivery<D>> {
        self.rx.log()
    }

    /// How many blocking reads of this subscriber were refused because an
    /// asynchronous runtime ran on the thread.
    pub closed spec fn refusals(&self) -> nat {
        self.rx.refusals()
    }

    /// The channel receiver this subscriber reads with.
    pub closed spec fn receiver(&self) -> TokioReceiver<D> {
        self.rx.raw()
    }

    /// The sender this subscriber keeps, from which its clones subscribe.
    pub closed spec fn sender(&self) -> Arc<TokioSender<D>> {
        self.sndr.shared()
    }

    /// The parts a read leaves as they are.
    pub open spec fn same_handle(&self, other: &Self) -> bool {
        &&& other.topic_of() == self.topic_of()
        &&& other.channel() == self.channel()
        &&& other.reads_own_channel() == self.reads_own_channel()
    }
}

impl<D: Clone, T: Clone> Subscriber<D, T> {
    /// A subscriber on `topic` that reads with `rcvr`, a receiver of
    /// `sndr`'s channel, or, when none is given, with a new receiver of
    /// `sndr`'s channel.
    pub fn new(topic: T, rcvr: Option<TokioReceiver<D>>, sndr: Arc<TokioSender<D>>) -> (s: Self)
        ensures
            s.topic_of() == topic,
            rcvr matches Some(r) ==> s.receiver() == r,
            s.sender() == sndr,
            s.reads_own_channel(),
            s.refusals() == 0,
            s.deliveries() == Seq::<Delivery<D>>::empty(),
    {
        let tx = TopicSender::adopt(sndr);
        let fresh = subscribe(&tx);
        let rx = match rcvr {
            Some(r) => Listener::adopt(r, Ghost(tx.label())),
            None => fresh,
        };
        Subscriber { topic, rx, sndr: tx }
    }

    /// A subscriber on `topic` that reads a new receiver of `tx`'s channel.
    pub(crate) fn attach(topic: T, tx: TopicSender<D>) -> (s: Self)
        ensures
            s.topic_of() == topic,
            s.channel() == tx.label(),
            s.capacity() == tx.capacity(),
            s.refusals() == 0,
            s.reads_own_channel(),
            s.deliveries() == Seq::<Delivery<D>>::empty(),
    {
        let rx = subscribe(&tx);
        Subscriber { topic, rx, sndr: tx }
    }

    /// Takes the next message, passing over lags: without waiting, or, when
    /// `blocking`, waiting for it; a blocking read where an asynchronous
    /// runtime runs stops at once, with nothing, after the lags it saw.
    fn read_loop(&mut self, blocking: bool) -> (r: Option<D>)
        ensures
            final(self).same_handle(old(self)),
            read_past_lags(old(self).deliveries(), final(self).deliveries(), r)
                && (blocking ==> !(final(self).deliveries().last() is Empty))
                && final(self).refusals() == old(self).refusals()
            || blocking && r is None && only_lags_added(old(self).deliveries(), final(self).deliveries())
                && final(self).refusals() == old(self).refusals() + 1,
    {
        let ghost start = self.deliveries();
        let mut lost: u64 = 0;
        proof {
            assert(start.subrange(0, start.len() as int) =~= start);
            assert(start.subrange(start.len() as int, start.len() as int) =~= Seq::<Delivery<D>>::empty());
        }
        loop
            invariant
                start == old(self).deliveries(),
                self.same_handle(old(self)),
                self.refusals() == old(self).refusals(),
                only_lags_added(start, self.deliveries()),
                skipped(self.deliveries().subrange(start.len() as int, self.deliveries().len() as int)) == lost,
            decreases u64::MAX - lost,
        {
            let ghost prev = self.deliveries();
            let o = if blocking {
                match self.rx.receive_blocking() {
                    Some(d) => d,
                    None => {
                        return None;
                    },
                }
            } else {
                self.rx.receive()
            };
            proof {
                assert(self.deliveries().subrange(start.len() as int, self.deliveries().len() as int).drop_last()
                    =~= prev.subrange(start.len() as int, prev.len() as int));
                assert(self.deliveries().subrange(0, start.len() as int) =~= prev.subrange(0, start.len() as int));
            }
            match o {
                Delivery::Message(d) => {
                    return Some(d);
                },
                Delivery::Lagged(n) => {
                    if n > u64::MAX - lost {
                        return None;
                    }
                    lost = lost + n;
                },
                _ => {
                    return None;
                },
            }
        }
    }

    /// Takes the next message without waiting. A lag is passed over: the
    /// read goes on from the oldest message the channel still holds. Gives
    /// nothing when no message waits or every sender is gone.
    pub fn try_read(&mut self) -> (r: Option<D>)
        ensures
            read_past_lags(old(self).deliveries(), final(self).deliveries(), r),
            final(self).same_handle(old(self)),
            final(self).refusals() == old(self).refusals(),
            // Every delivery the read took but the last is a lag that it
            // passed over; a message ends the read and is given.
            forall|i: int| old(self).deliveries().len() <= i < final(self).deliveries().len() - 1
                ==> (#[trigger] final(self).deliveries()[i]) is Lagged,
            r matches Some(m) ==> final(self).deliveries().last() == Delivery::Message(m),
            // Nothing is given only when no message waits or every sender is
            // gone (or after lags skipping more than `u64::MAX` messages).
            r is None ==> final(self).deliveries().last() is Empty || final(self).deliveries().last() is Closed
                || skipped(taken(old(self).deliveries(), final(self).deliveries())) > u64::MAX,
    {
        let r = self.read_loop(false);
        proof { lemma_read_ends(old(self).deliveries(), self.deliveries(), r); }
        r
    }

    /// Takes the next message without waiting; a lag, like an empty or
    /// closed channel, gives nothing.
    pub fn try_read_raw(&mut self) -> (r: Option<D>)
        ensures
            read_once(old(self).deliveries(), final(self).deliveries(), r),
            final(self).same_handle(old(self)),
            final(self).refusals() == old(self).refusals(),
    {
        let o = self.rx.receive();
        proof {
            assert(self.deliveries().subrange(0, old(self).deliveries().len() as int) =~= old(self).deliveries());
        }
        match o {
            Delivery::Message(d) => Some(d),
            _ => None,
        }
    }

    /// Waits for the next message, passing over lags. Gives nothing once
    /// every sender is gone. Where an asynchronous runtime runs on the
    /// thread, the thread cannot be blocked: nothing is read and nothing is
    /// given.
    pub fn read_blocking(&mut self) -> (r: Option<D>)
        ensures
            final(self).same_handle(old(self)),
            read_past_lags(old(self).deliveries(), final(self).deliveries(), r)
                && !(final(self).deliveries().last() is Empty)
                && final(self).refusals() == old(self).refusals()
            || r is None && only_lags_added(old(self).deliveries(), final(self).deliveries())
                && final(self).refusals() == old(self).refusals() + 1,
            // A lag never ends the read: when the read was not refused,
            // every delivery it took but the last is a lag passed over, and
            // nothing is given only once every sender is gone (or after lags
            // skipping more than `u64::MAX` messages).
            final(self).refusals() == old(self).refusals() ==> {
                &&& forall|i: int| old(self).deliveries().len() <= i < final(self).deliveries().len() - 1
                    ==> (#[trigger] final(self).deliveries()[i]) is Lagged
                &&& r matches Some(m) ==> final(self).deliveries().last() == Delivery::Message(m)
                &&& r is None ==> final(self).deliveries().last() is Closed
                    || skipped(taken(old(self).deliveries(), final(self).deliveries())) > u64::MAX
            },
            r is Some ==> final(self).refusals() == old(self).refusals(),
    {
        let r = self.read_loop(true);
        proof {
            if self.refusals() == old(self).refusals() {
                lemma_read_ends(old(self).deliveries(), self.deliveries(), r);
            }
        }
        r
    }

    /// The channel receiver of this subscriber, for reads that wait
    /// asynchronously outside the library (their deliveries are decided by
    /// `read_step` and `read_within`, and not recorded).
    pub fn receiver_mut(&mut self) -> (r: &mut TokioReceiver<D>)
        ensures
            *r == old(self).receiver(),
            final(self).receiver() == *final(r),
            final(self).sender() == old(self).sender(),
            final(self).deliveries() == old(self).deliveries(),
            final(self).refusals() == old(self).refusals(),
            final(self).same_handle(old(self)),
    {
        self.rx.raw_mut()
    }
}

impl<D: Clone, T: Copy> Clone for Subscriber<D, T> {
    /// A second subscriber on the same topic and channel, with a receiver of
    /// its own that gets the messages sent from now on.
    fn clone(&self) -> (s: Self)
        ensures
            s.topic_of() == self.topic_of(),
            s.channel() == self.channel(),
            s.capacity() == self.capacity(),
            s.sender() == self.sender(),
            s.refusals() == 0,
            s.reads_own_channel(),
            s.deliveries() == Seq::<Delivery<D>>::empty(),
    {
        Subscriber { topic: self.topic, rx: subscribe(&self.sndr), sndr: self.sndr.another() }
    }
}

} // verus!
