//! The bounded broadcast channels that carry a topic's messages. Every
//! sending and receiving handle carries the label of its channel, set here
//! alone; the record of what a receiving handle delivered is kept by the
//! receive calls themselves (see `listener`).
use vstd::prelude::*;
use std::sync::Arc;
use tokio::sync::broadcast::Sender;
use tokio::sync::broadcast::Receiver;
use crate::erased::AnyBox;
use crate::erased::downcast;
use crate::error::Error;
use crate::listener::Listener;
use crate::listener::raw_try_recv;
use crate::listener::raw_blocking_recv;

verus! {

#[verifier::external_type_specification]
#[verifier::external_body]
#[verifier::reject_recursive_types(T)]
pub struct ExSender<T>(tokio::sync::broadcast::Sender<T>);

#[verifier::external_type_specification]
#[verifier::external_body]
#[verifier::reject_recursive_types(T)]
pub struct ExReceiver<T>(tokio::sync::broadcast::Receiver<T>);

/// What one attempt to take a message from a receiver gave back.
pub enum Delivery<D> {
    /// The next message of the channel.
    Message(D),
    /// No message is waiting; senders remain, so one may come later.
    Empty,
    /// Every sender is gone: no message will ever come.
    Closed,
    /// The receiver fell behind by more than the channel holds; this many
    /// messages were skipped and the receiver moved on to the oldest one kept.
    Lagged(u64),
}

/// The message a delivery carries, if it carries one.
pub open spec fn delivered<D>(o: Delivery<D>) -> Option<D> {
    match o {
        Delivery::Message(d) => Some(d),
        _ => None,
    }
}

/// Opens a bounded broadcast channel with `tokio::sync::broadcast::channel`.
/// That function panics when `capacity` is 0 or above `usize::MAX / 2`,
/// hence the precondition. Nothing about the fresh channel is stated here.
#[verifier::external_body]
fn raw_channel<D: Clone>(capacity: usize) -> (Sender<D>, Receiver<D>)
    requires
        0 < capacity <= usize::MAX / 2,
{
    tokio::sync::broadcast::channel(capacity)
}

/// `Sender::subscribe` of tokio: a receiver that gets the messages sent after
/// this call. tokio panics past `usize::MAX >> 2` receivers on one channel,
/// a count no memory can hold; that bound is not stated.
#[verifier::external_body]
fn raw_subscribe<D>(s: &Sender<D>) -> Receiver<D> {
    s.subscribe()
}

/// `Sender::send` of tokio: broadcasts `value` to every receiver of the
/// channel. Gives back the number of receivers that will see it, or `None`
/// when the channel has no receiver at all (the value is then dropped).
#[verifier::external_body]
fn raw_send<D>(s: &Sender<D>, value: D) -> Option<usize> {
    s.send(value).ok()
}

/// Hands out the labels of the channels a node opens: each channel gets the
/// next number.
pub struct ChannelCounter {
    next: Ghost<nat>,
}

impl ChannelCounter {
    /// The label the next channel opened with this counter gets.
    pub closed spec fn next(&self) -> nat {
        self.next@
    }

    /// A counter that has opened no channel.
    pub fn new() -> (c: Self)
        ensures
            c.next() == 0,
    {
        ChannelCounter { next: Ghost(0) }
    }
}

/// A sending handle of a channel, with the channel's label and the capacity
/// the channel was opened with.
#[verifier::reject_recursive_types(D)]
pub struct TopicSender<D> {
    tx: Arc<Sender<D>>,
    label: Ghost<nat>,
    room: Ghost<nat>,
}

impl<D> TopicSender<D> {
    /// The label of the channel this handle sends on.
    pub closed spec fn label(&self) -> nat {
        self.label@
    }

    /// The capacity the channel of this handle was opened with.
    pub closed spec fn capacity(&self) -> nat {
        self.room@
    }

    /// The tokio sender behind this handle.
    pub closed spec fn shared(&self) -> Arc<Sender<D>> {
        self.tx
    }

    /// A handle on the channel of `tx`, a sender that no label was given;
    /// its label is an unknown one.
    pub fn adopt(tx: Arc<Sender<D>>) -> (s: Self)
        ensures
            s.shared() == tx,
    {
        TopicSender { tx, label: Ghost(arbitrary()), room: Ghost(arbitrary()) }
    }

    /// A second handle on the same sender, and so on the same channel.
    pub fn another(&self) -> (s: Self)
        ensures
            s.label() == self.label(),
            s.capacity() == self.capacity(),
            s.shared() == self.shared(),
    {
        TopicSender { tx: self.tx.clone(), label: self.label, room: self.room }
    }

    /// Broadcasts `value` to every receiver of the channel; gives the number
    /// of receivers that will see it, or `None` when there is none.
    pub fn send(&self, value: D) -> Option<usize> {
        raw_send(&*self.tx, value)
    }
}

impl<D: Clone> Listener<D> {
    /// Takes the next delivery without waiting; it is recorded as taken.
    pub fn receive(&mut self) -> (o: Delivery<D>)
        ensures
            final(self).log() == old(self).log().push(o),
            final(self).label() == old(self).label(),
            final(self).refusals() == old(self).refusals(),
            o is Lagged ==> o->Lagged_0 > 0,
    {
        raw_try_recv(self)
    }

    /// Waits for the next delivery, recorded as taken; where an asynchronous
    /// runtime runs on the thread, takes nothing, counts the refusal and
    /// gives `None`.
    pub fn receive_blocking(&mut self) -> (o: Option<Delivery<D>>)
        ensures
            match o {
                Some(d) => final(self).log() == old(self).log().push(d) && !(d is Empty)
                    && (d is Lagged ==> d->Lagged_0 > 0)
                    && final(self).refusals() == old(self).refusals(),
                None => final(self).log() == old(self).log()
                    && final(self).refusals() == old(self).refusals() + 1,
            },
            final(self).label() == old(self).label(),
    {
        raw_blocking_recv(self)
    }
}

/// Opens a channel of `capacity` messages, labelled with the counter's next
/// number, and gives a sending and a receiving handle on it.
pub fn open<D: Clone>(capacity: usize, counter: &mut ChannelCounter) -> (r: (TopicSender<D>, Listener<D>))
    requires
        0 < capacity <= usize::MAX / 2,
    ensures
        r.0.label() == old(counter).next(),
        r.0.capacity() == capacity,
        r.1.label() == old(counter).next(),
        r.1.log() == Seq::<Delivery<D>>::empty(),
        r.1.refusals() == 0,
        final(counter).next() == old(counter).next() + 1,
{
    let (tx, rx) = raw_channel::<D>(capacity);
    let label = Ghost(counter.next@);
    counter.next = Ghost(counter.next@ + 1);
    (TopicSender { tx: Arc::new(tx), label, room: Ghost(capacity as nat) }, Listener::adopt(rx, label))
}

/// A receiving handle on the channel of `s`, getting the messages sent after
/// this call.
pub fn subscribe<D>(s: &TopicSender<D>) -> (l: Listener<D>)
    ensures
        l.label() == s.label(),
        l.log() == Seq::<Delivery<D>>::empty(),
        l.refusals() == 0,
{
    Listener::adopt(raw_subscribe(&*s.tx), s.label)
}

/// A sending handle whose data type is erased, with its channel's label, so
/// that handles of different data types can be kept side by side.
pub struct ErasedSender {
    boxed: AnyBox,
    label: Ghost<nat>,
    room: Ghost<nat>,
}

impl ErasedSender {
    /// The label of the channel of the erased handle.
    pub closed spec fn label(&self) -> nat {
        self.label@
    }

    /// The capacity the channel of the erased handle was opened with.
    pub closed spec fn capacity(&self) -> nat {
        self.room@
    }
}

/// Erases the data type of `s`.
pub fn erase<D: Send + 'static>(s: TopicSender<D>) -> (e: ErasedSender)
    ensures
        e.label() == s.label(),
        e.capacity() == s.capacity(),
{
    ErasedSender { boxed: AnyBox::new(s.tx), label: s.label, room: s.room }
}

/// Takes back the handle in `e` as a handle of data type `D`, on the same
/// channel; `on_error` when the erased handle has another data type.
pub fn restore<D: 'static>(e: ErasedSender, on_error: Error) -> (r: Result<TopicSender<D>, Error>)
    ensures
        r matches Ok(s) ==> s.label() == e.label() && s.capacity() == e.capacity(),
        r matches Err(err) ==> err == on_error,
{
    match downcast::<Arc<Sender<D>>>(e.boxed, on_error) {
        Ok(tx) => Ok(TopicSender { tx, label: e.label, room: e.room }),
        Err(err) => Err(err),
    }
}

} // verus!
