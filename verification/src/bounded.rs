//! The node that users hold: an inner node behind a lock, so that clones of
//! one node can serve publishers and subscribers from several threads.
use vstd::prelude::*;
use std::sync::Arc;
use tokio::sync::Mutex;
use tokio::sync::MutexGuard;
use crate::error::Error;
use crate::handle::Publisher;
use crate::handle::Subscriber;
use crate::node::CrosstalkData;
use crate::node::CrosstalkPubSub;
use crate::node::CrosstalkTopic;
use crate::node::ImplementedBoundedNode;

verus! {

#[verifier::external_type_specification]
#[verifier::external_body]
#[verifier::reject_recursive_types(T)]
pub struct ExMutex<T: ?Sized>(tokio::sync::Mutex<T>);

#[verifier::external_type_specification]
#[verifier::external_body]
#[verifier::reject_recursive_types(T)]
pub struct ExMutexGuard<'a, T: ?Sized>(tokio::sync::MutexGuard<'a, T>);

/// `tokio::sync::Mutex::new`: a lock around `value`. The value behind a
/// lock that may be shared is not stated.
#[verifier::external_body]
pub(crate) fn new_lock<N>(value: N) -> Mutex<N> {
    Mutex::new(value)
}

/// `tokio::sync::Mutex::blocking_lock`, which panics when a runtime is
/// entered on the calling thread: `tokio::runtime::Handle::try_current` is
/// asked first, and where it finds a runtime the lock is not taken and `None`
/// is given. Else the guard of the lock, once it is free.
#[verifier::external_body]
pub(crate) fn blocking_lock<'a, N>(m: &'a Mutex<N>) -> Option<MutexGuard<'a, N>> {
    match tokio::runtime::Handle::try_current() {
        Ok(_) => None,
        Err(_) => Some(m.blocking_lock()),
    }
}

/// `DerefMut` of tokio's `MutexGuard`: the locked value. What it holds is not
/// stated (other clones of the lock may have changed it).
#[verifier::external_body]
pub(crate) fn locked<'a, 'b, N>(g: &'a mut MutexGuard<'b, N>) -> &'a mut N {
    &mut **g
}

/// A node to make publishers and subscribers on, each topic's channel
/// holding `size` messages. Clones of a node share its channels.
#[verifier::reject_recursive_types(T)]
pub struct BoundedNode<T> {
    pub node: Arc<Mutex<ImplementedBoundedNode<T>>>,
    pub size: usize,
}

impl<T> Clone for BoundedNode<T> {
    /// A second handle on the same node: it shares the node's lock and so
    /// its channels.
    fn clone(&self) -> (n: Self)
        ensures
            n.size == self.size,
            n.node == self.node,
    {
        BoundedNode { node: self.node.clone(), size: self.size }
    }
}

impl<T: CrosstalkTopic> BoundedNode<T> where ImplementedBoundedNode<T>: CrosstalkPubSub<T> {
    /// A node whose channels hold `size` messages each. A channel cannot be
    /// opened with no room (nor above `usize::MAX / 2`), so neither size is
    /// accepted.
    pub fn new(size: usize) -> (n: Self)
        requires
            0 < size <= usize::MAX / 2,
        ensures
            n.size == size,
    {
        BoundedNode { node: Arc::new(new_lock(ImplementedBoundedNode::new(size))), size }
    }

    /// A publisher for `topic`, or an error when `D` is not its data type.
    /// Waits for the node's lock; where an asynchronous runtime runs on the
    /// thread, which cannot be blocked, gives `Error::BlockingInRuntime`.
    pub fn publisher_blocking<D: CrosstalkData>(&mut self, topic: T) -> (r: Result<Publisher<D, T>, Error>)
        ensures
            r matches Ok(p) ==> p.topic_of() == topic,
            r matches Err(e) ==> e is PublisherMismatch || e is BlockingInRuntime,
    {
        match blocking_lock(&*self.node) {
            Some(mut guard) => {
                let node = locked(&mut guard);
                node.publisher(topic)
            },
            None => Err(Error::BlockingInRuntime),
        }
    }

    /// A subscriber for `topic`, or an error when `D` is not its data type.
    /// Waits for the node's lock; where an asynchronous runtime runs on the
    /// thread, which cannot be blocked, gives `Error::BlockingInRuntime`.
    pub fn subscriber_blocking<D: CrosstalkData>(&mut self, topic: T) -> (r: Result<Subscriber<D, T>, Error>)
        ensures
            r matches Ok(s) ==> s.topic_of() == topic && s.reads_own_channel()
                && s.deliveries() == Seq::<crate::channel::Delivery<D>>::empty(),
            r matches Err(e) ==> e is SubscriberMismatch || e is BlockingInRuntime,
    {
        match blocking_lock(&*self.node) {
            Some(mut guard) => {
                let node = locked(&mut guard);
                node.subscriber(topic)
            },
            None => Err(Error::BlockingInRuntime),
        }
    }

    /// A publisher and a subscriber for `topic`, or the first error.
    /// Waits for the node's lock; where an asynchronous runtime runs on the
    /// thread, which cannot be blocked, gives `Error::BlockingInRuntime`.
    pub fn pubsub_blocking<D: CrosstalkData>(&mut self, topic: T) -> (r: Result<(Publisher<D, T>, Subscriber<D, T>), Error>)
        ensures
            r matches Ok((p, s)) ==> p.topic_of() == topic && s.topic_of() == topic
                && p.channel() == s.channel() && s.reads_own_channel()
                && s.deliveries() == Seq::<crate::channel::Delivery<D>>::empty(),
            r matches Err(e) ==> e is PublisherMismatch || e is SubscriberMismatch || e is BlockingInRuntime,
    {
        match blocking_lock(&*self.node) {
            Some(mut guard) => {
                let node = locked(&mut guard);
                node.pubsub(topic)
            },
            None => Err(Error::BlockingInRuntime),
        }
    }
}

} // verus!
