//! Receiving handles of channels, with the record of what they delivered.
//! The record is written only by the receive calls, together with the
//! receive itself, so that it holds exactly what the channel gave.
use vstd::prelude::*;
use tokio::sync::broadcast::Receiver;
use tokio::sync::broadcast::error::RecvError;
use tokio::sync::broadcast::error::TryRecvError;
use crate::channel::Delivery;

verus! {

/// A receiving handle of a channel, with the channel's label, the record of
/// every delivery taken from it through this handle (oldest first), and the
/// count of blocking receives it refused because an asynchronous runtime
/// ran on the thread.
#[verifier::reject_recursive_types(D)]
pub struct Listener<D> {
    rx: Receiver<D>,
    label: Ghost<nat>,
    log: Ghost<Seq<Delivery<D>>>,
    refused: Ghost<nat>,
}

impl<D> Listener<D> {
    /// The label of the channel this handle receives from.
    pub closed spec fn label(&self) -> nat {
        self.label@
    }

    /// The deliveries taken through this handle, oldest first.
    pub closed spec fn log(&self) -> Seq<Delivery<D>> {
        self.log@
    }

    /// How many blocking receives through this handle were refused.
    pub closed spec fn refusals(&self) -> nat {
        self.refused@
    }

    /// The tokio receiver behind this handle.
    pub closed spec fn raw(&self) -> Receiver<D> {
        self.rx
    }

    /// A handle on `rx`, a receiver of the channel labelled `label`, which
    /// gave nothing through this handle yet.
    pub fn adopt(rx: Receiver<D>, label: Ghost<nat>) -> (l: Self)
        ensures
            l.raw() == rx,
            l.label() == label@,
            l.log() == Seq::<Delivery<D>>::empty(),
            l.refusals() == 0,
    {
        Listener { rx, label, log: Ghost(Seq::empty()), refused: Ghost(0) }
    }

    /// The tokio receiver behind this handle, for receives that wait
    /// asynchronously outside the library; what they take is not recorded.
    pub fn raw_mut(&mut self) -> (r: &mut Receiver<D>)
        ensures
            *r == old(self).raw(),
            final(self).raw() == *final(r),
            final(self).label() == old(self).label(),
            final(self).log() == old(self).log(),
            final(self).refusals() == old(self).refusals(),
    {
        &mut self.rx
    }
}

/// `Receiver::try_recv` of tokio on the handle's receiver, its result told
/// apart by variant; the delivery it gives is the one appended to the
/// handle's record (the record is ghost: it is defined by this call). tokio
/// reports a lag only when at least one message was skipped, so a `Lagged`
/// count is positive. Which variant comes depends on the other handles of
/// the channel and is not stated.
#[verifier::external_body]
pub(crate) fn raw_try_recv<D: Clone>(l: &mut Listener<D>) -> (o: Delivery<D>)
    ensures
        final(l).log() == old(l).log().push(o),
        final(l).label() == old(l).label(),
        final(l).refusals() == old(l).refusals(),
        o is Lagged ==> o->Lagged_0 > 0,
{
    match l.rx.try_recv() {
        Ok(d) => Delivery::Message(d),
        Err(TryRecvError::Empty) => Delivery::Empty,
        Err(TryRecvError::Closed) => Delivery::Closed,
        Err(TryRecvError::Lagged(n)) => Delivery::Lagged(n),
    }
}

/// `Receiver::blocking_recv` of tokio on the handle's receiver, which panics
/// when a runtime is entered on the calling thread:
/// `tokio::runtime::Handle::try_current` is asked first, and where it finds
/// a runtime nothing is received, the refusal is counted and `None` is
/// given. Else the delivery is given and appended to the handle's record
/// (ghost, defined by this call): never an empty channel (the call waits),
/// and a lag count is positive.
#[verifier::external_body]
pub(crate) fn raw_blocking_recv<D: Clone>(l: &mut Listener<D>) -> (o: Option<Delivery<D>>)
    ensures
        match o {
            Some(d) => final(l).log() == old(l).log().push(d) && !(d is Empty)
                && (d is Lagged ==> d->Lagged_0 > 0)
                && final(l).refusals() == old(l).refusals(),
            None => final(l).log() == old(l).log() && final(l).refusals() == old(l).refusals() + 1,
        },
        final(l).label() == old(l).label(),
{
    match tokio::runtime::Handle::try_current() {
        Ok(_) => None,
        Err(_) => Some(match l.rx.blocking_recv() {
            Ok(d) => Delivery::Message(d),
            Err(RecvError::Closed) => Delivery::Closed,
            Err(RecvError::Lagged(n)) => Delivery::Lagged(n),
        }),
    }
}

} // verus!
