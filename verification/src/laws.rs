//! What holds of a node across requests.
use vstd::prelude::*;
use crate::node::Registry;
use crate::node::hands_out;
use crate::node::served;
use crate::node::CrosstalkTopic;
use crate::node::answered;
use crate::channel::Delivery;
use crate::handle::read_past_lags;
use crate::handle::skipped;
use crate::handle::taken;

verus! {

/// One topic, one channel: two successful requests for the same topic, one
/// after the other, hand out handles on the same channel, and the second
/// leaves the node as the first left it.
pub proof fn law_same_topic_same_channel(a: Registry, b: Registry, z: Registry, k: u64, c1: nat, c2: nat)
    requires
        hands_out(a, b, k, c1),
        hands_out(b, z, k, c2),
    ensures
        c1 == c2,
        z == b,
{
}

/// Topics are isolated: successful requests for two different topics of a
/// node hand out handles on two different channels.
pub proof fn law_distinct_topics_distinct_channels(
    a: Registry,
    b: Registry,
    z: Registry,
    k1: u64,
    k2: u64,
    c1: nat,
    c2: nat,
)
    requires
        a.consistent(),
        hands_out(a, b, k1, c1),
        hands_out(b, z, k2, c2),
        k1 != k2,
    ensures
        c1 != c2,
        z.consistent(),
{
    assert(b.channels.contains_key(k1));
    assert(z.channels.contains_key(k1));
    assert(z.channels.contains_key(k2));
}

/// Topics are isolated: successful requests for two different topics of a
/// node, one after the other, hand out handles on two different channels.
pub proof fn law_distinct_topics_isolated<T: CrosstalkTopic>(
    a: Registry,
    b: Registry,
    z: Registry,
    t1: T,
    t2: T,
    c1: nat,
    c2: nat,
)
    requires
        a.consistent(),
        hands_out(a, b, t1.topic_key(), c1),
        hands_out(b, z, t2.topic_key(), c2),
        t1 != t2,
    ensures
        c1 != c2,
{
    T::lemma_keys_distinct(t1, t2);
    law_distinct_topics_distinct_channels(a, b, z, t1.topic_key(), t2.topic_key(), c1, c2);
}

/// A topic keeps its channel while other topics are served: a request for
/// topic `k2`, successful or not, leaves the channel of every other topic as
/// it was, and opens no channel for any other topic.
pub proof fn law_other_topics_untouched(a: Registry, b: Registry, k2: u64, ok: bool, c: nat, k: u64)
    requires
        served(a, b, k2, ok, c),
        k != k2,
    ensures
        b.channels.contains_key(k) == a.channels.contains_key(k),
        a.channels.contains_key(k) ==> b.channels[k] == a.channels[k],
        a.opened <= b.opened,
{
}

/// A channel opened for a topic is new: it is no channel of any other topic
/// that the node already served.
pub proof fn law_new_channels_are_fresh(a: Registry, b: Registry, k: u64, c: nat, k2: u64)
    requires
        a.consistent(),
        hands_out(a, b, k, c),
        !a.channels.contains_key(k),
        a.channels.contains_key(k2),
    ensures
        a.channels[k2] != c,
{
}

/// A request of a topic's declared data type never fails for want of a
/// channel: for a topic that has none yet it is always served, on a channel
/// opened now.
pub proof fn law_declared_type_served_on_new_topic(a: Registry, b: Registry, k: u64, ok: bool, c: nat)
    requires
        answered(a, b, k, true, ok, c),
        !a.channels.contains_key(k),
    ensures
        ok,
        c == a.opened,
        b == a.with_new_channel(k),
{
}

/// A request of a topic's declared data type for a topic that has a channel
/// is served on that very channel and changes nothing; it can be refused only
/// by the loss of the topic's stored sender, when that sender cannot be taken
/// back as one of the declared type. In no case is it refused while the node
/// stays as it was.
pub proof fn law_declared_type_reuses_channel(a: Registry, b: Registry, k: u64, ok: bool, c: nat)
    requires
        answered(a, b, k, true, ok, c),
        a.channels.contains_key(k),
    ensures
        ok ==> c == a.channels[k] && b == a,
        !ok ==> b == a.without(k),
        b != a ==> !ok,
{
    if !ok {
        assert(!b.channels.contains_key(k));
    }
}

/// Asking again with the declared data type: after a request that was
/// served, a second request for the same topic is served on the same
/// channel and leaves the node as the first left it, unless the topic's
/// stored sender is lost.
pub proof fn law_repeated_request_same_channel(a: Registry, b: Registry, z: Registry, k: u64, c1: nat, ok2: bool, c2: nat)
    requires
        answered(a, b, k, true, true, c1),
        answered(b, z, k, true, ok2, c2),
    ensures
        ok2 ==> c2 == c1 && z == b,
        !ok2 ==> z == b.without(k),
{
}

/// A request refused for a data type that is not the topic's declared one
/// leaves the node as it was: the topic keeps its channel (or still has
/// none), and a following request of the declared type is served on the
/// channel the topic had before (or on a new one), unless the topic's
/// stored sender is lost.
pub proof fn law_mismatch_leaves_node(a: Registry, b: Registry, z: Registry, k: u64, ok1: bool, c1: nat, ok2: bool, c2: nat)
    requires
        answered(a, b, k, false, ok1, c1),
        answered(b, z, k, true, ok2, c2),
    ensures
        !ok1,
        b == a,
        ok2 && a.channels.contains_key(k) ==> c2 == a.channels[k] && z == a,
        ok2 && !a.channels.contains_key(k) ==> c2 == a.opened && z == a.with_new_channel(k),
        !a.channels.contains_key(k) ==> ok2,
{
}

/// A read never stops on a lag: it passes over every lag and ends on the
/// first delivery that is not one. It gives the message of that delivery,
/// and nothing exactly when no message waited or every sender was gone. (A
/// read stops on a lag only once its lags skipped more than `u64::MAX`
/// messages in all.)
pub proof fn law_reads_pass_over_lags<D>(before: Seq<Delivery<D>>, after: Seq<Delivery<D>>, r: Option<D>)
    requires
        read_past_lags(before, after, r),
        skipped(taken(before, after)) <= u64::MAX,
    ensures
        !(after.last() is Lagged),
        forall|i: int| before.len() <= i < after.len() - 1 ==> (#[trigger] after[i]) is Lagged,
        r matches Some(m) ==> after.last() == Delivery::Message(m),
        r is None <==> after.last() is Empty || after.last() is Closed,
{
    let new = taken(before, after);
    assert(new.last() == after.last());
    assert forall|i: int| before.len() <= i < after.len() - 1 implies (#[trigger] after[i]) is Lagged by {
        assert(new[i - before.len()] == after[i]);
    }
}

} // verus!
