//! The mocked relay message channel used by the standalone development mode.
//!
//! A [`MockRelayChannel`] owns two bounded queues of synthetic relay
//! messages: raw downward messages and raw horizontal messages. The consumer
//! side drains all pending entries of both queues into each inherent bundle,
//! atomically, leaving the queues empty; the producer side is an extension
//! point for injecting synthetic messages. The queues are flume bounded
//! channels, held behind trusted wrappers whose contracts state what flume's
//! source shows: a drain returns every queued message in first-in-first-out
//! order and empties the queue, and an injection appends exactly when the
//! queue is below its bound.

use vstd::prelude::*;

verus! {

/// Rejected injection into a mock relay queue: the queue is at its bound.
#[derive(Clone, Copy, Debug, PartialEq, Eq, Structural)]
pub struct ChannelFull;

#[verifier::external_type_specification]
#[verifier::external_body]
#[verifier::reject_recursive_types(T)]
pub struct ExSender<T>(flume::Sender<T>);

#[verifier::external_type_specification]
#[verifier::external_body]
#[verifier::reject_recursive_types(T)]
pub struct ExReceiver<T>(flume::Receiver<T>);

/// The messages queued in a downward-message channel, oldest first.
pub uninterp spec fn byte_queue(rx: flume::Receiver<Vec<u8>>) -> Seq<Seq<u8>>;

/// The bound the downward-message channel was created with.
pub uninterp spec fn byte_queue_bound(rx: flume::Receiver<Vec<u8>>) -> nat;

/// The messages queued in a horizontal-message channel, oldest first; each
/// carries the identifier of the paired chain it purports to come from.
pub uninterp spec fn pair_queue(rx: flume::Receiver<(u32, Vec<u8>)>) -> Seq<(u32, Seq<u8>)>;

/// The bound the horizontal-message channel was created with.
pub uninterp spec fn pair_queue_bound(rx: flume::Receiver<(u32, Vec<u8>)>) -> nat;

/// Relies on flume::bounded: creates an empty channel with the given bound.
#[verifier::external_body]
fn new_byte_channel(capacity: usize) -> (r: (flume::Sender<Vec<u8>>, flume::Receiver<Vec<u8>>))
    ensures
        byte_queue(r.1) == Seq::<Seq<u8>>::empty(),
        byte_queue_bound(r.1) == capacity as nat,
{
    flume::bounded(capacity)
}

/// Relies on flume::bounded: creates an empty channel with the given bound.
#[verifier::external_body]
fn new_pair_channel(capacity: usize) -> (r: (flume::Sender<(u32, Vec<u8>)>, flume::Receiver<(u32, Vec<u8>)>))
    ensures
        pair_queue(r.1) == Seq::<(u32, Seq<u8>)>::empty(),
        pair_queue_bound(r.1) == capacity as nat,
{
    flume::bounded(capacity)
}

/// Relies on flume's Receiver::drain: takes every message currently sitting
/// in the channel, in queue order, and leaves the channel empty.
#[verifier::external_body]
fn drain_byte_channel(rx: &mut flume::Receiver<Vec<u8>>) -> (r: Vec<Vec<u8>>)
    ensures
        r@.map_values(|m: Vec<u8>| m@) == byte_queue(*old(rx)),
        byte_queue(*final(rx)) == Seq::<Seq<u8>>::empty(),
        byte_queue_bound(*final(rx)) == byte_queue_bound(*old(rx)),
{
    rx.drain().collect()
}

/// Relies on flume's Receiver::drain: takes every message currently sitting
/// in the channel, in queue order, and leaves the channel empty.
#[verifier::external_body]
fn drain_pair_channel(rx: &mut flume::Receiver<(u32, Vec<u8>)>) -> (r: Vec<(u32, Vec<u8>)>)
    ensures
        r@.map_values(|m: (u32, Vec<u8>)| (m.0, m.1@)) == pair_queue(*old(rx)),
        pair_queue(*final(rx)) == Seq::<(u32, Seq<u8>)>::empty(),
        pair_queue_bound(*final(rx)) == pair_queue_bound(*old(rx)),
{
    rx.drain().collect()
}

/// Relies on flume's Sender::try_send: appends the message exactly when the
/// bounded queue has room, and returns it rejected when the queue is full.
/// The paired receiver is borrowed so that the queue cannot be disconnected
/// during the call.
#[verifier::external_body]
fn send_byte_channel(
    tx: &flume::Sender<Vec<u8>>,
    rx: &mut flume::Receiver<Vec<u8>>,
    message: Vec<u8>,
) -> (r: Result<(), ChannelFull>)
    ensures
        byte_queue_bound(*final(rx)) == byte_queue_bound(*old(rx)),
        r is Ok <==> byte_queue(*old(rx)).len() < byte_queue_bound(*old(rx)),
        r is Ok ==> byte_queue(*final(rx)) == byte_queue(*old(rx)).push(message@),
        r is Err ==> byte_queue(*final(rx)) == byte_queue(*old(rx)),
{
    match tx.try_send(message) {
        Ok(()) => Ok(()),
        Err(_) => Err(ChannelFull),
    }
}

/// Relies on flume's Sender::try_send: appends the message exactly when the
/// bounded queue has room, and returns it rejected when the queue is full.
/// The paired receiver is borrowed so that the queue cannot be disconnected
/// during the call.
#[verifier::external_body]
fn send_pair_channel(
    tx: &flume::Sender<(u32, Vec<u8>)>,
    rx: &mut flume::Receiver<(u32, Vec<u8>)>,
    message: (u32, Vec<u8>),
) -> (r: Result<(), ChannelFull>)
    ensures
        pair_queue_bound(*final(rx)) == pair_queue_bound(*old(rx)),
        r is Ok <==> pair_queue(*old(rx)).len() < pair_queue_bound(*old(rx)),
        r is Ok ==> pair_queue(*final(rx)) == pair_queue(*old(rx)).push((message.0, message.1@)),
        r is Err ==> pair_queue(*final(rx)) == pair_queue(*old(rx)),
{
    match tx.try_send(message) {
        Ok(()) => Ok(()),
        Err(_) => Err(ChannelFull),
    }
}

/// The bounded queues of pending synthetic relay messages owned by a
/// standalone development node. Both queues start empty; each drain is
/// atomic, returns all currently queued entries in first-in-first-out
/// order, and resets the queue to empty.
pub struct MockRelayChannel {
    downward_tx: flume::Sender<Vec<u8>>,
    downward_rx: flume::Receiver<Vec<u8>>,
    horizontal_tx: flume::Sender<(u32, Vec<u8>)>,
    horizontal_rx: flume::Receiver<(u32, Vec<u8>)>,
}

impl MockRelayChannel {
    /// The pending downward messages, oldest first.
    pub closed spec fn pending_downward(self) -> Seq<Seq<u8>> {
        byte_queue(self.downward_rx)
    }

    /// The pending horizontal messages, oldest first.
    pub closed spec fn pending_horizontal(self) -> Seq<(u32, Seq<u8>)> {
        pair_queue(self.horizontal_rx)
    }

    /// The bound both queues were created with.
    pub closed spec fn bound(self) -> nat {
        byte_queue_bound(self.downward_rx)
    }

    /// Both queues share one bound.
    pub closed spec fn wf(self) -> bool {
        pair_queue_bound(self.horizontal_rx) == self.bound()
    }

    /// Creates a channel pair with both queues empty.
    pub fn new(capacity: usize) -> (r: MockRelayChannel)
        ensures
            r.wf(),
            r.bound() == capacity as nat,
            r.pending_downward() == Seq::<Seq<u8>>::empty(),
            r.pending_horizontal() == Seq::<(u32, Seq<u8>)>::empty(),
    {
        let (downward_tx, downward_rx) = new_byte_channel(capacity);
        let (horizontal_tx, horizontal_rx) = new_pair_channel(capacity);
        MockRelayChannel { downward_tx, downward_rx, horizontal_tx, horizontal_rx }
    }

    /// Drains all pending downward messages, leaving that queue empty.
    pub fn drain_downward(&mut self) -> (r: Vec<Vec<u8>>)
        requires
            old(self).wf(),
        ensures
            final(self).wf(),
            final(self).bound() == old(self).bound(),
            r@.map_values(|m: Vec<u8>| m@) == old(self).pending_downward(),
            final(self).pending_downward() == Seq::<Seq<u8>>::empty(),
            final(self).pending_horizontal() == old(self).pending_horizontal(),
    {
        drain_byte_channel(&mut self.downward_rx)
    }

    /// Drains all pending horizontal messages, leaving that queue empty.
    pub fn drain_horizontal(&mut self) -> (r: Vec<(u32, Vec<u8>)>)
        requires
            old(self).wf(),
        ensures
            final(self).wf(),
            final(self).bound() == old(self).bound(),
            r@.map_values(|m: (u32, Vec<u8>)| (m.0, m.1@)) == old(self).pending_horizontal(),
            final(self).pending_horizontal() == Seq::<(u32, Seq<u8>)>::empty(),
            final(self).pending_downward() == old(self).pending_downward(),
    {
        drain_pair_channel(&mut self.horizontal_rx)
    }

    /// Queues a synthetic downward message for the next drain. Succeeds
    /// exactly when the downward queue is below its bound; a rejected
    /// message leaves the queue unchanged.
    pub fn inject_downward(&mut self, message: Vec<u8>) -> (r: Result<(), ChannelFull>)
        requires
            old(self).wf(),
        ensures
            final(self).wf(),
            final(self).bound() == old(self).bound(),
            r is Ok <==> old(self).pending_downward().len() < old(self).bound(),
            r is Ok ==> final(self).pending_downward() == old(self).pending_downward().push(message@),
            r is Err ==> final(self).pending_downward() == old(self).pending_downward(),
            final(self).pending_horizontal() == old(self).pending_horizontal(),
    {
        send_byte_channel(&self.downward_tx, &mut self.downward_rx, message)
    }

    /// Queues a synthetic horizontal message for the next drain. Succeeds
    /// exactly when the horizontal queue is below its bound; a rejected
    /// message leaves the queue unchanged.
    pub fn inject_horizontal(&mut self, message: (u32, Vec<u8>)) -> (r: Result<(), ChannelFull>)
        requires
            old(self).wf(),
        ensures
            final(self).wf(),
            final(self).bound() == old(self).bound(),
            r is Ok <==> old(self).pending_horizontal().len() < old(self).bound(),
            r is Ok ==> final(self).pending_horizontal()
                == old(self).pending_horizontal().push((message.0, message.1@)),
            r is Err ==> final(self).pending_horizontal() == old(self).pending_horizontal(),
            final(self).pending_downward() == old(self).pending_downward(),
    {
        send_pair_channel(&self.horizontal_tx, &mut self.horizontal_rx, message)
    }
}

/// A drain observes the queue and empties it: the model of one drain on a
/// queue holding `pending` returns all of `pending` and leaves the queue
/// empty.
pub open spec fn drain_model<T>(pending: Seq<T>) -> (Seq<T>, Seq<T>) {
    (pending, Seq::<T>::empty())
}

/// Draining is idempotent-empty: with no intervening append, a second drain
/// returns nothing, whatever the first drain returned.
pub proof fn lemma_drain_idempotent_empty<T>(pending: Seq<T>)
    ensures
        drain_model::<T>(drain_model::<T>(pending).1).0 == Seq::<T>::empty(),
        drain_model::<T>(drain_model::<T>(pending).1).1 == Seq::<T>::empty(),
{
}

} // verus!
