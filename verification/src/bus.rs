//! The command bus: a bounded first-in first-out queue of
//! [`ControlMessages`] between any number of producers and the one
//! dispatcher.
//!
//! The queue itself is an `embassy_sync` channel. This module states its
//! discipline over the channel's non-suspending operations: a message is
//! taken while there is room and refused while there is none, and messages
//! leave in the order in which they were taken. A producer that is refused
//! waits and tries again once the dispatcher has drained an entry; a
//! dispatcher that finds the bus empty waits for the next message.

use crate::control::ControlMessages;
use embassy_sync::blocking_mutex::raw::CriticalSectionRawMutex;
use embassy_sync::channel::Channel;
use embassy_sync::channel::TryReceiveError;
use embassy_sync::channel::TrySendError;
use vstd::prelude::*;

verus! {

/// Number of messages the bus holds at most.
pub const CAPACITY: usize = 10;

/// Whether a queue with contents `q` takes one more message.
pub open spec fn has_room(q: Seq<ControlMessages>) -> bool {
    q.len() < CAPACITY
}

/// The contents after an attempt to enqueue `message`: appended at the back
/// if there is room, unchanged if there is none.
pub open spec fn enqueued(q: Seq<ControlMessages>, message: ControlMessages) -> Seq<
    ControlMessages,
> {
    if has_room(q) {
        q.push(message)
    } else {
        q
    }
}

/// The contents after an attempt to dequeue: the oldest message gone, or
/// unchanged if there was none.
pub open spec fn dequeued(q: Seq<ControlMessages>) -> Seq<ControlMessages> {
    if q.len() > 0 {
        q.drop_first()
    } else {
        q
    }
}

/// An `embassy_sync::channel::Channel` of ten [`ControlMessages`]. The
/// verifier is told nothing of what is inside; what the channel's operations
/// do to [`channel_contents`] is taken on trust from the four functions
/// below, which do nothing but call them.
#[verifier::external_body]
pub struct BoundedChannel {
    channel: Channel<CriticalSectionRawMutex, ControlMessages, 10>,
}

/// The messages a channel holds, oldest first.
pub uninterp spec fn channel_contents(channel: BoundedChannel) -> Seq<ControlMessages>;

/// Calls `embassy_sync::channel::Channel::new`. Trusted: the new channel
/// holds nothing.
#[verifier::external_body]
fn channel_new() -> (channel: BoundedChannel)
    ensures
        channel_contents(channel) == Seq::<ControlMessages>::empty(),
{
    BoundedChannel { channel: Channel::new() }
}

/// Calls `embassy_sync::channel::Channel::try_send`. Trusted: while the
/// channel holds fewer than ten messages the message is appended at the
/// back; at ten the channel is left as it was and the message is handed
/// back; the call does not panic.
#[verifier::external_body]
fn channel_try_send(channel: &mut BoundedChannel, message: ControlMessages) -> (r: Result<
    (),
    ControlMessages,
>)
    ensures
        r is Ok <==> channel_contents(*old(channel)).len() < 10,
        r matches Err(m) ==> m == message,
        channel_contents(*final(channel)) == if r is Ok {
            channel_contents(*old(channel)).push(message)
        } else {
            channel_contents(*old(channel))
        },
    no_unwind
{
    match channel.channel.try_send(message) {
        Ok(()) => Ok(()),
        Err(TrySendError::Full(m)) => Err(m),
    }
}

/// Calls `embassy_sync::channel::Channel::try_receive`. Trusted: the oldest
/// message is removed and returned; an empty channel is left as it was and
/// nothing is returned; the call does not panic.
#[verifier::external_body]
fn channel_try_receive(channel: &mut BoundedChannel) -> (r: Option<ControlMessages>)
    ensures
        r is Some <==> channel_contents(*old(channel)).len() > 0,
        r matches Some(m) ==> m == channel_contents(*old(channel)).first(),
        channel_contents(*final(channel)) == if r is Some {
            channel_contents(*old(channel)).drop_first()
        } else {
            channel_contents(*old(channel))
        },
    no_unwind
{
    match channel.channel.try_receive() {
        Ok(m) => Some(m),
        Err(TryReceiveError::Empty) => None,
    }
}

/// Calls `embassy_sync::channel::Channel::len`. Trusted: the result is the
/// number of messages the channel holds.
#[verifier::external_body]
fn channel_len(channel: &BoundedChannel) -> (n: usize)
    ensures
        n == channel_contents(*channel).len(),
{
    channel.channel.len()
}

/// The command bus. Its view is the sequence of waiting messages, oldest
/// first; it never holds more than [`CAPACITY`] of them.
pub struct CommandBus {
    channel: BoundedChannel,
}

impl View for CommandBus {
    type V = Seq<ControlMessages>;

    closed spec fn view(&self) -> Seq<ControlMessages> {
        channel_contents(self.channel)
    }
}

impl CommandBus {
    #[verifier::type_invariant]
    spec fn within_capacity(self) -> bool {
        channel_contents(self.channel).len() <= CAPACITY
    }

    /// An empty bus.
    pub fn new() -> (bus: Self)
        ensures
            bus@ == Seq::<ControlMessages>::empty(),
    {
        CommandBus { channel: channel_new() }
    }

    /// Number of messages waiting.
    pub fn len(&self) -> (n: usize)
        ensures
            n == self@.len(),
            n <= CAPACITY,
    {
        proof {
            use_type_invariant(self);
        }
        channel_len(&self.channel)
    }

    /// Whether no message is waiting, so that the dispatcher would have to
    /// wait for one.
    pub fn is_empty(&self) -> (b: bool)
        ensures
            b == (self@.len() == 0),
    {
        self.len() == 0
    }

    /// Whether the bus is at capacity, so that a producer would have to wait.
    pub fn is_full(&self) -> (b: bool)
        ensures
            b == !has_room(self@),
            b == (self@.len() == CAPACITY),
    {
        self.len() == CAPACITY
    }

    /// Puts `message` at the back of the bus if there is room. At capacity
    /// the bus is left untouched and the message is handed back.
    pub fn try_enqueue(&mut self, message: ControlMessages) -> (r: Result<(), ControlMessages>)
        ensures
            r is Ok <==> has_room(old(self)@),
            r matches Err(m) ==> m == message,
            final(self)@ == enqueued(old(self)@, message),
            final(self)@.len() <= CAPACITY,
    {
        proof {
            use_type_invariant(&*self);
        }
        channel_try_send(&mut self.channel, message)
    }

    /// Takes the oldest message off the bus, if there is one.
    pub fn try_dequeue(&mut self) -> (r: Option<ControlMessages>)
        ensures
            r is Some <==> old(self)@.len() > 0,
            r matches Some(m) ==> m == old(self)@.first(),
            final(self)@ == dequeued(old(self)@),
            final(self)@.len() <= CAPACITY,
    {
        proof {
            use_type_invariant(&*self);
        }
        channel_try_receive(&mut self.channel)
    }
}

/// Backpressure: a bus at capacity refuses one more message and keeps what
/// it holds; as soon as one entry has been drained the same message is
/// taken, behind everything that was waiting.
pub proof fn lemma_backpressure(q: Seq<ControlMessages>, message: ControlMessages)
    requires
        q.len() == CAPACITY,
    ensures
        !has_room(q),
        enqueued(q, message) == q,
        has_room(dequeued(q)),
        enqueued(dequeued(q), message) == q.drop_first().push(message),
        enqueued(dequeued(q), message).len() == CAPACITY,
{
}

/// The contents after attempts to enqueue `messages` one after another.
pub open spec fn filled(q: Seq<ControlMessages>, messages: Seq<ControlMessages>) -> Seq<
    ControlMessages,
>
    decreases messages.len(),
{
    if messages.len() == 0 {
        q
    } else {
        filled(enqueued(q, messages.first()), messages.drop_first())
    }
}

/// The contents after `k` attempts to dequeue.
pub open spec fn drained(q: Seq<ControlMessages>, k: nat) -> Seq<ControlMessages>
    decreases k,
{
    if k == 0 {
        q
    } else {
        dequeued(drained(q, (k - 1) as nat))
    }
}

/// While there is room for all of them, messages are taken in the order in
/// which they are offered, behind what is already waiting.
pub proof fn lemma_filled(q: Seq<ControlMessages>, messages: Seq<ControlMessages>)
    requires
        q.len() + messages.len() <= CAPACITY,
    ensures
        filled(q, messages) == q + messages,
    decreases messages.len(),
{
    if messages.len() == 0 {
        assert(q + messages =~= q);
    } else {
        lemma_filled(q.push(messages.first()), messages.drop_first());
        assert(q.push(messages.first()) + messages.drop_first() =~= q + messages);
    }
}

/// Draining `k` entries, where there are that many, takes them from the
/// front and leaves the rest in place.
pub proof fn lemma_drained(q: Seq<ControlMessages>, k: nat)
    requires
        k <= q.len(),
    ensures
        drained(q, k) == q.skip(k as int),
    decreases k,
{
    if k > 0 {
        lemma_drained(q, (k - 1) as nat);
        assert(q.skip(k as int - 1).drop_first() =~= q.skip(k as int));
    } else {
        assert(q.skip(0) =~= q);
    }
}

/// First in, first out, whoever the producers are: of the messages put on an
/// empty bus, the one that leaves after `k` others have left is the one
/// that was put on it after `k` others.
pub proof fn lemma_fifo(messages: Seq<ControlMessages>, k: nat)
    requires
        messages.len() <= CAPACITY,
        k < messages.len(),
    ensures
        filled(Seq::empty(), messages) == messages,
        drained(filled(Seq::empty(), messages), k).len() == messages.len() - k,
        drained(filled(Seq::empty(), messages), k).first() == messages[k as int],
{
    lemma_filled(Seq::empty(), messages);
    assert(Seq::<ControlMessages>::empty() + messages =~= messages);
    lemma_drained(messages, k);
}

} // verus!
