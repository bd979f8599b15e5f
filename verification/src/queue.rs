//! The queues that carry raw MIDI messages from one stage to the next:
//! unbounded, first in first out, with one producer and one consumer.

use vstd::prelude::*;
use std::collections::VecDeque;

verus! {

/// What a queue holds, as plain mathematical values.
pub struct QueueView {
    /// The messages that wait, the oldest first.
    pub pending: Seq<Seq<u8>>,
    /// The producer is gone: nothing more will be enqueued.
    pub producer_closed: bool,
    /// The consumer is gone: what is enqueued from now on is dropped.
    pub consumer_closed: bool,
}

/// What the consumer gets when it asks for the next message.
pub enum Received {
    /// The oldest message that waited.
    Message(Vec<u8>),
    /// Nothing waits, and the producer may still send.
    Empty,
    /// Nothing waits, and the producer is gone.
    Disconnected,
}

impl QueueView {
    /// The queue after `message` was offered to it.
    pub open spec fn enqueue(self, message: Seq<u8>) -> QueueView {
        if self.consumer_closed {
            self
        } else {
            QueueView { pending: self.pending.push(message), ..self }
        }
    }

    /// The queue after the consumer asked for the next message.
    pub open spec fn dequeue(self) -> QueueView {
        if self.pending.len() > 0 {
            QueueView { pending: self.pending.drop_first(), ..self }
        } else {
            self
        }
    }

    /// The message that the consumer gets next, if one waits.
    pub open spec fn front(self) -> Option<Seq<u8>> {
        if self.pending.len() > 0 {
            Some(self.pending[0])
        } else {
            None
        }
    }
}

/// The bytes of each message of `items`.
pub open spec fn messages_of(items: Seq<Vec<u8>>) -> Seq<Seq<u8>> {
    Seq::new(items.len(), |i: int| items[i]@)
}

/// An unbounded first-in-first-out queue of raw MIDI messages.
pub struct MidiQueue {
    items: VecDeque<Vec<u8>>,
    producer_closed: bool,
    consumer_closed: bool,
}

impl View for MidiQueue {
    type V = QueueView;

    closed spec fn view(&self) -> QueueView {
        QueueView {
            pending: messages_of(self.items@),
            producer_closed: self.producer_closed,
            consumer_closed: self.consumer_closed,
        }
    }
}

impl MidiQueue {
    /// An empty queue with both ends open.
    pub fn new() -> (queue: MidiQueue)
        ensures
            queue@.pending.len() == 0,
            !queue@.producer_closed,
            !queue@.consumer_closed,
    {
        MidiQueue { items: VecDeque::new(), producer_closed: false, consumer_closed: false }
    }

    /// Offers a message to the queue without blocking. It is appended
    /// behind the messages that wait, unless the consumer is gone: then it
    /// is dropped and `false` comes back.
    pub fn enqueue(&mut self, message: Vec<u8>) -> (accepted: bool)
        ensures
            accepted == !old(self)@.consumer_closed,
            final(self)@ == old(self)@.enqueue(message@),
    {
        if self.consumer_closed {
            return false;
        }
        self.items.push_back(message);
        assert(messages_of(self.items@) =~= messages_of(old(self).items@).push(message@));
        true
    }

    /// Takes the oldest message that waits. With none waiting the queue is
    /// unchanged, and the answer tells whether the producer is gone.
    pub fn dequeue(&mut self) -> (received: Received)
        ensures
            final(self)@ == old(self)@.dequeue(),
            match received {
                Received::Message(m) => old(self)@.front() == Some(m@),
                Received::Empty => old(self)@.front().is_none() && !old(self)@.producer_closed,
                Received::Disconnected => {
                    &&& old(self)@.front().is_none()
                    &&& old(self)@.producer_closed
                },
            },
    {
        match self.items.pop_front() {
            Some(message) => {
                assert(messages_of(self.items@) =~= messages_of(old(self).items@).drop_first());
                Received::Message(message)
            },
            None => {
                if self.producer_closed {
                    Received::Disconnected
                } else {
                    Received::Empty
                }
            },
        }
    }

    /// The number of messages that wait.
    pub fn len(&self) -> (n: usize)
        ensures
            n == self@.pending.len(),
    {
        self.items.len()
    }

    /// Marks the producer as gone. What waits can still be taken.
    pub fn close_producer(&mut self)
        ensures
            final(self)@ == (QueueView { producer_closed: true, ..old(self)@ }),
    {
        self.producer_closed = true;
    }

    /// Marks the consumer as gone. What is offered from now on is dropped.
    pub fn close_consumer(&mut self)
        ensures
            final(self)@ == (QueueView { consumer_closed: true, ..old(self)@ }),
    {
        self.consumer_closed = true;
    }
}

/// The queue that carries raw MIDI messages to a relay.
pub fn create_osc_sender_channel() -> (queue: MidiQueue)
    ensures
        queue@.pending.len() == 0,
        !queue@.producer_closed,
        !queue@.consumer_closed,
{
    MidiQueue::new()
}

/// A copy of the bytes of a message.
pub fn copy_message(message: &[u8]) -> (copy: Vec<u8>)
    ensures
        copy@ == message@,
{
    let mut copy: Vec<u8> = Vec::new();
    let mut i: usize = 0;
    while i < message.len()
        invariant
            i <= message@.len(),
            copy@ == message@.subrange(0, i as int),
        decreases message@.len() - i,
    {
        copy.push(message[i]);
        i += 1;
        assert(copy@ =~= message@.subrange(0, i as int));
    }
    assert(message@.subrange(0, message@.len() as int) =~= message@);
    copy
}

/// Messages leave a queue in the order in which they entered it: three
/// messages offered to a queue whose consumer is there wait behind what
/// waited before, and from an empty queue they are taken first to last.
pub proof fn lemma_fifo_order(q: QueueView, m1: Seq<u8>, m2: Seq<u8>, m3: Seq<u8>)
    requires
        !q.consumer_closed,
    ensures
        q.enqueue(m1).enqueue(m2).enqueue(m3).pending == q.pending + seq![m1, m2, m3],
        q.pending.len() == 0 ==> {
            let filled = q.enqueue(m1).enqueue(m2).enqueue(m3);
            &&& filled.front() == Some(m1)
            &&& filled.dequeue().front() == Some(m2)
            &&& filled.dequeue().dequeue().front() == Some(m3)
            &&& filled.dequeue().dequeue().dequeue().pending.len() == 0
        },
{
    assert(q.enqueue(m1).enqueue(m2).enqueue(m3).pending =~= q.pending + seq![m1, m2, m3]);
}

/// A message offered to a queue is taken only after every message that
/// waited before it, and those are taken in their old order.
pub proof fn lemma_enqueue_keeps_order(q: QueueView, m: Seq<u8>, i: int)
    requires
        !q.consumer_closed,
        0 <= i < q.pending.len(),
    ensures
        q.enqueue(m).pending[i] == q.pending[i],
        q.enqueue(m).pending[q.pending.len() as int] == m,
        q.enqueue(m).pending.len() == q.pending.len() + 1,
{
}

} // verus!
