use vstd::prelude::*;
use vstd::arithmetic::div_mod::{lemma_mod_bound, lemma_mod_equivalence, lemma_small_mod};
use crate::message::Message;

verus! {

/// What a receiver gets when it asks the channel for its next message.
pub enum Received {
    /// The next message in publication order.
    Message(Message),
    /// The receiver fell behind by more than the capacity; it has skipped
    /// forward over this many messages to the oldest one still retained.
    Lagged(u64),
    /// Nothing new has been published yet.
    Empty,
    /// The channel is closed and everything published has been received.
    Closed,
}

/// Abstract state of a broadcast channel: everything ever published, in order,
/// the fixed capacity, whether it was closed, and how many receivers are live.
pub struct ChannelModel {
    pub published: Seq<Message>,
    pub capacity: nat,
    pub closed: bool,
    pub subscribers: nat,
}

impl ChannelModel {
    /// Number of messages published so far; also the position of the next one.
    pub open spec fn sent(self) -> nat {
        self.published.len()
    }

    /// Position of the oldest message still retained.
    pub open spec fn oldest(self) -> nat {
        if self.sent() > self.capacity {
            (self.sent() - self.capacity) as nat
        } else {
            0
        }
    }

    /// The state after publishing `m`; a closed channel takes nothing more.
    pub open spec fn publish(self, m: Message) -> ChannelModel {
        if self.closed {
            self
        } else {
            ChannelModel { published: self.published.push(m), ..self }
        }
    }

    /// The state after publishing each of `ms` in turn.
    pub open spec fn publish_all(self, ms: Seq<Message>) -> ChannelModel
        decreases ms.len(),
    {
        if ms.len() == 0 {
            self
        } else {
            self.publish_all(ms.drop_last()).publish(ms.last())
        }
    }

    /// What a receiver at position `pos` gets, and its position afterwards.
    pub open spec fn recv(self, pos: nat) -> (Received, nat) {
        if pos >= self.sent() {
            (if self.closed { Received::Closed } else { Received::Empty }, pos)
        } else if pos < self.oldest() {
            (Received::Lagged((self.oldest() - pos) as u64), self.oldest())
        } else {
            (Received::Message(self.published[pos as int]), pos + 1)
        }
    }
}

/// A bounded, lossy, multi-consumer broadcast channel. It keeps the last
/// `capacity` messages in a ring buffer; each receiver holds the position of
/// the next message it wants, so a receiver that falls too far behind finds
/// its message overwritten and skips forward.
pub struct Broadcaster {
    slots: Vec<Message>,
    capacity: usize,
    sent: u64,
    subscribers: u64,
    closed: bool,
    published: Ghost<Seq<Message>>,
}

/// The consuming end of one subscription: the position of the next message.
pub struct Receiver {
    next: u64,
}

impl Receiver {
    /// Position, in publication order, of the next message this receiver wants.
    pub closed spec fn pos(&self) -> nat {
        self.next as nat
    }

    /// Position of the next message this receiver wants.
    pub fn position(&self) -> (r: u64)
        ensures
            r == self.pos(),
    {
        self.next
    }
}

impl View for Broadcaster {
    type V = ChannelModel;

    closed spec fn view(&self) -> ChannelModel {
        ChannelModel {
            published: self.published@,
            capacity: self.capacity as nat,
            closed: self.closed,
            subscribers: self.subscribers as nat,
        }
    }
}

impl Broadcaster {
    /// The ring buffer holds, at slot `p % capacity`, the message published at
    /// every retained position `p`.
    pub closed spec fn wf(&self) -> bool {
        &&& self.capacity > 0
        &&& self.sent as nat == self.published@.len()
        &&& self.slots@.len() == if self.sent > self.capacity { self.capacity as nat } else { self.sent as nat }
        &&& forall|p: int|
            self@.oldest() <= p < self.sent ==> #[trigger] self.slots@[p % (self.capacity as int)]
                == self.published@[p]
    }

    /// A well-formed channel has a positive capacity and counts what it has
    /// published in a `u64`.
    pub proof fn lemma_wf(&self)
        requires
            self.wf(),
        ensures
            self@.capacity > 0,
            self@.sent() <= u64::MAX,
    {
    }

    /// A fresh, open channel that retains up to `capacity` messages.
    pub fn new(capacity: usize) -> (r: Broadcaster)
        requires
            capacity > 0,
        ensures
            r.wf(),
            r@.published == Seq::<Message>::empty(),
            r@.capacity == capacity,
            !r@.closed,
            r@.subscribers == 0,
    {
        Broadcaster {
            slots: Vec::new(),
            capacity,
            sent: 0,
            subscribers: 0,
            closed: false,
            published: Ghost(Seq::empty()),
        }
    }

    /// Number of messages published so far.
    pub fn sent_count(&self) -> (r: u64)
        requires
            self.wf(),
        ensures
            r == self@.sent(),
    {
        self.sent
    }

    /// Number of live receivers.
    pub fn subscriber_count(&self) -> (r: u64)
        ensures
            r == self@.subscribers,
    {
        self.subscribers
    }

    /// The capacity fixed at construction.
    pub fn capacity(&self) -> (r: usize)
        ensures
            r == self@.capacity,
    {
        self.capacity
    }

    /// Whether the channel has been closed.
    pub fn is_closed(&self) -> (r: bool)
        ensures
            r == self@.closed,
    {
        self.closed
    }

    /// A new receiver that sees only what is published from now on.
    pub fn subscribe(&mut self) -> (rx: Receiver)
        requires
            old(self).wf(),
            old(self)@.subscribers < u64::MAX,
        ensures
            final(self).wf(),
            final(self)@ == (ChannelModel { subscribers: old(self)@.subscribers + 1, ..old(self)@ }),
            rx.pos() == old(self)@.sent(),
    {
        self.subscribers = self.subscribers + 1;
        Receiver { next: self.sent }
    }

    /// Gives up a receiver obtained from `subscribe`.
    pub fn unsubscribe(&mut self, rx: Receiver)
        requires
            old(self).wf(),
        ensures
            final(self).wf(),
            final(self)@ == (ChannelModel {
                subscribers: if old(self)@.subscribers > 0 { (old(self)@.subscribers - 1) as nat } else { 0 },
                ..old(self)@
            }),
    {
        if self.subscribers > 0 {
            self.subscribers = self.subscribers - 1;
        }
    }

    /// Marks the channel closed: nothing more is published, and receivers get
    /// `Closed` once they have drained what was.
    pub fn close(&mut self)
        requires
            old(self).wf(),
        ensures
            final(self).wf(),
            final(self)@ == (ChannelModel { closed: true, ..old(self)@ }),
    {
        self.closed = true;
    }

    /// Sends `m` to every current receiver, overwriting the oldest retained
    /// message when the buffer is full. Returns whether any receiver was live
    /// and the channel open; zero receivers is not an error.
    pub fn publish(&mut self, m: Message) -> (delivered: bool)
        requires
            old(self).wf(),
            old(self)@.sent() < u64::MAX,
        ensures
            final(self).wf(),
            final(self)@ == old(self)@.publish(m),
            delivered == (!old(self)@.closed && old(self)@.subscribers > 0),
    {
        if self.closed {
            return false;
        }
        let ghost old_slots = self.slots@;
        let ghost old_pub = self.published@;
        let cap = self.capacity;
        let s = self.sent;
        if s < cap as u64 {
            self.slots.push(m);
            proof {
                self.published@ = old_pub.push(m);
                assert forall|p: int| self@.oldest() <= p < s + 1 implies #[trigger] self.slots@[p % (cap as int)]
                    == self.published@[p] by {
                    lemma_small_mod(p as nat, cap as nat);
                    if p < s {
                        assert(old_slots[p % (cap as int)] == old_pub[p]);
                    }
                }
            }
        } else {
            let idx = (s % (cap as u64)) as usize;
            self.slots.set(idx, m);
            proof {
                self.published@ = old_pub.push(m);
                assert forall|p: int| self@.oldest() <= p < s + 1 implies #[trigger] self.slots@[p % (cap as int)]
                    == self.published@[p] by {
                    if p < s {
                        assert(old_slots[p % (cap as int)] == old_pub[p]);
                        lemma_mod_equivalence(s as int, p, cap as int);
                        lemma_small_mod((s - p) as nat, cap as nat);
                    }
                }
            }
        }
        self.sent = s + 1;
        self.subscribers > 0
    }

    /// Takes the next message for `rx`: the message at its position when that
    /// is still retained; a lag report, moving `rx` to the oldest retained
    /// message, when it has been overwritten; otherwise `Empty`, or `Closed`
    /// once the channel is closed.
    pub fn recv(&self, rx: &mut Receiver) -> (r: Received)
        requires
            self.wf(),
        ensures
            (r, final(rx).pos()) == self@.recv(old(rx).pos()),
    {
        let cap = self.capacity;
        let s = self.sent;
        let len = self.slots.len();
        let oldest = s - len as u64;
        if rx.next >= s {
            if self.closed {
                Received::Closed
            } else {
                Received::Empty
            }
        } else if rx.next < oldest {
            let skipped = oldest - rx.next;
            rx.next = oldest;
            Received::Lagged(skipped)
        } else {
            let p = rx.next;
            let idx = (p % (cap as u64)) as usize;
            proof {
                if s <= cap {
                    lemma_small_mod(p as nat, cap as nat);
                } else {
                    lemma_mod_bound(p as int, cap as int);
                }
                assert(self.slots@[(p as int) % (cap as int)] == self.published@[p as int]);
            }
            let m = self.slots[idx].duplicate();
            rx.next = p + 1;
            Received::Message(m)
        }
    }
}

} // verus!
