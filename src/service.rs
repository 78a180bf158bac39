use vstd::prelude::*;
use crate::channel::{Broadcaster, ChannelModel};
use crate::clock::{is_rfc3339_utc, timestamp_now};
use crate::message::Message;
use crate::registry::{appended, RoomRegistry};
use crate::session::{SessionStep, StreamSession};

verus! {

/// Capacity of the broadcast channel that `rocket` builds.
pub const DEFAULT_CAPACITY: usize = 1024;

/// `m` with its timestamp set to `t`, replacing whatever it carried.
pub open spec fn stamped(m: Message, t: String) -> Message {
    Message { timestamp: Some(t), ..m }
}

/// `m` stamped with the acceptance timestamp `t`, any timestamp it carried
/// being replaced.
pub fn stamped_message(m: Message, t: String) -> (r: Message)
    ensures
        r == stamped(m, t),
{
    let mut msg = m;
    msg.timestamp = Some(t);
    msg
}

/// The service state shared by every request: the room registry and the one
/// broadcast channel that carries every accepted message to every session.
pub struct ChatCore {
    pub rooms: RoomRegistry,
    pub channel: Broadcaster,
}

/// Builds the service state: an empty registry and an open channel that
/// retains the last `DEFAULT_CAPACITY` messages.
pub fn rocket() -> (r: ChatCore)
    ensures
        r.wf(),
        r.rooms@ == Map::<Seq<char>, Seq<Message>>::empty(),
        r.channel@.published == Seq::<Message>::empty(),
        r.channel@.capacity == DEFAULT_CAPACITY,
        !r.channel@.closed,
        r.channel@.subscribers == 0,
{
    ChatCore::with_capacity(DEFAULT_CAPACITY)
}

impl ChatCore {
    pub open spec fn wf(&self) -> bool {
        self.rooms.wf() && self.channel.wf()
    }

    /// A well-formed service has a channel of positive capacity whose
    /// counters fit in `u64`, and no stored room history is empty.
    pub proof fn lemma_wf(&self)
        requires
            self.wf(),
        ensures
            self.channel@.capacity > 0,
            self.channel@.sent() <= u64::MAX,
            self.rooms.nonempty_histories(),
    {
        self.channel.lemma_wf();
        self.rooms.lemma_rooms_nonempty();
    }

    /// Service state whose channel retains the last `capacity` messages.
    pub fn with_capacity(capacity: usize) -> (r: ChatCore)
        requires
            capacity > 0,
        ensures
            r.wf(),
            r.rooms@ == Map::<Seq<char>, Seq<Message>>::empty(),
            r.channel@.published == Seq::<Message>::empty(),
            r.channel@.capacity == capacity,
            !r.channel@.closed,
            r.channel@.subscribers == 0,
    {
        ChatCore { rooms: RoomRegistry::new(), channel: Broadcaster::new(capacity) }
    }

    /// Accepts `m` under the timestamp `t`: the stamped message is appended to
    /// its room's history and then published on the channel, as two
    /// independent steps. Returns whether any session was subscribed.
    pub fn accept(&mut self, m: Message, t: String) -> (delivered: bool)
        requires
            old(self).wf(),
            old(self).channel@.sent() < u64::MAX,
        ensures
            final(self).wf(),
            final(self).rooms@ == appended(old(self).rooms@, m.room@, stamped(m, t)),
            final(self).channel@ == old(self).channel@.publish(stamped(m, t)),
            delivered == (!old(self).channel@.closed && old(self).channel@.subscribers > 0),
    {
        let msg = stamped_message(m, t);
        let copy = msg.duplicate();
        self.rooms.append(&msg.room, copy);
        self.channel.publish(msg)
    }

    /// Stamps a message with the current UTC instant in RFC 3339 form, stores
    /// it under its room and publishes it. Returns whether any session was
    /// subscribed, or `None`, changing nothing, when the system clock gives no
    /// usable instant.
    pub fn ingest_message(&mut self, room: String, username: String, body: String) -> (r: Option<bool>)
        requires
            old(self).wf(),
            old(self).channel@.sent() < u64::MAX,
        ensures
            final(self).wf(),
            r is None ==> final(self).rooms@ == old(self).rooms@ && final(self).channel@ == old(self).channel@,
            r is Some ==> exists|t: String|
                {
                    let m = Message { room, username, message: body, timestamp: Some(t) };
                    &&& is_rfc3339_utc(#[trigger] t@)
                    &&& final(self).rooms@ == appended(old(self).rooms@, room@, m)
                    &&& final(self).channel@ == old(self).channel@.publish(m)
                },
            r matches Some(delivered) ==> delivered == (!old(self).channel@.closed
                && old(self).channel@.subscribers > 0),
    {
        match timestamp_now() {
            Some(t) => {
                let ghost tt = t;
                let m = Message::new(room, username, body);
                let delivered = self.accept(m, t);
                assert(stamped(m, tt) == (Message { room, username, message: body, timestamp: Some(tt) }));
                assert(is_rfc3339_utc(tt@));
                Some(delivered)
            },
            None => None,
        }
    }

    /// Drops `room` and its whole history; sessions are unaffected. Returns
    /// whether the room existed, which is whether it had any message.
    pub fn delete_room(&mut self, room: &String) -> (found: bool)
        requires
            old(self).wf(),
        ensures
            final(self).wf(),
            found == old(self).rooms@.contains_key(room@),
            found == (old(self).rooms@.contains_key(room@) && old(self).rooms@[room@].len() > 0),
            final(self).rooms@ == old(self).rooms@.remove(room@),
            final(self).channel@ == old(self).channel@,
    {
        proof {
            self.rooms.lemma_rooms_nonempty();
        }
        self.rooms.delete_room(room)
    }

    /// Opens a push stream that receives every message published from now on.
    pub fn open_stream(&mut self) -> (s: StreamSession)
        requires
            old(self).wf(),
            old(self).channel@.subscribers < u64::MAX,
        ensures
            final(self).wf(),
            final(self).rooms@ == old(self).rooms@,
            final(self).channel@ == (ChannelModel {
                subscribers: old(self).channel@.subscribers + 1,
                ..old(self).channel@
            }),
            s.active(),
            s.pos() == old(self).channel@.sent(),
    {
        StreamSession::open(&mut self.channel)
    }
}

} // verus!
