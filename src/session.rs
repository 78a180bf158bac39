use vstd::prelude::*;
use crate::channel::{Broadcaster, ChannelModel, Received, Receiver};
use crate::message::{event_json, Message};

verus! {

/// What one poll of a session hands to the push stream.
pub enum SessionStep {
    /// Send this event payload (the JSON form of one message).
    Emit(String),
    /// Nothing to send yet; wait for a message or for cancellation.
    Idle,
    /// The session is closed; end the stream.
    Finished,
}

/// One poll of a session at channel position `pos`: the message it emits,
/// if any, its position afterwards, and whether it is still active. A
/// cancelled or closed session emits nothing and is closed; a lag report is
/// absorbed by receiving again from the oldest retained message.
pub open spec fn session_poll(
    c: ChannelModel,
    pos: nat,
    active: bool,
    cancelled: bool,
) -> (Option<Message>, nat, bool) {
    if !active || cancelled {
        (None, pos, false)
    } else {
        let (r, p1) = c.recv(pos);
        match r {
            Received::Message(m) => (Some(m), p1, true),
            Received::Lagged(_) => {
                let (r2, p2) = c.recv(p1);
                match r2 {
                    Received::Message(m) => (Some(m), p2, true),
                    _ => (None, p2, true),
                }
            },
            Received::Empty => (None, p1, true),
            Received::Closed => (None, p1, false),
        }
    }
}

/// A live subscriber's stream: `Active` while it holds a receiver, `Closed`
/// once the receiver has been released.
pub struct StreamSession {
    rx: Option<Receiver>,
    at: u64,
}

impl StreamSession {
    /// Channel position of the next message the session wants.
    pub closed spec fn pos(&self) -> nat {
        match self.rx {
            Some(rx) => rx.pos(),
            None => self.at as nat,
        }
    }

    /// Whether the session still holds its subscription.
    pub closed spec fn active(&self) -> bool {
        self.rx is Some
    }

    /// Subscribes a new session to `bc`; it sees only what is published from
    /// now on.
    pub fn open(bc: &mut Broadcaster) -> (r: StreamSession)
        requires
            old(bc).wf(),
            old(bc)@.subscribers < u64::MAX,
        ensures
            final(bc).wf(),
            final(bc)@ == (ChannelModel { subscribers: old(bc)@.subscribers + 1, ..old(bc)@ }),
            r.active(),
            r.pos() == old(bc)@.sent(),
    {
        let rx = bc.subscribe();
        let at = rx.position();
        StreamSession { rx: Some(rx), at }
    }

    /// Whether the session is still active.
    pub fn is_active(&self) -> (r: bool)
        ensures
            r == self.active(),
    {
        self.rx.is_some()
    }

    /// Closes the session and gives its receiver back to `bc`.
    fn finish(&mut self, bc: &mut Broadcaster)
        requires
            old(bc).wf(),
        ensures
            final(bc).wf(),
            !final(self).active(),
            final(self).pos() == old(self).pos(),
            old(self).active() ==> final(bc)@ == (ChannelModel {
                subscribers: if old(bc)@.subscribers > 0 { (old(bc)@.subscribers - 1) as nat } else { 0 },
                ..old(bc)@
            }),
            !old(self).active() ==> final(bc)@ == old(bc)@,
    {
        let taken = self.rx.take();
        match taken {
            Some(rx) => {
                self.at = rx.position();
                bc.unsubscribe(rx);
            },
            None => {},
        }
    }

    /// Advances the session by one step. When `cancelled` is set the session
    /// closes without emitting anything, whatever is pending; otherwise it
    /// emits the next message, skipping forward over a lag, waits when
    /// nothing is new, and closes when the channel has closed. A closed
    /// session only ever reports `Finished`.
    pub fn poll(&mut self, bc: &mut Broadcaster, cancelled: bool) -> (r: SessionStep)
        requires
            old(bc).wf(),
        ensures
            final(bc).wf(),
            ({
                let (e, p, a) = session_poll(old(bc)@, old(self).pos(), old(self).active(), cancelled);
                &&& final(self).pos() == p
                &&& final(self).active() == a
                &&& match r {
                    SessionStep::Emit(s) => e is Some && s@ == event_json(e->0),
                    SessionStep::Idle => e is None && a,
                    SessionStep::Finished => e is None && !a,
                }
            }),
            final(bc)@.published == old(bc)@.published,
            final(bc)@.capacity == old(bc)@.capacity,
            final(bc)@.closed == old(bc)@.closed,
            final(bc)@.subscribers == if old(self).active() && !final(self).active()
                && old(bc)@.subscribers > 0 {
                (old(bc)@.subscribers - 1) as nat
            } else {
                old(bc)@.subscribers
            },
    {
        if cancelled || self.rx.is_none() {
            self.finish(bc);
            return SessionStep::Finished;
        }
        let mut rx = self.rx.take().unwrap();
        let first = bc.recv(&mut rx);
        let r = match first {
            Received::Message(m) => SessionStep::Emit(m.to_event_json()),
            Received::Lagged(_) => {
                match bc.recv(&mut rx) {
                    Received::Message(m) => SessionStep::Emit(m.to_event_json()),
                    _ => SessionStep::Idle,
                }
            },
            Received::Empty => SessionStep::Idle,
            Received::Closed => SessionStep::Finished,
        };
        self.at = rx.position();
        match r {
            SessionStep::Finished => {
                bc.unsubscribe(rx);
            },
            _ => {
                self.rx = Some(rx);
            },
        }
        r
    }
}

} // verus!
