//! Properties of the service that span several operations.
use vstd::prelude::*;
use crate::channel::{ChannelModel, Received};
use crate::message::Message;
use crate::registry::appended;
use crate::session::session_poll;

verus! {

/// The history stored for `room`, empty when it has none.
pub open spec fn history_of(rooms: Map<Seq<char>, Seq<Message>>, room: Seq<char>) -> Seq<Message> {
    if rooms.contains_key(room) {
        rooms[room]
    } else {
        Seq::empty()
    }
}

/// The registry after appending each of `ms`, in order, to its own room.
pub open spec fn appended_all(rooms: Map<Seq<char>, Seq<Message>>, ms: Seq<Message>) -> Map<
    Seq<char>,
    Seq<Message>,
>
    decreases ms.len(),
{
    if ms.len() == 0 {
        rooms
    } else {
        appended(appended_all(rooms, ms.drop_last()), ms.last().room@, ms.last())
    }
}

/// Publishing to an open channel appends to what was published and leaves
/// the rest of its state alone.
pub proof fn lemma_publish_all_open(c: ChannelModel, ms: Seq<Message>)
    requires
        !c.closed,
    ensures
        c.publish_all(ms) == (ChannelModel { published: c.published + ms, ..c }),
    decreases ms.len(),
{
    if ms.len() == 0 {
        assert(c.published + ms =~= c.published);
    } else {
        lemma_publish_all_open(c, ms.drop_last());
        assert((c.published + ms.drop_last()).push(ms.last()) =~= c.published + ms);
    }
}

/// A session subscribed before a message is published on an open channel
/// emits that message on its next poll, and then nothing more until
/// something else is published: the message is delivered exactly once.
pub proof fn lemma_delivered_exactly_once(c: ChannelModel, m: Message)
    requires
        !c.closed,
        c.capacity > 0,
    ensures
        session_poll(c.publish(m), c.sent(), true, false) == (Some(m), c.sent() + 1, true),
        session_poll(c.publish(m), c.sent() + 1, true, false) == (None::<Message>, c.sent() + 1, true),
{
    let c1 = c.publish(m);
    assert(c1.published[c.sent() as int] == m);
}

/// A session only ever emits messages published at or after its position,
/// and its position never moves back; so a session opened after a message
/// was published never receives that message.
pub proof fn lemma_no_backlog(c: ChannelModel, pos: nat, active: bool, cancelled: bool)
    ensures
        ({
            let (e, p, a) = session_poll(c, pos, active, cancelled);
            &&& p >= pos
            &&& e is Some ==> pos < p <= c.sent() && e == Some(c.published[p - 1])
        }),
{
}

/// Publishing more than the capacity to a receiver that never reads makes
/// its next receive report the lag and move it to the oldest retained
/// message; the session skips forward and emits that message.
pub proof fn lemma_lag_skips_forward(c: ChannelModel, ms: Seq<Message>)
    requires
        !c.closed,
        c.capacity > 0,
        ms.len() > c.capacity,
        c.sent() + ms.len() <= u64::MAX,
    ensures
        ({
            let c1 = c.publish_all(ms);
            let skipped = (ms.len() - c.capacity) as nat;
            &&& c1.recv(c.sent()) == (Received::Lagged(skipped as u64), c.sent() + skipped)
            &&& c1.recv(c.sent() + skipped) == (Received::Message(ms[skipped as int]), c.sent() + skipped + 1)
            &&& session_poll(c1, c.sent(), true, false) == (Some(ms[skipped as int]), c.sent() + skipped + 1, true)
        }),
{
    lemma_publish_all_open(c, ms);
    let c1 = c.publish_all(ms);
    let skipped = (ms.len() - c.capacity) as nat;
    assert(c1.oldest() == c.sent() + skipped);
    assert(c1.published[(c.sent() + skipped) as int] == ms[skipped as int]);
}

/// Deleting a room and posting to it again starts a fresh history holding
/// only the new message; other rooms are untouched.
pub proof fn lemma_delete_then_recreate(
    rooms: Map<Seq<char>, Seq<Message>>,
    room: Seq<char>,
    m: Message,
    other: Seq<char>,
)
    requires
        other != room,
    ensures
        appended(rooms.remove(room), room, m)[room] == seq![m],
        history_of(appended(rooms.remove(room), room, m), other) == history_of(rooms, other),
{
}

/// Once cancellation is seen the session emits nothing and is closed, and
/// every later poll, whatever the channel then holds, emits nothing either.
pub proof fn lemma_cancel_stops(c: ChannelModel, later: ChannelModel, pos: nat, active: bool, cancelled_later: bool)
    ensures
        session_poll(c, pos, active, true) == (None::<Message>, pos, false),
        session_poll(later, pos, false, cancelled_later) == (None::<Message>, pos, false),
{
}

/// Appends to two different rooms do not interfere: each room gains exactly
/// its own message, and the outcome is the same in either order.
pub proof fn lemma_rooms_independent(
    rooms: Map<Seq<char>, Seq<Message>>,
    a: Seq<char>,
    ma: Message,
    b: Seq<char>,
    mb: Message,
)
    requires
        a != b,
    ensures
        appended(appended(rooms, a, ma), b, mb) == appended(appended(rooms, b, mb), a, ma),
        history_of(appended(appended(rooms, a, ma), b, mb), a) == history_of(rooms, a).push(ma),
        history_of(appended(appended(rooms, a, ma), b, mb), b) == history_of(rooms, b).push(mb),
{
    assert(appended(appended(rooms, a, ma), b, mb) =~= appended(appended(rooms, b, mb), a, ma));
    assert(history_of(rooms, a).push(ma) =~= if rooms.contains_key(a) { rooms[a].push(ma) } else { seq![ma] });
    assert(history_of(rooms, b).push(mb) =~= if rooms.contains_key(b) { rooms[b].push(mb) } else { seq![mb] });
}

/// After a single producer's messages are stored in order, each room's
/// history is what it held before followed by exactly the messages for that
/// room, in submission order.
pub proof fn lemma_histories_in_order(rooms: Map<Seq<char>, Seq<Message>>, ms: Seq<Message>, room: Seq<char>)
    ensures
        history_of(appended_all(rooms, ms), room) == history_of(rooms, room) + ms.filter(
            |m: Message| m.room@ == room,
        ),
    decreases ms.len(),
{
    reveal(Seq::filter);
    let pred = |m: Message| m.room@ == room;
    if ms.len() == 0 {
        assert(history_of(rooms, room) + ms.filter(pred) =~= history_of(rooms, room));
    } else {
        lemma_histories_in_order(rooms, ms.drop_last(), room);
        let before = appended_all(rooms, ms.drop_last());
        if ms.last().room@ == room {
            assert(history_of(before, room).push(ms.last()) =~= if before.contains_key(room) {
                before[room].push(ms.last())
            } else {
                seq![ms.last()]
            });
            assert(history_of(rooms, room) + ms.drop_last().filter(pred).push(ms.last()) =~= (history_of(
                rooms,
                room,
            ) + ms.drop_last().filter(pred)).push(ms.last()));
        }
    }
}

} // verus!
