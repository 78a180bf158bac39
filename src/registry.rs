use vstd::prelude::*;
use crate::message::Message;

verus! {

/// The history of `room` after `m` is appended to it, creating the room on
/// its first message.
pub open spec fn appended(
    rooms: Map<Seq<char>, Seq<Message>>,
    room: Seq<char>,
    m: Message,
) -> Map<Seq<char>, Seq<Message>> {
    if rooms.contains_key(room) {
        rooms.insert(room, rooms[room].push(m))
    } else {
        rooms.insert(room, seq![m])
    }
}

/// Every room's history, in insertion order, keyed by room name. A room
/// exists from its first message until it is deleted.
pub struct RoomRegistry {
    names: Vec<String>,
    histories: Vec<Vec<Message>>,
    rooms: Ghost<Map<Seq<char>, Seq<Message>>>,
}

impl View for RoomRegistry {
    type V = Map<Seq<char>, Seq<Message>>;

    closed spec fn view(&self) -> Map<Seq<char>, Seq<Message>> {
        self.rooms@
    }
}

impl RoomRegistry {
    /// Names are distinct, each entry matches the map, every room in the map
    /// has an entry, and no stored history is empty.
    pub closed spec fn wf(&self) -> bool {
        &&& self.names@.len() == self.histories@.len()
        &&& forall|i: int, j: int|
            0 <= i < j < self.names@.len() ==> #[trigger] self.names@[i]@ != #[trigger] self.names@[j]@
        &&& forall|i: int|
            0 <= i < self.names@.len() ==> {
                &&& self.rooms@.contains_key(#[trigger] self.names@[i]@)
                &&& self.rooms@[self.names@[i]@] == self.histories@[i]@
            }
        &&& forall|k: Seq<char>|
            #[trigger] self.rooms@.contains_key(k) ==> exists|i: int|
                0 <= i < self.names@.len() && #[trigger] self.names@[i]@ == k
        &&& self.nonempty_histories()
    }

    /// No room is kept without messages.
    pub open spec fn nonempty_histories(&self) -> bool {
        forall|k: Seq<char>| #[trigger] self@.contains_key(k) ==> self@[k].len() > 0
    }

    /// A room is stored only while it has at least one message.
    pub proof fn lemma_rooms_nonempty(&self)
        requires
            self.wf(),
        ensures
            self.nonempty_histories(),
    {
    }

    /// A registry with no rooms.
    pub fn new() -> (r: RoomRegistry)
        ensures
            r.wf(),
            r@ == Map::<Seq<char>, Seq<Message>>::empty(),
    {
        RoomRegistry { names: Vec::new(), histories: Vec::new(), rooms: Ghost(Map::empty()) }
    }

    /// The index of `room`'s entry, if it has one.
    fn find(&self, room: &String) -> (r: Option<usize>)
        requires
            self.wf(),
        ensures
            match r {
                Some(i) => i < self.names@.len() && self.names@[i as int]@ == room@,
                None => !self@.contains_key(room@),
            },
    {
        let mut i: usize = 0;
        while i < self.names.len()
            invariant
                self.wf(),
                i <= self.names@.len(),
                forall|j: int| 0 <= j < i ==> #[trigger] self.names@[j]@ != room@,
            decreases self.names@.len() - i,
        {
            if self.names[i] == *room {
                return Some(i);
            }
            i = i + 1;
        }
        None
    }

    /// Whether `room` currently has a history.
    pub fn contains_room(&self, room: &String) -> (r: bool)
        requires
            self.wf(),
        ensures
            r == self@.contains_key(room@),
    {
        self.find(room).is_some()
    }

    /// Number of messages stored for `room`; zero when it has no history.
    pub fn history_len(&self, room: &String) -> (r: usize)
        requires
            self.wf(),
        ensures
            r == if self@.contains_key(room@) { self@[room@].len() } else { 0 },
    {
        match self.find(room) {
            Some(i) => self.histories[i].len(),
            None => 0,
        }
    }

    /// Appends `m` to the end of `room`'s history, creating the room first
    /// when it has none.
    pub fn append(&mut self, room: &String, m: Message)
        requires
            old(self).wf(),
        ensures
            final(self).wf(),
            final(self)@ == appended(old(self)@, room@, m),
    {
        match self.find(room) {
            Some(i) => {
                let ghost k = room@;
                let ghost old_names = self.names@;
                self.histories[i].push(m);
                proof {
                    self.rooms@ = self.rooms@.insert(k, self.rooms@[k].push(m));
                    assert forall|j: int| 0 <= j < self.names@.len() implies {
                        &&& self.rooms@.contains_key(#[trigger] self.names@[j]@)
                        &&& self.rooms@[self.names@[j]@] == self.histories@[j]@
                    } by {
                        if j != i {
                            assert(old_names[j]@ != old_names[i as int]@);
                        }
                    }
                    assert forall|q: Seq<char>| #[trigger] self.rooms@.contains_key(q) implies exists|j: int|
                        0 <= j < self.names@.len() && #[trigger] self.names@[j]@ == q by {
                        if q == k {
                            assert(self.names@[i as int]@ == q);
                        } else {
                            assert(old(self).rooms@.contains_key(q));
                            let j = choose|j: int| 0 <= j < old_names.len() && #[trigger] old_names[j]@ == q;
                            assert(self.names@[j]@ == q);
                        }
                    }
                    assert forall|q: Seq<char>| #[trigger] self@.contains_key(q) implies self@[q].len() > 0 by {
                        if q != k {
                            assert(old(self)@.contains_key(q));
                        }
                    }
                }
            },
            None => {
                let ghost k = room@;
                let ghost old_names = self.names@;
                self.names.push(room.clone());
                let mut h: Vec<Message> = Vec::new();
                h.push(m);
                self.histories.push(h);
                proof {
                    self.rooms@ = self.rooms@.insert(k, seq![m]);
                    let n = old_names.len() as int;
                    assert(self.names@[n]@ == k);
                    assert forall|a: int, b: int|
                        0 <= a < b < self.names@.len() implies #[trigger] self.names@[a]@
                        != #[trigger] self.names@[b]@ by {
                        if b == n {
                            assert(old(self).rooms@.contains_key(old_names[a]@));
                        }
                    }
                    assert forall|j: int| 0 <= j < self.names@.len() implies {
                        &&& self.rooms@.contains_key(#[trigger] self.names@[j]@)
                        &&& self.rooms@[self.names@[j]@] == self.histories@[j]@
                    } by {
                        if j < n {
                            assert(old(self).rooms@.contains_key(old_names[j]@));
                        }
                    }
                    assert forall|q: Seq<char>| #[trigger] self.rooms@.contains_key(q) implies exists|j: int|
                        0 <= j < self.names@.len() && #[trigger] self.names@[j]@ == q by {
                        if q == k {
                            assert(self.names@[n]@ == q);
                        } else {
                            assert(old(self).rooms@.contains_key(q));
                            let j = choose|j: int| 0 <= j < old_names.len() && #[trigger] old_names[j]@ == q;
                            assert(self.names@[j]@ == q);
                        }
                    }
                }
            },
        }
    }

    /// Removes `room` and its whole history. Returns whether the room existed.
    pub fn delete_room(&mut self, room: &String) -> (found: bool)
        requires
            old(self).wf(),
        ensures
            final(self).wf(),
            found == old(self)@.contains_key(room@),
            final(self)@ == old(self)@.remove(room@),
    {
        match self.find(room) {
            Some(i) => {
                let ghost k = room@;
                let ghost old_names = self.names@;
                self.names.remove(i);
                self.histories.remove(i);
                proof {
                    self.rooms@ = self.rooms@.remove(k);
                    assert forall|a: int, b: int|
                        0 <= a < b < self.names@.len() implies #[trigger] self.names@[a]@
                        != #[trigger] self.names@[b]@ by {
                        let a0 = if a < i { a } else { a + 1 };
                        let b0 = if b < i { b } else { b + 1 };
                        assert(old_names[a0]@ != old_names[b0]@);
                    }
                    assert forall|j: int| 0 <= j < self.names@.len() implies {
                        &&& self.rooms@.contains_key(#[trigger] self.names@[j]@)
                        &&& self.rooms@[self.names@[j]@] == self.histories@[j]@
                    } by {
                        let j0 = if j < i { j } else { j + 1 };
                        assert(old_names[j0]@ != old_names[i as int]@);
                    }
                    assert forall|q: Seq<char>| #[trigger] self.rooms@.contains_key(q) implies exists|j: int|
                        0 <= j < self.names@.len() && #[trigger] self.names@[j]@ == q by {
                        assert(old(self).rooms@.contains_key(q));
                        let j0 = choose|j: int| 0 <= j < old_names.len() && #[trigger] old_names[j]@ == q;
                        assert(j0 != i);
                        let j = if j0 < i { j0 } else { j0 - 1 };
                        assert(self.names@[j]@ == q);
                    }
                    assert forall|q: Seq<char>| #[trigger] self@.contains_key(q) implies self@[q].len() > 0 by {
                        if q != k {
                            assert(old(self)@.contains_key(q));
                        }
                    }
                }
                true
            },
            None => {
                assert(self.rooms@.remove(room@) =~= self.rooms@);
                false
            },
        }
    }
}

} // verus!
