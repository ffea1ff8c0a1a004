//! Rooms and the registry that holds them.

use std::collections::HashMap;
use vstd::prelude::*;
use crate::log::{after, sorted, with_message, MessageLog};
use crate::message::{message_views, MessageView, UserTextMessage};
use crate::time::Timestamp;

verus! {

broadcast use vstd::std_specs::hash::group_hash_axioms;

/// What a room tells about itself: everything but its messages.
#[derive(Debug, PartialEq, Eq)]
pub struct RoomInfo {
    pub name: String,
    pub number: u32,
    pub capacity: u32,
}

/// The mathematical value of a [`RoomInfo`].
pub struct RoomInfoView {
    pub name: Seq<char>,
    pub number: u32,
    pub capacity: u32,
}

impl View for RoomInfo {
    type V = RoomInfoView;

    open spec fn view(&self) -> RoomInfoView {
        RoomInfoView { name: self.name@, number: self.number, capacity: self.capacity }
    }
}

impl Clone for RoomInfo {
    fn clone(&self) -> (r: Self)
        ensures
            r == *self,
    {
        RoomInfo { name: self.name.clone(), number: self.number, capacity: self.capacity }
    }
}

/// A chat room: its name, its number, how many members it is meant for, and
/// the log of what was said in it.
#[derive(Debug)]
pub struct Room {
    pub name: String,
    pub number: u32,
    pub capacity: u32,
    pub messages: MessageLog,
}

/// The mathematical value of a [`Room`].
pub struct RoomView {
    pub name: Seq<char>,
    pub number: u32,
    pub capacity: u32,
    pub messages: Seq<MessageView>,
}

impl RoomView {
    pub open spec fn info(self) -> RoomInfoView {
        RoomInfoView { name: self.name, number: self.number, capacity: self.capacity }
    }

    /// This room after `m` was appended to its log.
    pub open spec fn with_message(self, m: MessageView) -> RoomView {
        RoomView { messages: with_message(self.messages, m), ..self }
    }
}

impl View for Room {
    type V = RoomView;

    open spec fn view(&self) -> RoomView {
        RoomView {
            name: self.name@,
            number: self.number,
            capacity: self.capacity,
            messages: self.messages@,
        }
    }
}

impl Room {
    /// The invariant of every room: its log is in time order.
    pub open spec fn wf(&self) -> bool {
        self.messages.wf()
    }

    /// A room in which nothing has been said yet.
    pub fn new(name: String, number: u32, capacity: u32) -> (room: Room)
        ensures
            room.wf(),
            room@ == (RoomView {
                name: name@,
                number,
                capacity,
                messages: Seq::<MessageView>::empty(),
            }),
    {
        Room { name, number, capacity, messages: MessageLog::new() }
    }

    /// The room's name, number and capacity.
    pub fn info(&self) -> (info: RoomInfo)
        ensures
            info@ == self@.info(),
    {
        RoomInfo { name: self.name.clone(), number: self.number, capacity: self.capacity }
    }
}

/// Every room is filed under its own number, and every log is in time order.
pub open spec fn filed_by_number(rooms: Map<u128, RoomView>) -> bool {
    forall|id: u128|
        rooms.contains_key(id) ==> (#[trigger] rooms[id]).number == id && sorted(
            rooms[id].messages,
        )
}

/// The rooms of a server, found by number. No two rooms share a number.
#[derive(Debug)]
pub struct RoomRegistry {
    rooms: HashMap<u128, Room>,
}

impl View for RoomRegistry {
    type V = Map<u128, RoomView>;

    closed spec fn view(&self) -> Map<u128, RoomView> {
        self.rooms@.map_values(|r: Room| r@)
    }
}

impl RoomRegistry {
    /// The invariant of every registry.
    pub open spec fn wf(&self) -> bool {
        filed_by_number(self@)
    }

    /// A registry without rooms.
    pub fn new() -> (reg: RoomRegistry)
        ensures
            reg@ == Map::<u128, RoomView>::empty(),
            reg.wf(),
    {
        let reg = RoomRegistry { rooms: HashMap::new() };
        assert(reg@ =~= Map::<u128, RoomView>::empty());
        reg
    }

    /// How many rooms there are.
    pub fn len(&self) -> (n: usize)
        ensures
            n == self@.len(),
    {
        assert(self@.dom() =~= self.rooms@.dom());
        self.rooms.len()
    }

    /// Whether a room carries the number `room_id`.
    pub fn contains(&self, room_id: u128) -> (r: bool)
        ensures
            r == self@.contains_key(room_id),
    {
        self.rooms.contains_key(&room_id)
    }

    /// Registers `room` under its number. Where the number is taken the
    /// registry stays as it is and the answer is `false`.
    pub fn add(&mut self, room: Room) -> (added: bool)
        requires
            old(self).wf(),
            room.wf(),
        ensures
            final(self).wf(),
            added == !old(self)@.contains_key(room.number as u128),
            final(self)@ == (if added {
                old(self)@.insert(room.number as u128, room@)
            } else {
                old(self)@
            }),
    {
        let id: u128 = room.number as u128;
        if self.rooms.contains_key(&id) {
            false
        } else {
            let ghost before = self@;
            let ghost value = room@;
            self.rooms.insert(id, room);
            assert(self@ =~= before.insert(id, value));
            true
        }
    }

    /// Name, number and capacity of room `room_id`, if there is such a room.
    pub fn info(&self, room_id: u128) -> (found: Option<RoomInfo>)
        ensures
            match found {
                Some(info) => self@.contains_key(room_id) && info@ == self@[room_id].info(),
                None => !self@.contains_key(room_id),
            },
    {
        match self.rooms.get(&room_id) {
            Some(room) => Some(room.info()),
            None => None,
        }
    }

    /// A copy of every message of room `room_id`, oldest first.
    pub fn messages(&self, room_id: u128) -> (found: Option<Vec<UserTextMessage>>)
        ensures
            match found {
                Some(out) => self@.contains_key(room_id) && message_views(out@)
                    == self@[room_id].messages,
                None => !self@.contains_key(room_id),
            },
    {
        match self.rooms.get(&room_id) {
            Some(room) => Some(room.messages.all()),
            None => None,
        }
    }

    /// A copy of the messages of room `room_id` that were written strictly
    /// later than `t`, oldest first.
    pub fn messages_since(&self, room_id: u128, t: Timestamp) -> (found: Option<
        Vec<UserTextMessage>,
    >)
        requires
            self.wf(),
        ensures
            match found {
                Some(out) => self@.contains_key(room_id) && message_views(out@) == after(
                    self@[room_id].messages,
                    t,
                ),
                None => !self@.contains_key(room_id),
            },
    {
        match self.rooms.get(&room_id) {
            Some(room) => {
                assert(self@.contains_key(room_id) && self@[room_id] == room@);
                Some(room.messages.since(t))
            },
            None => None,
        }
    }

    /// Appends `msg` to the log of room `room_id`. Where there is no such
    /// room nothing changes and the answer is `false`.
    pub fn append(&mut self, room_id: u128, msg: UserTextMessage) -> (done: bool)
        requires
            old(self).wf(),
        ensures
            final(self).wf(),
            done == old(self)@.contains_key(room_id),
            final(self)@ == (if done {
                old(self)@.insert(room_id, old(self)@[room_id].with_message(msg@))
            } else {
                old(self)@
            }),
    {
        let ghost before = self@;
        match self.rooms.remove(&room_id) {
            Some(room) => {
                let mut room = room;
                assert(before.contains_key(room_id) && before[room_id] == room@);
                let ghost m = msg@;
                room.messages.append(msg);
                let ghost value = room@;
                self.rooms.insert(room_id, room);
                assert(self@ =~= before.insert(room_id, value));
                true
            },
            None => {
                assert(self@ =~= before);
                false
            },
        }
    }
}

} // verus!
