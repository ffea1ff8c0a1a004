//! The chat actor: the one owner of every room and of the user directory.
//!
//! The actor takes one command at a time and gives each exactly one reply.
//! Nothing that a command names can make it fail: what it cannot find, it
//! says so.

use vstd::prelude::*;
use crate::directory::{filed_by_identity, UserDirectory};
use crate::error::ChatError;
use crate::log::after;
use crate::message::{message_views, MessageView, User, UserTextMessage, UserView};
use crate::room::{filed_by_number, Room, RoomInfo, RoomInfoView, RoomRegistry, RoomView};
use crate::time::{current_time, Timestamp};

verus! {

/// A request to the chat actor.
#[derive(Debug, PartialEq, Eq)]
pub enum Command {
    /// Look a user up by identity.
    FindUser { id: u128 },
    /// Name, number and capacity of a room.
    GetRoomInfo { room_id: u128 },
    /// Every message of a room, oldest first.
    GetAllMessages { room_id: u128 },
    /// The messages of a room written strictly later than `time`, oldest first.
    GetMessagesSince { room_id: u128, time: Timestamp },
    /// Add a message to the log of a room.
    AppendMessage { room_id: u128, message: UserTextMessage },
}

/// The mathematical value of a [`Command`].
pub enum CommandView {
    FindUser { id: u128 },
    GetRoomInfo { room_id: u128 },
    GetAllMessages { room_id: u128 },
    GetMessagesSince { room_id: u128, time: Timestamp },
    AppendMessage { room_id: u128, message: MessageView },
}

impl View for Command {
    type V = CommandView;

    open spec fn view(&self) -> CommandView {
        match *self {
            Command::FindUser { id } => CommandView::FindUser { id },
            Command::GetRoomInfo { room_id } => CommandView::GetRoomInfo { room_id },
            Command::GetAllMessages { room_id } => CommandView::GetAllMessages { room_id },
            Command::GetMessagesSince { room_id, time } => CommandView::GetMessagesSince {
                room_id,
                time,
            },
            Command::AppendMessage { room_id, message } => CommandView::AppendMessage {
                room_id,
                message: message@,
            },
        }
    }
}

/// The chat actor's answer to a [`Command`].
#[derive(Debug, PartialEq, Eq)]
pub enum Reply {
    /// The profile that was asked for.
    User(User),
    /// The room that was asked about.
    RoomInfo(RoomInfo),
    /// The messages that were asked for, oldest first.
    Messages(Vec<UserTextMessage>),
    /// The message stands in the log.
    Ack,
    /// No user or room goes by the identity that the command named.
    NotFound,
}

/// The mathematical value of a [`Reply`].
pub enum ReplyView {
    User(UserView),
    RoomInfo(RoomInfoView),
    Messages(Seq<MessageView>),
    Ack,
    NotFound,
}

impl View for Reply {
    type V = ReplyView;

    open spec fn view(&self) -> ReplyView {
        match *self {
            Reply::User(user) => ReplyView::User(user@),
            Reply::RoomInfo(info) => ReplyView::RoomInfo(info@),
            Reply::Messages(messages) => ReplyView::Messages(message_views(messages@)),
            Reply::Ack => ReplyView::Ack,
            Reply::NotFound => ReplyView::NotFound,
        }
    }
}

/// What can happen to the chat actor while it waits at its inbox.
#[derive(Debug, PartialEq, Eq)]
pub enum ActorEvent {
    /// A command has arrived.
    Command(Command),
    /// The last reply could not be delivered: the one who asked is gone.
    ReplyDropped,
    /// Nobody is left who could send a command.
    InboxClosed,
}

/// The mathematical value of an [`ActorEvent`].
pub enum ActorEventView {
    Command(CommandView),
    ReplyDropped,
    InboxClosed,
}

impl View for ActorEvent {
    type V = ActorEventView;

    open spec fn view(&self) -> ActorEventView {
        match *self {
            ActorEvent::Command(cmd) => ActorEventView::Command(cmd@),
            ActorEvent::ReplyDropped => ActorEventView::ReplyDropped,
            ActorEvent::InboxClosed => ActorEventView::InboxClosed,
        }
    }
}

/// What the chat actor does about an [`ActorEvent`].
#[derive(Debug, PartialEq, Eq)]
pub enum ActorAction {
    /// Send this reply to the one who sent the command.
    Reply(Reply),
    /// Make a note of the failure and go on.
    Log(ChatError),
    /// Stop: there is nothing more to do.
    Stop,
}

/// The mathematical value of an [`ActorAction`].
pub enum ActorActionView {
    Reply(ReplyView),
    Log(ChatError),
    Stop,
}

impl View for ActorAction {
    type V = ActorActionView;

    open spec fn view(&self) -> ActorActionView {
        match *self {
            ActorAction::Reply(reply) => ActorActionView::Reply(reply@),
            ActorAction::Log(error) => ActorActionView::Log(error),
            ActorAction::Stop => ActorActionView::Stop,
        }
    }
}

/// The views of a run of events, in the same order.
pub open spec fn event_views(s: Seq<ActorEvent>) -> Seq<ActorEventView> {
    s.map_values(|e: ActorEvent| e@)
}

/// The views of a run of actions, in the same order.
pub open spec fn action_views(s: Seq<ActorAction>) -> Seq<ActorActionView> {
    s.map_values(|a: ActorAction| a@)
}

/// Whether the inbox was closed somewhere in `events`.
pub open spec fn halted(events: Seq<ActorEventView>) -> bool
    decreases events.len(),
{
    if events.len() == 0 {
        false
    } else {
        halted(events.drop_last()) || events.last() is InboxClosed
    }
}

/// The mathematical value of a [`Database`]: its rooms by number and its
/// users by identity.
pub struct DatabaseView {
    pub rooms: Map<u128, RoomView>,
    pub users: Map<u128, UserView>,
}

impl DatabaseView {
    /// Rooms are filed by number, users by identity, and every log is in time order.
    pub open spec fn wf(self) -> bool {
        filed_by_number(self.rooms) && filed_by_identity(self.users)
    }

    /// The state in which a server starts: one room, number 1, with one
    /// greeting written at `now`, and one user.
    pub open spec fn seeded(now: Timestamp) -> DatabaseView {
        DatabaseView {
            rooms: Map::<u128, RoomView>::empty().insert(
                1,
                RoomView {
                    name: "Room1"@,
                    number: 1,
                    capacity: 10,
                    messages: seq![
                        MessageView {
                            time: now,
                            text: "Hello, world!"@,
                            from: 123456,
                            username: "Alice"@,
                        },
                    ],
                },
            ),
            users: Map::<u128, UserView>::empty().insert(
                40093918,
                UserView { name: "Tim"@, id: 40093918, username: "KapJ1coH"@ },
            ),
        }
    }

    /// When the greeting of room 1 was written.
    pub open spec fn seed_time(self) -> Timestamp {
        self.rooms[1].messages[0].time
    }

    /// The answer that `cmd` gets in this state.
    pub open spec fn reply(self, cmd: CommandView) -> ReplyView {
        match cmd {
            CommandView::FindUser { id } => if self.users.contains_key(id) {
                ReplyView::User(self.users[id])
            } else {
                ReplyView::NotFound
            },
            CommandView::GetRoomInfo { room_id } => if self.rooms.contains_key(room_id) {
                ReplyView::RoomInfo(self.rooms[room_id].info())
            } else {
                ReplyView::NotFound
            },
            CommandView::GetAllMessages { room_id } => if self.rooms.contains_key(room_id) {
                ReplyView::Messages(self.rooms[room_id].messages)
            } else {
                ReplyView::NotFound
            },
            CommandView::GetMessagesSince { room_id, time } => if self.rooms.contains_key(
                room_id,
            ) {
                ReplyView::Messages(after(self.rooms[room_id].messages, time))
            } else {
                ReplyView::NotFound
            },
            CommandView::AppendMessage { room_id, message } => if self.rooms.contains_key(
                room_id,
            ) {
                ReplyView::Ack
            } else {
                ReplyView::NotFound
            },
        }
    }

    /// This state after `user` was filed: unchanged where the identity is taken.
    pub open spec fn with_user(self, user: UserView) -> DatabaseView {
        if self.users.contains_key(user.id) {
            self
        } else {
            DatabaseView { users: self.users.insert(user.id, user), rooms: self.rooms }
        }
    }

    /// This state after `room` was opened: unchanged where the number is taken.
    pub open spec fn with_room(self, room: RoomView) -> DatabaseView {
        if self.rooms.contains_key(room.number as u128) {
            self
        } else {
            DatabaseView { rooms: self.rooms.insert(room.number as u128, room), users: self.users }
        }
    }

    /// What the actor does about `event` in this state.
    pub open spec fn action(self, event: ActorEventView) -> ActorActionView {
        match event {
            ActorEventView::Command(cmd) => ActorActionView::Reply(self.reply(cmd)),
            ActorEventView::ReplyDropped => ActorActionView::Log(ChatError::DeadReply),
            ActorEventView::InboxClosed => ActorActionView::Stop,
        }
    }

    /// The state that `event` leaves behind. Only a command can change it.
    pub open spec fn after_event(self, event: ActorEventView) -> DatabaseView {
        match event {
            ActorEventView::Command(cmd) => self.next(cmd),
            _ => self,
        }
    }

    /// The state after the actor has met `events` one by one. What follows
    /// the closing of the inbox is never looked at.
    pub open spec fn after_events(self, events: Seq<ActorEventView>) -> DatabaseView
        decreases events.len(),
    {
        if events.len() == 0 {
            self
        } else if halted(events.drop_last()) {
            self.after_events(events.drop_last())
        } else {
            self.after_events(events.drop_last()).after_event(events.last())
        }
    }

    /// What the actor does as it meets `events` one by one: one action for
    /// each event up to the closing of the inbox, and none after it.
    pub open spec fn actions(self, events: Seq<ActorEventView>) -> Seq<ActorActionView>
        decreases events.len(),
    {
        if events.len() == 0 {
            Seq::empty()
        } else if halted(events.drop_last()) {
            self.actions(events.drop_last())
        } else {
            self.actions(events.drop_last()).push(
                self.after_events(events.drop_last()).action(events.last()),
            )
        }
    }

    /// The state that `cmd` leaves behind. Only an append to a room that
    /// exists changes anything.
    pub open spec fn next(self, cmd: CommandView) -> DatabaseView {
        match cmd {
            CommandView::AppendMessage { room_id, message } => if self.rooms.contains_key(
                room_id,
            ) {
                DatabaseView {
                    rooms: self.rooms.insert(room_id, self.rooms[room_id].with_message(message)),
                    users: self.users,
                }
            } else {
                self
            },
            _ => self,
        }
    }
}

proof fn lemma_first_message(m: MessageView)
    ensures
        crate::log::with_message(Seq::<MessageView>::empty(), m) == seq![m],
{
    crate::log::lemma_split(Seq::<MessageView>::empty(), m.time, 0);
    assert(crate::log::with_message(Seq::<MessageView>::empty(), m) =~= seq![m]);
}

/// Everything the chat knows: the rooms with their logs, and the users.
#[derive(Debug)]
pub struct Database {
    chat_rooms: RoomRegistry,
    users: UserDirectory,
}

impl View for Database {
    type V = DatabaseView;

    closed spec fn view(&self) -> DatabaseView {
        DatabaseView { rooms: self.chat_rooms@, users: self.users@ }
    }
}

impl Database {
    /// The invariant of every database.
    pub open spec fn wf(&self) -> bool {
        self@.wf()
    }

    /// The database of a server that starts at `now`: room 1 with its
    /// greeting, and the first user.
    pub fn seeded(now: Timestamp) -> (db: Database)
        ensures
            db.wf(),
            db@ == DatabaseView::seeded(now),
    {
        let mut room = Room::new("Room1".to_owned(), 1, 10);
        room.messages.append(
            UserTextMessage {
                time: now,
                text: "Hello, world!".to_owned(),
                from: 123456,
                username: "Alice".to_owned(),
            },
        );
        let mut chat_rooms = RoomRegistry::new();
        chat_rooms.add(room);
        let mut users = UserDirectory::new();
        users.insert(User { name: "Tim".to_owned(), id: 40093918, username: "KapJ1coH".to_owned() });
        let db = Database { chat_rooms, users };
        proof {
            let greeting = MessageView {
                time: now,
                text: "Hello, world!"@,
                from: 123456,
                username: "Alice"@,
            };
            lemma_first_message(greeting);
            assert(db@.rooms =~= DatabaseView::seeded(now).rooms);
            assert(db@.users =~= DatabaseView::seeded(now).users);
        }
        db
    }

    /// The database of a server that starts now. The greeting of room 1
    /// carries the time of the call; all else is fixed.
    pub fn new() -> (db: Database)
        ensures
            db.wf(),
            db@ == DatabaseView::seeded(db@.seed_time()),
    {
        let now = current_time();
        let db = Database::seeded(now);
        assert(db@.seed_time() == now);
        db
    }

    /// Files `user` in the directory. An identity is assigned once: where it
    /// is taken nothing changes and the answer is `false`.
    pub fn add_user(&mut self, user: User) -> (added: bool)
        requires
            old(self).wf(),
        ensures
            final(self).wf(),
            added == !old(self)@.users.contains_key(user.id),
            final(self)@ == old(self)@.with_user(user@),
    {
        self.users.insert(user)
    }

    /// Opens `room`. A number is assigned once: where it is taken nothing
    /// changes and the answer is `false`.
    pub fn add_room(&mut self, room: Room) -> (added: bool)
        requires
            old(self).wf(),
            room.wf(),
        ensures
            final(self).wf(),
            added == !old(self)@.rooms.contains_key(room.number as u128),
            final(self)@ == old(self)@.with_room(room@),
    {
        self.chat_rooms.add(room)
    }

    /// Whether `user_id` is the identity of a user in the directory.
    pub fn check_user_exists(&self, user_id: u128) -> (known: bool)
        ensures
            known == self@.users.contains_key(user_id),
    {
        self.users.contains(user_id)
    }

    /// Answers one command.
    pub fn handle(&mut self, cmd: Command) -> (reply: Reply)
        requires
            old(self).wf(),
        ensures
            final(self).wf(),
            reply@ == old(self)@.reply(cmd@),
            final(self)@ == old(self)@.next(cmd@),
    {
        match cmd {
            Command::FindUser { id } => match self.users.find(id) {
                Some(user) => Reply::User(user),
                None => Reply::NotFound,
            },
            Command::GetRoomInfo { room_id } => match self.chat_rooms.info(room_id) {
                Some(info) => Reply::RoomInfo(info),
                None => Reply::NotFound,
            },
            Command::GetAllMessages { room_id } => match self.chat_rooms.messages(room_id) {
                Some(messages) => Reply::Messages(messages),
                None => Reply::NotFound,
            },
            Command::GetMessagesSince { room_id, time } => match self.chat_rooms.messages_since(
                room_id,
                time,
            ) {
                Some(messages) => Reply::Messages(messages),
                None => Reply::NotFound,
            },
            Command::AppendMessage { room_id, message } => {
                if self.chat_rooms.append(room_id, message) {
                    Reply::Ack
                } else {
                    Reply::NotFound
                }
            },
        }
    }

    /// Meets one event at the inbox. A command is answered; a reply that found
    /// nobody is noted and forgotten; a closed inbox ends the work. Only a
    /// command can change what the database holds.
    pub fn on_event(&mut self, event: ActorEvent) -> (action: ActorAction)
        requires
            old(self).wf(),
        ensures
            final(self).wf(),
            action@ == old(self)@.action(event@),
            final(self)@ == old(self)@.after_event(event@),
    {
        match event {
            ActorEvent::Command(cmd) => ActorAction::Reply(self.handle(cmd)),
            ActorEvent::ReplyDropped => ActorAction::Log(ChatError::DeadReply),
            ActorEvent::InboxClosed => ActorAction::Stop,
        }
    }

    /// Works through `inbox` in the order of arrival, one event at a time,
    /// until the inbox is closed or empty, and says what was done about each
    /// event.
    pub fn manager(&mut self, inbox: Vec<ActorEvent>) -> (done: Vec<ActorAction>)
        requires
            old(self).wf(),
        ensures
            final(self).wf(),
            action_views(done@) == old(self)@.actions(event_views(inbox@)),
            final(self)@ == old(self)@.after_events(event_views(inbox@)),
    {
        let ghost start = self@;
        let ghost events = event_views(inbox@);
        let mut done: Vec<ActorAction> = Vec::new();
        let mut stopped = false;
        for event in it: inbox
            invariant
                self.wf(),
                events == event_views(it.seq()),
                stopped == halted(events.take(it.index() as int)),
                self@ == start.after_events(events.take(it.index() as int)),
                action_views(done@) == start.actions(events.take(it.index() as int)),
        {
            proof {
                let i = it.index() as int;
                assert(events.take(i + 1).drop_last() =~= events.take(i));
                assert(events.take(i + 1).last() == event@);
            }
            if !stopped {
                let ghost before = done@;
                let action = self.on_event(event);
                if let ActorAction::Stop = action {
                    stopped = true;
                }
                done.push(action);
                assert(action_views(done@) =~= action_views(before).push(action@));
            }
        }
        assert(events.take(events.len() as int) =~= events);
        done
    }
}

impl Default for Database {
    fn default() -> (db: Database)
        ensures
            db.wf(),
            db@ == DatabaseView::seeded(db@.seed_time()),
    {
        Database::new()
    }
}

} // verus!
