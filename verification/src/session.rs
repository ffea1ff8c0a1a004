//! The session of one connection: from login, through joining a room, to
//! the exchange of messages.
//!
//! A session never touches a room or the directory. It turns what happens on
//! its connection into commands for the chat actor, and the actor's answers
//! into replies for its client. Whatever a client does wrong stays within its
//! own session.

use vstd::prelude::*;
use crate::database::{Command, CommandView, Reply, ReplyView};
use crate::error::ChatError;
use crate::message::{MessageView, User, UserTextMessage, UserView};
use crate::protocol::{ClientMessage, ClientMessageView, ClientReply, ClientReplyView};
use crate::time::{current_time, Timestamp};

verus! {

/// How far a session has come.
#[derive(Clone, Copy, Debug, PartialEq, Eq, Structural, Hash)]
pub enum SessionState {
    /// Nobody has logged in yet.
    Unauthenticated,
    /// A user has logged in and is in no room.
    Authenticated,
    /// The user is in a room.
    InRoom,
    /// The session is over.
    Closed,
}

/// Where a session stands, and what it is waiting for.
#[derive(Debug)]
enum Phase {
    Unauthenticated,
    LoggingIn { user_id: u128 },
    Authenticated { user: User },
    Joining { user: User, room_id: u128 },
    Loading { user: User, room_id: u128 },
    InRoom { user: User, room_id: u128, seen: Option<Timestamp> },
    Sending { user: User, room_id: u128, seen: Option<Timestamp> },
    Refreshing { user: User, room_id: u128, seen: Option<Timestamp> },
    Closed,
}

/// The mathematical value of a session's standing.
pub enum PhaseView {
    /// Nobody has logged in yet.
    Unauthenticated,
    /// `user_id` wants to log in, and the actor has been asked who that is.
    LoggingIn { user_id: u128 },
    /// `user` has logged in and is in no room.
    Authenticated { user: UserView },
    /// `user` wants to join `room_id`, and the actor has been asked about the room.
    Joining { user: UserView, room_id: u128 },
    /// `user` may join `room_id`, and the actor has been asked for its messages.
    Loading { user: UserView, room_id: u128 },
    /// `user` is in `room_id`. The newest message that the client has been
    /// shown was written at `seen`; it has been shown none where that is `None`.
    InRoom { user: UserView, room_id: u128, seen: Option<Timestamp> },
    /// `user` is in `room_id` and has written a message that the actor has
    /// not yet acknowledged.
    Sending { user: UserView, room_id: u128, seen: Option<Timestamp> },
    /// `user` is in `room_id`, and the actor has been asked what was written
    /// there since `seen`.
    Refreshing { user: UserView, room_id: u128, seen: Option<Timestamp> },
    /// The session is over.
    Closed,
}

/// What can happen to a session.
#[derive(Debug, PartialEq, Eq)]
pub enum SessionEvent {
    /// The client sent a request.
    Message(ClientMessage),
    /// The client sent something that is no request.
    Malformed,
    /// The actor answered the command that the session asked last.
    Answer(Reply),
    /// It is time to look whether the room has news for the client.
    Refresh,
    /// The actor takes no commands any more.
    ActorGone,
    /// The connection was closed or broke.
    Disconnected,
}

/// The mathematical value of a [`SessionEvent`].
pub enum SessionEventView {
    Message(ClientMessageView),
    Malformed,
    Answer(ReplyView),
    Refresh,
    ActorGone,
    Disconnected,
}

impl View for SessionEvent {
    type V = SessionEventView;

    open spec fn view(&self) -> SessionEventView {
        match *self {
            SessionEvent::Message(msg) => SessionEventView::Message(msg@),
            SessionEvent::Malformed => SessionEventView::Malformed,
            SessionEvent::Answer(reply) => SessionEventView::Answer(reply@),
            SessionEvent::Refresh => SessionEventView::Refresh,
            SessionEvent::ActorGone => SessionEventView::ActorGone,
            SessionEvent::Disconnected => SessionEventView::Disconnected,
        }
    }
}

/// What a session wants done about a [`SessionEvent`].
#[derive(Debug, PartialEq, Eq)]
pub enum SessionAction {
    /// Send this command to the chat actor, and hand its reply back as
    /// [`SessionEvent::Answer`].
    Ask(Command),
    /// Send this reply to the client.
    Tell(ClientReply),
    /// Send this reply to the client, then close the connection.
    TellAndClose(ClientReply),
    /// Close the connection.
    Close,
    /// Wait for the next event.
    Nothing,
}

/// The mathematical value of a [`SessionAction`].
pub enum SessionActionView {
    Ask(CommandView),
    Tell(ClientReplyView),
    TellAndClose(ClientReplyView),
    Close,
    Nothing,
}

impl View for SessionAction {
    type V = SessionActionView;

    open spec fn view(&self) -> SessionActionView {
        match *self {
            SessionAction::Ask(cmd) => SessionActionView::Ask(cmd@),
            SessionAction::Tell(reply) => SessionActionView::Tell(reply@),
            SessionAction::TellAndClose(reply) => SessionActionView::TellAndClose(reply@),
            SessionAction::Close => SessionActionView::Close,
            SessionAction::Nothing => SessionActionView::Nothing,
        }
    }
}

/// One step of a session: where it stands afterwards, and what it wants done.
pub struct Step {
    pub phase: PhaseView,
    pub action: SessionActionView,
}

impl PhaseView {
    /// How far the session has come. While a command is in flight the session
    /// still counts as being where it was.
    pub open spec fn state(self) -> SessionState {
        match self {
            PhaseView::Unauthenticated | PhaseView::LoggingIn { .. } =>
                SessionState::Unauthenticated,
            PhaseView::Authenticated { .. } | PhaseView::Joining { .. } | PhaseView::Loading {
                ..
            } => SessionState::Authenticated,
            PhaseView::InRoom { .. } | PhaseView::Sending { .. } | PhaseView::Refreshing {
                ..
            } => SessionState::InRoom,
            PhaseView::Closed => SessionState::Closed,
        }
    }

    /// The user that has logged in, if one has.
    pub open spec fn user(self) -> Option<UserView> {
        match self {
            PhaseView::Authenticated { user }
            | PhaseView::Joining { user, .. }
            | PhaseView::Loading { user, .. }
            | PhaseView::InRoom { user, .. }
            | PhaseView::Sending { user, .. }
            | PhaseView::Refreshing { user, .. } => Some(user),
            _ => None,
        }
    }

    /// The room that the user is in, if any.
    pub open spec fn room(self) -> Option<u128> {
        match self {
            PhaseView::InRoom { room_id, .. }
            | PhaseView::Sending { room_id, .. }
            | PhaseView::Refreshing { room_id, .. } => Some(room_id),
            _ => None,
        }
    }

    /// When the newest message was written that the client has been shown
    /// in the room that the user is in.
    pub open spec fn seen(self) -> Option<Timestamp> {
        match self {
            PhaseView::InRoom { seen, .. }
            | PhaseView::Sending { seen, .. }
            | PhaseView::Refreshing { seen, .. } => seen,
            _ => None,
        }
    }

    /// Whether a command is in flight.
    pub open spec fn waiting(self) -> bool {
        self is LoggingIn || self is Joining || self is Loading || self is Sending
            || self is Refreshing
    }

    /// The identity that replies to the client carry: that of the user who
    /// has logged in or is trying to, and 0 where there is none.
    pub open spec fn acts_for(self) -> u128 {
        match self {
            PhaseView::LoggingIn { user_id } => user_id,
            PhaseView::Authenticated { user }
            | PhaseView::Joining { user, .. }
            | PhaseView::Loading { user, .. }
            | PhaseView::InRoom { user, .. }
            | PhaseView::Sending { user, .. }
            | PhaseView::Refreshing { user, .. } => user.id,
            _ => 0,
        }
    }

    /// The client broke the protocol: it is told so, and nothing else changes.
    pub open spec fn rejects(self) -> Step {
        Step {
            phase: self,
            action: SessionActionView::Tell(
                ClientReplyView::failure(ChatError::ProtocolViolation, self.acts_for()),
            ),
        }
    }

    /// The session cannot go on: the client is told why, and the session ends.
    pub open spec fn fails(self, error: ChatError) -> Step {
        Step {
            phase: PhaseView::Closed,
            action: SessionActionView::TellAndClose(
                ClientReplyView::failure(error, self.acts_for()),
            ),
        }
    }

    /// The message that `user` writes at `now` with the text of `draft`.
    /// Whatever else the client put into its draft is not believed.
    pub open spec fn stamped(user: UserView, draft: MessageView, now: Timestamp) -> MessageView {
        MessageView { time: now, text: draft.text, from: user.id, username: user.username }
    }

    /// When the newest message was written that the client has been shown,
    /// once it has been shown `shown` on top of what it had seen up to `seen`.
    pub open spec fn newest(seen: Option<Timestamp>, shown: Seq<MessageView>) -> Option<
        Timestamp,
    > {
        if shown.len() == 0 {
            seen
        } else {
            Some(shown.last().time)
        }
    }

    /// The command that asks for the news of room `room_id`: what was
    /// written there later than `seen`, or all of it where nothing was seen.
    pub open spec fn asks_news(room_id: u128, seen: Option<Timestamp>) -> CommandView {
        match seen {
            Some(time) => CommandView::GetMessagesSince { room_id, time },
            None => CommandView::GetAllMessages { room_id },
        }
    }

    /// What a request of the client leads to. In each state one kind of
    /// request is in turn: a login while nobody has logged in; a join for a
    /// user who is in no room; and for a user who is in a room, a message to
    /// that room or the wish to leave it. Anything else is rejected, and so is
    /// any request that comes while a command is in flight. A closed session
    /// takes no notice.
    pub open spec fn on_message(self, msg: ClientMessageView, now: Timestamp) -> Step {
        match self {
            PhaseView::Closed => Step { phase: self, action: SessionActionView::Nothing },
            PhaseView::Unauthenticated => match msg {
                ClientMessageView::Login { user_id } => Step {
                    phase: PhaseView::LoggingIn { user_id },
                    action: SessionActionView::Ask(CommandView::FindUser { id: user_id }),
                },
                _ => self.rejects(),
            },
            PhaseView::Authenticated { user } => match msg {
                ClientMessageView::JoinRoom { room_id } => Step {
                    phase: PhaseView::Joining { user, room_id },
                    action: SessionActionView::Ask(CommandView::GetRoomInfo { room_id }),
                },
                _ => self.rejects(),
            },
            PhaseView::InRoom { user, room_id, seen } => match msg {
                ClientMessageView::SendMessage { room_id: target, message } => if target
                    == room_id {
                    Step {
                        phase: PhaseView::Sending { user, room_id, seen },
                        action: SessionActionView::Ask(
                            CommandView::AppendMessage {
                                room_id,
                                message: Self::stamped(user, message, now),
                            },
                        ),
                    }
                } else {
                    self.rejects()
                },
                ClientMessageView::LeaveRoom => Step {
                    phase: PhaseView::Authenticated { user },
                    action: SessionActionView::Nothing,
                },
                _ => self.rejects(),
            },
            _ => self.rejects(),
        }
    }

    /// What an answer of the actor leads to: the next step of a login, of a
    /// join, of a send or of a look for news. Where the actor has not found
    /// what was asked for, the session ends. An answer that fits no question
    /// in flight is dropped.
    pub open spec fn on_answer(self, reply: ReplyView) -> Step {
        let ignored = Step { phase: self, action: SessionActionView::Nothing };
        match self {
            PhaseView::LoggingIn { user_id } => match reply {
                ReplyView::User(user) => if user.id == user_id {
                    Step {
                        phase: PhaseView::Authenticated { user },
                        action: SessionActionView::Nothing,
                    }
                } else {
                    ignored
                },
                ReplyView::NotFound => self.fails(ChatError::NotFound),
                _ => ignored,
            },
            PhaseView::Joining { user, room_id } => match reply {
                ReplyView::RoomInfo(info) => if info.number == room_id {
                    Step {
                        phase: PhaseView::Loading { user, room_id },
                        action: SessionActionView::Ask(CommandView::GetAllMessages { room_id }),
                    }
                } else {
                    ignored
                },
                ReplyView::NotFound => self.fails(ChatError::NotFound),
                _ => ignored,
            },
            PhaseView::Loading { user, room_id } => match reply {
                ReplyView::Messages(messages) => Step {
                    phase: PhaseView::InRoom {
                        user,
                        room_id,
                        seen: Self::newest(None, messages),
                    },
                    action: SessionActionView::Tell(
                        ClientReplyView::Messages { room_id, messages, user_id: user.id },
                    ),
                },
                ReplyView::NotFound => self.fails(ChatError::NotFound),
                _ => ignored,
            },
            PhaseView::Sending { user, room_id, seen } => match reply {
                ReplyView::Ack => Step {
                    phase: PhaseView::InRoom { user, room_id, seen },
                    action: SessionActionView::Tell(
                        ClientReplyView::MessageDelivered { room_id, user_id: user.id },
                    ),
                },
                ReplyView::NotFound => self.fails(ChatError::NotFound),
                _ => ignored,
            },
            PhaseView::Refreshing { user, room_id, seen } => match reply {
                ReplyView::Messages(messages) => Step {
                    phase: PhaseView::InRoom {
                        user,
                        room_id,
                        seen: Self::newest(seen, messages),
                    },
                    action: if messages.len() == 0 {
                        SessionActionView::Nothing
                    } else {
                        SessionActionView::Tell(
                            ClientReplyView::Messages { room_id, messages, user_id: user.id },
                        )
                    },
                },
                ReplyView::NotFound => self.fails(ChatError::NotFound),
                _ => ignored,
            },
            _ => ignored,
        }
    }

    /// What a look for news leads to. Only a user who is in a room, with no
    /// command in flight, has news to look for. News is what was written
    /// later than the newest message shown so far: a message that reaches the
    /// log late, under an earlier time, is not among it.
    pub open spec fn on_refresh(self) -> Step {
        match self {
            PhaseView::InRoom { user, room_id, seen } => Step {
                phase: PhaseView::Refreshing { user, room_id, seen },
                action: SessionActionView::Ask(Self::asks_news(room_id, seen)),
            },
            _ => Step { phase: self, action: SessionActionView::Nothing },
        }
    }

    /// What `event` leads to, if it happens at `now`.
    pub open spec fn step(self, event: SessionEventView, now: Timestamp) -> Step {
        match event {
            SessionEventView::Message(msg) => self.on_message(msg, now),
            SessionEventView::Answer(reply) => self.on_answer(reply),
            SessionEventView::Refresh => self.on_refresh(),
            SessionEventView::Malformed => if self is Closed {
                Step { phase: self, action: SessionActionView::Nothing }
            } else {
                self.rejects()
            },
            SessionEventView::ActorGone => if self is Closed {
                Step { phase: self, action: SessionActionView::Nothing }
            } else {
                self.fails(ChatError::ChannelClosed)
            },
            SessionEventView::Disconnected => if self is Closed {
                Step { phase: self, action: SessionActionView::Nothing }
            } else {
                Step { phase: PhaseView::Closed, action: SessionActionView::Close }
            },
        }
    }
}

impl View for Phase {
    type V = PhaseView;

    closed spec fn view(&self) -> PhaseView {
        match *self {
            Phase::Unauthenticated => PhaseView::Unauthenticated,
            Phase::LoggingIn { user_id } => PhaseView::LoggingIn { user_id },
            Phase::Authenticated { user } => PhaseView::Authenticated { user: user@ },
            Phase::Joining { user, room_id } => PhaseView::Joining { user: user@, room_id },
            Phase::Loading { user, room_id } => PhaseView::Loading { user: user@, room_id },
            Phase::InRoom { user, room_id, seen } => PhaseView::InRoom {
                user: user@,
                room_id,
                seen,
            },
            Phase::Sending { user, room_id, seen } => PhaseView::Sending {
                user: user@,
                room_id,
                seen,
            },
            Phase::Refreshing { user, room_id, seen } => PhaseView::Refreshing {
                user: user@,
                room_id,
                seen,
            },
            Phase::Closed => PhaseView::Closed,
        }
    }
}

/// When the newest message was written that the client has been shown,
/// once it has been shown `shown` on top of what it had seen up to `seen`.
fn newest(seen: Option<Timestamp>, shown: &Vec<UserTextMessage>) -> (r: Option<Timestamp>)
    ensures
        r == PhaseView::newest(seen, crate::message::message_views(shown@)),
{
    let n: usize = shown.len();
    if n == 0 {
        seen
    } else {
        Some(shown[n - 1].time)
    }
}

impl Phase {
    fn acts_for(&self) -> (id: u128)
        ensures
            id == self@.acts_for(),
    {
        match self {
            Phase::LoggingIn { user_id } => *user_id,
            Phase::Authenticated { user }
            | Phase::Joining { user, .. }
            | Phase::Loading { user, .. }
            | Phase::InRoom { user, .. }
            | Phase::Sending { user, .. }
            | Phase::Refreshing { user, .. } => user.id,
            _ => 0,
        }
    }

    fn rejects(self) -> (r: (Phase, SessionAction))
        ensures
            r.0@ == self@.rejects().phase,
            r.1@ == self@.rejects().action,
    {
        let reply = ClientReply::failure(ChatError::ProtocolViolation, self.acts_for());
        (self, SessionAction::Tell(reply))
    }

    fn fails(self, error: ChatError) -> (r: (Phase, SessionAction))
        ensures
            r.0@ == self@.fails(error).phase,
            r.1@ == self@.fails(error).action,
    {
        let reply = ClientReply::failure(error, self.acts_for());
        (Phase::Closed, SessionAction::TellAndClose(reply))
    }

    fn on_message(self, msg: ClientMessage, now: Timestamp) -> (r: (Phase, SessionAction))
        ensures
            r.0@ == self@.on_message(msg@, now).phase,
            r.1@ == self@.on_message(msg@, now).action,
    {
        match self {
            Phase::Closed => (Phase::Closed, SessionAction::Nothing),
            Phase::Unauthenticated => match msg {
                ClientMessage::Login { user_id } => (
                    Phase::LoggingIn { user_id },
                    SessionAction::Ask(Command::FindUser { id: user_id }),
                ),
                _ => Phase::Unauthenticated.rejects(),
            },
            Phase::Authenticated { user } => match msg {
                ClientMessage::JoinRoom { room_id } => (
                    Phase::Joining { user, room_id },
                    SessionAction::Ask(Command::GetRoomInfo { room_id }),
                ),
                _ => (Phase::Authenticated { user }).rejects(),
            },
            Phase::InRoom { user, room_id, seen } => match msg {
                ClientMessage::SendMessage { room_id: target, message } => {
                    if target == room_id {
                        let stamped = UserTextMessage {
                            time: now,
                            text: message.text,
                            from: user.id,
                            username: user.username.clone(),
                        };
                        (
                            Phase::Sending { user, room_id, seen },
                            SessionAction::Ask(Command::AppendMessage { room_id, message: stamped }),
                        )
                    } else {
                        (Phase::InRoom { user, room_id, seen }).rejects()
                    }
                },
                ClientMessage::LeaveRoom => (Phase::Authenticated { user }, SessionAction::Nothing),
                _ => (Phase::InRoom { user, room_id, seen }).rejects(),
            },
            other => other.rejects(),
        }
    }

    fn on_answer(self, reply: Reply) -> (r: (Phase, SessionAction))
        ensures
            r.0@ == self@.on_answer(reply@).phase,
            r.1@ == self@.on_answer(reply@).action,
    {
        match self {
            Phase::LoggingIn { user_id } => match reply {
                Reply::User(user) => {
                    if user.id == user_id {
                        (Phase::Authenticated { user }, SessionAction::Nothing)
                    } else {
                        (Phase::LoggingIn { user_id }, SessionAction::Nothing)
                    }
                },
                Reply::NotFound => (Phase::LoggingIn { user_id }).fails(ChatError::NotFound),
                _ => (Phase::LoggingIn { user_id }, SessionAction::Nothing),
            },
            Phase::Joining { user, room_id } => match reply {
                Reply::RoomInfo(info) => {
                    if info.number as u128 == room_id {
                        (
                            Phase::Loading { user, room_id },
                            SessionAction::Ask(Command::GetAllMessages { room_id }),
                        )
                    } else {
                        (Phase::Joining { user, room_id }, SessionAction::Nothing)
                    }
                },
                Reply::NotFound => (Phase::Joining { user, room_id }).fails(ChatError::NotFound),
                _ => (Phase::Joining { user, room_id }, SessionAction::Nothing),
            },
            Phase::Loading { user, room_id } => match reply {
                Reply::Messages(messages) => {
                    let user_id: u128 = user.id;
                    let seen = newest(None, &messages);
                    (
                        Phase::InRoom { user, room_id, seen },
                        SessionAction::Tell(ClientReply::Messages { room_id, messages, user_id }),
                    )
                },
                Reply::NotFound => (Phase::Loading { user, room_id }).fails(ChatError::NotFound),
                _ => (Phase::Loading { user, room_id }, SessionAction::Nothing),
            },
            Phase::Sending { user, room_id, seen } => match reply {
                Reply::Ack => {
                    let user_id: u128 = user.id;
                    (
                        Phase::InRoom { user, room_id, seen },
                        SessionAction::Tell(ClientReply::MessageDelivered { room_id, user_id }),
                    )
                },
                Reply::NotFound => (Phase::Sending { user, room_id, seen }).fails(
                    ChatError::NotFound,
                ),
                _ => (Phase::Sending { user, room_id, seen }, SessionAction::Nothing),
            },
            Phase::Refreshing { user, room_id, seen } => match reply {
                Reply::Messages(messages) => {
                    let user_id: u128 = user.id;
                    let seen = newest(seen, &messages);
                    let action = if messages.len() == 0 {
                        SessionAction::Nothing
                    } else {
                        SessionAction::Tell(ClientReply::Messages { room_id, messages, user_id })
                    };
                    (Phase::InRoom { user, room_id, seen }, action)
                },
                Reply::NotFound => (Phase::Refreshing { user, room_id, seen }).fails(
                    ChatError::NotFound,
                ),
                _ => (Phase::Refreshing { user, room_id, seen }, SessionAction::Nothing),
            },
            other => (other, SessionAction::Nothing),
        }
    }

    fn on_refresh(self) -> (r: (Phase, SessionAction))
        ensures
            r.0@ == self@.on_refresh().phase,
            r.1@ == self@.on_refresh().action,
    {
        match self {
            Phase::InRoom { user, room_id, seen } => {
                let cmd = match seen {
                    Some(time) => Command::GetMessagesSince { room_id, time },
                    None => Command::GetAllMessages { room_id },
                };
                (Phase::Refreshing { user, room_id, seen }, SessionAction::Ask(cmd))
            },
            other => (other, SessionAction::Nothing),
        }
    }

    fn step(self, event: SessionEvent, now: Timestamp) -> (r: (Phase, SessionAction))
        ensures
            r.0@ == self@.step(event@, now).phase,
            r.1@ == self@.step(event@, now).action,
    {
        match event {
            SessionEvent::Message(msg) => self.on_message(msg, now),
            SessionEvent::Answer(reply) => self.on_answer(reply),
            SessionEvent::Refresh => self.on_refresh(),
            SessionEvent::Malformed => match self {
                Phase::Closed => (Phase::Closed, SessionAction::Nothing),
                other => other.rejects(),
            },
            SessionEvent::ActorGone => match self {
                Phase::Closed => (Phase::Closed, SessionAction::Nothing),
                other => other.fails(ChatError::ChannelClosed),
            },
            SessionEvent::Disconnected => match self {
                Phase::Closed => (Phase::Closed, SessionAction::Nothing),
                _ => (Phase::Closed, SessionAction::Close),
            },
        }
    }
}

/// The state of one connection.
#[derive(Debug)]
pub struct Session {
    id: u128,
    phase: Phase,
}

/// The mathematical value of a [`Session`].
pub struct SessionView {
    pub id: u128,
    pub phase: PhaseView,
}

impl View for Session {
    type V = SessionView;

    closed spec fn view(&self) -> SessionView {
        SessionView { id: self.id, phase: self.phase@ }
    }
}

/// Whether a session that stood at `before` can stand at `after` and want
/// `action` done, once `event` has happened at `now`.
pub open spec fn steps(
    before: SessionView,
    event: SessionEventView,
    now: Timestamp,
    after: SessionView,
    action: SessionActionView,
) -> bool {
    &&& after.id == before.id
    &&& after.phase == before.phase.step(event, now).phase
    &&& action == before.phase.step(event, now).action
}

/// Draws a session identifier with `uuid::Uuid::new_v4` and reads it as a
/// number with `Uuid::to_u128_le`.
///
/// Nothing is claimed of the value: it is random. uuid panics when the
/// operating system cannot supply random bytes.
#[verifier::external_body]
fn fresh_session_id() -> (id: u128) {
    uuid::Uuid::new_v4().to_u128_le()
}

impl Session {
    /// The session of a connection that was just accepted, under the
    /// identifier `id`.
    pub fn new(id: u128) -> (s: Session)
        ensures
            s@ == (SessionView { id, phase: PhaseView::Unauthenticated }),
    {
        Session { id, phase: Phase::Unauthenticated }
    }

    /// The session of a connection that was just accepted, under an
    /// identifier drawn at random.
    pub fn open() -> (s: Session)
        ensures
            s@.phase == PhaseView::Unauthenticated,
    {
        Session::new(fresh_session_id())
    }

    /// The identifier of the session.
    pub fn id(&self) -> (id: u128)
        ensures
            id == self@.id,
    {
        self.id
    }

    /// How far the session has come.
    pub fn state(&self) -> (state: SessionState)
        ensures
            state == self@.phase.state(),
    {
        match &self.phase {
            Phase::Unauthenticated | Phase::LoggingIn { .. } => SessionState::Unauthenticated,
            Phase::Authenticated { .. } | Phase::Joining { .. } | Phase::Loading { .. } =>
                SessionState::Authenticated,
            Phase::InRoom { .. } | Phase::Sending { .. } | Phase::Refreshing { .. } =>
                SessionState::InRoom,
            Phase::Closed => SessionState::Closed,
        }
    }

    /// The user that has logged in, if one has.
    pub fn user(&self) -> (user: Option<User>)
        ensures
            match user {
                Some(user) => self@.phase.user() == Some(user@),
                None => self@.phase.user() is None,
            },
    {
        match &self.phase {
            Phase::Authenticated { user }
            | Phase::Joining { user, .. }
            | Phase::Loading { user, .. }
            | Phase::InRoom { user, .. }
            | Phase::Sending { user, .. }
            | Phase::Refreshing { user, .. } => Some(user.clone()),
            _ => None,
        }
    }

    /// The room that the user is in, if any.
    pub fn room_id(&self) -> (room: Option<u128>)
        ensures
            room == self@.phase.room(),
    {
        match &self.phase {
            Phase::InRoom { room_id, .. }
            | Phase::Sending { room_id, .. }
            | Phase::Refreshing { room_id, .. } => Some(*room_id),
            _ => None,
        }
    }

    /// When the newest message was written that the client has been shown
    /// in the room that the user is in.
    pub fn seen(&self) -> (seen: Option<Timestamp>)
        ensures
            seen == self@.phase.seen(),
    {
        match &self.phase {
            Phase::InRoom { seen, .. }
            | Phase::Sending { seen, .. }
            | Phase::Refreshing { seen, .. } => *seen,
            _ => None,
        }
    }

    /// Whether the session waits for an answer of the actor.
    pub fn is_waiting(&self) -> (waiting: bool)
        ensures
            waiting == self@.phase.waiting(),
    {
        match &self.phase {
            Phase::LoggingIn { .. }
            | Phase::Joining { .. }
            | Phase::Loading { .. }
            | Phase::Sending { .. }
            | Phase::Refreshing { .. } => true,
            _ => false,
        }
    }

    /// Takes the session one step on: `event` has happened at `now`.
    pub fn step(&mut self, event: SessionEvent, now: Timestamp) -> (action: SessionAction)
        ensures
            steps(old(self)@, event@, now, final(self)@, action@),
    {
        let mut phase = Phase::Closed;
        core::mem::swap(&mut self.phase, &mut phase);
        let (next, action) = phase.step(event, now);
        self.phase = next;
        action
    }

    /// Takes the session one step on: `event` has happened just now. The
    /// clock is read once, and the step is the one that [`Session::step`]
    /// takes at the time read.
    pub fn on_event(&mut self, event: SessionEvent) -> (action: SessionAction)
        ensures
            exists|now: Timestamp| steps(old(self)@, event@, now, final(self)@, action@),
    {
        let now = current_time();
        self.step(event, now)
    }
}

} // verus!
