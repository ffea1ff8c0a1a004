//! What clients and the server say to each other.

use vstd::prelude::*;
use crate::error::ChatError;
use crate::message::{message_views, MessageType, MessageView, UserTextMessage};
use crate::time::Timestamp;

verus! {

/// A request of a client.
#[derive(Debug, PartialEq, Eq)]
pub enum ClientMessage {
    Login { user_id: u128 },
    JoinRoom { room_id: u128 },
    SendMessage { room_id: u128, message: UserTextMessage },
    LeaveRoom,
}

/// The mathematical value of a [`ClientMessage`].
pub enum ClientMessageView {
    Login { user_id: u128 },
    JoinRoom { room_id: u128 },
    SendMessage { room_id: u128, message: MessageView },
    LeaveRoom,
}

impl View for ClientMessage {
    type V = ClientMessageView;

    open spec fn view(&self) -> ClientMessageView {
        match *self {
            ClientMessage::Login { user_id } => ClientMessageView::Login { user_id },
            ClientMessage::JoinRoom { room_id } => ClientMessageView::JoinRoom { room_id },
            ClientMessage::SendMessage { room_id, message } => ClientMessageView::SendMessage {
                room_id,
                message: message@,
            },
            ClientMessage::LeaveRoom => ClientMessageView::LeaveRoom,
        }
    }
}

/// A request on its way through the server: it names the session that it
/// came from, and of a chat message it keeps the text alone.
#[derive(Debug, PartialEq, Eq)]
pub enum RouterMessage {
    Login { user_id: u128, session_id: u128 },
    JoinRoom { room_id: u128, session_id: u128 },
    SendMessage { room_id: u128, message: String, session_id: u128 },
    LeaveRoom,
}

/// The mathematical value of a [`RouterMessage`].
pub enum RouterMessageView {
    Login { user_id: u128, session_id: u128 },
    JoinRoom { room_id: u128, session_id: u128 },
    SendMessage { room_id: u128, message: Seq<char>, session_id: u128 },
    LeaveRoom,
}

impl View for RouterMessage {
    type V = RouterMessageView;

    open spec fn view(&self) -> RouterMessageView {
        match *self {
            RouterMessage::Login { user_id, session_id } => RouterMessageView::Login {
                user_id,
                session_id,
            },
            RouterMessage::JoinRoom { room_id, session_id } => RouterMessageView::JoinRoom {
                room_id,
                session_id,
            },
            RouterMessage::SendMessage { room_id, message, session_id } =>
                RouterMessageView::SendMessage { room_id, message: message@, session_id },
            RouterMessage::LeaveRoom => RouterMessageView::LeaveRoom,
        }
    }
}

impl ClientMessageView {
    /// This request as session `session_id` hands it on.
    pub open spec fn routed(self, session_id: u128) -> RouterMessageView {
        match self {
            ClientMessageView::Login { user_id } => RouterMessageView::Login {
                user_id,
                session_id,
            },
            ClientMessageView::JoinRoom { room_id } => RouterMessageView::JoinRoom {
                room_id,
                session_id,
            },
            ClientMessageView::SendMessage { room_id, message } =>
                RouterMessageView::SendMessage { room_id, message: message.text, session_id },
            ClientMessageView::LeaveRoom => RouterMessageView::LeaveRoom,
        }
    }
}

impl RouterMessage {
    /// Marks a client's request with the session that it came from. Of a chat
    /// message only the text goes on: who writes, and when, is for the server
    /// to say.
    pub fn from_client(msg: ClientMessage, session_id: u128) -> (routed: RouterMessage)
        ensures
            routed@ == msg@.routed(session_id),
    {
        match msg {
            ClientMessage::Login { user_id } => RouterMessage::Login { user_id, session_id },
            ClientMessage::JoinRoom { room_id } => RouterMessage::JoinRoom { room_id, session_id },
            ClientMessage::SendMessage { room_id, message } => RouterMessage::SendMessage {
                room_id,
                message: message.text,
                session_id,
            },
            ClientMessage::LeaveRoom => RouterMessage::LeaveRoom,
        }
    }
}

/// What the server tells a client.
#[derive(Debug, PartialEq, Eq)]
pub enum ClientReply {
    /// The request failed. `user_id` is the identity that the session acts
    /// for, or 0 where it has none yet.
    Error { message: Option<String>, user_id: u128 },
    /// Messages of room `room_id`, oldest first.
    Messages { room_id: u128, messages: Vec<UserTextMessage>, user_id: u128 },
    /// The client's message now stands in the log of room `room_id`.
    MessageDelivered { room_id: u128, user_id: u128 },
}

/// The mathematical value of a [`ClientReply`].
pub enum ClientReplyView {
    Error { message: Option<Seq<char>>, user_id: u128 },
    Messages { room_id: u128, messages: Seq<MessageView>, user_id: u128 },
    MessageDelivered { room_id: u128, user_id: u128 },
}

impl View for ClientReply {
    type V = ClientReplyView;

    open spec fn view(&self) -> ClientReplyView {
        match *self {
            ClientReply::Error { message, user_id } => ClientReplyView::Error {
                message: match message {
                    Some(text) => Some(text@),
                    None => None,
                },
                user_id,
            },
            ClientReply::Messages { room_id, messages, user_id } => ClientReplyView::Messages {
                room_id,
                messages: message_views(messages@),
                user_id,
            },
            ClientReply::MessageDelivered { room_id, user_id } =>
                ClientReplyView::MessageDelivered { room_id, user_id },
        }
    }
}

impl ClientReplyView {
    /// The reply that tells the client of a failure of class `error`.
    pub open spec fn failure(error: ChatError, user_id: u128) -> ClientReplyView {
        ClientReplyView::Error { message: Some(error.text()), user_id }
    }
}

impl ClientReply {
    /// The reply that tells the client of a failure of class `error`.
    pub fn failure(error: ChatError, user_id: u128) -> (reply: ClientReply)
        ensures
            reply@ == ClientReplyView::failure(error, user_id),
    {
        ClientReply::Error { message: Some(error.message()), user_id }
    }
}

/// A client's request in its older form: one envelope for every purpose,
/// with a tag that says which.
#[derive(Debug, PartialEq, Eq)]
pub struct UserMessage {
    pub time: Timestamp,
    pub text: String,
    pub from: u128,
    pub username: String,
    pub type_msg: MessageType,
}

/// The mathematical value of a [`UserMessage`].
pub struct UserMessageView {
    pub time: Timestamp,
    pub text: Seq<char>,
    pub from: u128,
    pub username: Seq<char>,
    pub type_msg: MessageType,
}

impl View for UserMessage {
    type V = UserMessageView;

    open spec fn view(&self) -> UserMessageView {
        UserMessageView {
            time: self.time,
            text: self.text@,
            from: self.from,
            username: self.username@,
            type_msg: self.type_msg,
        }
    }
}

impl Clone for UserMessage {
    fn clone(&self) -> (r: Self)
        ensures
            r == *self,
    {
        UserMessage {
            time: self.time,
            text: self.text.clone(),
            from: self.from,
            username: self.username.clone(),
            type_msg: self.type_msg,
        }
    }
}

impl UserMessageView {
    /// The chat message that the envelope carries.
    pub open spec fn body(self) -> MessageView {
        MessageView { time: self.time, text: self.text, from: self.from, username: self.username }
    }

    /// The request that the envelope stands for, where `room_id` is the room
    /// that it speaks of. An envelope that says goodbye stands for none: the
    /// client is about to hang up.
    pub open spec fn request(self, room_id: u128) -> Option<ClientMessageView> {
        match self.type_msg {
            MessageType::Login => Some(ClientMessageView::Login { user_id: self.from }),
            MessageType::ChangeChannel => Some(ClientMessageView::JoinRoom { room_id }),
            MessageType::ExitChannel => Some(ClientMessageView::LeaveRoom),
            MessageType::Message => Some(
                ClientMessageView::SendMessage { room_id, message: self.body() },
            ),
            MessageType::ExitApp => None,
        }
    }
}

impl UserMessage {
    pub fn new(
        time: Timestamp,
        text: String,
        from: u128,
        username: String,
        type_msg: MessageType,
    ) -> (m: UserMessage)
        ensures
            m == (UserMessage { time, text, from, username, type_msg }),
    {
        UserMessage { time, text, from, username, type_msg }
    }

    /// The identity that the envelope logs in with: `Err` where the envelope
    /// is no login at all.
    pub fn get_user_id(&self) -> (r: Result<u128, ChatError>)
        ensures
            r == (if self.type_msg == MessageType::Login {
                Ok::<u128, ChatError>(self.from)
            } else {
                Err::<u128, ChatError>(ChatError::ProtocolViolation)
            }),
    {
        match self.type_msg {
            MessageType::Login => Ok(self.from),
            _ => Err(ChatError::ProtocolViolation),
        }
    }

    /// The request that the envelope stands for, where `room_id` is the room
    /// that it speaks of.
    pub fn into_request(self, room_id: u128) -> (r: Option<ClientMessage>)
        ensures
            match r {
                Some(msg) => self@.request(room_id) == Some(msg@),
                None => self@.request(room_id) is None,
            },
    {
        match self.type_msg {
            MessageType::Login => Some(ClientMessage::Login { user_id: self.from }),
            MessageType::ChangeChannel => Some(ClientMessage::JoinRoom { room_id }),
            MessageType::ExitChannel => Some(ClientMessage::LeaveRoom),
            MessageType::Message => Some(
                ClientMessage::SendMessage {
                    room_id,
                    message: UserTextMessage {
                        time: self.time,
                        text: self.text,
                        from: self.from,
                        username: self.username,
                    },
                },
            ),
            MessageType::ExitApp => None,
        }
    }
}

} // verus!
