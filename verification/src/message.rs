//! The records that travel through the chat: users and the messages they write.

use vstd::prelude::*;
use crate::time::Timestamp;

verus! {

/// What a client envelope asks for.
#[derive(Clone, Copy, Debug, PartialEq, Eq, Structural, Hash)]
pub enum MessageType {
    Login,
    ChangeChannel,
    ExitChannel,
    Message,
    ExitApp,
}

/// A user of the chat, as the directory knows them.
#[derive(Debug, PartialEq, Eq)]
pub struct User {
    pub name: String,
    pub id: u128,
    pub username: String,
}

/// The mathematical value of a [`User`].
pub struct UserView {
    pub name: Seq<char>,
    pub id: u128,
    pub username: Seq<char>,
}

impl View for User {
    type V = UserView;

    open spec fn view(&self) -> UserView {
        UserView { name: self.name@, id: self.id, username: self.username@ }
    }
}

impl Clone for User {
    fn clone(&self) -> (r: Self)
        ensures
            r == *self,
    {
        User { name: self.name.clone(), id: self.id, username: self.username.clone() }
    }
}

/// One line of chat: when it was written, what it says, and who wrote it.
#[derive(Debug, PartialEq, Eq)]
pub struct UserTextMessage {
    pub time: Timestamp,
    pub text: String,
    pub from: u128,
    pub username: String,
}

/// The mathematical value of a [`UserTextMessage`].
pub struct MessageView {
    pub time: Timestamp,
    pub text: Seq<char>,
    pub from: u128,
    pub username: Seq<char>,
}

impl View for UserTextMessage {
    type V = MessageView;

    open spec fn view(&self) -> MessageView {
        MessageView {
            time: self.time,
            text: self.text@,
            from: self.from,
            username: self.username@,
        }
    }
}

impl Clone for UserTextMessage {
    fn clone(&self) -> (r: Self)
        ensures
            r == *self,
    {
        UserTextMessage {
            time: self.time,
            text: self.text.clone(),
            from: self.from,
            username: self.username.clone(),
        }
    }
}

impl UserTextMessage {
    pub fn new(time: Timestamp, text: String, from: u128, username: String) -> (m:
        UserTextMessage)
        ensures
            m == (UserTextMessage { time, text, from, username }),
    {
        UserTextMessage { time, text, from, username }
    }
}

/// The views of a run of messages, in the same order.
pub open spec fn message_views(s: Seq<UserTextMessage>) -> Seq<MessageView> {
    s.map_values(|m: UserTextMessage| m@)
}

} // verus!
