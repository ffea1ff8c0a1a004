//! The ways in which a request can fail.

use vstd::prelude::*;

verus! {

/// The classes of failure in the chat.
#[derive(Clone, Copy, Debug, PartialEq, Eq, Structural, Hash)]
pub enum ChatError {
    /// A client sent a message that its session cannot take in its current
    /// state, or one that could not be read at all. Only that client hears of it.
    ProtocolViolation,
    /// No user or no room goes by the given identity.
    NotFound,
    /// The chat actor takes no more commands.
    ChannelClosed,
    /// The one who asked is gone, and the answer has nowhere to go.
    DeadReply,
}

impl ChatError {
    /// The words in which a client is told of the failure.
    pub open spec fn text(self) -> Seq<char> {
        match self {
            ChatError::ProtocolViolation => "protocol violation"@,
            ChatError::NotFound => "not found"@,
            ChatError::ChannelClosed => "channel closed"@,
            ChatError::DeadReply => "dead reply"@,
        }
    }

    /// The words in which a client is told of the failure.
    pub fn message(&self) -> (s: String)
        ensures
            s@ == self.text(),
    {
        match self {
            ChatError::ProtocolViolation => "protocol violation".to_owned(),
            ChatError::NotFound => "not found".to_owned(),
            ChatError::ChannelClosed => "channel closed".to_owned(),
            ChatError::DeadReply => "dead reply".to_owned(),
        }
    }
}

/// No two classes of failure are told in the same words.
pub proof fn lemma_texts_differ(a: ChatError, b: ChatError)
    ensures
        a.text() == b.text() <==> a == b,
{
    reveal_strlit("protocol violation");
    reveal_strlit("not found");
    reveal_strlit("channel closed");
    reveal_strlit("dead reply");
    if a != b {
        assert(a.text().len() != b.text().len() || a.text()[0] != b.text()[0]);
    }
}

} // verus!
