//! The one kind of message that the relay carries.

use vstd::prelude::*;
use vstd::string::StringExecFns;

verus! {

/// What a `ChatMessage` holds, as mathematical values.
pub struct MessageView {
    pub user: Seq<char>,
    pub message: Seq<char>,
    pub timestamp: u64,
}

/// The sender name of the relay's own notifications.
pub open spec fn system_user() -> Seq<char> {
    "System"@
}

/// The text that announces that `id` has connected.
pub open spec fn joined_text(id: Seq<char>) -> Seq<char> {
    id + " joined the chat"@
}

/// The text that announces that `id` has disconnected.
pub open spec fn left_text(id: Seq<char>) -> Seq<char> {
    id + " left the chat"@
}

/// An immutable message: who sent it, what it says, and when the relay
/// accepted it, in seconds since the epoch.
#[derive(Debug)]
pub struct ChatMessage {
    user: String,
    message: String,
    timestamp: u64,
}

impl View for ChatMessage {
    type V = MessageView;

    closed spec fn view(&self) -> MessageView {
        MessageView { user: self.user@, message: self.message@, timestamp: self.timestamp }
    }
}

impl ChatMessage {
    /// A message from `user` with the body `message`, accepted at `timestamp`.
    pub fn new(user: String, message: String, timestamp: u64) -> (msg: ChatMessage)
        ensures
            msg@ == (MessageView { user: user@, message: message@, timestamp }),
    {
        ChatMessage { user, message, timestamp }
    }

    /// The notification that `id` has connected.
    pub fn joined(id: &str, now: u64) -> (msg: ChatMessage)
        ensures
            msg@ == (MessageView {
                user: system_user(),
                message: joined_text(id@),
                timestamp: now,
            }),
    {
        let mut text = id.to_owned();
        text.append(" joined the chat");
        ChatMessage { user: "System".to_owned(), message: text, timestamp: now }
    }

    /// The notification that `id` has disconnected.
    pub fn left(id: &str, now: u64) -> (msg: ChatMessage)
        ensures
            msg@ == (MessageView {
                user: system_user(),
                message: left_text(id@),
                timestamp: now,
            }),
    {
        let mut text = id.to_owned();
        text.append(" left the chat");
        ChatMessage { user: "System".to_owned(), message: text, timestamp: now }
    }

    /// The sender's name.
    pub fn user(&self) -> (user: &str)
        ensures
            user@ == self@.user,
    {
        self.user.as_str()
    }

    /// The body.
    pub fn message(&self) -> (message: &str)
        ensures
            message@ == self@.message,
    {
        self.message.as_str()
    }

    /// The time of acceptance, in seconds since the epoch.
    pub fn timestamp(&self) -> (timestamp: u64)
        ensures
            timestamp == self@.timestamp,
    {
        self.timestamp
    }
}

} // verus!
