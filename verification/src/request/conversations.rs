//! Requests of the `conversations` family.

use vstd::prelude::*;
use crate::request::{Request, RequestMethod};
use crate::response::conversations::{Conversations, ConversationsInfo};

verus! {

/// Marks the requests of the `conversations` family.
pub trait ConversationsQuery: Request {

}

/// Asks for a channel by its id.
#[derive(Debug)]
pub struct Info {
    /// The id of the channel.
    pub channel: String,
}

/// Asks for the messages of a channel that were posted within a window of
/// time.
#[derive(Debug)]
pub struct History {
    /// The id of the channel.
    pub channel: String,
    /// The end of the window, in seconds.
    pub latest: String,
    /// The start of the window, in seconds.
    pub oldest: String,
    /// How many messages to hand out at most.
    pub limit: u64,
    /// Whether the window holds its two ends.
    pub inclusive: bool,
}

/// Asks for the messages of a thread that were posted within a window of
/// time.
#[derive(Debug)]
pub struct Replies {
    /// The id of the channel.
    pub channel: String,
    /// The time of the message that started the thread, in seconds.
    pub ts: String,
    /// The end of the window, in seconds.
    pub latest: String,
    /// The start of the window, in seconds.
    pub oldest: String,
    /// How many messages to hand out at most.
    pub limit: u64,
    /// Whether the window holds its two ends.
    pub inclusive: bool,
}

impl Request for Info {
    type Response = ConversationsInfo;

    open spec fn endpoint(&self) -> Seq<char> {
        "conversations.info"@
    }

    fn path(&self) -> (path: &'static str) {
        "conversations.info"
    }

    fn method(&self) -> (method: RequestMethod) {
        RequestMethod::Get
    }
}

impl ConversationsQuery for Info {

}

impl Request for History {
    type Response = Conversations;

    open spec fn endpoint(&self) -> Seq<char> {
        "conversations.history"@
    }

    fn path(&self) -> (path: &'static str) {
        "conversations.history"
    }

    fn method(&self) -> (method: RequestMethod) {
        RequestMethod::Get
    }
}

impl ConversationsQuery for History {

}

impl Request for Replies {
    type Response = Conversations;

    open spec fn endpoint(&self) -> Seq<char> {
        "conversations.replies"@
    }

    fn path(&self) -> (path: &'static str) {
        "conversations.replies"
    }

    fn method(&self) -> (method: RequestMethod) {
        RequestMethod::Get
    }
}

impl ConversationsQuery for Replies {

}

} // verus!
