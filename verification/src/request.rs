//! What the library asks of the directory.
//!
//! A request is a plain record; sending it is left to the caller. Each kind
//! of request names the endpoint it goes to and the kind of answer it
//! expects.

use vstd::prelude::*;
use crate::response::Response;

pub mod bots;
pub mod conversations;
pub mod usergroups;
pub mod users;

verus! {

/// The method by which a request is sent.
#[derive(Clone, Copy, Debug, PartialEq, Eq, Structural)]
pub enum RequestMethod {
    Get,
    Post,
}

/// A request to the directory.
pub trait Request {
    /// The kind of answer that the request expects.
    type Response: Response;

    /// The endpoint that the request goes to.
    spec fn endpoint(&self) -> Seq<char>;

    /// The path of the endpoint that the request goes to.
    fn path(&self) -> (path: &'static str)
        ensures
            path@ == self.endpoint(),
    ;

    /// The method by which the request is sent: every request of this
    /// library reads, and is sent by `Get`.
    fn method(&self) -> (method: RequestMethod)
        ensures
            method == RequestMethod::Get,
    ;
}

/// One request to the directory, of whichever kind.
#[derive(Debug)]
pub enum DirectoryRequest {
    ConversationsInfo(conversations::Info),
    ConversationsHistory(conversations::History),
    ConversationsReplies(conversations::Replies),
    UsersInfo(users::Info),
    BotsInfo(bots::Info),
    UsergroupsList(usergroups::List),
}

/// The mathematical value of a [`DirectoryRequest`].
pub enum RequestView {
    /// Look the channel up.
    ConversationsInfo { channel: Seq<char> },
    /// Hand out the messages of the channel posted from `oldest` to `latest`.
    ConversationsHistory {
        channel: Seq<char>,
        oldest: Seq<char>,
        latest: Seq<char>,
        limit: u64,
        inclusive: bool,
    },
    /// Hand out the messages of the thread `ts` posted from `oldest` to
    /// `latest`.
    ConversationsReplies {
        channel: Seq<char>,
        ts: Seq<char>,
        oldest: Seq<char>,
        latest: Seq<char>,
        limit: u64,
        inclusive: bool,
    },
    /// Look the user up.
    UsersInfo { id: Seq<char> },
    /// Look the bot up.
    BotsInfo { id: Seq<char> },
    /// Hand out all user groups.
    UsergroupsList,
}

impl DeepView for DirectoryRequest {
    type V = RequestView;

    open spec fn deep_view(&self) -> RequestView {
        match self {
            DirectoryRequest::ConversationsInfo(info) => RequestView::ConversationsInfo {
                channel: info.channel@,
            },
            DirectoryRequest::ConversationsHistory(history) => RequestView::ConversationsHistory {
                channel: history.channel@,
                oldest: history.oldest@,
                latest: history.latest@,
                limit: history.limit,
                inclusive: history.inclusive,
            },
            DirectoryRequest::ConversationsReplies(replies) => RequestView::ConversationsReplies {
                channel: replies.channel@,
                ts: replies.ts@,
                oldest: replies.oldest@,
                latest: replies.latest@,
                limit: replies.limit,
                inclusive: replies.inclusive,
            },
            DirectoryRequest::UsersInfo(info) => RequestView::UsersInfo { id: info.id@ },
            DirectoryRequest::BotsInfo(info) => RequestView::BotsInfo { id: info.id@ },
            DirectoryRequest::UsergroupsList(_) => RequestView::UsergroupsList,
        }
    }
}

impl RequestView {
    /// The endpoint that the request goes to.
    pub open spec fn endpoint(self) -> Seq<char> {
        match self {
            RequestView::ConversationsInfo { .. } => "conversations.info"@,
            RequestView::ConversationsHistory { .. } => "conversations.history"@,
            RequestView::ConversationsReplies { .. } => "conversations.replies"@,
            RequestView::UsersInfo { .. } => "users.info"@,
            RequestView::BotsInfo { .. } => "bots.info"@,
            RequestView::UsergroupsList => "usergroups.list"@,
        }
    }
}

impl DirectoryRequest {
    /// The path of the endpoint that the request goes to.
    pub fn path(&self) -> (path: &'static str)
        ensures
            path@ == self.deep_view().endpoint(),
    {
        match self {
            DirectoryRequest::ConversationsInfo(info) => info.path(),
            DirectoryRequest::ConversationsHistory(history) => history.path(),
            DirectoryRequest::ConversationsReplies(replies) => replies.path(),
            DirectoryRequest::UsersInfo(info) => info.path(),
            DirectoryRequest::BotsInfo(info) => info.path(),
            DirectoryRequest::UsergroupsList(list) => list.path(),
        }
    }
}

} // verus!
