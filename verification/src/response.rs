//! What the directory answers, as plain records.

use vstd::prelude::*;
use crate::response::bots::BotsInfo;
use crate::response::conversations::{ChannelView, Conversations, ConversationsInfo, MessageView};
use crate::response::usergroups::{UsergroupView, UsergroupsList};
use crate::response::users::{UserView, UsersInfo};

pub mod bots;
pub mod conversations;
pub mod usergroups;
pub mod users;

verus! {

/// Marks the records that are whole answers of the directory.
pub trait Response {

}

/// What came back for one request: an answer of one of the kinds, or the
/// news that the directory could not be reached or its answer not be read.
#[derive(Debug)]
pub enum DirectoryResponse {
    Unavailable,
    ConversationsInfo(ConversationsInfo),
    Conversations(Conversations),
    UsersInfo(UsersInfo),
    BotsInfo(BotsInfo),
    UsergroupsList(UsergroupsList),
}

/// The mathematical value of a [`DirectoryResponse`].
pub enum ResponseView {
    Unavailable,
    ConversationsInfo(Option<ChannelView>),
    Conversations(Option<Seq<MessageView>>),
    UsersInfo(Option<UserView>),
    BotsInfo(Option<Seq<char>>),
    UsergroupsList(Option<Seq<UsergroupView>>),
}

impl DeepView for DirectoryResponse {
    type V = ResponseView;

    open spec fn deep_view(&self) -> ResponseView {
        match self {
            DirectoryResponse::Unavailable => ResponseView::Unavailable,
            DirectoryResponse::ConversationsInfo(info) => ResponseView::ConversationsInfo(
                info.deep_view(),
            ),
            DirectoryResponse::Conversations(messages) => ResponseView::Conversations(
                messages.deep_view(),
            ),
            DirectoryResponse::UsersInfo(info) => ResponseView::UsersInfo(info.deep_view()),
            DirectoryResponse::BotsInfo(info) => ResponseView::BotsInfo(info.deep_view()),
            DirectoryResponse::UsergroupsList(list) => ResponseView::UsergroupsList(
                list.deep_view(),
            ),
        }
    }
}

} // verus!
