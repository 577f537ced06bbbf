//! Resolving a message: from its permalink to the name of its channel, the
//! name of its author and its body as Markdown.
//!
//! The directory is asked one question at a time. This module decides which:
//! a [`Resolution`] takes the answer to its last request and says what to ask
//! next, or that the message is resolved, or that it cannot be. Sending the
//! requests is left to the caller, which hands each answer to
//! [`Resolution::advance`] until no further request comes back.
//!
//! The order is fixed: the channel, for a direct message the other party, the
//! history of the channel at the time of the message, the thread where the
//! history holds nothing, the author, then one lookup for each user mentioned
//! in the body, one for each channel mentioned, and, where a user group is
//! mentioned, the list of all groups, once.

use vstd::prelude::*;
use vstd::string::*;
use crate::emojify::{shortcode_edits, EmojiTable, Emojify, SHORTCODE_PATTERN};
use crate::error::{outcome, ResolveError};
use crate::message::state::{Initialized, InitializedView, Resolved, ResolvedView, State};
use crate::mrkdwn::{
    channel_edits, channel_mentions, link_edits, mentions_of, replace_channel_ids, replace_links,
    replace_user_ids, replace_usergroups_ids, spliced, user_edits, user_mentions,
    usergroup_edits, usergroup_mentions, ChannelLookup, ChannelLookupView, Mention, MentionView,
    CHANNEL_PATTERN, LINK_PATTERN, USERGROUP_PATTERN, USER_PATTERN,
};
use crate::pattern::scanned;
use crate::permalink::{in_seconds, parsed, to_micros, to_seconds, Location};
use crate::request::{DirectoryRequest, RequestView};
use crate::response::conversations::{
    body_source, channel_label, direct_label, direct_message_label, is_direct, Message,
    MessageView,
};
use crate::response::usergroups::{Usergroup, UsergroupView};
use crate::response::users::{user_name, User, UserView};
use crate::response::{DirectoryResponse, ResponseView};
use crate::text::{all_digits, decimal_value};

pub mod state;

verus! {

/// The answer that a resolution waits for.
#[derive(Clone, Copy, Debug, PartialEq, Eq, Structural)]
pub enum Stage {
    /// The channel of the message.
    Channel,
    /// The other party of a direct message.
    Partner,
    /// The history of the channel at the time of the message.
    History,
    /// The thread at the time of the message.
    Replies,
    /// The user who wrote the message.
    AuthorUser,
    /// The bot that wrote the message.
    AuthorBot,
    /// A user mentioned in the body.
    Users,
    /// A channel mentioned in the body.
    Channels,
    /// The list of all user groups.
    Usergroups,
}

/// A resolution under way: what is known of the message so far, and which
/// answer is awaited.
#[derive(Debug)]
pub struct Resolution {
    url: String,
    channel_id: String,
    ts: String,
    thread_ts: Option<String>,
    micros: i64,
    emoji: EmojiTable,
    stage: Stage,
    channel_name: String,
    user_name: String,
    body: String,
    mentions: Vec<Mention>,
    users: Vec<Option<User>>,
    channels: Vec<ChannelLookup>,
    groups: Option<Vec<Usergroup>>,
}

/// The mathematical value of a [`Resolution`].
pub struct ResolutionView {
    /// The permalink.
    pub url: Seq<char>,
    /// The id of the channel.
    pub channel_id: Seq<char>,
    /// The time of the message in microseconds, as the permalink writes it.
    pub ts: Seq<char>,
    /// The time of the thread, in seconds, where the permalink names one.
    pub thread_ts: Option<Seq<char>>,
    /// The time of the message in microseconds.
    pub micros: int,
    /// The table of emoji shortcodes.
    pub emoji: Map<Seq<char>, Seq<char>>,
    /// The answer that is awaited.
    pub stage: Stage,
    /// The name of the channel, once known.
    pub channel_name: Seq<char>,
    /// The name of the author, once known.
    pub user_name: Seq<char>,
    /// The body as far as it has been rewritten.
    pub body: Seq<char>,
    /// The mentions of the pass under way.
    pub mentions: Seq<MentionView>,
    /// What the lookups of the mentioned users found, in their order.
    pub users: Seq<Option<UserView>>,
    /// What the lookups of the mentioned channels came to, in their order.
    pub channels: Seq<ChannelLookupView>,
    /// The list of all user groups, once it has been fetched.
    pub groups: Option<Seq<UsergroupView>>,
}

impl DeepView for Resolution {
    type V = ResolutionView;

    closed spec fn deep_view(&self) -> ResolutionView {
        ResolutionView {
            url: self.url@,
            channel_id: self.channel_id@,
            ts: self.ts@,
            thread_ts: self.thread_ts.deep_view(),
            micros: self.micros as int,
            emoji: self.emoji@,
            stage: self.stage,
            channel_name: self.channel_name@,
            user_name: self.user_name@,
            body: self.body@,
            mentions: self.mentions.deep_view(),
            users: self.users.deep_view(),
            channels: self.channels.deep_view(),
            groups: self.groups.deep_view(),
        }
    }
}

/// A message, in one of its two states.
#[derive(Debug)]
pub enum SlackMessage {
    Initialized(Initialized),
    Resolved(Resolved),
}

/// The mathematical value of a [`SlackMessage`].
pub enum SlackMessageView {
    Initialized(InitializedView),
    Resolved(ResolvedView),
}

impl DeepView for SlackMessage {
    type V = SlackMessageView;

    open spec fn deep_view(&self) -> SlackMessageView {
        match self {
            SlackMessage::Initialized(state) => SlackMessageView::Initialized(state.deep_view()),
            SlackMessage::Resolved(state) => SlackMessageView::Resolved(state.deep_view()),
        }
    }
}

/// What a step of a resolution comes to.
#[derive(Debug)]
pub enum Progress {
    /// The directory is to be asked; its answer goes to the resolution.
    Ask(Resolution, DirectoryRequest),
    /// The message is resolved.
    Done(Resolved),
    /// The message cannot be resolved.
    Failed(ResolveError),
}

/// The mathematical value of a [`Progress`].
pub enum ProgressView {
    Ask(ResolutionView, RequestView),
    Done(ResolvedView),
    Failed(ResolveError),
}

impl DeepView for Progress {
    type V = ProgressView;

    open spec fn deep_view(&self) -> ProgressView {
        match self {
            Progress::Ask(resolution, request) => ProgressView::Ask(
                resolution.deep_view(),
                request.deep_view(),
            ),
            Progress::Done(resolved) => ProgressView::Done(resolved.deep_view()),
            Progress::Failed(error) => ProgressView::Failed(*error),
        }
    }
}

/// Whether the time of a message can be counted in microseconds.
pub open spec fn countable(ts: Seq<char>) -> bool {
    all_digits(ts) && decimal_value(ts) <= i64::MAX
}

/// How a resolution of the message at `place` sets out: by asking for the
/// channel. It does not set out where the time of the message cannot be
/// counted.
pub open spec fn started(place: InitializedView, emoji: Map<Seq<char>, Seq<char>>) -> Result<
    (ResolutionView, RequestView),
    ResolveError,
> {
    if countable(place.ts) {
        Ok(
            (
                ResolutionView {
                    url: place.url,
                    channel_id: place.channel_id,
                    ts: place.ts,
                    thread_ts: place.thread_ts,
                    micros: decimal_value(place.ts) as int,
                    emoji,
                    stage: Stage::Channel,
                    channel_name: Seq::empty(),
                    user_name: Seq::empty(),
                    body: Seq::empty(),
                    mentions: Seq::empty(),
                    users: Seq::empty(),
                    channels: Seq::empty(),
                    groups: None,
                },
                RequestView::ConversationsInfo { channel: place.channel_id },
            ),
        )
    } else {
        Err(ResolveError::MalformedLocation)
    }
}

/// Asking for the one message of the channel posted at the time of the
/// message.
pub open spec fn asking_history(s: ResolutionView) -> ProgressView {
    ProgressView::Ask(
        ResolutionView { stage: Stage::History, ..s },
        RequestView::ConversationsHistory {
            channel: s.channel_id,
            oldest: in_seconds(s.ts),
            latest: in_seconds(s.ts),
            limit: 1,
            inclusive: true,
        },
    )
}

/// Asking for the one message posted at the time of the message in its
/// thread: the thread that the permalink names, or, where it names none, the
/// thread of the message itself.
pub open spec fn asking_replies(s: ResolutionView) -> ProgressView {
    ProgressView::Ask(
        ResolutionView { stage: Stage::Replies, ..s },
        RequestView::ConversationsReplies {
            channel: s.channel_id,
            ts: match s.thread_ts {
                Some(thread) => thread,
                None => in_seconds(s.ts),
            },
            oldest: in_seconds(s.ts),
            latest: in_seconds(s.ts),
            limit: 1,
            inclusive: true,
        },
    )
}

/// Going on with the message found: its text becomes the body, and its
/// author is asked for, the user where it names one, else the bot. A message
/// that names neither cannot be resolved.
pub open spec fn given_message(s: ResolutionView, message: MessageView) -> ProgressView {
    match message.user {
        Some(id) => ProgressView::Ask(
            ResolutionView { stage: Stage::AuthorUser, body: body_source(message), ..s },
            RequestView::UsersInfo { id },
        ),
        None => match message.bot_id {
            Some(id) => ProgressView::Ask(
                ResolutionView { stage: Stage::AuthorBot, body: body_source(message), ..s },
                RequestView::BotsInfo { id },
            ),
            None => ProgressView::Failed(ResolveError::NoAuthor),
        },
    }
}

/// Going on within the pass over user mentions: the next mention that has
/// not been looked up is asked for; with none left the mentions are replaced
/// and the pass over channel mentions begins.
pub open spec fn users_step(s: ResolutionView) -> ProgressView {
    if s.users.len() < s.mentions.len() {
        ProgressView::Ask(s, RequestView::UsersInfo { id: s.mentions[s.users.len() as int].id })
    } else {
        let body = spliced(s.body, user_edits(s.mentions, s.users));
        channels_step(
            ResolutionView {
                stage: Stage::Channels,
                body,
                mentions: mentions_of(scanned(CHANNEL_PATTERN@, body)),
                channels: Seq::empty(),
                ..s
            },
        )
    }
}

/// Going on within the pass over channel mentions: the next mention that has
/// not been looked up is asked for; with none left the mentions are replaced
/// and the pass over user group mentions begins.
pub open spec fn channels_step(s: ResolutionView) -> ProgressView {
    if s.channels.len() < s.mentions.len() {
        ProgressView::Ask(
            s,
            RequestView::ConversationsInfo { channel: s.mentions[s.channels.len() as int].id },
        )
    } else {
        let body = spliced(s.body, channel_edits(s.mentions, s.channels));
        usergroups_step(
            ResolutionView {
                stage: Stage::Usergroups,
                body,
                mentions: mentions_of(scanned(USERGROUP_PATTERN@, body)),
                ..s
            },
        )
    }
}

/// Going on within the pass over user group mentions: where a group is
/// mentioned and the list of groups has not been fetched, the list is asked
/// for; else the body is finished.
pub open spec fn usergroups_step(s: ResolutionView) -> ProgressView {
    if s.mentions.len() > 0 && s.groups is None {
        ProgressView::Ask(s, RequestView::UsergroupsList)
    } else {
        ProgressView::Done(finished(s))
    }
}

/// The body at the end of a resolution: the user group mentions replaced by
/// the handles that the list holds for them, then the links rewritten, then
/// the emoji shortcodes expanded.
pub open spec fn finished_body(s: ResolutionView) -> Seq<char> {
    let groups = match s.groups {
        Some(groups) => groups,
        None => Seq::empty(),
    };
    let mentioned = spliced(s.body, usergroup_edits(s.mentions, groups));
    let linked = spliced(mentioned, link_edits(scanned(LINK_PATTERN@, mentioned)));
    spliced(linked, shortcode_edits(scanned(SHORTCODE_PATTERN@, linked), s.emoji))
}

/// The resolved message at the end of a resolution.
pub open spec fn finished(s: ResolutionView) -> ResolvedView {
    ResolvedView {
        url: s.url,
        channel_name: s.channel_name,
        user_name: s.user_name,
        body: finished_body(s),
        ts: s.micros,
    }
}

/// Beginning the pass over user mentions, the author being known.
pub open spec fn users_pass(s: ResolutionView) -> ProgressView {
    users_step(
        ResolutionView {
            stage: Stage::Users,
            mentions: mentions_of(scanned(USER_PATTERN@, s.body)),
            users: Seq::empty(),
            ..s
        },
    )
}

/// What the lookup of a mentioned channel came to.
pub open spec fn channel_lookup(response: ResponseView) -> ChannelLookupView {
    match response {
        ResponseView::ConversationsInfo(Some(channel)) => ChannelLookupView::Found(channel),
        ResponseView::ConversationsInfo(None) => ChannelLookupView::Missing,
        _ => ChannelLookupView::Unavailable,
    }
}

/// What the lookup of a mentioned user found.
pub open spec fn user_lookup(response: ResponseView) -> Option<UserView> {
    match response {
        ResponseView::UsersInfo(found) => found,
        _ => None,
    }
}

/// What a resolution makes of the answer to its last request.
///
/// Before the body is rewritten every failure ends the resolution: a
/// channel, message or author that the directory does not know, and an
/// answer that is missing or of another kind than the one asked for. While
/// the mentions are looked up no failure does: a user that is not found
/// leaves the mention as it is, a channel that is not found leaves it too,
/// and one that cannot be asked for gives way to a fixed label. Only the
/// list of user groups, where it is needed, has to arrive.
pub open spec fn advanced(s: ResolutionView, response: ResponseView) -> ProgressView {
    match s.stage {
        Stage::Channel => match response {
            ResponseView::ConversationsInfo(Some(channel)) => if is_direct(channel) {
                match channel.user {
                    Some(id) => ProgressView::Ask(
                        ResolutionView { stage: Stage::Partner, ..s },
                        RequestView::UsersInfo { id },
                    ),
                    None => ProgressView::Failed(ResolveError::UserNotFound),
                }
            } else {
                asking_history(ResolutionView { channel_name: channel_label(channel), ..s })
            },
            ResponseView::ConversationsInfo(None) => ProgressView::Failed(
                ResolveError::ChannelNotFound,
            ),
            _ => ProgressView::Failed(ResolveError::DirectoryUnavailable),
        },
        Stage::Partner => match response {
            ResponseView::UsersInfo(Some(user)) => asking_history(
                ResolutionView { channel_name: direct_label(user.display_name), ..s },
            ),
            ResponseView::UsersInfo(None) => ProgressView::Failed(ResolveError::UserNotFound),
            _ => ProgressView::Failed(ResolveError::DirectoryUnavailable),
        },
        Stage::History => match response {
            ResponseView::Conversations(Some(messages)) => if messages.len() > 0 {
                given_message(s, messages.last())
            } else {
                asking_replies(s)
            },
            ResponseView::Conversations(None) => ProgressView::Failed(
                ResolveError::MessageNotFound,
            ),
            _ => ProgressView::Failed(ResolveError::DirectoryUnavailable),
        },
        Stage::Replies => match response {
            ResponseView::Conversations(Some(messages)) => if messages.len() > 0 {
                given_message(s, messages.last())
            } else {
                ProgressView::Failed(ResolveError::MessageNotFound)
            },
            ResponseView::Conversations(None) => ProgressView::Failed(
                ResolveError::MessageNotFound,
            ),
            _ => ProgressView::Failed(ResolveError::DirectoryUnavailable),
        },
        Stage::AuthorUser => match response {
            ResponseView::UsersInfo(Some(user)) => users_pass(
                ResolutionView { user_name: user_name(user), ..s },
            ),
            ResponseView::UsersInfo(None) => ProgressView::Failed(ResolveError::UserNotFound),
            _ => ProgressView::Failed(ResolveError::DirectoryUnavailable),
        },
        Stage::AuthorBot => match response {
            ResponseView::BotsInfo(Some(name)) => users_pass(
                ResolutionView { user_name: name, ..s },
            ),
            ResponseView::BotsInfo(None) => ProgressView::Failed(ResolveError::BotNotFound),
            _ => ProgressView::Failed(ResolveError::DirectoryUnavailable),
        },
        Stage::Users => users_step(
            ResolutionView { users: s.users.push(user_lookup(response)), ..s },
        ),
        Stage::Channels => channels_step(
            ResolutionView { channels: s.channels.push(channel_lookup(response)), ..s },
        ),
        Stage::Usergroups => match response {
            ResponseView::UsergroupsList(Some(groups)) => usergroups_step(
                ResolutionView { groups: Some(groups), ..s },
            ),
            _ => ProgressView::Failed(ResolveError::DirectoryUnavailable),
        },
    }
}

impl Resolution {
    /// The answer that the resolution waits for.
    pub fn stage(&self) -> (stage: Stage)
        ensures
            stage == self.deep_view().stage,
    {
        self.stage
    }

    fn ask_history(self) -> (progress: Progress)
        ensures
            progress.deep_view() == asking_history(self.deep_view()),
    {
        let at = to_seconds(self.ts.as_str());
        let request = DirectoryRequest::ConversationsHistory(
            crate::request::conversations::History {
                channel: self.channel_id.clone(),
                latest: at.clone(),
                oldest: at,
                limit: 1,
                inclusive: true,
            },
        );
        let mut next = self;
        next.stage = Stage::History;
        Progress::Ask(next, request)
    }

    fn ask_replies(self) -> (progress: Progress)
        ensures
            progress.deep_view() == asking_replies(self.deep_view()),
    {
        let at = to_seconds(self.ts.as_str());
        let thread = match &self.thread_ts {
            Some(thread) => thread.clone(),
            None => at.clone(),
        };
        let request = DirectoryRequest::ConversationsReplies(
            crate::request::conversations::Replies {
                channel: self.channel_id.clone(),
                ts: thread,
                latest: at.clone(),
                oldest: at,
                limit: 1,
                inclusive: true,
            },
        );
        let mut next = self;
        next.stage = Stage::Replies;
        Progress::Ask(next, request)
    }

    fn with_message(self, message: Message) -> (progress: Progress)
        ensures
            progress.deep_view() == given_message(self.deep_view(), message.deep_view()),
    {
        let body = message.body_source();
        match message.user {
            Some(id) => {
                let mut next = self;
                next.stage = Stage::AuthorUser;
                next.body = body;
                Progress::Ask(next, DirectoryRequest::UsersInfo(crate::request::users::Info { id }))
            },
            None => match message.bot_id {
                Some(id) => {
                    let mut next = self;
                    next.stage = Stage::AuthorBot;
                    next.body = body;
                    Progress::Ask(
                        next,
                        DirectoryRequest::BotsInfo(crate::request::bots::Info { id }),
                    )
                },
                None => Progress::Failed(ResolveError::NoAuthor),
            },
        }
    }

    fn begin_users(self) -> (progress: Progress)
        ensures
            progress.deep_view() == users_pass(self.deep_view()),
    {
        let mentions = user_mentions(self.body.as_str());
        let mut next = self;
        next.stage = Stage::Users;
        next.mentions = mentions;
        next.users = Vec::new();
        assert(next.users.deep_view() =~= Seq::<Option<UserView>>::empty());
        next.continue_users()
    }

    fn continue_users(self) -> (progress: Progress)
        ensures
            progress.deep_view() == users_step(self.deep_view()),
    {
        if self.users.len() < self.mentions.len() {
            let id = self.mentions[self.users.len()].id.clone();
            Progress::Ask(self, DirectoryRequest::UsersInfo(crate::request::users::Info { id }))
        } else {
            let body = replace_user_ids(self.body.as_str(), &self.mentions, &self.users);
            let mentions = channel_mentions(body.as_str());
            let mut next = self;
            next.stage = Stage::Channels;
            next.body = body;
            next.mentions = mentions;
            next.channels = Vec::new();
            assert(next.channels.deep_view() =~= Seq::<ChannelLookupView>::empty());
            next.continue_channels()
        }
    }

    fn continue_channels(self) -> (progress: Progress)
        ensures
            progress.deep_view() == channels_step(self.deep_view()),
    {
        if self.channels.len() < self.mentions.len() {
            let channel = self.mentions[self.channels.len()].id.clone();
            Progress::Ask(
                self,
                DirectoryRequest::ConversationsInfo(
                    crate::request::conversations::Info { channel },
                ),
            )
        } else {
            let body = replace_channel_ids(self.body.as_str(), &self.mentions, &self.channels);
            let mentions = usergroup_mentions(body.as_str());
            let mut next = self;
            next.stage = Stage::Usergroups;
            next.body = body;
            next.mentions = mentions;
            next.continue_usergroups()
        }
    }

    fn continue_usergroups(self) -> (progress: Progress)
        ensures
            progress.deep_view() == usergroups_step(self.deep_view()),
    {
        if self.mentions.len() > 0 && self.groups.is_none() {
            Progress::Ask(
                self,
                DirectoryRequest::UsergroupsList(crate::request::usergroups::List {  }),
            )
        } else {
            let mentioned = match &self.groups {
                Some(groups) => replace_usergroups_ids(self.body.as_str(), &self.mentions, groups),
                None => {
                    let none: Vec<Usergroup> = Vec::new();
                    assert(none.deep_view() =~= Seq::<UsergroupView>::empty());
                    replace_usergroups_ids(self.body.as_str(), &self.mentions, &none)
                },
            };
            let linked = replace_links(mentioned.as_str());
            let body = linked.emojify(&self.emoji);
            Progress::Done(
                Resolved {
                    url: self.url,
                    channel_name: self.channel_name,
                    user_name: self.user_name,
                    body,
                    ts: self.micros,
                },
            )
        }
    }

    /// Takes the answer to the last request and says how the resolution goes
    /// on.
    pub fn advance(self, response: DirectoryResponse) -> (progress: Progress)
        ensures
            progress.deep_view() == advanced(self.deep_view(), response.deep_view()),
    {
        match self.stage {
            Stage::Channel => match response {
                DirectoryResponse::ConversationsInfo(info) => match info.channel {
                    Some(channel) => {
                        if channel.is_direct() {
                            match channel.user {
                                Some(id) => {
                                    let mut next = self;
                                    next.stage = Stage::Partner;
                                    Progress::Ask(
                                        next,
                                        DirectoryRequest::UsersInfo(
                                            crate::request::users::Info { id },
                                        ),
                                    )
                                },
                                None => Progress::Failed(ResolveError::UserNotFound),
                            }
                        } else {
                            let label = channel.label();
                            let mut next = self;
                            next.channel_name = label;
                            next.ask_history()
                        }
                    },
                    None => Progress::Failed(ResolveError::ChannelNotFound),
                },
                _ => Progress::Failed(ResolveError::DirectoryUnavailable),
            },
            Stage::Partner => match response {
                DirectoryResponse::UsersInfo(info) => match info.user {
                    Some(user) => {
                        let label = direct_message_label(user.profile.display_name.as_str());
                        let mut next = self;
                        next.channel_name = label;
                        next.ask_history()
                    },
                    None => Progress::Failed(ResolveError::UserNotFound),
                },
                _ => Progress::Failed(ResolveError::DirectoryUnavailable),
            },
            Stage::History => match response {
                DirectoryResponse::Conversations(found) => match found.messages {
                    Some(messages) => {
                        let mut messages = messages;
                        let ghost all = messages.deep_view();
                        match messages.pop() {
                            Some(message) => {
                                assert(all.last() == message.deep_view());
                                self.with_message(message)
                            },
                            None => self.ask_replies(),
                        }
                    },
                    None => Progress::Failed(ResolveError::MessageNotFound),
                },
                _ => Progress::Failed(ResolveError::DirectoryUnavailable),
            },
            Stage::Replies => match response {
                DirectoryResponse::Conversations(found) => match found.messages {
                    Some(messages) => {
                        let mut messages = messages;
                        let ghost all = messages.deep_view();
                        match messages.pop() {
                            Some(message) => {
                                assert(all.last() == message.deep_view());
                                self.with_message(message)
                            },
                            None => Progress::Failed(ResolveError::MessageNotFound),
                        }
                    },
                    None => Progress::Failed(ResolveError::MessageNotFound),
                },
                _ => Progress::Failed(ResolveError::DirectoryUnavailable),
            },
            Stage::AuthorUser => match response {
                DirectoryResponse::UsersInfo(info) => match info.user {
                    Some(user) => {
                        let name = user.shown_name();
                        let mut next = self;
                        next.user_name = name;
                        next.begin_users()
                    },
                    None => Progress::Failed(ResolveError::UserNotFound),
                },
                _ => Progress::Failed(ResolveError::DirectoryUnavailable),
            },
            Stage::AuthorBot => match response {
                DirectoryResponse::BotsInfo(info) => match info.bot {
                    Some(bot) => {
                        let mut next = self;
                        next.user_name = bot.name;
                        next.begin_users()
                    },
                    None => Progress::Failed(ResolveError::BotNotFound),
                },
                _ => Progress::Failed(ResolveError::DirectoryUnavailable),
            },
            Stage::Users => {
                let found = match response {
                    DirectoryResponse::UsersInfo(info) => info.user,
                    _ => None,
                };
                let mut next = self;
                let ghost before = next.users.deep_view();
                next.users.push(found);
                assert(next.users.deep_view() =~= before.push(found.deep_view()));
                next.continue_users()
            },
            Stage::Channels => {
                let lookup = match response {
                    DirectoryResponse::ConversationsInfo(info) => match info.channel {
                        Some(channel) => ChannelLookup::Found(channel),
                        None => ChannelLookup::Missing,
                    },
                    _ => ChannelLookup::Unavailable,
                };
                let mut next = self;
                let ghost before = next.channels.deep_view();
                next.channels.push(lookup);
                assert(next.channels.deep_view() =~= before.push(lookup.deep_view()));
                next.continue_channels()
            },
            Stage::Usergroups => match response {
                DirectoryResponse::UsergroupsList(list) => match list.usergroups {
                    Some(groups) => {
                        let mut next = self;
                        next.groups = Some(groups);
                        next.continue_usergroups()
                    },
                    None => Progress::Failed(ResolveError::DirectoryUnavailable),
                },
                _ => Progress::Failed(ResolveError::DirectoryUnavailable),
            },
        }
    }
}

/// The message that the permalink `url` points to, if it points to one.
pub open spec fn initialized(url: Seq<char>) -> Result<SlackMessageView, ResolveError> {
    match parsed(url) {
        Ok(place) => Ok(
            SlackMessageView::Initialized(
                InitializedView {
                    url,
                    channel_id: place.channel_id,
                    ts: place.ts,
                    thread_ts: place.thread_ts,
                },
            ),
        ),
        Err(error) => Err(error),
    }
}

impl SlackMessage {
    /// Reads the permalink `url`.
    pub fn try_from(url: &str) -> (out: Result<SlackMessage, ResolveError>)
        ensures
            outcome(out) == initialized(url@),
    {
        match Self::parse(url) {
            Ok(place) => Ok(
                SlackMessage::Initialized(
                    Initialized {
                        url: String::from_str(url),
                        channel_id: place.channel_id,
                        ts: place.ts,
                        thread_ts: place.thread_ts,
                    },
                ),
            ),
            Err(error) => Err(error),
        }
    }

    /// Reads where the permalink `url` points: the channel, the time of the
    /// message, and the thread where it names one.
    pub fn parse(url: &str) -> (out: Result<Location, ResolveError>)
        ensures
            outcome(out) == parsed(url@),
    {
        crate::permalink::parse(url)
    }

    /// Sets out to resolve the message: hands out the resolution and the
    /// first request to send. A message that is resolved already is not
    /// resolved again.
    pub fn resolve(&self, emoji: EmojiTable) -> (out: Result<
        (Resolution, DirectoryRequest),
        ResolveError,
    >)
        ensures
            outcome(out) == (match self.deep_view() {
                SlackMessageView::Initialized(place) => started(place, emoji@),
                SlackMessageView::Resolved(_) => Err(ResolveError::IllegalState),
            }),
    {
        match self {
            SlackMessage::Resolved(_) => Err(ResolveError::IllegalState),
            SlackMessage::Initialized(place) => match to_micros(place.ts.as_str()) {
                Some(micros) => {
                    let resolution = Resolution {
                        url: place.url.clone(),
                        channel_id: place.channel_id.clone(),
                        ts: place.ts.clone(),
                        thread_ts: match &place.thread_ts {
                            Some(thread) => Some(thread.clone()),
                            None => None,
                        },
                        micros,
                        emoji,
                        stage: Stage::Channel,
                        channel_name: String::new(),
                        user_name: String::new(),
                        body: String::new(),
                        mentions: Vec::new(),
                        users: Vec::new(),
                        channels: Vec::new(),
                        groups: None,
                    };
                    let request = DirectoryRequest::ConversationsInfo(
                        crate::request::conversations::Info { channel: place.channel_id.clone() },
                    );
                    assert(resolution.mentions.deep_view() =~= Seq::<MentionView>::empty());
                    assert(resolution.users.deep_view() =~= Seq::<Option<UserView>>::empty());
                    assert(resolution.channels.deep_view() =~= Seq::<
                        ChannelLookupView,
                    >::empty());
                    Ok((resolution, request))
                },
                None => Err(ResolveError::MalformedLocation),
            },
        }
    }

    /// The resolved message; an error where the message is not resolved.
    pub fn resolved(&self) -> (out: Result<&Resolved, ResolveError>)
        ensures
            match self {
                SlackMessage::Resolved(state) => out == Ok::<&Resolved, ResolveError>(state),
                SlackMessage::Initialized(_) => out == Err::<&Resolved, ResolveError>(
                    ResolveError::IllegalState,
                ),
            },
    {
        match self {
            SlackMessage::Resolved(state) => Ok(state),
            SlackMessage::Initialized(_) => Err(ResolveError::IllegalState),
        }
    }

    /// The name under which a user is shown: the real name for a bot, else
    /// the display name, else, where that is empty, the account name.
    pub fn get_user_name(&self, user: User) -> (name: String)
        ensures
            name@ == user_name(user.deep_view()),
    {
        user.shown_name()
    }
}

impl State for SlackMessage {
    open spec fn source(&self) -> Seq<char> {
        match self {
            SlackMessage::Initialized(state) => state.url@,
            SlackMessage::Resolved(state) => state.url@,
        }
    }

    fn url(&self) -> (url: &str) {
        match self {
            SlackMessage::Initialized(state) => state.url.as_str(),
            SlackMessage::Resolved(state) => state.url.as_str(),
        }
    }
}

/// The requests that are sent from `progress` on while the answers
/// `answers` come in, in their order.
pub open spec fn requests_of(progress: ProgressView, answers: Seq<ResponseView>) -> Seq<
    RequestView,
>
    decreases answers.len(),
{
    match progress {
        ProgressView::Ask(s, request) => if answers.len() == 0 {
            seq![request]
        } else {
            seq![request] + requests_of(advanced(s, answers[0]), answers.skip(1))
        },
        _ => Seq::empty(),
    }
}

/// How often the list of all user groups is asked for among some requests.
pub open spec fn list_requests(requests: Seq<RequestView>) -> nat
    decreases requests.len(),
{
    if requests.len() == 0 {
        0
    } else if requests.last() is UsergroupsList {
        list_requests(requests.drop_last()) + 1
    } else {
        list_requests(requests.drop_last())
    }
}

/// The list is asked for by a resolution that waits for it and has not got
/// it, and by no other.
spec fn asks_in_turn(progress: ProgressView) -> bool {
    progress matches ProgressView::Ask(s, request) ==> (request is UsergroupsList ==> s.stage
        == Stage::Usergroups && s.groups is None)
}

proof fn lemma_asks_in_turn(s: ResolutionView, response: ResponseView)
    ensures
        asks_in_turn(advanced(s, response)),
        s.stage == Stage::Usergroups ==> !(advanced(s, response) is Ask),
{
}

proof fn lemma_list_requests_add(first: Seq<RequestView>, second: Seq<RequestView>)
    ensures
        list_requests(first + second) == list_requests(first) + list_requests(second),
    decreases second.len(),
{
    if second.len() == 0 {
        assert(first + second =~= first);
    } else {
        lemma_list_requests_add(first, second.drop_last());
        assert((first + second).drop_last() =~= first + second.drop_last());
    }
}

proof fn lemma_listed_at_most_once(progress: ProgressView, answers: Seq<ResponseView>)
    requires
        asks_in_turn(progress),
    ensures
        list_requests(requests_of(progress, answers)) <= 1,
    decreases answers.len(),
{
    match progress {
        ProgressView::Ask(s, request) => {
            let one = seq![request];
            assert(one.drop_last() =~= Seq::<RequestView>::empty());
            assert(list_requests(Seq::<RequestView>::empty()) == 0);
            assert(list_requests(one.drop_last()) == 0);
            assert(list_requests(one) <= 1);
            assert(list_requests(one) == 1 ==> request is UsergroupsList);
            if answers.len() > 0 {
                let next = advanced(s, answers[0]);
                lemma_asks_in_turn(s, answers[0]);
                lemma_listed_at_most_once(next, answers.skip(1));
                lemma_list_requests_add(one, requests_of(next, answers.skip(1)));
                if request is UsergroupsList {
                    assert(requests_of(next, answers.skip(1)) =~= Seq::<RequestView>::empty());
                }
            }
        },
        _ => {},
    }
}

/// Whatever the directory answers, a resolution asks for the list of all
/// user groups once at most, however many groups the body mentions.
pub proof fn law_usergroups_are_listed_at_most_once(
    place: InitializedView,
    emoji: Map<Seq<char>, Seq<char>>,
    answers: Seq<ResponseView>,
)
    requires
        started(place, emoji) is Ok,
    ensures
        list_requests(
            requests_of(
                ProgressView::Ask(started(place, emoji)->Ok_0.0, started(place, emoji)->Ok_0.1),
                answers,
            ),
        ) <= 1,
{
    lemma_listed_at_most_once(
        ProgressView::Ask(started(place, emoji)->Ok_0.0, started(place, emoji)->Ok_0.1),
        answers,
    );
}

/// Where the directory hands out no list of messages for the channel at
/// all, the message is not found, and the resolution ends there: neither the
/// thread nor anything else is asked for.
pub proof fn law_absent_history_ends_the_resolution(s: ResolutionView, answers: Seq<ResponseView>)
    requires
        s.stage == Stage::History,
    ensures
        advanced(s, ResponseView::Conversations(None)) == ProgressView::Failed(
            ResolveError::MessageNotFound,
        ),
        requests_of(advanced(s, ResponseView::Conversations(None)), answers) == Seq::<
            RequestView,
        >::empty(),
{
}

/// Where the history of the channel holds no message at the time of the
/// message, the thread is asked for that one message, and the message that
/// comes back from the thread is the one that is resolved: its text becomes
/// the body, and its author, where it names one, is looked up next.
pub proof fn law_empty_history_falls_back_to_the_thread(
    s: ResolutionView,
    replies: Seq<MessageView>,
)
    requires
        s.stage == Stage::History,
        replies.len() > 0,
    ensures
        advanced(s, ResponseView::Conversations(Some(Seq::empty()))) == asking_replies(s),
        asking_replies(s) matches ProgressView::Ask(waiting, request) && request
            is ConversationsReplies && advanced(waiting, ResponseView::Conversations(Some(replies)))
            == given_message(waiting, replies.last()),
        given_message(asking_replies(s)->Ask_0, replies.last()) matches ProgressView::Ask(next, _)
            ==> next.body == body_source(replies.last()),
        replies.last().user is Some || replies.last().bot_id is Some ==> given_message(
            asking_replies(s)->Ask_0,
            replies.last(),
        ) is Ask,
{
}

/// Once the mentions of the body are being looked up, no answer fails the
/// resolution: whatever comes back for a mentioned user or channel, the
/// resolution goes on or ends with the message resolved.
pub proof fn law_mention_lookups_do_not_fail(s: ResolutionView, response: ResponseView)
    requires
        s.stage == Stage::Users || s.stage == Stage::Channels,
    ensures
        !(advanced(s, response) is Failed),
{
}

} // verus!
