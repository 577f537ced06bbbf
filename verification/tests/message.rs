use slack_client::emojify::EmojiTable;
use slack_client::error::ResolveError;
use slack_client::message::state::{Resolved, State};
use slack_client::message::{Progress, SlackMessage, Stage};
use slack_client::request::{bots, conversations, usergroups, users, DirectoryRequest, Request, RequestMethod};
use slack_client::response::bots::{Bot, BotsInfo};
use slack_client::response::conversations::{
    Channel, Conversations, ConversationsInfo, Message, Purpose,
};
use slack_client::response::usergroups::{Usergroup, UsergroupsList};
use slack_client::response::users::{Profile, User, UsersInfo};
use slack_client::response::DirectoryResponse;
use slack_client::rich_text::{Block, BlockType, RichTextElement};

const LINK: &str = "https://org.example/archives/C123/p1700000000000100?thread_ts=1699999999.000100";

fn describe(request: &DirectoryRequest) -> String {
    match request {
        DirectoryRequest::ConversationsInfo(r) => format!("channel {}", r.channel),
        DirectoryRequest::ConversationsHistory(r) => format!(
            "history {} {}..{} limit {} inclusive {}",
            r.channel, r.oldest, r.latest, r.limit, r.inclusive
        ),
        DirectoryRequest::ConversationsReplies(r) => format!(
            "replies {} of {} {}..{} limit {} inclusive {}",
            r.channel, r.ts, r.oldest, r.latest, r.limit, r.inclusive
        ),
        DirectoryRequest::UsersInfo(r) => format!("user {}", r.id),
        DirectoryRequest::BotsInfo(r) => format!("bot {}", r.id),
        DirectoryRequest::UsergroupsList(_) => "usergroups".to_string(),
    }
}

fn run(
    link: &str,
    table: EmojiTable,
    mut directory: impl FnMut(&DirectoryRequest) -> DirectoryResponse,
) -> (Result<Resolved, ResolveError>, Vec<String>) {
    let mut asked = Vec::new();
    let message = match SlackMessage::try_from(link) {
        Ok(message) => message,
        Err(error) => return (Err(error), asked),
    };
    let (mut resolution, mut request) = match message.resolve(table) {
        Ok(start) => start,
        Err(error) => return (Err(error), asked),
    };
    loop {
        asked.push(describe(&request));
        assert!(asked.len() < 100);
        match resolution.advance(directory(&request)) {
            Progress::Ask(next, then) => {
                resolution = next;
                request = then;
            }
            Progress::Done(resolved) => return (Ok(resolved), asked),
            Progress::Failed(error) => return (Err(error), asked),
        }
    }
}

fn channel(name: &str) -> DirectoryResponse {
    DirectoryResponse::ConversationsInfo(ConversationsInfo {
        ok: true,
        channel: Some(Channel {
            is_im: Some(false),
            is_mpim: None,
            name_normalized: Some(name.to_string()),
            purpose: None,
            user: None,
        }),
    })
}

fn no_channel() -> DirectoryResponse {
    DirectoryResponse::ConversationsInfo(ConversationsInfo { ok: false, channel: None })
}

fn user(name: &str, display_name: &str) -> DirectoryResponse {
    DirectoryResponse::UsersInfo(UsersInfo {
        user: Some(User {
            name: name.to_string(),
            real_name: format!("{} Real", name),
            profile: Profile { display_name: display_name.to_string() },
            is_bot: false,
        }),
    })
}

fn no_user() -> DirectoryResponse {
    DirectoryResponse::UsersInfo(UsersInfo { user: None })
}

fn text_message(user: Option<&str>, bot: Option<&str>, text: &str) -> Message {
    Message {
        user: user.map(|u| u.to_string()),
        bot_id: bot.map(|b| b.to_string()),
        text: Some(text.to_string()),
        blocks: None,
    }
}

fn messages(all: Vec<Message>) -> DirectoryResponse {
    DirectoryResponse::Conversations(Conversations { ok: true, messages: Some(all) })
}

fn no_messages() -> DirectoryResponse {
    DirectoryResponse::Conversations(Conversations { ok: false, messages: None })
}

fn groups(all: &[(&str, &str)]) -> DirectoryResponse {
    DirectoryResponse::UsergroupsList(UsergroupsList {
        usergroups: Some(
            all.iter()
                .map(|(id, handle)| Usergroup { id: id.to_string(), handle: handle.to_string() })
                .collect(),
        ),
    })
}

#[test]
fn end_to_end_message_with_a_mention() {
    let (resolved, asked) = run(LINK, EmojiTable::new(), |request| match describe(request).as_str() {
        "channel C123" => channel("general"),
        "history C123 1700000000.000100..1700000000.000100 limit 1 inclusive true" => {
            messages(vec![text_message(Some("U1"), None, "Hello <@U2>")])
        }
        "user U1" => user("alice", "Alice"),
        "user U2" => user("bob", "Bob"),
        other => panic!("unexpected request: {}", other),
    });
    let resolved = resolved.unwrap();
    assert_eq!(resolved.channel_name, "general");
    assert_eq!(resolved.user_name, "Alice");
    assert_eq!(resolved.body, "Hello **@Bob**");
    assert_eq!(resolved.ts, 1700000000000100);
    assert_eq!(resolved.url, LINK);
    assert_eq!(resolved.url(), LINK);
    assert_eq!(
        asked,
        vec![
            "channel C123",
            "history C123 1700000000.000100..1700000000.000100 limit 1 inclusive true",
            "user U1",
            "user U2",
        ]
    );
}

#[test]
fn empty_history_falls_back_to_the_thread() {
    let (resolved, asked) = run(LINK, EmojiTable::new(), |request| match request {
        DirectoryRequest::ConversationsInfo(_) => channel("general"),
        DirectoryRequest::ConversationsHistory(_) => messages(vec![]),
        DirectoryRequest::ConversationsReplies(_) => {
            messages(vec![text_message(Some("U1"), None, "from the thread")])
        }
        DirectoryRequest::UsersInfo(_) => user("alice", ""),
        other => panic!("unexpected request: {}", describe(other)),
    });
    let resolved = resolved.unwrap();
    assert_eq!(resolved.body, "from the thread");
    assert_eq!(resolved.user_name, "alice");
    assert_eq!(
        asked[2],
        "replies C123 of 1699999999.000100 1700000000.000100..1700000000.000100 limit 1 inclusive true"
    );
}

#[test]
fn thread_of_the_message_itself_is_asked_where_the_link_names_none() {
    let link = "https://org.example/archives/C123/p1700000000000100";
    let (_, asked) = run(link, EmojiTable::new(), |request| match request {
        DirectoryRequest::ConversationsInfo(_) => channel("general"),
        DirectoryRequest::ConversationsHistory(_) => messages(vec![]),
        _ => messages(vec![]),
    });
    assert_eq!(
        asked[2],
        "replies C123 of 1700000000.000100 1700000000.000100..1700000000.000100 limit 1 inclusive true"
    );
}

#[test]
fn absent_history_fails_without_asking_for_the_thread() {
    let (resolved, asked) = run(LINK, EmojiTable::new(), |request| match request {
        DirectoryRequest::ConversationsInfo(_) => channel("general"),
        DirectoryRequest::ConversationsHistory(_) => no_messages(),
        other => panic!("unexpected request: {}", describe(other)),
    });
    assert_eq!(resolved.unwrap_err(), ResolveError::MessageNotFound);
    assert_eq!(asked.len(), 2);
    assert!(asked.iter().all(|a| !a.starts_with("replies")));
}

#[test]
fn thread_without_the_message_fails() {
    for replies in [false, true] {
        let (resolved, asked) = run(LINK, EmojiTable::new(), |request| match request {
            DirectoryRequest::ConversationsInfo(_) => channel("general"),
            DirectoryRequest::ConversationsHistory(_) => messages(vec![]),
            DirectoryRequest::ConversationsReplies(_) => {
                if replies {
                    messages(vec![])
                } else {
                    no_messages()
                }
            }
            other => panic!("unexpected request: {}", describe(other)),
        });
        assert_eq!(resolved.unwrap_err(), ResolveError::MessageNotFound);
        assert_eq!(asked.len(), 3);
    }
}

#[test]
fn usergroups_are_listed_once_for_two_mentions() {
    let (resolved, asked) = run(LINK, EmojiTable::new(), |request| match request {
        DirectoryRequest::ConversationsInfo(_) => channel("general"),
        DirectoryRequest::ConversationsHistory(_) => messages(vec![text_message(
            Some("U1"),
            None,
            "ping <!subteam^S1> and <!subteam^S2> and <!subteam^S3>",
        )]),
        DirectoryRequest::UsersInfo(_) => user("alice", "Alice"),
        DirectoryRequest::UsergroupsList(_) => groups(&[("S1", "devs"), ("S2", "ops")]),
        other => panic!("unexpected request: {}", describe(other)),
    });
    assert_eq!(resolved.unwrap().body, "ping **@devs** and **@ops** and <!subteam^S3>");
    assert_eq!(asked.iter().filter(|a| *a == "usergroups").count(), 1);
}

#[test]
fn usergroups_are_not_listed_without_a_mention() {
    let (resolved, asked) = run(LINK, EmojiTable::new(), |request| match request {
        DirectoryRequest::ConversationsInfo(_) => channel("general"),
        DirectoryRequest::ConversationsHistory(_) => {
            messages(vec![text_message(Some("U1"), None, "nobody")])
        }
        DirectoryRequest::UsersInfo(_) => user("alice", "Alice"),
        other => panic!("unexpected request: {}", describe(other)),
    });
    assert_eq!(resolved.unwrap().body, "nobody");
    assert_eq!(asked.iter().filter(|a| *a == "usergroups").count(), 0);
}

#[test]
fn list_of_usergroups_has_to_arrive() {
    for absent in [false, true] {
        let (resolved, _) = run(LINK, EmojiTable::new(), |request| match request {
            DirectoryRequest::ConversationsInfo(_) => channel("general"),
            DirectoryRequest::ConversationsHistory(_) => {
                messages(vec![text_message(Some("U1"), None, "<!subteam^S1>")])
            }
            DirectoryRequest::UsersInfo(_) => user("alice", "Alice"),
            DirectoryRequest::UsergroupsList(_) => {
                if absent {
                    DirectoryResponse::UsergroupsList(UsergroupsList { usergroups: None })
                } else {
                    DirectoryResponse::Unavailable
                }
            }
            other => panic!("unexpected request: {}", describe(other)),
        });
        assert_eq!(resolved.unwrap_err(), ResolveError::DirectoryUnavailable);
    }
}

#[test]
fn mentions_that_cannot_be_resolved_do_not_fail_the_resolution() {
    let (resolved, asked) = run(LINK, EmojiTable::new(), |request| match describe(request).as_str() {
        "channel C123" => channel("general"),
        "user U1" => user("alice", "Alice"),
        "user U2" => no_user(),
        "user U3" => DirectoryResponse::Unavailable,
        "channel C7" => no_channel(),
        "channel C8" => DirectoryResponse::Unavailable,
        "channel C9" => channel("random"),
        other if other.starts_with("history") => messages(vec![text_message(
            Some("U1"),
            None,
            "<@U2> <@U3> <#C7> <#C8> <#C9|nine>",
        )]),
        other => panic!("unexpected request: {}", other),
    });
    assert_eq!(resolved.unwrap().body, "<@U2> <@U3> <#C7> **#private channel** **#random**");
    assert_eq!(
        asked[3..].to_vec(),
        vec!["user U2", "user U3", "channel C7", "channel C8", "channel C9"]
    );
}

#[test]
fn top_level_lookups_are_fatal() {
    let (resolved, asked) = run(LINK, EmojiTable::new(), |_| no_channel());
    assert_eq!(resolved.unwrap_err(), ResolveError::ChannelNotFound);
    assert_eq!(asked, vec!["channel C123"]);

    let (resolved, _) = run(LINK, EmojiTable::new(), |_| DirectoryResponse::Unavailable);
    assert_eq!(resolved.unwrap_err(), ResolveError::DirectoryUnavailable);

    let (resolved, _) = run(LINK, EmojiTable::new(), |request| match request {
        DirectoryRequest::ConversationsInfo(_) => channel("general"),
        _ => DirectoryResponse::Unavailable,
    });
    assert_eq!(resolved.unwrap_err(), ResolveError::DirectoryUnavailable);

    let (resolved, _) = run(LINK, EmojiTable::new(), |request| match request {
        DirectoryRequest::ConversationsInfo(_) => channel("general"),
        DirectoryRequest::ConversationsHistory(_) => {
            messages(vec![text_message(Some("U1"), None, "x")])
        }
        _ => no_user(),
    });
    assert_eq!(resolved.unwrap_err(), ResolveError::UserNotFound);

    let (resolved, _) = run(LINK, EmojiTable::new(), |request| match request {
        DirectoryRequest::ConversationsInfo(_) => channel("general"),
        DirectoryRequest::ConversationsHistory(_) => {
            messages(vec![text_message(None, Some("B1"), "x")])
        }
        _ => DirectoryResponse::BotsInfo(BotsInfo { bot: None }),
    });
    assert_eq!(resolved.unwrap_err(), ResolveError::BotNotFound);

    let (resolved, asked) = run(LINK, EmojiTable::new(), |request| match request {
        DirectoryRequest::ConversationsInfo(_) => channel("general"),
        _ => messages(vec![text_message(None, None, "x")]),
    });
    assert_eq!(resolved.unwrap_err(), ResolveError::NoAuthor);
    assert_eq!(asked.len(), 2);
}

#[test]
fn answer_of_another_kind_counts_as_unavailable() {
    let (resolved, _) = run(LINK, EmojiTable::new(), |_| no_user());
    assert_eq!(resolved.unwrap_err(), ResolveError::DirectoryUnavailable);
}

#[test]
fn bot_author_is_looked_up_by_bot_id() {
    let (resolved, asked) = run(LINK, EmojiTable::new(), |request| match request {
        DirectoryRequest::ConversationsInfo(_) => channel("general"),
        DirectoryRequest::ConversationsHistory(_) => {
            messages(vec![text_message(None, Some("B1"), "beep")])
        }
        DirectoryRequest::BotsInfo(_) => {
            DirectoryResponse::BotsInfo(BotsInfo { bot: Some(Bot { name: "robot".to_string() }) })
        }
        other => panic!("unexpected request: {}", describe(other)),
    });
    let resolved = resolved.unwrap();
    assert_eq!(resolved.user_name, "robot");
    assert_eq!(asked[2], "bot B1");
}

#[test]
fn user_id_goes_before_bot_id() {
    let (_, asked) = run(LINK, EmojiTable::new(), |request| match request {
        DirectoryRequest::ConversationsInfo(_) => channel("general"),
        DirectoryRequest::ConversationsHistory(_) => {
            messages(vec![text_message(Some("U1"), Some("B1"), "x")])
        }
        _ => user("alice", "Alice"),
    });
    assert_eq!(asked[2], "user U1");
}

#[test]
fn direct_message_is_labelled_by_the_other_party() {
    let (resolved, asked) = run(LINK, EmojiTable::new(), |request| match describe(request).as_str() {
        "channel C123" => DirectoryResponse::ConversationsInfo(ConversationsInfo {
            ok: true,
            channel: Some(Channel {
                is_im: Some(true),
                is_mpim: None,
                name_normalized: None,
                purpose: None,
                user: Some("U9".to_string()),
            }),
        }),
        "user U9" => user("carol", "Carol"),
        "user U1" => user("alice", "Alice"),
        other if other.starts_with("history") => {
            messages(vec![text_message(Some("U1"), None, "hi")])
        }
        other => panic!("unexpected request: {}", other),
    });
    assert_eq!(resolved.unwrap().channel_name, "DM with Carol");
    assert_eq!(asked[1], "user U9");
}

#[test]
fn direct_message_without_the_other_party_fails() {
    let (resolved, _) = run(LINK, EmojiTable::new(), |_| {
        DirectoryResponse::ConversationsInfo(ConversationsInfo {
            ok: true,
            channel: Some(Channel {
                is_im: Some(true),
                is_mpim: None,
                name_normalized: None,
                purpose: None,
                user: None,
            }),
        })
    });
    assert_eq!(resolved.unwrap_err(), ResolveError::UserNotFound);
}

#[test]
fn group_conversation_is_labelled_by_its_purpose() {
    for (purpose, label) in [(Some("planning"), "planning"), (None, "Unknown")] {
        let (resolved, _) = run(LINK, EmojiTable::new(), |request| match request {
            DirectoryRequest::ConversationsInfo(_) => {
                DirectoryResponse::ConversationsInfo(ConversationsInfo {
                    ok: true,
                    channel: Some(Channel {
                        is_im: None,
                        is_mpim: Some(true),
                        name_normalized: Some("mpdm-a--b-1".to_string()),
                        purpose: purpose.map(|p| Purpose { value: p.to_string() }),
                        user: None,
                    }),
                })
            }
            DirectoryRequest::ConversationsHistory(_) => {
                messages(vec![text_message(Some("U1"), None, "hi")])
            }
            _ => user("alice", "Alice"),
        });
        assert_eq!(resolved.unwrap().channel_name, label);
    }
}

#[test]
fn channel_without_a_name_is_unknown() {
    let (resolved, _) = run(LINK, EmojiTable::new(), |request| match request {
        DirectoryRequest::ConversationsInfo(_) => {
            DirectoryResponse::ConversationsInfo(ConversationsInfo {
                ok: true,
                channel: Some(Channel {
                    is_im: None,
                    is_mpim: None,
                    name_normalized: None,
                    purpose: None,
                    user: None,
                }),
            })
        }
        DirectoryRequest::ConversationsHistory(_) => {
            messages(vec![text_message(Some("U1"), None, "hi")])
        }
        _ => user("alice", "Alice"),
    });
    assert_eq!(resolved.unwrap().channel_name, "Unknown");
}

#[test]
fn blocks_go_before_text_and_unsupported_blocks_leave_no_trace() {
    let section = |text: &str| Block {
        block_type: BlockType::RichText,
        elements: Some(vec![RichTextElement::RichTextSection {
            elements: vec![RichTextElement::Text { text: text.to_string(), style: None }],
        }]),
    };
    let other = |kind: BlockType| Block {
        block_type: kind,
        elements: Some(vec![RichTextElement::Text { text: "dropped".to_string(), style: None }]),
    };
    let message = Message {
        user: Some("U1".to_string()),
        bot_id: None,
        text: Some("plain".to_string()),
        blocks: Some(vec![
            other(BlockType::Header),
            section("one "),
            other(BlockType::Divider),
            section("two"),
            other(BlockType::Image),
        ]),
    };
    assert_eq!(message.body_source(), "one two");
    let mut table = EmojiTable::new();
    table.insert(":tada:".to_string(), "🎉".to_string());
    let mut message = Some(message);
    let (resolved, _) = run(LINK, table, |request| match request {
        DirectoryRequest::ConversationsInfo(_) => channel("general"),
        DirectoryRequest::ConversationsHistory(_) => messages(vec![message.take().unwrap()]),
        _ => user("alice", "Alice"),
    });
    assert_eq!(resolved.unwrap().body, "one two");
}

#[test]
fn body_is_rewritten_in_the_order_of_the_passes() {
    let mut table = EmojiTable::new();
    table.insert(":tada:".to_string(), "🎉".to_string());
    let (resolved, asked) = run(LINK, table, |request| match describe(request).as_str() {
        "channel C123" => channel("general"),
        "user U1" => user("alice", "Alice"),
        "user U2" => user("bob", ":tada:"),
        "channel C5" => channel("random"),
        "usergroups" => groups(&[("S1", "devs")]),
        other if other.starts_with("history") => messages(vec![text_message(
            Some("U1"),
            None,
            "<!subteam^S1> <#C5> <@U2> <https://a.test|A> :tada: :nope:",
        )]),
        other => panic!("unexpected request: {}", other),
    });
    assert_eq!(
        resolved.unwrap().body,
        "**@devs** **#random** **@🎉** [A](https://a.test) 🎉 :nope:"
    );
    assert_eq!(asked[3..].to_vec(), vec!["user U2", "channel C5", "usergroups"]);
}

#[test]
fn message_without_text_or_blocks_has_an_empty_body() {
    let (resolved, _) = run(LINK, EmojiTable::new(), |request| match request {
        DirectoryRequest::ConversationsInfo(_) => channel("general"),
        DirectoryRequest::ConversationsHistory(_) => messages(vec![Message {
            user: Some("U1".to_string()),
            bot_id: None,
            text: None,
            blocks: None,
        }]),
        _ => user("alice", "Alice"),
    });
    assert_eq!(resolved.unwrap().body, "");
}

#[test]
fn last_message_of_the_answer_is_the_one_resolved() {
    let (resolved, asked) = run(LINK, EmojiTable::new(), |request| match request {
        DirectoryRequest::ConversationsInfo(_) => channel("general"),
        DirectoryRequest::ConversationsHistory(_) => messages(vec![
            text_message(Some("U0"), None, "first"),
            text_message(Some("U1"), None, "last"),
        ]),
        _ => user("alice", "Alice"),
    });
    assert_eq!(resolved.unwrap().body, "last");
    assert_eq!(asked[2], "user U1");
}

#[test]
fn time_beyond_the_range_is_malformed_and_nothing_is_asked() {
    let link = "https://org.example/archives/C123/p99999999999999999999";
    let (resolved, asked) = run(link, EmojiTable::new(), |_| DirectoryResponse::Unavailable);
    assert_eq!(resolved.unwrap_err(), ResolveError::MalformedLocation);
    assert!(asked.is_empty());
}

#[test]
fn resolved_message_is_not_resolved_again() {
    let message = SlackMessage::Resolved(Resolved {
        url: LINK.to_string(),
        channel_name: "general".to_string(),
        user_name: "Alice".to_string(),
        body: "hi".to_string(),
        ts: 1,
    });
    assert_eq!(message.resolve(EmojiTable::new()).unwrap_err(), ResolveError::IllegalState);
    assert_eq!(message.resolved().unwrap().body, "hi");
    assert_eq!(message.url(), LINK);
}

#[test]
fn resolution_tells_what_it_waits_for() {
    let message = SlackMessage::try_from(LINK).unwrap();
    let (resolution, request) = message.resolve(EmojiTable::new()).unwrap();
    assert_eq!(resolution.stage(), Stage::Channel);
    assert_eq!(request.path(), "conversations.info");
    match resolution.advance(channel("general")) {
        Progress::Ask(resolution, request) => {
            assert_eq!(resolution.stage(), Stage::History);
            assert_eq!(request.path(), "conversations.history");
        }
        _ => panic!("the history was not asked for"),
    }
}

#[test]
fn requests_name_their_endpoints() {
    let info = conversations::Info { channel: "C1".to_string() };
    assert_eq!(info.path(), "conversations.info");
    assert_eq!(info.method(), RequestMethod::Get);
    assert_eq!(users::Info { id: "U1".to_string() }.path(), "users.info");
    assert_eq!(bots::Info { id: "B1".to_string() }.path(), "bots.info");
    assert_eq!(usergroups::List {}.path(), "usergroups.list");
    let replies = conversations::Replies {
        channel: "C1".to_string(),
        ts: "1.000000".to_string(),
        latest: "1.000000".to_string(),
        oldest: "1.000000".to_string(),
        limit: 1,
        inclusive: true,
    };
    assert_eq!(DirectoryRequest::ConversationsReplies(replies).path(), "conversations.replies");
}

#[test]
fn author_name_follows_the_rules_for_user_names() {
    let message = SlackMessage::try_from(LINK).unwrap();
    let bot = User {
        name: "acct".to_string(),
        real_name: "Real".to_string(),
        profile: Profile { display_name: "Shown".to_string() },
        is_bot: true,
    };
    assert_eq!(message.get_user_name(bot), "Real");
}

#[test]
fn errors_say_what_went_wrong() {
    assert_eq!(ResolveError::MessageNotFound.to_string(), "No messages found");
    assert_eq!(ResolveError::NoAuthor.to_string(), "No user or bot found");
    assert_eq!(ResolveError::ChannelNotFound.to_string(), "Channel not found");
}
