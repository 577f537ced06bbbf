use slack_client::mrkdwn::{
    channel_mentions, emphasize, mentions, replace_channel, replace_channel_ids, replace_links,
    replace_user, replace_user_ids, replace_usergroup, replace_usergroups_ids, rewrite_links,
    splice, user_mentions, usergroup_mentions, ChannelLookup, Edit,
};
use slack_client::pattern::{scan, tokens, Token};
use slack_client::response::conversations::Channel;
use slack_client::response::usergroups::{find_handle, Usergroup};
use slack_client::response::users::{Profile, User};
use slack_client::text::{cut, is_on_boundary, is_valid_range};

fn user(name: &str, real_name: &str, display_name: &str, is_bot: bool) -> User {
    User {
        name: name.to_string(),
        real_name: real_name.to_string(),
        profile: Profile { display_name: display_name.to_string() },
        is_bot,
    }
}

fn channel(name: Option<&str>) -> Channel {
    Channel {
        is_im: None,
        is_mpim: None,
        name_normalized: name.map(|n| n.to_string()),
        purpose: None,
        user: None,
    }
}

fn group(id: &str, handle: &str) -> Usergroup {
    Usergroup { id: id.to_string(), handle: handle.to_string() }
}

fn edit(start: usize, end: usize, replacement: Option<&str>) -> Edit {
    Edit { start, end, replacement: replacement.map(|r| r.to_string()) }
}

#[test]
fn link_becomes_one_markdown_link() {
    let out = replace_links("<https://a.test|Title>");
    assert_eq!(out, "[Title](https://a.test)");
    assert!(!out.contains('<'));
    assert!(!out.contains('>'));
    assert_eq!(out.matches("](").count(), 1);
}

#[test]
fn links_are_rewritten_in_place() {
    assert_eq!(
        replace_links("see <https://a.test|A> and <https://b.test|B>!"),
        "see [A](https://a.test) and [B](https://b.test)!"
    );
    assert_eq!(replace_links("nothing to do"), "nothing to do");
}

#[test]
fn link_without_title_stays() {
    assert_eq!(replace_links("<https://a.test|>"), "<https://a.test|>");
    assert_eq!(replace_links("<https://a.test>"), "<https://a.test>");
}

#[test]
fn links_are_rewritten_around_other_scripts() {
    assert_eq!(replace_links("日本語 <https://a.test|題名> です"), "日本語 [題名](https://a.test) です");
}

#[test]
fn rewriting_links_goes_by_the_tokens_given() {
    let token = Token {
        start: 2,
        end: 5,
        groups: vec![Some("cde".to_string()), Some("u".to_string()), Some("t".to_string())],
    };
    assert_eq!(rewrite_links("abcdefg", &vec![token]), "ab[t](u)fg");
    let token = Token { start: 2, end: 5, groups: vec![Some("cde".to_string()), Some("u".to_string()), None] };
    assert_eq!(rewrite_links("abcdefg", &vec![token]), "abcdefg");
}

#[test]
fn scan_finds_tokens_from_left_to_right() {
    let found = scan("<@([UW][A-Z0-9]+)>", "a <@U1> b <@W22> c <@x>");
    assert_eq!(found.len(), 2);
    assert_eq!((found[0].start, found[0].end), (2, 7));
    assert_eq!(found[0].groups, vec![Some("<@U1>".to_string()), Some("U1".to_string())]);
    assert_eq!((found[1].start, found[1].end), (10, 16));
    assert_eq!(found[1].groups[1], Some("W22".to_string()));
}

#[test]
fn scan_with_a_pattern_that_does_not_compile_finds_nothing() {
    assert!(scan("(", "((((").is_empty());
}

#[test]
fn captures_that_do_not_fit_the_text_give_no_token() {
    let text = "aé";
    let captures = vec![
        vec![Some((0, 1)), None],
        vec![Some((1, 2))],
        vec![Some((2, 9))],
        vec![None],
        vec![],
        vec![Some((1, 3)), Some((3, 1))],
    ];
    let found = tokens(text, &captures);
    assert_eq!(found.len(), 2);
    assert_eq!(found[0].groups, vec![Some("a".to_string()), None]);
    assert_eq!((found[1].start, found[1].end), (1, 3));
    assert_eq!(found[1].groups, vec![Some("é".to_string()), None]);
}

#[test]
fn ranges_are_checked_against_character_boundaries() {
    let text = "aé";
    assert!(is_on_boundary(text, 0));
    assert!(is_on_boundary(text, 1));
    assert!(!is_on_boundary(text, 2));
    assert!(is_on_boundary(text, 3));
    assert!(!is_on_boundary(text, 4));
    assert!(is_valid_range(text, 1, 3));
    assert!(!is_valid_range(text, 3, 1));
    assert_eq!(cut(text, 1, 3), Some("é"));
    assert_eq!(cut(text, 3, 3), Some(""));
    assert_eq!(cut(text, 1, 2), None);
    assert_eq!(cut(text, 3, 1), None);
    assert_eq!(cut(text, 0, 9), None);
}

#[test]
fn splice_replaces_from_left_to_right() {
    let edits = vec![edit(0, 1, Some("X")), edit(2, 3, None), edit(4, 6, Some(""))];
    assert_eq!(splice("abcdefg", &edits), "Xbcdg");
}

#[test]
fn splice_passes_over_edits_that_overlap_or_do_not_fit() {
    let edits = vec![edit(1, 4, Some("X")), edit(2, 5, Some("Y")), edit(4, 5, Some("Z")), edit(6, 99, Some("W"))];
    assert_eq!(splice("abcdefg", &edits), "aXZfg");
    assert_eq!(splice("aé", &vec![edit(2, 3, Some("X"))]), "aé");
    assert_eq!(splice("", &vec![]), "");
}

#[test]
fn mentions_need_an_id() {
    let with_id = Token { start: 0, end: 5, groups: vec![Some("<@U1>".to_string()), Some("U1".to_string())] };
    let without = Token { start: 6, end: 8, groups: vec![Some("<>".to_string())] };
    let unmatched = Token { start: 9, end: 10, groups: vec![Some("x".to_string()), None] };
    let found = mentions(&vec![with_id, without, unmatched]);
    assert_eq!(found.len(), 1);
    assert_eq!((found[0].start, found[0].end, found[0].id.as_str()), (0, 5, "U1"));
}

#[test]
fn user_names_prefer_real_name_for_bots_and_display_name_else() {
    assert_eq!(user("acct", "Real", "Shown", false).shown_name(), "Shown");
    assert_eq!(user("acct", "Real", "", false).shown_name(), "acct");
    assert_eq!(user("acct", "Real", "Shown", true).shown_name(), "Real");
}

#[test]
fn user_mentions_are_replaced_by_names() {
    let body = "Hello <@U2> and <@U3> and <@U4>";
    let found = user_mentions(body);
    assert_eq!(found.iter().map(|m| m.id.as_str()).collect::<Vec<_>>(), vec!["U2", "U3", "U4"]);
    let users = vec![Some(user("bob", "Robert", "Bob", false)), None, Some(user("eve", "Eve", "", false))];
    assert_eq!(replace_user_ids(body, &found, &users), "Hello **@Bob** and <@U3> and **@eve**");
    assert_eq!(replace_user_ids(body, &found, &vec![]), body);
}

#[test]
fn channel_mentions_are_replaced_by_names_or_the_fixed_label() {
    let body = "in <#C1> and <#G3> and <#C4>\nand <#C2|two>!";
    let found = channel_mentions(body);
    assert_eq!(found.iter().map(|m| m.id.as_str()).collect::<Vec<_>>(), vec!["C1", "G3", "C4", "C2"]);
    let lookups = vec![
        ChannelLookup::Found(channel(Some("general"))),
        ChannelLookup::Unavailable,
        ChannelLookup::Missing,
        ChannelLookup::Found(channel(None)),
    ];
    assert_eq!(
        replace_channel_ids(body, &found, &lookups),
        "in **#general** and **#private channel** and <#C4>\nand **#Unknown**!"
    );
}

#[test]
fn label_of_a_channel_mention_reaches_to_the_last_bracket_of_the_line() {
    let body = "<#C2|two> and <#C4> x\n<#C5>";
    let found = channel_mentions(body);
    assert_eq!(found.iter().map(|m| m.id.as_str()).collect::<Vec<_>>(), vec!["C2", "C5"]);
    assert_eq!((found[0].start, found[0].end), (0, 19));
    let lookups = vec![ChannelLookup::Found(channel(Some("two"))), ChannelLookup::Missing];
    assert_eq!(replace_channel_ids(body, &found, &lookups), "**#two** x\n<#C5>");
}

#[test]
fn usergroup_mentions_are_replaced_by_handles() {
    let body = "cc <!subteam^S1> <!subteam^S9> <!subteam^S2>";
    let found = usergroup_mentions(body);
    assert_eq!(found.iter().map(|m| m.id.as_str()).collect::<Vec<_>>(), vec!["S1", "S9", "S2"]);
    let groups = vec![group("S2", "ops"), group("S1", "devs"), group("S1", "other")];
    assert_eq!(
        replace_usergroups_ids(body, &found, &groups),
        "cc **@devs** <!subteam^S9> **@ops**"
    );
    assert_eq!(find_handle(&groups, "S1"), Some("devs"));
    assert_eq!(find_handle(&groups, "S3"), None);
}

#[test]
fn replacements_are_written_in_bold() {
    assert_eq!(emphasize("@", "Bob"), "**@Bob**");
    assert_eq!(replace_user(&None), None);
    assert_eq!(replace_user(&Some(user("a", "b", "c", false))), Some("**@c**".to_string()));
    assert_eq!(replace_channel(&ChannelLookup::Missing), None);
    assert_eq!(replace_channel(&ChannelLookup::Unavailable), Some("**#private channel**".to_string()));
    assert_eq!(replace_usergroup("S1", &vec![group("S1", "devs")]), Some("**@devs**".to_string()));
    assert_eq!(replace_usergroup("S2", &vec![group("S1", "devs")]), None);
}
