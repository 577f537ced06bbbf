//! Rewriting the inline markup of a message body.
//!
//! A body mentions users as `<@ID>`, channels as `<#ID>` or `<#ID|label>`,
//! user groups as `<!subteam^ID>`, and writes links as `<URL|TITLE>`. Each of
//! the four kinds is rewritten in a pass of its own, from left to right over
//! the occurrences that do not overlap: an occurrence for which a replacement
//! is known gives way to it, every other character of the body stays as it
//! is.

use vstd::prelude::*;
use vstd::string::*;
use crate::pattern::{scan, scanned, Token, TokenView};
use crate::response::conversations::{channel_name, Channel, ChannelView};
use crate::response::usergroups::{find_handle, handle_of, Usergroup, UsergroupView};
use crate::response::users::{user_name, User, UserView};
use crate::rich_text::hyperlink;
use crate::text::{
    byte_len, cut_valid, is_valid_range, lemma_slice_all, lemma_slice_empty, lemma_slice_join,
    on_boundary, slice, valid_range,
};

verus! {

/// The pattern of a user mention; its one group is the user id.
pub const USER_PATTERN: &'static str = "<@([UW][A-Z0-9]+)>";

/// The pattern of a channel mention; its first group is the channel id, its
/// second the label that may follow the id.
pub const CHANNEL_PATTERN: &'static str = "<#([CG][A-Z0-9]+)(\\|.*)?>";

/// The pattern of a user group mention; its one group is the group id.
pub const USERGROUP_PATTERN: &'static str = "<!subteam\\^([A-Z0-9]+)>";

/// The pattern of a link; its first group is the target, its second the
/// title.
pub const LINK_PATTERN: &'static str = "<([^|]+)\\|([^>]+)?>";

/// The label put in place of a channel that could not be looked up.
pub const PRIVATE_CHANNEL: &'static str = "private channel";

/// A stretch of a text and what is to stand in its place.
#[derive(Debug)]
pub struct Edit {
    /// The byte offset at which the stretch starts.
    pub start: usize,
    /// The byte offset just behind the stretch.
    pub end: usize,
    /// The text to put in its place; `None` leaves the stretch as it is.
    pub replacement: Option<String>,
}

/// The mathematical value of an [`Edit`].
pub struct EditView {
    pub start: int,
    pub end: int,
    pub replacement: Option<Seq<char>>,
}

impl DeepView for Edit {
    type V = EditView;

    open spec fn deep_view(&self) -> EditView {
        EditView {
            start: self.start as int,
            end: self.end as int,
            replacement: self.replacement.deep_view(),
        }
    }
}

/// Whether an edit is carried out when the pass stands at `cursor`: it names
/// a replacement, starts at or behind the cursor, and its stretch can be cut
/// out of the text.
pub open spec fn takes_effect(text: Seq<char>, cursor: int, edit: EditView) -> bool {
    edit.replacement is Some && cursor <= edit.start && valid_range(text, edit.start, edit.end)
}

/// What a pass writes from the edit at `index` on, standing at `cursor`: for
/// each edit that takes effect, the text between the cursor and the edit,
/// then the replacement, going on behind the edit; at the end, the rest of the
/// text.
pub open spec fn spliced_from(
    text: Seq<char>,
    edits: Seq<EditView>,
    index: int,
    cursor: int,
) -> Seq<char>
    decreases edits.len() - index,
{
    if index < 0 || index >= edits.len() {
        slice(text, cursor, byte_len(text) as int)
    } else if takes_effect(text, cursor, edits[index]) {
        slice(text, cursor, edits[index].start) + edits[index].replacement->0 + spliced_from(
            text,
            edits,
            index + 1,
            edits[index].end,
        )
    } else {
        spliced_from(text, edits, index + 1, cursor)
    }
}

/// The text with the edits carried out in one pass from left to right.
pub open spec fn spliced(text: Seq<char>, edits: Seq<EditView>) -> Seq<char> {
    spliced_from(text, edits, 0, 0)
}

/// A pass in which no edit names a replacement leaves the text as it was.
pub proof fn lemma_spliced_without_replacement(text: Seq<char>, edits: Seq<EditView>, index: int)
    requires
        0 <= index,
        forall|i: int| index <= i < edits.len() ==> (#[trigger] edits[i]).replacement is None,
    ensures
        spliced_from(text, edits, index, 0) == text,
    decreases edits.len() - index,
{
    if index >= edits.len() {
        lemma_slice_all(text);
    } else {
        lemma_spliced_without_replacement(text, edits, index + 1);
    }
}

/// The part of `text` from the byte offset `start` to its end.
fn rest<'a>(text: &'a str, start: usize) -> (part: &'a str)
    requires
        on_boundary(text@, start as int),
    ensures
        part@ == slice(text@, start as int, byte_len(text@) as int),
{
    let (_, part) = text.split_at(start);
    proof {
        vstd::utf8::encode_utf8_decode_utf8(part@);
    }
    part
}

/// Carries out the edits on `text` in one pass from left to right.
pub fn splice(text: &str, edits: &Vec<Edit>) -> (out: String)
    ensures
        out@ == spliced(text@, edits.deep_view()),
{
    let mut out = String::new();
    let mut cursor: usize = 0;
    let mut index: usize = 0;
    proof {
        lemma_slice_all(text@);
    }
    while index < edits.len()
        invariant
            index <= edits.len(),
            on_boundary(text@, cursor as int),
            out@ + spliced_from(text@, edits.deep_view(), index as int, cursor as int) == spliced(
                text@,
                edits.deep_view(),
            ),
        decreases edits.len() - index,
    {
        let edit = &edits[index];
        let ghost before = out@;
        let ghost tail = spliced_from(text@, edits.deep_view(), index as int, cursor as int);
        assert(edits.deep_view()[index as int] == edit.deep_view());
        match &edit.replacement {
            Some(replacement) => {
                if cursor <= edit.start && is_valid_range(text, edit.start, edit.end) {
                    out.append(cut_valid(text, cursor, edit.start));
                    out.append(replacement.as_str());
                    cursor = edit.end;
                    assert(out@ + spliced_from(
                        text@,
                        edits.deep_view(),
                        index as int + 1,
                        cursor as int,
                    ) =~= before + tail);
                }
            },
            None => {},
        }
        index = index + 1;
    }
    out.append(rest(text, cursor));
    out
}

/// An occurrence of a mention pattern together with the id it mentions.
#[derive(Debug)]
pub struct Mention {
    /// The byte offset at which the occurrence starts.
    pub start: usize,
    /// The byte offset just behind the occurrence.
    pub end: usize,
    /// The id that is mentioned.
    pub id: String,
}

/// The mathematical value of a [`Mention`].
pub struct MentionView {
    pub start: int,
    pub end: int,
    pub id: Seq<char>,
}

impl DeepView for Mention {
    type V = MentionView;

    open spec fn deep_view(&self) -> MentionView {
        MentionView { start: self.start as int, end: self.end as int, id: self.id@ }
    }
}

/// The mentions among some tokens: one for each token whose first group
/// matched, in the order of the tokens.
pub open spec fn mentions_of(tokens: Seq<TokenView>) -> Seq<MentionView>
    decreases tokens.len(),
{
    if tokens.len() == 0 {
        Seq::empty()
    } else {
        let before = mentions_of(tokens.drop_last());
        match tokens.last().group(1) {
            Some(id) => before.push(
                MentionView { start: tokens.last().start, end: tokens.last().end, id },
            ),
            None => before,
        }
    }
}

/// Picks the mentions out of the tokens of a mention pattern.
pub fn mentions(tokens: &Vec<Token>) -> (out: Vec<Mention>)
    ensures
        out.deep_view() == mentions_of(tokens.deep_view()),
{
    let mut out: Vec<Mention> = Vec::new();
    let mut index: usize = 0;
    while index < tokens.len()
        invariant
            index <= tokens.len(),
            out.deep_view() =~= mentions_of(tokens.deep_view().take(index as int)),
        decreases tokens.len() - index,
    {
        let token = &tokens[index];
        let ghost seen = tokens.deep_view().take(index as int + 1);
        assert(seen.drop_last() =~= tokens.deep_view().take(index as int));
        assert(seen.last() == token.deep_view());
        if token.groups.len() > 1 {
            match &token.groups[1] {
                Some(id) => {
                    let ghost before = out.deep_view();
                    let mention = Mention { start: token.start, end: token.end, id: id.clone() };
                    out.push(mention);
                    assert(out.deep_view() =~= before.push(mention.deep_view()));
                },
                None => {},
            }
        }
        index = index + 1;
    }
    assert(tokens.deep_view().take(index as int) =~= tokens.deep_view());
    out
}

/// A name as a resolved mention shows it: behind its sign, in bold.
pub open spec fn emphasized(sign: Seq<char>, name: Seq<char>) -> Seq<char> {
    "**"@ + sign + name + "**"@
}

/// Writes a name as a resolved mention shows it.
pub fn emphasize(sign: &str, name: &str) -> (out: String)
    ensures
        out@ == emphasized(sign@, name@),
{
    let mut out = String::from_str("**");
    out.append(sign);
    out.append(name);
    out.append("**");
    out
}

/// What stands for a user mention: the user's name behind `@`, where the
/// user was found, and nothing new where not.
pub open spec fn user_replacement(found: Option<UserView>) -> Option<Seq<char>> {
    match found {
        Some(user) => Some(emphasized("@"@, user_name(user))),
        None => None,
    }
}

/// What a lookup of a mentioned channel came to.
#[derive(Debug)]
pub enum ChannelLookup {
    /// The directory knows the channel.
    Found(Channel),
    /// The directory answered, and knows no such channel.
    Missing,
    /// The directory could not be asked.
    Unavailable,
}

/// The mathematical value of a [`ChannelLookup`].
pub enum ChannelLookupView {
    Found(ChannelView),
    Missing,
    Unavailable,
}

impl DeepView for ChannelLookup {
    type V = ChannelLookupView;

    open spec fn deep_view(&self) -> ChannelLookupView {
        match self {
            ChannelLookup::Found(channel) => ChannelLookupView::Found(channel.deep_view()),
            ChannelLookup::Missing => ChannelLookupView::Missing,
            ChannelLookup::Unavailable => ChannelLookupView::Unavailable,
        }
    }
}

/// What stands for a channel mention: the channel's name behind `#` where the
/// channel was found, the fixed label of a private channel where the
/// directory could not be asked, and nothing new where it knows no such
/// channel.
pub open spec fn channel_replacement(lookup: ChannelLookupView) -> Option<Seq<char>> {
    match lookup {
        ChannelLookupView::Found(channel) => Some(emphasized("#"@, channel_name(channel))),
        ChannelLookupView::Unavailable => Some(emphasized("#"@, PRIVATE_CHANNEL@)),
        ChannelLookupView::Missing => None,
    }
}

/// What stands for a mention of the group `id`: the handle of the group
/// behind `@` where the list holds the group, and nothing new where not.
pub open spec fn usergroup_replacement(id: Seq<char>, groups: Seq<UsergroupView>) -> Option<
    Seq<char>,
> {
    match handle_of(groups, id) {
        Some(handle) => Some(emphasized("@"@, handle)),
        None => None,
    }
}

/// What stands for a link token: the Markdown link, where both target and
/// title matched, and nothing new where not.
pub open spec fn link_replacement(token: TokenView) -> Option<Seq<char>> {
    match (token.group(1), token.group(2)) {
        (Some(url), Some(title)) => Some(hyperlink(title, url)),
        _ => None,
    }
}

/// Writes what stands for a user mention.
pub fn replace_user(found: &Option<User>) -> (out: Option<String>)
    ensures
        out.deep_view() == user_replacement(found.deep_view()),
{
    match found {
        Some(user) => {
            let name = user.shown_name();
            Some(emphasize("@", name.as_str()))
        },
        None => None,
    }
}

/// Writes what stands for a channel mention.
pub fn replace_channel(lookup: &ChannelLookup) -> (out: Option<String>)
    ensures
        out.deep_view() == channel_replacement(lookup.deep_view()),
{
    match lookup {
        ChannelLookup::Found(channel) => {
            let name = channel.name();
            Some(emphasize("#", name.as_str()))
        },
        ChannelLookup::Unavailable => Some(emphasize("#", PRIVATE_CHANNEL)),
        ChannelLookup::Missing => None,
    }
}

/// Writes what stands for a mention of the group `id`.
pub fn replace_usergroup(id: &str, groups: &Vec<Usergroup>) -> (out: Option<String>)
    ensures
        out.deep_view() == usergroup_replacement(id@, groups.deep_view()),
{
    match find_handle(groups, id) {
        Some(handle) => Some(emphasize("@", handle)),
        None => None,
    }
}

/// Writes what stands for a link token.
pub fn replace_link(token: &Token) -> (out: Option<String>)
    ensures
        out.deep_view() == link_replacement(token.deep_view()),
{
    if token.groups.len() > 2 {
        match (&token.groups[1], &token.groups[2]) {
            (Some(url), Some(title)) => {
                let mut out = String::from_str("[");
                out.append(title.as_str());
                out.append("](");
                out.append(url.as_str());
                out.append(")");
                Some(out)
            },
            _ => None,
        }
    } else {
        None
    }
}

/// The edits of the pass over user mentions: each mention gives way to what
/// stands for the user looked up for it; a mention without a lookup stays.
pub open spec fn user_edits(mentions: Seq<MentionView>, users: Seq<Option<UserView>>) -> Seq<
    EditView,
> {
    Seq::new(
        mentions.len(),
        |i: int|
            EditView {
                start: mentions[i].start,
                end: mentions[i].end,
                replacement: if i < users.len() {
                    user_replacement(users[i])
                } else {
                    None
                },
            },
    )
}

/// The edits of the pass over channel mentions: each mention gives way to
/// what stands for the channel looked up for it; a mention without a lookup
/// stays.
pub open spec fn channel_edits(mentions: Seq<MentionView>, lookups: Seq<ChannelLookupView>) -> Seq<
    EditView,
> {
    Seq::new(
        mentions.len(),
        |i: int|
            EditView {
                start: mentions[i].start,
                end: mentions[i].end,
                replacement: if i < lookups.len() {
                    channel_replacement(lookups[i])
                } else {
                    None
                },
            },
    )
}

/// The edits of the pass over user group mentions: each mention gives way to
/// what stands for its group in the list.
pub open spec fn usergroup_edits(mentions: Seq<MentionView>, groups: Seq<UsergroupView>) -> Seq<
    EditView,
> {
    Seq::new(
        mentions.len(),
        |i: int|
            EditView {
                start: mentions[i].start,
                end: mentions[i].end,
                replacement: usergroup_replacement(mentions[i].id, groups),
            },
    )
}

/// The edits of the pass over links: each token gives way to its Markdown
/// link.
pub open spec fn link_edits(tokens: Seq<TokenView>) -> Seq<EditView> {
    Seq::new(
        tokens.len(),
        |i: int|
            EditView {
                start: tokens[i].start,
                end: tokens[i].end,
                replacement: link_replacement(tokens[i]),
            },
    )
}

/// Finds the user mentions of `body`, from left to right.
pub fn user_mentions(body: &str) -> (out: Vec<Mention>)
    ensures
        out.deep_view() == mentions_of(scanned(USER_PATTERN@, body@)),
{
    let tokens = scan(USER_PATTERN, body);
    mentions(&tokens)
}

/// Finds the channel mentions of `body`, from left to right.
pub fn channel_mentions(body: &str) -> (out: Vec<Mention>)
    ensures
        out.deep_view() == mentions_of(scanned(CHANNEL_PATTERN@, body@)),
{
    let tokens = scan(CHANNEL_PATTERN, body);
    mentions(&tokens)
}

/// Finds the user group mentions of `body`, from left to right.
pub fn usergroup_mentions(body: &str) -> (out: Vec<Mention>)
    ensures
        out.deep_view() == mentions_of(scanned(USERGROUP_PATTERN@, body@)),
{
    let tokens = scan(USERGROUP_PATTERN, body);
    mentions(&tokens)
}

/// Replaces the user mentions of `body` by the names of the users looked up
/// for them: `users` holds, in the order of the mentions, what each lookup
/// found.
pub fn replace_user_ids(body: &str, mentions: &Vec<Mention>, users: &Vec<Option<User>>) -> (out:
    String)
    ensures
        out@ == spliced(body@, user_edits(mentions.deep_view(), users.deep_view())),
{
    let mut edits: Vec<Edit> = Vec::new();
    let mut index: usize = 0;
    while index < mentions.len()
        invariant
            index <= mentions.len(),
            edits.deep_view() =~= user_edits(mentions.deep_view(), users.deep_view()).take(
                index as int,
            ),
        decreases mentions.len() - index,
    {
        let replacement = if index < users.len() {
            replace_user(&users[index])
        } else {
            None
        };
        let ghost before = edits.deep_view();
        let edit = Edit { start: mentions[index].start, end: mentions[index].end, replacement };
        edits.push(edit);
        assert(edits.deep_view() =~= before.push(edit.deep_view()));
        index = index + 1;
    }
    assert(edits.deep_view() =~= user_edits(mentions.deep_view(), users.deep_view()));
    splice(body, &edits)
}

/// Replaces the channel mentions of `body` by the names of the channels
/// looked up for them: `lookups` holds, in the order of the mentions, what
/// each lookup came to.
pub fn replace_channel_ids(
    body: &str,
    mentions: &Vec<Mention>,
    lookups: &Vec<ChannelLookup>,
) -> (out: String)
    ensures
        out@ == spliced(body@, channel_edits(mentions.deep_view(), lookups.deep_view())),
{
    let mut edits: Vec<Edit> = Vec::new();
    let mut index: usize = 0;
    while index < mentions.len()
        invariant
            index <= mentions.len(),
            edits.deep_view() =~= channel_edits(mentions.deep_view(), lookups.deep_view()).take(
                index as int,
            ),
        decreases mentions.len() - index,
    {
        let replacement = if index < lookups.len() {
            replace_channel(&lookups[index])
        } else {
            None
        };
        let ghost before = edits.deep_view();
        let edit = Edit { start: mentions[index].start, end: mentions[index].end, replacement };
        edits.push(edit);
        assert(edits.deep_view() =~= before.push(edit.deep_view()));
        index = index + 1;
    }
    assert(edits.deep_view() =~= channel_edits(mentions.deep_view(), lookups.deep_view()));
    splice(body, &edits)
}

/// Replaces the user group mentions of `body` by the handles that `groups`
/// holds for them.
pub fn replace_usergroups_ids(body: &str, mentions: &Vec<Mention>, groups: &Vec<Usergroup>) -> (out:
    String)
    ensures
        out@ == spliced(body@, usergroup_edits(mentions.deep_view(), groups.deep_view())),
{
    let mut edits: Vec<Edit> = Vec::new();
    let mut index: usize = 0;
    while index < mentions.len()
        invariant
            index <= mentions.len(),
            edits.deep_view() =~= usergroup_edits(mentions.deep_view(), groups.deep_view()).take(
                index as int,
            ),
        decreases mentions.len() - index,
    {
        let replacement = replace_usergroup(mentions[index].id.as_str(), groups);
        let ghost before = edits.deep_view();
        let edit = Edit { start: mentions[index].start, end: mentions[index].end, replacement };
        edits.push(edit);
        assert(edits.deep_view() =~= before.push(edit.deep_view()));
        index = index + 1;
    }
    assert(edits.deep_view() =~= usergroup_edits(mentions.deep_view(), groups.deep_view()));
    splice(body, &edits)
}

/// Replaces the link tokens of `body` by Markdown links: `tokens` holds the
/// occurrences of the link pattern in `body`.
pub fn rewrite_links(body: &str, tokens: &Vec<Token>) -> (out: String)
    ensures
        out@ == spliced(body@, link_edits(tokens.deep_view())),
{
    let mut edits: Vec<Edit> = Vec::new();
    let mut index: usize = 0;
    while index < tokens.len()
        invariant
            index <= tokens.len(),
            edits.deep_view() =~= link_edits(tokens.deep_view()).take(index as int),
        decreases tokens.len() - index,
    {
        let replacement = replace_link(&tokens[index]);
        let ghost before = edits.deep_view();
        let edit = Edit { start: tokens[index].start, end: tokens[index].end, replacement };
        edits.push(edit);
        assert(edits.deep_view() =~= before.push(edit.deep_view()));
        index = index + 1;
    }
    assert(edits.deep_view() =~= link_edits(tokens.deep_view()));
    splice(body, &edits)
}

/// Replaces the links of `body`, written `<URL|TITLE>`, by Markdown links,
/// `[TITLE](URL)`.
pub fn replace_links(body: &str) -> (out: String)
    ensures
        out@ == spliced(body@, link_edits(scanned(LINK_PATTERN@, body@))),
{
    let tokens = scan(LINK_PATTERN, body);
    rewrite_links(body, &tokens)
}

/// A pass with one edit that takes effect writes the text before the edit,
/// the replacement, and the text behind the edit: what lies outside the
/// stretch of the edit stays as it was.
pub proof fn law_text_around_an_edit_stays(text: Seq<char>, edit: EditView)
    requires
        takes_effect(text, 0, edit),
    ensures
        spliced(text, seq![edit]) == slice(text, 0, edit.start) + edit.replacement->0 + slice(
            text,
            edit.end,
            byte_len(text) as int,
        ),
        slice(text, 0, edit.start) + slice(text, edit.start, edit.end) + slice(
            text,
            edit.end,
            byte_len(text) as int,
        ) == text,
{
    let edits = seq![edit];
    assert(spliced_from(text, edits, 1, edit.end) == slice(text, edit.end, byte_len(text) as int));
    lemma_slice_all(text);
    lemma_slice_join(text, 0, edit.start, edit.end);
    lemma_slice_join(text, 0, edit.end, byte_len(text) as int);
}

/// A body that is one link from its first to its last character becomes
/// the Markdown link with the title and the target of that link, and nothing
/// else.
pub proof fn law_link_becomes_hyperlink(
    body: Seq<char>,
    token: TokenView,
    url: Seq<char>,
    title: Seq<char>,
)
    requires
        token.start == 0,
        token.end == byte_len(body),
        token.group(1) == Some(url),
        token.group(2) == Some(title),
    ensures
        spliced(body, link_edits(seq![token])) == hyperlink(title, url),
{
    let edits = link_edits(seq![token]);
    lemma_slice_all(body);
    lemma_slice_empty(body, 0);
    lemma_slice_empty(body, byte_len(body) as int);
    assert(edits[0].replacement == Some(hyperlink(title, url)));
    assert(takes_effect(body, 0, edits[0]));
    assert(spliced_from(body, edits, 1, edits[0].end) == Seq::<char>::empty());
    assert(Seq::<char>::empty() + hyperlink(title, url) + Seq::<char>::empty() =~= hyperlink(
        title,
        url,
    ));
}

} // verus!
