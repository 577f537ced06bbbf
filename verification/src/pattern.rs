//! Finding the tokens of a pattern in a text.
//!
//! The search itself is the `regex` crate's. What it finds comes back as
//! byte ranges; this module checks each range against the text and cuts the
//! matched pieces out, so that the rest of the library works on tokens that
//! are known to lie within the text they were found in.

use vstd::prelude::*;
use vstd::string::*;
use crate::text::{cut, slice, valid_range};

verus! {

/// What one match of a pattern reports: for the whole match (first) and for
/// each group of the pattern in turn, the byte range it matched, if any.
pub type Capture = Vec<Option<(usize, usize)>>;

/// What `regex::Regex::new(pattern)` followed by `captures_iter(haystack)`
/// yields: nothing where the pattern does not compile, else the matches from
/// left to right, each with the byte ranges of its groups.
pub uninterp spec fn regex_captures(pattern: Seq<char>, haystack: Seq<char>) -> Option<
    Seq<Seq<Option<(usize, usize)>>>,
>;

/// Compiles `pattern` with `regex::Regex::new` and collects what
/// `Regex::captures_iter` yields on `haystack`: for each match the start and
/// end of every group, as `Captures::iter` and `Match::start` / `Match::end`
/// give them. The contract only names that result; nothing is claimed about
/// which ranges it holds.
#[verifier::external_body]
fn find_captures(pattern: &str, haystack: &str) -> (found: Option<Vec<Capture>>)
    ensures
        found.deep_view() == regex_captures(pattern@, haystack@),
{
    match regex::Regex::new(pattern) {
        Ok(re) => Some(
            re.captures_iter(haystack).map(
                |c| c.iter().map(|g| g.map(|m| (m.start(), m.end()))).collect(),
            ).collect(),
        ),
        Err(_) => None,
    }
}

/// One occurrence of a pattern in a text.
#[derive(Debug)]
pub struct Token {
    /// The byte offset at which the occurrence starts.
    pub start: usize,
    /// The byte offset just behind the occurrence.
    pub end: usize,
    /// The text of the whole occurrence, then of each group of the pattern;
    /// `None` for a group that took no part in the match.
    pub groups: Vec<Option<String>>,
}

/// The mathematical value of a [`Token`].
pub struct TokenView {
    pub start: int,
    pub end: int,
    pub groups: Seq<Option<Seq<char>>>,
}

impl DeepView for Token {
    type V = TokenView;

    open spec fn deep_view(&self) -> TokenView {
        TokenView {
            start: self.start as int,
            end: self.end as int,
            groups: self.groups.deep_view(),
        }
    }
}

impl TokenView {
    /// The text of group `index`, where the group exists and matched.
    pub open spec fn group(self, index: int) -> Option<Seq<char>> {
        if 0 <= index < self.groups.len() {
            self.groups[index]
        } else {
            None
        }
    }
}

/// The text that a reported range covers; `None` for a group that did not
/// match, and for a range that cannot be cut out of the text.
pub open spec fn group_text(text: Seq<char>, range: Option<(usize, usize)>) -> Option<Seq<char>> {
    match range {
        Some((start, end)) => if valid_range(text, start as int, end as int) {
            Some(slice(text, start as int, end as int))
        } else {
            None
        },
        None => None,
    }
}

/// The texts of the ranges of a capture, in their order.
pub open spec fn group_texts(text: Seq<char>, capture: Seq<Option<(usize, usize)>>) -> Seq<
    Option<Seq<char>>,
> {
    Seq::new(capture.len(), |i: int| group_text(text, capture[i]))
}

/// The token that a capture describes: there is one where the capture
/// reports a range for the whole match and that range can be cut out of the
/// text.
pub open spec fn token_of(text: Seq<char>, capture: Seq<Option<(usize, usize)>>) -> Option<
    TokenView,
> {
    if capture.len() == 0 {
        None
    } else {
        match capture[0] {
            Some((start, end)) => if valid_range(text, start as int, end as int) {
                Some(
                    TokenView {
                        start: start as int,
                        end: end as int,
                        groups: group_texts(text, capture),
                    },
                )
            } else {
                None
            },
            None => None,
        }
    }
}

/// The tokens that a list of captures describes, in the order of the
/// captures; a capture that describes none is passed over.
pub open spec fn tokens_of(text: Seq<char>, captures: Seq<Seq<Option<(usize, usize)>>>) -> Seq<
    TokenView,
>
    decreases captures.len(),
{
    if captures.len() == 0 {
        Seq::empty()
    } else {
        let before = tokens_of(text, captures.drop_last());
        match token_of(text, captures.last()) {
            Some(token) => before.push(token),
            None => before,
        }
    }
}

/// The tokens of `pattern` in `text`: those of the captures that the search
/// reports, and none where the pattern does not compile.
pub open spec fn scanned(pattern: Seq<char>, text: Seq<char>) -> Seq<TokenView> {
    match regex_captures(pattern, text) {
        Some(captures) => tokens_of(text, captures),
        None => Seq::empty(),
    }
}

/// Cuts the text of one reported range out of `text`.
fn read_group(text: &str, range: &Option<(usize, usize)>) -> (out: Option<String>)
    ensures
        out.deep_view() == group_text(text@, *range),
{
    match range {
        Some((start, end)) => match cut(text, *start, *end) {
            Some(part) => Some(String::from_str(part)),
            None => None,
        },
        None => None,
    }
}

/// Builds the token that `capture` describes, if it describes one.
fn read_token(text: &str, capture: &Capture) -> (out: Option<Token>)
    ensures
        out.deep_view() == token_of(text@, capture.deep_view()),
{
    if capture.len() == 0 {
        return None;
    }
    let whole = read_group(text, &capture[0]);
    if whole.is_none() {
        return None;
    }
    let mut groups: Vec<Option<String>> = Vec::new();
    let mut index: usize = 0;
    while index < capture.len()
        invariant
            index <= capture.len(),
            groups.deep_view() =~= group_texts(text@, capture.deep_view()).take(index as int),
        decreases capture.len() - index,
    {
        let group = read_group(text, &capture[index]);
        let ghost before = groups.deep_view();
        groups.push(group);
        assert(capture.deep_view()[index as int] == capture@[index as int]);
        assert(groups.deep_view() =~= before.push(group.deep_view()));
        index = index + 1;
    }
    assert(groups.deep_view() =~= group_texts(text@, capture.deep_view()));
    match capture[0] {
        Some((start, end)) => Some(Token { start, end, groups }),
        None => None,
    }
}

/// Builds the tokens that a search reported on `text`. Each token lies
/// within `text`, whatever the captures hold.
pub fn tokens(text: &str, captures: &Vec<Capture>) -> (out: Vec<Token>)
    ensures
        out.deep_view() == tokens_of(text@, captures.deep_view()),
{
    let mut out: Vec<Token> = Vec::new();
    let mut index: usize = 0;
    while index < captures.len()
        invariant
            index <= captures.len(),
            out.deep_view() =~= tokens_of(text@, captures.deep_view().take(index as int)),
        decreases captures.len() - index,
    {
        let ghost seen = captures.deep_view().take(index as int + 1);
        assert(seen.drop_last() =~= captures.deep_view().take(index as int));
        assert(seen.last() == captures[index as int].deep_view());
        match read_token(text, &captures[index]) {
            Some(token) => {
                out.push(token);
            },
            None => {},
        }
        index = index + 1;
    }
    assert(captures.deep_view().take(index as int) =~= captures.deep_view());
    out
}

/// Finds the tokens of `pattern` in `text`, from left to right.
pub fn scan(pattern: &str, text: &str) -> (out: Vec<Token>)
    ensures
        out.deep_view() == scanned(pattern@, text@),
{
    match find_captures(pattern, text) {
        Some(captures) => tokens(text, &captures),
        None => Vec::new(),
    }
}

/// Every token read off some captures lies within the text, and starts
/// with the text of its whole occurrence.
pub proof fn law_tokens_lie_within_the_text(
    text: Seq<char>,
    captures: Seq<Seq<Option<(usize, usize)>>>,
)
    ensures
        forall|i: int|
            0 <= i < tokens_of(text, captures).len() ==> {
                let token = #[trigger] tokens_of(text, captures)[i];
                &&& valid_range(text, token.start, token.end)
                &&& token.group(0) == Some(slice(text, token.start, token.end))
            },
    decreases captures.len(),
{
    if captures.len() > 0 {
        law_tokens_lie_within_the_text(text, captures.drop_last());
    }
}

} // verus!
