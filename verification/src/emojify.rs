//! Expanding emoji shortcodes.
//!
//! A shortcode is a name between two colons, such as `:anger:`. Every
//! shortcode of a text that the table knows gives way to its glyph; one that
//! the table does not know stays as it is.

use vstd::prelude::*;
use vstd::string::*;
use crate::mrkdwn::{lemma_spliced_without_replacement, splice, spliced, Edit, EditView};
use crate::pattern::{scan, scanned, Token, TokenView};

verus! {

/// The pattern of a shortcode, colons included.
pub const SHORTCODE_PATTERN: &'static str = "(:[a-zA-Z0-9\\-_+]+:)";

/// The table from shortcodes, written with their colons, to glyphs.
#[derive(Debug)]
pub struct EmojiTable {
    entries: Vec<(String, String)>,
}

/// The map that a list of entries stands for; of two entries with one
/// shortcode the later counts.
pub open spec fn table_of(entries: Seq<(Seq<char>, Seq<char>)>) -> Map<Seq<char>, Seq<char>>
    decreases entries.len(),
{
    if entries.len() == 0 {
        Map::empty()
    } else {
        table_of(entries.drop_last()).insert(entries.last().0, entries.last().1)
    }
}

impl View for EmojiTable {
    type V = Map<Seq<char>, Seq<char>>;

    closed spec fn view(&self) -> Map<Seq<char>, Seq<char>> {
        table_of(self.entries.deep_view())
    }
}

impl EmojiTable {
    /// The table that knows no shortcode.
    pub fn new() -> (table: EmojiTable)
        ensures
            table@ == Map::<Seq<char>, Seq<char>>::empty(),
    {
        EmojiTable { entries: Vec::new() }
    }

    /// Lets `shortcode` stand for `glyph` from now on.
    pub fn insert(&mut self, shortcode: String, glyph: String)
        ensures
            final(self)@ == old(self)@.insert(shortcode@, glyph@),
    {
        let ghost before = self.entries.deep_view();
        self.entries.push((shortcode, glyph));
        assert(self.entries.deep_view().drop_last() =~= before);
        assert(self.entries.deep_view().last() == (shortcode@, glyph@));
    }

    /// The glyph that `shortcode` stands for, if the table knows it.
    pub fn get(&self, shortcode: &str) -> (glyph: Option<&str>)
        ensures
            glyph.deep_view() == glyph_of(self@, shortcode@),
    {
        let wanted = String::from_str(shortcode);
        let mut index: usize = self.entries.len();
        assert(self.entries.deep_view().take(index as int) =~= self.entries.deep_view());
        while index > 0
            invariant
                index <= self.entries.len(),
                wanted@ == shortcode@,
                glyph_of(self@, shortcode@) == glyph_of(
                    table_of(self.entries.deep_view().take(index as int)),
                    shortcode@,
                ),
            decreases index,
        {
            let ghost seen = self.entries.deep_view().take(index as int);
            assert(seen.drop_last() =~= self.entries.deep_view().take(index - 1));
            assert(seen.last() == self.entries[index - 1].deep_view());
            index = index - 1;
            if self.entries[index].0 == wanted {
                return Some(self.entries[index].1.as_str());
            }
        }
        None
    }
}

/// The glyph that a shortcode stands for in a table, if any.
pub open spec fn glyph_of(table: Map<Seq<char>, Seq<char>>, shortcode: Seq<char>) -> Option<
    Seq<char>,
> {
    if table.dom().contains(shortcode) {
        Some(table[shortcode])
    } else {
        None
    }
}

/// What stands for a shortcode token: the glyph of the shortcode, where the
/// table knows it.
pub open spec fn shortcode_replacement(
    token: TokenView,
    table: Map<Seq<char>, Seq<char>>,
) -> Option<Seq<char>> {
    match token.group(0) {
        Some(shortcode) => glyph_of(table, shortcode),
        None => None,
    }
}

/// The edits of the pass over shortcodes.
pub open spec fn shortcode_edits(tokens: Seq<TokenView>, table: Map<Seq<char>, Seq<char>>) -> Seq<
    EditView,
> {
    Seq::new(
        tokens.len(),
        |i: int|
            EditView {
                start: tokens[i].start,
                end: tokens[i].end,
                replacement: shortcode_replacement(tokens[i], table),
            },
    )
}

/// Replaces the shortcode tokens of `text` by their glyphs: `tokens` holds
/// the occurrences of the shortcode pattern in `text`.
pub fn expand_shortcodes(text: &str, tokens: &Vec<Token>, table: &EmojiTable) -> (out: String)
    ensures
        out@ == spliced(text@, shortcode_edits(tokens.deep_view(), table@)),
{
    let mut edits: Vec<Edit> = Vec::new();
    let mut index: usize = 0;
    while index < tokens.len()
        invariant
            index <= tokens.len(),
            edits.deep_view() =~= shortcode_edits(tokens.deep_view(), table@).take(index as int),
        decreases tokens.len() - index,
    {
        let token = &tokens[index];
        assert(tokens.deep_view()[index as int] == token.deep_view());
        let replacement = if token.groups.len() > 0 {
            match &token.groups[0] {
                Some(shortcode) => match table.get(shortcode.as_str()) {
                    Some(glyph) => Some(String::from_str(glyph)),
                    None => None,
                },
                None => None,
            }
        } else {
            None
        };
        let ghost before = edits.deep_view();
        let edit = Edit { start: token.start, end: token.end, replacement };
        edits.push(edit);
        assert(edits.deep_view() =~= before.push(edit.deep_view()));
        index = index + 1;
    }
    assert(edits.deep_view() =~= shortcode_edits(tokens.deep_view(), table@));
    splice(text, &edits)
}

/// Texts in which shortcodes can be expanded.
pub trait Emojify {
    /// The characters of the text.
    spec fn characters(&self) -> Seq<char>;

    /// Writes the text with every shortcode that `table` knows replaced by
    /// its glyph.
    fn emojify(&self, table: &EmojiTable) -> (out: String)
        ensures
            out@ == spliced(
                self.characters(),
                shortcode_edits(scanned(SHORTCODE_PATTERN@, self.characters()), table@),
            ),
    ;
}

impl Emojify for str {
    open spec fn characters(&self) -> Seq<char> {
        self@
    }

    fn emojify(&self, table: &EmojiTable) -> (out: String) {
        let tokens = scan(SHORTCODE_PATTERN, self);
        expand_shortcodes(self, &tokens, table)
    }
}

impl Emojify for String {
    open spec fn characters(&self) -> Seq<char> {
        self@
    }

    fn emojify(&self, table: &EmojiTable) -> (out: String) {
        self.as_str().emojify(table)
    }
}

/// A text in which the table knows none of the shortcodes stays as it is.
pub proof fn law_unknown_shortcodes_stay(
    text: Seq<char>,
    tokens: Seq<TokenView>,
    table: Map<Seq<char>, Seq<char>>,
)
    requires
        forall|i: int|
            0 <= i < tokens.len() ==> shortcode_replacement(#[trigger] tokens[i], table) is None,
    ensures
        spliced(text, shortcode_edits(tokens, table)) == text,
{
    lemma_spliced_without_replacement(text, shortcode_edits(tokens, table), 0);
}

} // verus!
