//! Templates, and what a template can refer to.

use vstd::prelude::*;
use vstd::string::*;
use crate::message::state::{Resolved, ResolvedView};
use crate::text::{lines, lines_of};

pub mod context_key;
pub mod template_type;

pub use context_key::ContextKey;
pub use template_type::TemplateType;

verus! {

/// What the caller says of each template: a path to a file that holds it,
/// or the template itself, or nothing.
#[derive(Debug)]
pub struct Templates {
    /// For plain text, without a quote.
    pub plain_text: Option<String>,
    /// For plain text, with a quote.
    pub plain_text_quote: Option<String>,
    /// For rich text, without a quote.
    pub rich_text: Option<String>,
    /// For rich text, with a quote.
    pub rich_text_quote: Option<String>,
}

/// The template that is used: the one shipped with the program where the
/// caller named none; the content of the file where the caller named a file
/// that exists, and nothing where that file could not be read; else what the
/// caller wrote, taken as the template itself.
pub open spec fn template_source(
    input: Option<Seq<char>>,
    file: Option<Option<Seq<char>>>,
    default: Seq<char>,
) -> Seq<char> {
    match input {
        None => default,
        Some(written) => match file {
            Some(Some(content)) => content,
            Some(None) => Seq::empty(),
            None => written,
        },
    }
}

/// Picks the template that is used. `file` tells what reading the file that
/// `input` names came to: `None` where there is no such file, else the
/// content, where it could be read.
pub fn get_template(input: &Option<String>, file: Option<Option<String>>, default: &str) -> (out:
    String)
    ensures
        out@ == template_source(input.deep_view(), file.deep_view(), default@),
{
    match input {
        None => String::from_str(default),
        Some(written) => match file {
            Some(Some(content)) => content,
            Some(None) => String::new(),
            None => written.clone(),
        },
    }
}

impl Templates {
    /// What the caller says of the template of the given kind.
    pub fn named(&self, kind: TemplateType) -> (out: &Option<String>)
        ensures
            *out == (match kind {
                TemplateType::PlainText => self.plain_text,
                TemplateType::PlainTextQuote => self.plain_text_quote,
                TemplateType::RichText => self.rich_text,
                TemplateType::RichTextQuote => self.rich_text_quote,
            }),
    {
        match kind {
            TemplateType::PlainText => &self.plain_text,
            TemplateType::PlainTextQuote => &self.plain_text_quote,
            TemplateType::RichText => &self.rich_text,
            TemplateType::RichTextQuote => &self.rich_text_quote,
        }
    }
}

/// A value that a template can refer to.
#[derive(Debug)]
pub enum ContextValue {
    /// A text.
    Text(String),
    /// A list of lines.
    Lines(Vec<String>),
}

/// The mathematical value of a [`ContextValue`].
pub enum ContextValueView {
    Text(Seq<char>),
    Lines(Seq<Seq<char>>),
}

impl DeepView for ContextValue {
    type V = ContextValueView;

    open spec fn deep_view(&self) -> ContextValueView {
        match self {
            ContextValue::Text(text) => ContextValueView::Text(text@),
            ContextValue::Lines(lines) => ContextValueView::Lines(lines.deep_view()),
        }
    }
}

/// What a template is told under one key.
#[derive(Debug)]
pub struct ContextEntry {
    pub key: ContextKey,
    pub value: ContextValue,
}

/// The mathematical value of a [`ContextEntry`].
pub struct ContextEntryView {
    pub key: ContextKey,
    pub value: ContextValueView,
}

impl DeepView for ContextEntry {
    type V = ContextEntryView;

    open spec fn deep_view(&self) -> ContextEntryView {
        ContextEntryView { key: self.key, value: self.value.deep_view() }
    }
}

/// An entry that holds a text.
pub open spec fn text_entry(key: ContextKey, text: Seq<char>) -> ContextEntryView {
    ContextEntryView { key, value: ContextValueView::Text(text) }
}

/// What a template is told of a message itself: the names of its channel
/// and its author and its permalink, and, where the body is to be quoted,
/// the lines of the body and the body as HTML.
pub open spec fn message_values(message: ResolvedView, quote: Option<Seq<char>>) -> Seq<
    ContextEntryView,
> {
    let names = seq![
        text_entry(ContextKey::ChannelName, message.channel_name),
        text_entry(ContextKey::UserName, message.user_name),
        text_entry(ContextKey::Url, message.url),
    ];
    match quote {
        Some(html) => names + seq![
            ContextEntryView {
                key: ContextKey::Text,
                value: ContextValueView::Lines(lines_of(message.body)),
            },
            text_entry(ContextKey::Html, html),
        ],
        None => names,
    }
}

/// What a template is told of the time of a message: for each key that shows
/// the time, in the order of [`ContextKey::clock`], the time as `stamps`
/// writes it; a key for which `stamps` holds nothing is left out.
pub open spec fn clock_values(stamps: Seq<Seq<char>>) -> Seq<ContextEntryView> {
    Seq::new(
        if stamps.len() < ContextKey::clock().len() {
            stamps.len()
        } else {
            ContextKey::clock().len()
        },
        |i: int| text_entry(ContextKey::clock()[i], stamps[i]),
    )
}

/// Puts together what a template is told of a message itself. `quote` holds
/// the body as HTML where the body is to be quoted.
pub fn message_context(message: &Resolved, quote: Option<String>) -> (out: Vec<ContextEntry>)
    ensures
        out.deep_view() == message_values(message.deep_view(), quote.deep_view()),
{
    let mut out: Vec<ContextEntry> = Vec::new();
    out.push(
        ContextEntry {
            key: ContextKey::ChannelName,
            value: ContextValue::Text(message.channel_name.clone()),
        },
    );
    out.push(
        ContextEntry {
            key: ContextKey::UserName,
            value: ContextValue::Text(message.user_name.clone()),
        },
    );
    out.push(ContextEntry { key: ContextKey::Url, value: ContextValue::Text(message.url.clone()) });
    match quote {
        Some(html) => {
            out.push(
                ContextEntry {
                    key: ContextKey::Text,
                    value: ContextValue::Lines(lines(message.body.as_str())),
                },
            );
            out.push(ContextEntry { key: ContextKey::Html, value: ContextValue::Text(html) });
            assert(out.deep_view() =~= message_values(message.deep_view(), Some(html@)));
        },
        None => {
            assert(out.deep_view() =~= message_values(message.deep_view(), None));
        },
    }
    out
}

/// Puts together what a template is told of the time of a message:
/// `stamps` holds the time as each key of [`ContextKey::clock_keys`] writes
/// it, in their order.
pub fn clock_context(stamps: &Vec<String>) -> (out: Vec<ContextEntry>)
    ensures
        out.deep_view() == clock_values(stamps.deep_view()),
{
    let keys = ContextKey::clock_keys();
    let mut out: Vec<ContextEntry> = Vec::new();
    let mut index: usize = 0;
    while index < keys.len() && index < stamps.len()
        invariant
            keys@ == ContextKey::clock(),
            index <= keys.len(),
            index <= stamps.len(),
            out.deep_view() =~= Seq::new(
                index as nat,
                |i: int| text_entry(ContextKey::clock()[i], stamps.deep_view()[i]),
            ),
        decreases keys.len() - index,
    {
        let ghost before = out.deep_view();
        let entry = ContextEntry {
            key: keys[index],
            value: ContextValue::Text(stamps[index].clone()),
        };
        out.push(entry);
        assert(out.deep_view() =~= before.push(entry.deep_view()));
        index = index + 1;
    }
    out
}

} // verus!
