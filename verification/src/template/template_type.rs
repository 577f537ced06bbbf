//! The four templates.

use vstd::prelude::*;

verus! {

/// The kind of a template.
#[derive(Clone, Copy, Debug, PartialEq, Eq, Structural)]
pub enum TemplateType {
    /// For plain text, without a quote.
    PlainText,
    /// For plain text, with a quote.
    PlainTextQuote,
    /// For rich text, without a quote.
    RichText,
    /// For rich text, with a quote.
    RichTextQuote,
}

impl TemplateType {
    /// The name of the template.
    pub open spec fn name(self) -> Seq<char> {
        match self {
            TemplateType::PlainText => "plain_text"@,
            TemplateType::PlainTextQuote => "plain_text_quote"@,
            TemplateType::RichText => "rich_text"@,
            TemplateType::RichTextQuote => "rich_text_quote"@,
        }
    }

    /// The name of the template.
    pub fn as_ref(&self) -> (out: &'static str)
        ensures
            out@ == self.name(),
    {
        match self {
            TemplateType::PlainText => "plain_text",
            TemplateType::PlainTextQuote => "plain_text_quote",
            TemplateType::RichText => "rich_text",
            TemplateType::RichTextQuote => "rich_text_quote",
        }
    }
}

} // verus!
