//! The structured form of a message body: a tree of rich-text elements
//! grouped into blocks, and the Markdown text that the tree stands for.
//!
//! Mentions come out as the inline tokens (`<@ID>`, `<#ID>`,
//! `<!subteam^ID>`) that the rewriting passes of [`crate::mrkdwn`] later
//! replace by names, so that a body taken from blocks and a body taken from
//! plain text go through the same resolution.

use vstd::prelude::*;
use vstd::string::*;
use crate::text::{decimal, decimal_string, push_repeated, repeated};

verus! {

/// How the items of a list are marked.
#[derive(Clone, Copy, Debug, PartialEq, Eq, Structural)]
pub enum ListStyle {
    Bullet,
    Ordered,
}

/// The four independent emphasis flags of a run of text.
#[derive(Clone, Copy, Debug, PartialEq, Eq, Structural)]
pub struct Style {
    pub code: bool,
    pub bold: bool,
    pub italic: bool,
    pub strike: bool,
}

/// One node of the rich-text tree.
#[derive(Debug)]
#[allow(inconsistent_fields)]
pub enum RichTextElement {
    RichTextSection { elements: Vec<RichTextElement> },
    RichTextQuote { elements: Vec<RichTextElement> },
    RichTextList { style: ListStyle, indent: i64, elements: Vec<RichTextElement> },
    RichTextPreformatted { elements: Vec<RichTextElement> },
    Emoji { name: String, style: Option<Style> },
    Text { text: String, style: Option<Style> },
    Mrkdwn { text: String, style: Option<Style> },
    Link { url: String, text: Option<String> },
    User { user_id: String },
    Usergroup { usergroup_id: String },
    Broadcast { range: String },
    Channel { channel_id: String, style: Option<Style> },
}

/// The kinds of block a message can carry. Only `RichText` has a rendering.
#[derive(Clone, Copy, Debug, PartialEq, Eq, Structural)]
pub enum BlockType {
    RichText,
    Header,
    Divider,
    Actions,
    Context,
    File,
    Image,
    Input,
    Section,
    Video,
}

/// A top-level block of a message.
#[derive(Debug)]
pub struct Block {
    pub block_type: BlockType,
    pub elements: Option<Vec<RichTextElement>>,
}

/// How a container lays out its children.
#[derive(Clone, Copy, Debug)]
pub enum Layout {
    /// One child after the other, nothing between them.
    Plain,
    /// Each child behind a quote marker.
    Quote,
    /// Each child on a line of its own, indented and marked.
    List { style: ListStyle, indent: i64 },
}

/// The mathematical value of a [`RichTextElement`].
#[allow(inconsistent_fields)]
pub enum ElementView {
    RichTextSection { elements: Seq<ElementView> },
    RichTextQuote { elements: Seq<ElementView> },
    RichTextList { style: ListStyle, indent: i64, elements: Seq<ElementView> },
    RichTextPreformatted { elements: Seq<ElementView> },
    Emoji { name: Seq<char>, style: Option<Style> },
    Text { text: Seq<char>, style: Option<Style> },
    Mrkdwn { text: Seq<char>, style: Option<Style> },
    Link { url: Seq<char>, text: Option<Seq<char>> },
    User { user_id: Seq<char> },
    Usergroup { usergroup_id: Seq<char> },
    Broadcast { range: Seq<char> },
    Channel { channel_id: Seq<char>, style: Option<Style> },
}

/// The mathematical value of a [`Block`].
pub struct BlockView {
    pub block_type: BlockType,
    pub elements: Option<Seq<ElementView>>,
}

/// The values of the first `count` of some elements, in their order.
pub open spec fn views_of(elements: Seq<RichTextElement>, count: int) -> Seq<ElementView>
    decreases elements, count,
{
    if count <= 0 || count > elements.len() {
        Seq::empty()
    } else {
        views_of(elements, count - 1).push(view_of(elements[count - 1]))
    }
}

/// The value of an element: the same tree, with each text as its sequence of
/// characters.
pub open spec fn view_of(element: RichTextElement) -> ElementView
    decreases element,
{
    match element {
        RichTextElement::RichTextSection { elements } => ElementView::RichTextSection {
            elements: views_of(elements@, elements@.len() as int),
        },
        RichTextElement::RichTextQuote { elements } => ElementView::RichTextQuote {
            elements: views_of(elements@, elements@.len() as int),
        },
        RichTextElement::RichTextList { style, indent, elements } => ElementView::RichTextList {
            style,
            indent,
            elements: views_of(elements@, elements@.len() as int),
        },
        RichTextElement::RichTextPreformatted { elements } => ElementView::RichTextPreformatted {
            elements: views_of(elements@, elements@.len() as int),
        },
        RichTextElement::Emoji { name, style } => ElementView::Emoji { name: name@, style },
        RichTextElement::Text { text, style } => ElementView::Text { text: text@, style },
        RichTextElement::Mrkdwn { text, style } => ElementView::Mrkdwn { text: text@, style },
        RichTextElement::Link { url, text } => ElementView::Link {
            url: url@,
            text: text.deep_view(),
        },
        RichTextElement::User { user_id } => ElementView::User { user_id: user_id@ },
        RichTextElement::Usergroup { usergroup_id } => ElementView::Usergroup {
            usergroup_id: usergroup_id@,
        },
        RichTextElement::Broadcast { range } => ElementView::Broadcast { range: range@ },
        RichTextElement::Channel { channel_id, style } => ElementView::Channel {
            channel_id: channel_id@,
            style,
        },
    }
}

impl DeepView for RichTextElement {
    type V = ElementView;

    open spec fn deep_view(&self) -> ElementView {
        view_of(*self)
    }
}

impl DeepView for Block {
    type V = BlockView;

    open spec fn deep_view(&self) -> BlockView {
        BlockView { block_type: self.block_type, elements: self.elements.deep_view() }
    }
}

/// The values of the children of a container are the values of its
/// elements, one by one.
pub proof fn lemma_views_of(elements: Seq<RichTextElement>, count: int)
    requires
        0 <= count <= elements.len(),
    ensures
        views_of(elements, count).len() == count,
        forall|i: int| 0 <= i < count ==> views_of(elements, count)[i] == view_of(elements[i]),
    decreases count,
{
    if count > 0 {
        lemma_views_of(elements, count - 1);
    }
}

/// The value of a list of elements, taken as a whole or element by
/// element, is the same.
pub proof fn lemma_views_of_all(elements: Vec<RichTextElement>)
    ensures
        elements.deep_view() == views_of(elements@, elements@.len() as int),
{
    lemma_views_of(elements@, elements@.len() as int);
    assert(elements.deep_view() =~= views_of(elements@, elements@.len() as int));
}

/// `value` between two copies of `marker` where `on` holds, `value` itself
/// where it does not.
pub open spec fn wrapped(value: Seq<char>, marker: Seq<char>, on: bool) -> Seq<char> {
    if on {
        marker + value + marker
    } else {
        value
    }
}

/// `value` with the markers of `style` around it: code innermost, then bold,
/// then italic, then strike-through. Without a style the value is unchanged.
pub open spec fn styled(value: Seq<char>, style: Option<Style>) -> Seq<char> {
    match style {
        None => value,
        Some(s) => wrapped(
            wrapped(wrapped(wrapped(value, "`"@, s.code), "**"@, s.bold), "_"@, s.italic),
            "~~"@,
            s.strike,
        ),
    }
}

/// The indentation of a list item: two spaces per level under a bullet list,
/// three under an ordered one; a level below one indents nothing.
pub open spec fn indentation(style: ListStyle, indent: i64) -> Seq<char> {
    let levels = if indent > 0 {
        indent as nat
    } else {
        0
    };
    match style {
        ListStyle::Bullet => repeated("  "@, levels),
        ListStyle::Ordered => repeated("   "@, levels),
    }
}

/// What stands before the child at `index` (counted from zero).
pub open spec fn item_prefix(layout: Layout, index: int) -> Seq<char> {
    match layout {
        Layout::Plain => Seq::empty(),
        Layout::Quote => "> "@,
        Layout::List { style: ListStyle::Bullet, indent } => indentation(ListStyle::Bullet, indent)
            + "- "@,
        Layout::List { style: ListStyle::Ordered, indent } => indentation(
            ListStyle::Ordered,
            indent,
        ) + decimal((index + 1) as nat) + ". "@,
    }
}

/// What stands behind each child.
pub open spec fn item_suffix(layout: Layout) -> Seq<char> {
    match layout {
        Layout::List { .. } => "\n"@,
        _ => Seq::empty(),
    }
}

/// A link as Markdown writes it.
pub open spec fn hyperlink(title: Seq<char>, url: Seq<char>) -> Seq<char> {
    "["@ + title + "]("@ + url + ")"@
}

/// The text of the first `count` children of a container, each between its
/// prefix and suffix, in their order.
pub open spec fn laid_out(elements: Seq<ElementView>, layout: Layout, count: int) -> Seq<char>
    decreases elements, count,
{
    if count <= 0 || count > elements.len() {
        Seq::empty()
    } else {
        laid_out(elements, layout, count - 1) + item_prefix(layout, count - 1) + rendered(
            elements[count - 1],
        ) + item_suffix(layout)
    }
}

/// The Markdown text that an element stands for.
pub open spec fn rendered(element: ElementView) -> Seq<char>
    decreases element,
{
    match element {
        ElementView::RichTextSection { elements } => laid_out(
            elements,
            Layout::Plain,
            elements.len() as int,
        ),
        ElementView::RichTextQuote { elements } => laid_out(
            elements,
            Layout::Quote,
            elements.len() as int,
        ),
        ElementView::RichTextList { style, indent, elements } => laid_out(
            elements,
            Layout::List { style, indent },
            elements.len() as int,
        ),
        ElementView::RichTextPreformatted { elements } => "```\n"@ + laid_out(
            elements,
            Layout::Plain,
            elements.len() as int,
        ) + "\n```\n"@,
        ElementView::Emoji { name, .. } => name,
        ElementView::Text { text, style } => styled(text, style),
        ElementView::Mrkdwn { text, style } => styled(text, style),
        ElementView::Link { url, text: Some(title) } => hyperlink(title, url),
        ElementView::Link { url, text: None } => url,
        ElementView::User { user_id } => "<@"@ + user_id + ">"@,
        ElementView::Usergroup { usergroup_id } => "<!subteam^"@ + usergroup_id + ">"@,
        ElementView::Broadcast { range } => "@"@ + range,
        ElementView::Channel { channel_id, .. } => "<#"@ + channel_id + ">"@,
    }
}

/// The Markdown text of a block: that of its elements, one after the other,
/// for a rich-text block, and nothing for every other kind.
pub open spec fn block_rendered(block: BlockView) -> Seq<char> {
    match (block.block_type, block.elements) {
        (BlockType::RichText, Some(elements)) => laid_out(
            elements,
            Layout::Plain,
            elements.len() as int,
        ),
        _ => Seq::empty(),
    }
}

/// Appends `value` to `out`, between two copies of `marker` where `on` holds.
fn push_wrapped(value: String, marker: &str, on: bool) -> (out: String)
    ensures
        out@ == wrapped(value@, marker@, on),
{
    if on {
        let mut out = String::from_str(marker);
        out.append(value.as_str());
        out.append(marker);
        out
    } else {
        value
    }
}

/// Writes `value` with the markers of `style` around it.
pub fn apply_style(value: &str, style: &Option<Style>) -> (out: String)
    ensures
        out@ == styled(value@, *style),
{
    match style {
        None => String::from_str(value),
        Some(s) => {
            let plain = String::from_str(value);
            let code = push_wrapped(plain, "`", s.code);
            let bold = push_wrapped(code, "**", s.bold);
            let italic = push_wrapped(bold, "_", s.italic);
            push_wrapped(italic, "~~", s.strike)
        },
    }
}

/// Appends to `out` what stands before the child at `index`.
fn push_item_prefix(out: &mut String, layout: Layout, index: usize)
    requires
        index < usize::MAX,
    ensures
        final(out)@ == old(out)@ + item_prefix(layout, index as int),
{
    match layout {
        Layout::Plain => {
            assert(out@ =~= old(out)@ + item_prefix(layout, index as int));
        },
        Layout::Quote => {
            out.append("> ");
        },
        Layout::List { style: ListStyle::Bullet, indent } => {
            push_repeated(out, "  ", indent);
            out.append("- ");
            assert(out@ =~= old(out)@ + item_prefix(layout, index as int));
        },
        Layout::List { style: ListStyle::Ordered, indent } => {
            push_repeated(out, "   ", indent);
            let ordinal = decimal_string(index + 1);
            out.append(ordinal.as_str());
            out.append(". ");
            assert(out@ =~= old(out)@ + item_prefix(layout, index as int));
        },
    }
}

/// Writes the children of a container, each between its prefix and suffix.
pub fn render_items(elements: &Vec<RichTextElement>, layout: Layout) -> (out: String)
    ensures
        out@ == laid_out(elements.deep_view(), layout, elements@.len() as int),
    decreases elements,
{
    let mut out = String::new();
    let mut index: usize = 0;
    while index < elements.len()
        invariant
            index <= elements.len(),
            out@ == laid_out(elements.deep_view(), layout, index as int),
        decreases elements.len() - index,
    {
        let ghost before = out@;
        push_item_prefix(&mut out, layout, index);
        let child = elements[index].to_string();
        out.append(child.as_str());
        match layout {
            Layout::List { .. } => {
                out.append("\n");
            },
            _ => {},
        }
        index = index + 1;
        assert(elements.deep_view()[index - 1] == elements@[index - 1].deep_view());
        assert(out@ =~= before + item_prefix(layout, index - 1) + rendered(
            elements.deep_view()[index - 1],
        ) + item_suffix(layout));
    }
    out
}

impl RichTextElement {
    /// Writes the element as Markdown text.
    pub fn to_string(&self) -> (out: String)
        ensures
            out@ == rendered(self.deep_view()),
        decreases self,
    {
        proof {
            match self {
                RichTextElement::RichTextSection { elements } => lemma_views_of_all(*elements),
                RichTextElement::RichTextQuote { elements } => lemma_views_of_all(*elements),
                RichTextElement::RichTextList { elements, .. } => lemma_views_of_all(*elements),
                RichTextElement::RichTextPreformatted { elements } => lemma_views_of_all(
                    *elements,
                ),
                _ => {},
            }
        }
        match self {
            RichTextElement::RichTextSection { elements } => render_items(elements, Layout::Plain),
            RichTextElement::RichTextQuote { elements } => render_items(elements, Layout::Quote),
            RichTextElement::RichTextList { style, indent, elements } => render_items(
                elements,
                Layout::List { style: *style, indent: *indent },
            ),
            RichTextElement::RichTextPreformatted { elements } => {
                let inner = render_items(elements, Layout::Plain);
                let mut out = String::from_str("```\n");
                out.append(inner.as_str());
                out.append("\n```\n");
                out
            },
            RichTextElement::Emoji { name, .. } => name.clone(),
            RichTextElement::Text { text, style } => apply_style(text.as_str(), style),
            RichTextElement::Mrkdwn { text, style } => apply_style(text.as_str(), style),
            RichTextElement::Link { url, text } => match text {
                Some(title) => {
                    let mut out = String::from_str("[");
                    out.append(title.as_str());
                    out.append("](");
                    out.append(url.as_str());
                    out.append(")");
                    out
                },
                None => url.clone(),
            },
            RichTextElement::User { user_id } => {
                let mut out = String::from_str("<@");
                out.append(user_id.as_str());
                out.append(">");
                out
            },
            RichTextElement::Usergroup { usergroup_id } => {
                let mut out = String::from_str("<!subteam^");
                out.append(usergroup_id.as_str());
                out.append(">");
                out
            },
            RichTextElement::Broadcast { range } => {
                let mut out = String::from_str("@");
                out.append(range.as_str());
                out
            },
            RichTextElement::Channel { channel_id, .. } => {
                let mut out = String::from_str("<#");
                out.append(channel_id.as_str());
                out.append(">");
                out
            },
        }
    }
}

impl Block {
    /// Writes the block as Markdown text.
    pub fn to_string(&self) -> (out: String)
        ensures
            out@ == block_rendered(self.deep_view()),
    {
        match self.block_type {
            BlockType::RichText => match &self.elements {
                Some(elements) => render_items(elements, Layout::Plain),
                None => String::new(),
            },
            _ => String::new(),
        }
    }
}

/// Of the markers of a text that is both code and bold, the code marker
/// stands innermost: the text is first set between backticks, and that
/// between the asterisks.
pub proof fn law_code_is_wrapped_before_bold(value: Seq<char>)
    ensures
        styled(value, Some(Style { code: true, bold: true, italic: false, strike: false }))
            == seq!['*', '*', '`'] + value + seq!['`', '*', '*'],
{
    reveal_strlit("`");
    reveal_strlit("**");
    reveal_strlit("_");
    reveal_strlit("~~");
    let code = "`"@ + value + "`"@;
    assert("`"@ =~= seq!['`']);
    assert("**"@ =~= seq!['*', '*']);
    assert("**"@ + code + "**"@ =~= seq!['*', '*', '`'] + value + seq!['`', '*', '*']);
}

/// The markers of a style are set in a fixed order, whatever the flags:
/// each one that is set goes around all that the earlier ones made.
pub proof fn law_style_order(value: Seq<char>, style: Style)
    ensures
        styled(value, Some(style)) == wrapped(
            styled(value, Some(Style { strike: false, ..style })),
            "~~"@,
            style.strike,
        ),
        styled(value, Some(Style { strike: false, ..style })) == wrapped(
            styled(value, Some(Style { strike: false, italic: false, ..style })),
            "_"@,
            style.italic,
        ),
        styled(value, Some(Style { strike: false, italic: false, ..style })) == wrapped(
            styled(value, Some(Style { strike: false, italic: false, bold: false, ..style })),
            "**"@,
            style.bold,
        ),
        styled(value, Some(Style { strike: false, italic: false, bold: false, ..style }))
            == wrapped(value, "`"@, style.code),
        styled(value, None) == value,
{
}

/// What is laid out of some children depends on those children alone.
proof fn lemma_laid_out_prefix(
    elements: Seq<ElementView>,
    other: Seq<ElementView>,
    layout: Layout,
    count: int,
)
    requires
        0 <= count <= elements.len(),
        count <= other.len(),
        forall|i: int| 0 <= i < count ==> elements[i] == other[i],
    ensures
        laid_out(elements, layout, count) == laid_out(other, layout, count),
    decreases count,
{
    if count > 0 {
        lemma_laid_out_prefix(elements, other, layout, count - 1);
    }
}

/// The children of a section are rendered from left to right, each for
/// itself: the text of a section is the text of its first children followed
/// by the text of the others.
pub proof fn law_section_renders_children_in_order(
    first: Seq<ElementView>,
    second: Seq<ElementView>,
)
    ensures
        rendered(ElementView::RichTextSection { elements: first + second }) == rendered(
            ElementView::RichTextSection { elements: first },
        ) + rendered(ElementView::RichTextSection { elements: second }),
{
    lemma_laid_out_plain_concat(first, second, second.len() as int);
}

proof fn lemma_laid_out_plain_concat(first: Seq<ElementView>, second: Seq<ElementView>, count: int)
    requires
        0 <= count <= second.len(),
    ensures
        laid_out(first + second, Layout::Plain, first.len() + count) == laid_out(
            first,
            Layout::Plain,
            first.len() as int,
        ) + laid_out(second, Layout::Plain, count),
    decreases count,
{
    let all = first + second;
    if count == 0 {
        lemma_laid_out_prefix(all, first, Layout::Plain, first.len() as int);
        assert(laid_out(first, Layout::Plain, first.len() as int) + Seq::<char>::empty()
            =~= laid_out(first, Layout::Plain, first.len() as int));
    } else {
        lemma_laid_out_plain_concat(first, second, count - 1);
        assert(all[first.len() + count - 1] == second[count - 1]);
        assert(laid_out(all, Layout::Plain, first.len() + count) =~= laid_out(
            first,
            Layout::Plain,
            first.len() as int,
        ) + laid_out(second, Layout::Plain, count));
    }
}

} // verus!
