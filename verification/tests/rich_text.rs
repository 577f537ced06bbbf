use slack_client::rich_text::{apply_style, Block, BlockType, ListStyle, RichTextElement, Style};

fn text(value: &str) -> RichTextElement {
    RichTextElement::Text { text: value.to_string(), style: None }
}

fn style(code: bool, bold: bool, italic: bool, strike: bool) -> Option<Style> {
    Some(Style { code, bold, italic, strike })
}

#[test]
fn style_composes_code_innermost_then_bold() {
    let element =
        RichTextElement::Text { text: "x".to_string(), style: style(true, true, false, false) };
    assert_eq!(element.to_string(), "**`x`**");
}

#[test]
fn style_composes_all_four_in_order() {
    assert_eq!(apply_style("x", &style(true, true, true, true)), "~~_**`x`**_~~");
    assert_eq!(apply_style("x", &style(false, false, true, true)), "~~_x_~~");
    assert_eq!(apply_style("x", &style(false, false, false, false)), "x");
    assert_eq!(apply_style("x", &None), "x");
}

#[test]
fn mrkdwn_element_is_styled_like_text() {
    let element =
        RichTextElement::Mrkdwn { text: "m".to_string(), style: style(false, true, false, true) };
    assert_eq!(element.to_string(), "~~**m**~~");
}

#[test]
fn section_concatenates_children() {
    let element = RichTextElement::RichTextSection { elements: vec![text("a"), text("b")] };
    assert_eq!(element.to_string(), "ab");
}

#[test]
fn quote_prefixes_each_child() {
    let element = RichTextElement::RichTextQuote { elements: vec![text("a\nb"), text("c")] };
    assert_eq!(element.to_string(), "> a\nb> c");
}

#[test]
fn bullet_list_indents_by_two() {
    let element = RichTextElement::RichTextList {
        style: ListStyle::Bullet,
        indent: 2,
        elements: vec![text("a"), text("b")],
    };
    assert_eq!(element.to_string(), "    - a\n    - b\n");
}

#[test]
fn ordered_list_indents_by_three_and_counts_from_one() {
    let items = (0..11).map(|_| text("i")).collect::<Vec<_>>();
    let element = RichTextElement::RichTextList { style: ListStyle::Ordered, indent: 1, elements: items };
    let lines = element.to_string();
    let lines = lines.lines().collect::<Vec<_>>();
    assert_eq!(lines.len(), 11);
    assert_eq!(lines[0], "   1. i");
    assert_eq!(lines[9], "   10. i");
    assert_eq!(lines[10], "   11. i");
}

#[test]
fn list_with_negative_indent_is_not_indented() {
    let element = RichTextElement::RichTextList {
        style: ListStyle::Bullet,
        indent: -3,
        elements: vec![text("a")],
    };
    assert_eq!(element.to_string(), "- a\n");
}

#[test]
fn preformatted_fences_its_children_once() {
    let element = RichTextElement::RichTextPreformatted { elements: vec![text("a"), text("b")] };
    assert_eq!(element.to_string(), "```\nab\n```\n");
}

#[test]
fn leaves_render_as_documented() {
    assert_eq!(
        RichTextElement::Emoji { name: "smile".to_string(), style: None }.to_string(),
        "smile"
    );
    assert_eq!(
        RichTextElement::Link { url: "https://a.test".to_string(), text: Some("T".to_string()) }
            .to_string(),
        "[T](https://a.test)"
    );
    assert_eq!(
        RichTextElement::Link { url: "https://a.test".to_string(), text: None }.to_string(),
        "https://a.test"
    );
    assert_eq!(RichTextElement::User { user_id: "U1".to_string() }.to_string(), "<@U1>");
    assert_eq!(
        RichTextElement::Usergroup { usergroup_id: "S1".to_string() }.to_string(),
        "<!subteam^S1>"
    );
    assert_eq!(RichTextElement::Broadcast { range: "here".to_string() }.to_string(), "@here");
    assert_eq!(
        RichTextElement::Channel { channel_id: "C1".to_string(), style: None }.to_string(),
        "<#C1>"
    );
}

#[test]
fn nested_tree_renders_depth_first() {
    let element = RichTextElement::RichTextSection {
        elements: vec![
            text("a"),
            RichTextElement::RichTextQuote {
                elements: vec![RichTextElement::RichTextSection { elements: vec![text("b"), text("c")] }],
            },
            text("d"),
        ],
    };
    assert_eq!(element.to_string(), "a> bcd");
}

#[test]
fn only_rich_text_blocks_render() {
    let kinds = [
        BlockType::Header,
        BlockType::Divider,
        BlockType::Actions,
        BlockType::Context,
        BlockType::File,
        BlockType::Image,
        BlockType::Input,
        BlockType::Section,
        BlockType::Video,
    ];
    for kind in kinds {
        let block = Block { block_type: kind, elements: Some(vec![text("a")]) };
        assert_eq!(block.to_string(), "");
    }
    let block = Block { block_type: BlockType::RichText, elements: Some(vec![text("a"), text("b")]) };
    assert_eq!(block.to_string(), "ab");
    let block = Block { block_type: BlockType::RichText, elements: None };
    assert_eq!(block.to_string(), "");
}
