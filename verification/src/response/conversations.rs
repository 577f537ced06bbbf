//! Answers of the `conversations` family: channels and messages.

use vstd::prelude::*;
use vstd::string::*;
use crate::response::Response;
use crate::rich_text::{block_rendered, Block, BlockType, BlockView};

verus! {

/// What a conversation is about.
#[derive(Debug)]
pub struct Purpose {
    pub value: String,
}

/// A conversation of the directory.
#[derive(Debug)]
pub struct Channel {
    /// Whether the conversation is a direct message between two parties.
    pub is_im: Option<bool>,
    /// Whether the conversation is a direct message among several parties.
    pub is_mpim: Option<bool>,
    /// The normalized name of the channel.
    pub name_normalized: Option<String>,
    /// The purpose set for the conversation.
    pub purpose: Option<Purpose>,
    /// For a direct message, the id of the other party.
    pub user: Option<String>,
}

/// The answer to a lookup by channel id; `channel` is absent where the
/// directory knows no such channel.
#[derive(Debug)]
pub struct ConversationsInfo {
    pub ok: bool,
    pub channel: Option<Channel>,
}

impl Response for ConversationsInfo {

}

/// A message as the directory hands it out.
#[derive(Debug)]
pub struct Message {
    /// The id of the user who wrote it.
    pub user: Option<String>,
    /// The id of the bot that wrote it.
    pub bot_id: Option<String>,
    /// The body in the inline markup.
    pub text: Option<String>,
    /// The body as blocks.
    pub blocks: Option<Vec<Block>>,
}

/// The answer to a request for messages; `messages` is absent where the
/// directory sent no list at all.
#[derive(Debug)]
pub struct Conversations {
    pub ok: bool,
    pub messages: Option<Vec<Message>>,
}

impl Response for Conversations {

}

impl ConversationsInfo {
    /// Whether the directory reported success.
    pub fn is_ok(&self) -> (ok: bool)
        ensures
            ok == self.ok,
    {
        self.ok
    }
}

impl Conversations {
    /// Whether the directory reported success.
    pub fn is_ok(&self) -> (ok: bool)
        ensures
            ok == self.ok,
    {
        self.ok
    }
}

impl DeepView for Purpose {
    type V = Seq<char>;

    open spec fn deep_view(&self) -> Seq<char> {
        self.value@
    }
}

/// The mathematical value of a [`Channel`].
pub struct ChannelView {
    pub is_im: Option<bool>,
    pub is_mpim: Option<bool>,
    pub name_normalized: Option<Seq<char>>,
    pub purpose: Option<Seq<char>>,
    pub user: Option<Seq<char>>,
}

impl DeepView for Channel {
    type V = ChannelView;

    open spec fn deep_view(&self) -> ChannelView {
        ChannelView {
            is_im: self.is_im,
            is_mpim: self.is_mpim,
            name_normalized: self.name_normalized.deep_view(),
            purpose: self.purpose.deep_view(),
            user: self.user.deep_view(),
        }
    }
}

impl DeepView for ConversationsInfo {
    type V = Option<ChannelView>;

    open spec fn deep_view(&self) -> Option<ChannelView> {
        self.channel.deep_view()
    }
}

/// The Markdown text of a run of blocks, one after the other.
pub open spec fn blocks_rendered(blocks: Seq<BlockView>) -> Seq<char>
    decreases blocks.len(),
{
    if blocks.len() == 0 {
        Seq::empty()
    } else {
        blocks_rendered(blocks.drop_last()) + block_rendered(blocks.last())
    }
}

/// The mathematical value of a [`Message`].
pub struct MessageView {
    pub user: Option<Seq<char>>,
    pub bot_id: Option<Seq<char>>,
    pub text: Option<Seq<char>>,
    pub blocks: Option<Seq<BlockView>>,
}

impl DeepView for Message {
    type V = MessageView;

    open spec fn deep_view(&self) -> MessageView {
        MessageView {
            user: self.user.deep_view(),
            bot_id: self.bot_id.deep_view(),
            text: self.text.deep_view(),
            blocks: self.blocks.deep_view(),
        }
    }
}

/// The text from which the body of a message is made: that of its blocks
/// where it has blocks, else its plain text, else nothing.
pub open spec fn body_source(message: MessageView) -> Seq<char> {
    match message.blocks {
        Some(blocks) => blocks_rendered(blocks),
        None => match message.text {
            Some(text) => text,
            None => Seq::empty(),
        },
    }
}

impl DeepView for Conversations {
    type V = Option<Seq<MessageView>>;

    open spec fn deep_view(&self) -> Option<Seq<MessageView>> {
        self.messages.deep_view()
    }
}

/// The label that stands for a channel the name of which is not known.
pub open spec fn unknown_label() -> Seq<char> {
    "Unknown"@
}

/// The name of a channel as a mention shows it: its normalized name, or the
/// placeholder where it has none.
pub open spec fn channel_name(channel: ChannelView) -> Seq<char> {
    match channel.name_normalized {
        Some(name) => name,
        None => unknown_label(),
    }
}

/// The label of a conversation among several parties: its purpose, or the
/// placeholder where none is set.
pub open spec fn group_label(channel: ChannelView) -> Seq<char> {
    match channel.purpose {
        Some(purpose) => purpose,
        None => unknown_label(),
    }
}

/// The label of a direct message with a party of the given display name.
pub open spec fn direct_label(display_name: Seq<char>) -> Seq<char> {
    "DM with "@ + display_name
}

/// Whether the channel is a direct message between two parties.
pub open spec fn is_direct(channel: ChannelView) -> bool {
    channel.is_im == Some(true)
}

/// The label of a channel that is no direct message between two parties.
pub open spec fn channel_label(channel: ChannelView) -> Seq<char> {
    if channel.is_mpim == Some(true) {
        group_label(channel)
    } else {
        channel_name(channel)
    }
}

impl Channel {
    /// Tells whether the channel is a direct message between two parties.
    pub fn is_direct(&self) -> (direct: bool)
        ensures
            direct == is_direct(self.deep_view()),
    {
        match self.is_im {
            Some(flag) => flag,
            None => false,
        }
    }

    /// The name of the channel as a mention shows it.
    pub fn name(&self) -> (name: String)
        ensures
            name@ == channel_name(self.deep_view()),
    {
        match &self.name_normalized {
            Some(name) => name.clone(),
            None => String::from_str("Unknown"),
        }
    }

    /// The label of a channel that is no direct message between two parties.
    pub fn label(&self) -> (label: String)
        ensures
            label@ == channel_label(self.deep_view()),
    {
        let several = match self.is_mpim {
            Some(flag) => flag,
            None => false,
        };
        if several {
            match &self.purpose {
                Some(purpose) => purpose.value.clone(),
                None => String::from_str("Unknown"),
            }
        } else {
            self.name()
        }
    }
}

/// The label of a direct message with a party of the given display name.
pub fn direct_message_label(display_name: &str) -> (label: String)
    ensures
        label@ == direct_label(display_name@),
{
    let mut label = String::from_str("DM with ");
    label.append(display_name);
    label
}

impl Message {
    /// Writes the text from which the body of the message is made.
    pub fn body_source(&self) -> (body: String)
        ensures
            body@ == body_source(self.deep_view()),
    {
        match &self.blocks {
            Some(blocks) => {
                let mut body = String::new();
                let mut index: usize = 0;
                while index < blocks.len()
                    invariant
                        index <= blocks.len(),
                        body@ == blocks_rendered(blocks.deep_view().take(index as int)),
                    decreases blocks.len() - index,
                {
                    let block = blocks[index].to_string();
                    body.append(block.as_str());
                    index = index + 1;
                    assert(blocks.deep_view().take(index as int).drop_last()
                        =~= blocks.deep_view().take(index - 1));
                    assert(blocks.deep_view().take(index as int).last() == blocks[index
                        - 1].deep_view());
                }
                assert(blocks.deep_view().take(index as int) =~= blocks.deep_view());
                body
            },
            None => match &self.text {
                Some(text) => text.clone(),
                None => String::new(),
            },
        }
    }
}

/// The text of two runs of blocks, one after the other, is the text of the
/// first followed by the text of the second.
pub proof fn lemma_blocks_rendered_concat(first: Seq<BlockView>, second: Seq<BlockView>)
    ensures
        blocks_rendered(first + second) == blocks_rendered(first) + blocks_rendered(second),
    decreases second.len(),
{
    if second.len() == 0 {
        assert(first + second =~= first);
        assert(blocks_rendered(first) + Seq::<char>::empty() =~= blocks_rendered(first));
    } else {
        lemma_blocks_rendered_concat(first, second.drop_last());
        assert((first + second).drop_last() =~= first + second.drop_last());
        assert((first + second).last() == second.last());
        assert(blocks_rendered(first + second) =~= blocks_rendered(first) + blocks_rendered(
            second,
        ));
    }
}

/// A block of a kind that has no rendering stands for the empty text, and the
/// text of a run of blocks is the same with such a block put in at any place:
/// the blocks around it keep their text and their order.
pub proof fn law_unsupported_block_leaves_no_trace(
    blocks: Seq<BlockView>,
    at: int,
    block: BlockView,
)
    requires
        0 <= at <= blocks.len(),
        block.block_type != BlockType::RichText,
    ensures
        block_rendered(block) == Seq::<char>::empty(),
        blocks_rendered(blocks.insert(at, block)) == blocks_rendered(blocks),
{
    let head = blocks.take(at);
    let tail = blocks.skip(at);
    let one = seq![block];
    assert(blocks.insert(at, block) =~= (head + one) + tail);
    assert(blocks =~= head + tail);
    lemma_blocks_rendered_concat(head + one, tail);
    lemma_blocks_rendered_concat(head, one);
    lemma_blocks_rendered_concat(head, tail);
    assert(blocks_rendered(one) =~= Seq::<char>::empty()) by {
        assert(one.drop_last() =~= Seq::<BlockView>::empty());
        assert(one.last() == block);
        assert(blocks_rendered(one.drop_last()) =~= Seq::<char>::empty());
    }
    assert(blocks_rendered(head + one) =~= blocks_rendered(head));
}

} // verus!
