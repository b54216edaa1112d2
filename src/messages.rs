//! The conversation data model: roles, content blocks and messages.

use vstd::prelude::*;
use crate::lines::join_lf;

verus! {

/// Who wrote a message.
#[derive(Debug, Clone, Copy, PartialEq, Eq, Structural)]
pub enum Role {
    User,
    Assistant,
    System,
}

/// One semantic unit of a message.
#[derive(Debug, Clone, PartialEq)]
pub enum ContentBlock {
    Text { text: String },
    ToolUse { id: String, name: String, input: serde_json::Value },
    ToolResult { tool_use_id: String, content: String, is_error: Option<bool> },
    Thinking { thinking: String },
}

/// The content of a [`ContentBlock`], with its texts as character sequences.
pub enum BlockModel {
    Text { text: Seq<char> },
    ToolUse { id: Seq<char>, name: Seq<char>, input: serde_json::Value },
    ToolResult { tool_use_id: Seq<char>, content: Seq<char>, is_error: Option<bool> },
    Thinking { thinking: Seq<char> },
}

impl View for ContentBlock {
    type V = BlockModel;

    open spec fn view(&self) -> BlockModel {
        match self {
            ContentBlock::Text { text } => BlockModel::Text { text: text@ },
            ContentBlock::ToolUse { id, name, input } => BlockModel::ToolUse {
                id: id@,
                name: name@,
                input: *input,
            },
            ContentBlock::ToolResult { tool_use_id, content, is_error } => BlockModel::ToolResult {
                tool_use_id: tool_use_id@,
                content: content@,
                is_error: *is_error,
            },
            ContentBlock::Thinking { thinking } => BlockModel::Thinking { thinking: thinking@ },
        }
    }
}

pub open spec fn blocks_view(v: Seq<ContentBlock>) -> Seq<BlockModel> {
    v.map_values(|b: ContentBlock| b@)
}

impl ContentBlock {
    /// A copy of this block.
    pub fn duplicate(&self) -> (r: Self)
        ensures
            r@ == self@,
    {
        match self {
            ContentBlock::Text { text } => ContentBlock::Text { text: text.clone() },
            ContentBlock::ToolUse { id, name, input } => ContentBlock::ToolUse {
                id: id.clone(),
                name: name.clone(),
                input: input.clone(),
            },
            ContentBlock::ToolResult { tool_use_id, content, is_error } => ContentBlock::ToolResult {
                tool_use_id: tool_use_id.clone(),
                content: content.clone(),
                is_error: *is_error,
            },
            ContentBlock::Thinking { thinking } => ContentBlock::Thinking {
                thinking: thinking.clone(),
            },
        }
    }

    /// Whether this block is a tool invocation.
    pub fn is_tool_use(&self) -> (r: bool)
        ensures
            r == (self@ is ToolUse),
    {
        match self {
            ContentBlock::ToolUse { .. } => true,
            _ => false,
        }
    }
}

/// A copy of a sequence of blocks.
pub fn duplicate_blocks(v: &Vec<ContentBlock>) -> (r: Vec<ContentBlock>)
    ensures
        blocks_view(r@) == blocks_view(v@),
{
    let mut r: Vec<ContentBlock> = Vec::new();
    let mut i: usize = 0;
    while i < v.len()
        invariant
            i <= v.len(),
            blocks_view(r@) == blocks_view(v@.take(i as int)),
        decreases v.len() - i,
    {
        let ghost before = r@;
        let b = v[i].duplicate();
        r.push(b);
        assert(blocks_view(r@) =~= blocks_view(before).push(v@[i as int]@));
        assert(blocks_view(v@.take(i + 1)) =~= blocks_view(v@.take(i as int)).push(v@[i as int]@));
        i = i + 1;
    }
    assert(v@.take(v.len() as int) =~= v@);
    r
}

/// One turn of a conversation.
#[derive(Debug, Clone)]
pub struct Message {
    pub role: Role,
    pub content: Vec<ContentBlock>,
    pub uuid: Option<String>,
}

/// The content of a [`Message`].
pub struct MessageModel {
    pub role: Role,
    pub content: Seq<BlockModel>,
    pub uuid: Option<Seq<char>>,
}

impl View for Message {
    type V = MessageModel;

    open spec fn view(&self) -> MessageModel {
        MessageModel {
            role: self.role,
            content: blocks_view(self.content@),
            uuid: match self.uuid {
                Some(u) => Some(u@),
                None => None,
            },
        }
    }
}

/// Relies on `uuid::Uuid::new_v4`: a fresh random identifier, in its
/// hyphenated text form. Nothing is known of its value.
#[verifier::external_body]
fn new_message_id() -> (r: String) {
    uuid::Uuid::new_v4().to_string()
}

/// The texts of the text blocks, in order.
pub open spec fn text_parts(bs: Seq<BlockModel>) -> Seq<Seq<char>>
    decreases bs.len(),
{
    if bs.len() == 0 {
        Seq::empty()
    } else {
        match bs.last() {
            BlockModel::Text { text } => text_parts(bs.drop_last()).push(text),
            _ => text_parts(bs.drop_last()),
        }
    }
}

impl Message {
    /// A user message holding one text block, with a fresh identifier.
    pub fn user(text: String) -> (r: Self)
        ensures
            r@.role == Role::User,
            r@.content == seq![BlockModel::Text { text: text@ }],
            r@.uuid.is_some(),
    {
        let m = Message { role: Role::User, content: vec![ContentBlock::Text { text }], uuid: Some(new_message_id()) };
        assert(m@.content =~= seq![BlockModel::Text { text: text@ }]);
        m
    }

    /// An assistant message holding one text block, with a fresh identifier.
    pub fn assistant(text: String) -> (r: Self)
        ensures
            r@.role == Role::Assistant,
            r@.content == seq![BlockModel::Text { text: text@ }],
            r@.uuid.is_some(),
    {
        let m = Message { role: Role::Assistant, content: vec![ContentBlock::Text { text }], uuid: Some(new_message_id()) };
        assert(m@.content =~= seq![BlockModel::Text { text: text@ }]);
        m
    }

    /// The text blocks' texts joined by line feeds.
    pub fn text_content(&self) -> (r: String)
        ensures
            r@ == join_lf(text_parts(self@.content)),
    {
        let mut r = String::new();
        let mut n: usize = 0;
        let mut i: usize = 0;
        while i < self.content.len()
            invariant
                i <= self.content.len(),
                n == text_parts(self@.content.take(i as int)).len(),
                n <= i,
                r@ == join_lf(text_parts(self@.content.take(i as int))),
            decreases self.content.len() - i,
        {
            let ghost pre = self@.content.take(i as int);
            assert(self@.content.take(i + 1).drop_last() =~= pre);
            assert(self@.content.take(i + 1).last() == self@.content[i as int]);
            match &self.content[i] {
                ContentBlock::Text { text } => {
                    assert(text_parts(pre).push(text@).drop_last() =~= text_parts(pre));
                    if n > 0 {
                        crate::text::push_char(&mut r, '\n');
                    }
                    r.append(text.as_str());
                    n = n + 1;
                },
                _ => {},
            }
            i = i + 1;
        }
        assert(self@.content.take(self.content.len() as int) =~= self@.content);
        r
    }

    /// A system message holding one text block; it carries no identifier.
    pub fn system(text: String) -> (r: Self)
        ensures
            r@.role == Role::System,
            r@.content == seq![BlockModel::Text { text: text@ }],
            r@.uuid.is_none(),
    {
        let m = Message { role: Role::System, content: vec![ContentBlock::Text { text }], uuid: None };
        assert(m@.content =~= seq![BlockModel::Text { text: text@ }]);
        m
    }

    /// Whether any block is a tool invocation.
    pub fn has_tool_use(&self) -> (r: bool)
        ensures
            r == exists|i: int| 0 <= i < self@.content.len() && self@.content[i] is ToolUse,
    {
        let mut i: usize = 0;
        while i < self.content.len()
            invariant
                i <= self.content.len(),
                forall|j: int| 0 <= j < i ==> !(self@.content[j] is ToolUse),
            decreases self.content.len() - i,
        {
            if self.content[i].is_tool_use() {
                assert(self@.content[i as int] is ToolUse);
                return true;
            }
            i = i + 1;
        }
        false
    }

    /// The tool invocations, in order.
    pub fn tool_uses(&self) -> (r: Vec<ContentBlock>)
        ensures
            blocks_view(r@) == self@.content.filter(|b: BlockModel| b is ToolUse),
    {
        let mut r: Vec<ContentBlock> = Vec::new();
        let mut i: usize = 0;
        while i < self.content.len()
            invariant
                i <= self.content.len(),
                blocks_view(r@) == self@.content.take(i as int).filter(|b: BlockModel| b is ToolUse),
            decreases self.content.len() - i,
        {
            let ghost before = r@;
            assert(self@.content.take(i + 1).drop_last() =~= self@.content.take(i as int));
            assert(self@.content.take(i + 1).last() == self@.content[i as int]);
            reveal(Seq::filter);
            if self.content[i].is_tool_use() {
                r.push(self.content[i].duplicate());
                assert(blocks_view(r@) =~= blocks_view(before).push(self.content@[i as int]@));
            } else {
                assert(blocks_view(r@) =~= blocks_view(before));
            }
            i = i + 1;
        }
        assert(self@.content.take(self.content.len() as int) =~= self@.content);
        r
    }
}

} // verus!
