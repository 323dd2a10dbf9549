//! The Anthropic interface: a system text beside the messages, and content
//! blocks for tool calls and their results.

use vstd::prelude::*;
use vstd::string::StringExecFns;
use crate::llm::{
    CallModel, FunctionCall, LlmResponse, Message, MessageModel, ResponseModel, ToolCall, ToolDef,
};
use crate::text::same_text;
use crate::tools::args::{is_json, json_members};

verus! {

/// The version of the interface that requests name.
pub const API_VERSION: &'static str = "2023-06-01";

/// One block of a message's content.
#[derive(Debug)]
pub enum ContentBlock {
    Text { text: String },
    /// A tool call. `input` is the arguments as JSON text.
    ToolUse { id: String, name: String, input: String },
    ToolResult { tool_use_id: String, content: String },
}

/// A `ContentBlock`, as the contracts speak of it.
pub enum BlockModel {
    Text { text: Seq<char> },
    ToolUse { id: Seq<char>, name: Seq<char>, input: Seq<char> },
    ToolResult { tool_use_id: Seq<char>, content: Seq<char> },
}

impl View for ContentBlock {
    type V = BlockModel;

    open spec fn view(&self) -> BlockModel {
        match self {
            ContentBlock::Text { text } => BlockModel::Text { text: text@ },
            ContentBlock::ToolUse { id, name, input } => BlockModel::ToolUse {
                id: id@,
                name: name@,
                input: input@,
            },
            ContentBlock::ToolResult { tool_use_id, content } => BlockModel::ToolResult {
                tool_use_id: tool_use_id@,
                content: content@,
            },
        }
    }
}

impl DeepView for ContentBlock {
    type V = BlockModel;

    open spec fn deep_view(&self) -> BlockModel {
        self@
    }
}

/// What a message holds: plain text, or blocks.
#[derive(Debug)]
pub enum AnthropicContent {
    Text(String),
    Blocks(Vec<ContentBlock>),
}

/// An `AnthropicContent`, as the contracts speak of it.
pub enum ContentModel {
    Text(Seq<char>),
    Blocks(Seq<BlockModel>),
}

impl View for AnthropicContent {
    type V = ContentModel;

    open spec fn view(&self) -> ContentModel {
        match self {
            AnthropicContent::Text(t) => ContentModel::Text(t@),
            AnthropicContent::Blocks(b) => ContentModel::Blocks(b.deep_view()),
        }
    }
}

/// One message as this interface takes it.
#[derive(Debug)]
pub struct AnthropicMessage {
    pub role: String,
    pub content: AnthropicContent,
}

/// An `AnthropicMessage`, as the contracts speak of it.
pub struct WireMessage {
    pub role: Seq<char>,
    pub content: ContentModel,
}

impl View for AnthropicMessage {
    type V = WireMessage;

    open spec fn view(&self) -> WireMessage {
        WireMessage { role: self.role@, content: self.content@ }
    }
}

impl DeepView for AnthropicMessage {
    type V = WireMessage;

    open spec fn deep_view(&self) -> WireMessage {
        self@
    }
}

/// A conversation as this interface takes it.
pub struct Converted {
    /// The texts of the system messages, with a blank line between each
    /// two.
    pub system: Option<Seq<char>>,
    pub messages: Seq<WireMessage>,
}

/// The text, or nothing where there is none.
pub open spec fn text_or_empty(t: Option<Seq<char>>) -> Seq<char> {
    match t {
        Some(s) => s,
        None => Seq::empty(),
    }
}

/// The arguments of a tool call as this interface takes them: as they
/// are where they are JSON, and as an empty object where they are not.
pub open spec fn tool_input(arguments: Seq<char>) -> Seq<char> {
    if json_members(arguments) is Ok {
        arguments
    } else {
        "{}"@
    }
}

/// The first `n` of `calls` as blocks.
pub open spec fn tool_use_blocks(calls: Seq<CallModel>, n: int) -> Seq<BlockModel>
    decreases n,
{
    if n <= 0 {
        Seq::empty()
    } else {
        tool_use_blocks(calls, n - 1).push(
            BlockModel::ToolUse {
                id: calls[n - 1].id,
                name: calls[n - 1].name,
                input: tool_input(calls[n - 1].arguments),
            },
        )
    }
}

/// The text of an assistant's message as blocks: one, unless the text is
/// missing or empty.
pub open spec fn text_blocks(content: Option<Seq<char>>) -> Seq<BlockModel> {
    match content {
        Some(t) => if t.len() > 0 {
            seq![BlockModel::Text { text: t }]
        } else {
            Seq::empty()
        },
        None => Seq::empty(),
    }
}

/// An assistant's message as blocks: its text, then its tool calls; and
/// one empty text where it has neither.
pub open spec fn assistant_blocks(m: MessageModel) -> Seq<BlockModel> {
    let blocks = text_blocks(m.content) + match m.tool_calls {
        Some(calls) => tool_use_blocks(calls, calls.len() as int),
        None => Seq::empty(),
    };
    if blocks.len() == 0 {
        seq![BlockModel::Text { text: Seq::empty() }]
    } else {
        blocks
    }
}

/// Whether `blocks` holds tool results and nothing else.
pub open spec fn only_results(blocks: Seq<BlockModel>) -> bool {
    forall|i: int| 0 <= i < blocks.len() ==> (#[trigger] blocks[i]) is ToolResult
}

/// Whether `m` is a user's turn made of tool results, to which a further
/// result of the same turn is added.
pub open spec fn is_result_turn(m: WireMessage) -> bool {
    &&& m.role == "user"@
    &&& m.content matches ContentModel::Blocks(b)
    &&& only_results(b)
}

/// The conversation `c` with the message `m` added. A system message adds
/// to the system text. A tool result joins the results before it in one
/// user's turn. A message of an unknown role is left out.
pub open spec fn convert_step(c: Converted, m: MessageModel) -> Converted {
    if m.role == "system"@ {
        Converted {
            system: Some(
                match c.system {
                    Some(s) => s + "\n\n"@ + text_or_empty(m.content),
                    None => text_or_empty(m.content),
                },
            ),
            ..c
        }
    } else if m.role == "user"@ {
        Converted {
            messages: c.messages.push(
                WireMessage {
                    role: "user"@,
                    content: ContentModel::Text(text_or_empty(m.content)),
                },
            ),
            ..c
        }
    } else if m.role == "assistant"@ {
        Converted {
            messages: c.messages.push(
                WireMessage {
                    role: "assistant"@,
                    content: ContentModel::Blocks(assistant_blocks(m)),
                },
            ),
            ..c
        }
    } else if m.role == "tool"@ {
        let block = BlockModel::ToolResult {
            tool_use_id: text_or_empty(m.tool_call_id),
            content: text_or_empty(m.content),
        };
        if c.messages.len() > 0 && is_result_turn(c.messages.last()) {
            Converted {
                messages: c.messages.drop_last().push(
                    WireMessage {
                        role: "user"@,
                        content: ContentModel::Blocks(
                            c.messages.last().content->Blocks_0.push(block),
                        ),
                    },
                ),
                ..c
            }
        } else {
            Converted {
                messages: c.messages.push(
                    WireMessage { role: "user"@, content: ContentModel::Blocks(seq![block]) },
                ),
                ..c
            }
        }
    } else {
        c
    }
}

/// The first `n` of `messages` as this interface takes them.
pub open spec fn converted(messages: Seq<MessageModel>, n: int) -> Converted
    decreases n,
{
    if n <= 0 {
        Converted { system: None, messages: Seq::empty() }
    } else {
        convert_step(converted(messages, n - 1), messages[n - 1])
    }
}

/// Whether no two turns of tool results stand side by side.
pub open spec fn results_are_merged(messages: Seq<WireMessage>) -> bool {
    forall|i: int|
        0 <= i < messages.len() - 1 ==> !(is_result_turn(#[trigger] messages[i])
            && is_result_turn(messages[i + 1]))
}

/// Tool results that follow one another end up in one user's turn: no two
/// turns of tool results stand side by side.
pub proof fn consecutive_results_share_a_turn(messages: Seq<MessageModel>, n: int)
    requires
        0 <= n <= messages.len(),
    ensures
        results_are_merged(converted(messages, n).messages),
    decreases n,
{
    reveal_strlit("user");
    reveal_strlit("assistant");
    reveal_strlit("system");
    reveal_strlit("tool");
    assert("tool"@ != "user"@) by {
        assert("tool"@[0] == 't' && "user"@[0] == 'u');
    }
    assert("tool"@.len() == 4 && "user"@.len() == 4 && "system"@.len() == 6 && "assistant"@.len()
        == 9);
    if n > 0 {
        consecutive_results_share_a_turn(messages, n - 1);
        let before = converted(messages, n - 1).messages;
        let m = messages[n - 1];
        let after = converted(messages, n).messages;
        assert forall|i: int| 0 <= i < after.len() - 1 implies !(is_result_turn(
            #[trigger] after[i],
        ) && is_result_turn(after[i + 1])) by {
            if m.role == "system"@ {
            } else if m.role == "tool"@ && before.len() > 0 && is_result_turn(before.last()) {
                if i + 1 < after.len() - 1 {
                    assert(after[i] == before[i] && after[i + 1] == before[i + 1]);
                } else {
                    assert(after[i] == before[i]);
                    assert(before[i + 1] == before.last());
                }
            } else if i + 1 < after.len() - 1 {
                assert(after[i] == before[i] && after[i + 1] == before[i + 1]);
            } else if after.len() == before.len() + 1 {
                assert(after[i] == before.last());
                if m.role == "user"@ {
                    assert(!is_result_turn(after[i + 1]));
                } else if m.role == "assistant"@ {
                    assert(after[i + 1].role == "assistant"@);
                    assert("assistant"@.len() != "user"@.len());
                }
            }
        }
    }
}

fn owned_or_empty(t: &Option<String>) -> (s: String)
    ensures
        s@ == text_or_empty(t.deep_view()),
{
    match t {
        Some(x) => x.clone(),
        None => String::new(),
    }
}

fn holds_only_results(blocks: &Vec<ContentBlock>) -> (r: bool)
    ensures
        r == only_results(blocks.deep_view()),
{
    let mut i: usize = 0;
    while i < blocks.len()
        invariant
            i <= blocks@.len(),
            forall|k: int| 0 <= k < i ==> (#[trigger] blocks.deep_view()[k]) is ToolResult,
        decreases blocks@.len() - i,
    {
        assert(blocks.deep_view()[i as int] == blocks@[i as int]@);
        match &blocks[i] {
            ContentBlock::ToolResult { .. } => {},
            _ => {
                return false;
            },
        }
        i += 1;
    }
    true
}

fn blocks_of(msg: &Message) -> (blocks: Vec<ContentBlock>)
    ensures
        blocks.deep_view() == assistant_blocks(msg@),
{
    let mut blocks: Vec<ContentBlock> = Vec::new();
    match &msg.content {
        Some(text) => {
            if !text.as_str().is_empty() {
                blocks.push(ContentBlock::Text { text: text.clone() });
            }
        },
        None => {},
    }
    assert(blocks.deep_view() =~= text_blocks(msg@.content));
    match &msg.tool_calls {
        Some(calls) => {
            let ghost head = blocks.deep_view();
            let mut i: usize = 0;
            while i < calls.len()
                invariant
                    i <= calls@.len(),
                    blocks.deep_view() == head + tool_use_blocks(calls.deep_view(), i as int),
                decreases calls@.len() - i,
            {
                let tc = &calls[i];
                assert(calls.deep_view()[i as int] == tc@);
                let input = if is_json(tc.function.arguments.as_str()) {
                    tc.function.arguments.clone()
                } else {
                    String::from_str("{}")
                };
                let ghost before = blocks.deep_view();
                let block = ContentBlock::ToolUse {
                    id: tc.id.clone(),
                    name: tc.function.name.clone(),
                    input,
                };
                let ghost model = block@;
                blocks.push(block);
                assert(blocks.deep_view() =~= before.push(model));
                i += 1;
            }
        },
        None => {
            assert(blocks.deep_view() =~= blocks.deep_view() + Seq::<BlockModel>::empty());
        },
    }
    if blocks.len() == 0 {
        blocks.push(ContentBlock::Text { text: String::new() });
        assert(blocks.deep_view() =~= seq![BlockModel::Text { text: Seq::empty() }]);
    }
    blocks
}

/// What this interface takes in place of `messages`: the system text, and
/// the turns of the user and of the assistant.
pub fn convert_messages(messages: &Vec<Message>) -> (r: (Option<String>, Vec<AnthropicMessage>))
    ensures
        r.0.deep_view() == converted(messages.deep_view(), messages@.len() as int).system,
        r.1.deep_view() == converted(messages.deep_view(), messages@.len() as int).messages,
        results_are_merged(r.1.deep_view()),
{
    let mut system: Option<String> = None;
    let mut result: Vec<AnthropicMessage> = Vec::new();
    let mut n: usize = 0;
    assert(result.deep_view() =~= Seq::<WireMessage>::empty());
    while n < messages.len()
        invariant
            n <= messages@.len(),
            system.deep_view() == converted(messages.deep_view(), n as int).system,
            result.deep_view() == converted(messages.deep_view(), n as int).messages,
        decreases messages@.len() - n,
    {
        let msg = &messages[n];
        assert(messages.deep_view()[n as int] == msg@);
        let ghost before = result.deep_view();
        let role = msg.role.as_str();
        if same_text(role, "system") {
            let text = owned_or_empty(&msg.content);
            system = match system {
                Some(s) => {
                    let mut s = s;
                    s.append("\n\n");
                    s.append(text.as_str());
                    Some(s)
                },
                None => Some(text),
            };
        } else if same_text(role, "user") {
            let turn = AnthropicMessage {
                role: String::from_str("user"),
                content: AnthropicContent::Text(owned_or_empty(&msg.content)),
            };
            let ghost model = turn@;
            result.push(turn);
            assert(result.deep_view() =~= before.push(model));
        } else if same_text(role, "assistant") {
            let turn = AnthropicMessage {
                role: String::from_str("assistant"),
                content: AnthropicContent::Blocks(blocks_of(msg)),
            };
            let ghost model = turn@;
            result.push(turn);
            assert(result.deep_view() =~= before.push(model));
        } else if same_text(role, "tool") {
            let block = ContentBlock::ToolResult {
                tool_use_id: owned_or_empty(&msg.tool_call_id),
                content: owned_or_empty(&msg.content),
            };
            let ghost block_model = block@;
            let joins = result.len() > 0 && same_text(
                result[result.len() - 1].role.as_str(),
                "user",
            ) && match &result[result.len() - 1].content {
                AnthropicContent::Blocks(b) => holds_only_results(b),
                AnthropicContent::Text(_) => false,
            };
            if result.len() > 0 {
                assert(before.last() == result@[result@.len() - 1]@);
            }
            if joins {
                let last = result.pop().unwrap();
                assert(result.deep_view() =~= before.drop_last());
                let ghost rest = result.deep_view();
                let mut blocks = match last.content {
                    AnthropicContent::Blocks(b) => b,
                    AnthropicContent::Text(_) => Vec::new(),
                };
                let ghost old_blocks = blocks.deep_view();
                blocks.push(block);
                assert(blocks.deep_view() =~= old_blocks.push(block_model));
                let turn = AnthropicMessage {
                    role: String::from_str("user"),
                    content: AnthropicContent::Blocks(blocks),
                };
                let ghost model = turn@;
                result.push(turn);
                assert(result.deep_view() =~= rest.push(model));
            } else {
                let mut blocks: Vec<ContentBlock> = Vec::new();
                blocks.push(block);
                assert(blocks.deep_view() =~= seq![block_model]);
                let turn = AnthropicMessage {
                    role: String::from_str("user"),
                    content: AnthropicContent::Blocks(blocks),
                };
                let ghost model = turn@;
                result.push(turn);
                assert(result.deep_view() =~= before.push(model));
            }
        }
        n += 1;
    }
    proof {
        consecutive_results_share_a_turn(messages.deep_view(), messages@.len() as int);
    }
    (system, result)
}

/// A tool as this interface is told of it.
#[derive(Debug)]
pub struct AnthropicToolDef {
    pub name: String,
    pub description: String,
    /// The JSON schema of the arguments, as JSON text.
    pub input_schema: String,
}

/// The tools as this interface is told of them, in their order.
pub fn convert_tools(tools: &Vec<ToolDef>) -> (r: Vec<AnthropicToolDef>)
    ensures
        r@.len() == tools@.len(),
        forall|i: int|
            0 <= i < tools@.len() ==> (#[trigger] r@[i]).name@ == tools@[i]@.function.name
                && r@[i].description@ == tools@[i]@.function.description && r@[i].input_schema@
                == tools@[i]@.function.parameters,
{
    let mut r: Vec<AnthropicToolDef> = Vec::new();
    let mut i: usize = 0;
    while i < tools.len()
        invariant
            i <= tools@.len(),
            r@.len() == i,
            forall|k: int|
                0 <= k < i ==> (#[trigger] r@[k]).name@ == tools@[k]@.function.name
                    && r@[k].description@ == tools@[k]@.function.description
                    && r@[k].input_schema@ == tools@[k]@.function.parameters,
        decreases tools@.len() - i,
    {
        let t = &tools[i];
        r.push(
            AnthropicToolDef {
                name: t.function.name.clone(),
                description: t.function.description.clone(),
                input_schema: t.function.parameters.clone(),
            },
        );
        i += 1;
    }
    r
}

/// One block of the model's answer.
#[derive(Debug)]
pub enum ResponseBlock {
    Text { text: String },
    /// A tool call. `input` is the arguments as JSON text.
    ToolUse { id: String, name: String, input: String },
}

/// A `ResponseBlock`, as the contracts speak of it.
pub enum AnswerBlock {
    Text { text: Seq<char> },
    ToolUse { id: Seq<char>, name: Seq<char>, input: Seq<char> },
}

impl View for ResponseBlock {
    type V = AnswerBlock;

    open spec fn view(&self) -> AnswerBlock {
        match self {
            ResponseBlock::Text { text } => AnswerBlock::Text { text: text@ },
            ResponseBlock::ToolUse { id, name, input } => AnswerBlock::ToolUse {
                id: id@,
                name: name@,
                input: input@,
            },
        }
    }
}

impl DeepView for ResponseBlock {
    type V = AnswerBlock;

    open spec fn deep_view(&self) -> AnswerBlock {
        self@
    }
}

/// What the first `n` blocks of an answer come to: the text of the last
/// text block, and the tool calls in their order.
pub open spec fn answer_of(blocks: Seq<AnswerBlock>, n: int) -> ResponseModel
    decreases n,
{
    if n <= 0 {
        ResponseModel { content: None, tool_calls: Seq::empty() }
    } else {
        let before = answer_of(blocks, n - 1);
        match blocks[n - 1] {
            AnswerBlock::Text { text } => ResponseModel { content: Some(text), ..before },
            AnswerBlock::ToolUse { id, name, input } => ResponseModel {
                tool_calls: before.tool_calls.push(
                    CallModel { id, type_: "function"@, name, arguments: input },
                ),
                ..before
            },
        }
    }
}

/// Reads the blocks of the model's answer.
pub fn response_from_blocks(blocks: Vec<ResponseBlock>) -> (r: LlmResponse)
    ensures
        r@ == answer_of(blocks.deep_view(), blocks@.len() as int),
{
    let mut content: Option<String> = None;
    let mut tool_calls: Vec<ToolCall> = Vec::new();
    let mut n: usize = 0;
    assert(tool_calls.deep_view() =~= Seq::<CallModel>::empty());
    while n < blocks.len()
        invariant
            n <= blocks@.len(),
            content.deep_view() == answer_of(blocks.deep_view(), n as int).content,
            tool_calls.deep_view() == answer_of(blocks.deep_view(), n as int).tool_calls,
        decreases blocks@.len() - n,
    {
        assert(blocks.deep_view()[n as int] == blocks@[n as int]@);
        match &blocks[n] {
            ResponseBlock::Text { text } => {
                content = Some(text.clone());
            },
            ResponseBlock::ToolUse { id, name, input } => {
                let ghost before = tool_calls.deep_view();
                let call = ToolCall {
                    id: id.clone(),
                    type_: String::from_str("function"),
                    function: FunctionCall { name: name.clone(), arguments: input.clone() },
                };
                let ghost model = call@;
                tool_calls.push(call);
                assert(tool_calls.deep_view() =~= before.push(model));
            },
        }
        n += 1;
    }
    LlmResponse { content, tool_calls }
}

} // verus!
