//! What goes to and comes from the language model: messages, tool calls
//! and tool definitions.

pub mod anthropic;
pub mod openai_compatible;
pub mod retry;

use vstd::prelude::*;
use vstd::string::StringExecFns;
use crate::config::LlmConfig;
use crate::text::{concat, same_text, trim_end, trimmed_end};

verus! {

/// The interfaces through which a model is reached.
#[derive(Debug, Clone, Copy, PartialEq, Eq, Structural)]
pub enum ProviderKind {
    /// Messages with roles, and tool calls inside the messages.
    OpenAICompatible,
    /// A system text beside the messages, and content blocks for tool
    /// calls and their results.
    AnthropicStyle,
}

/// Where the Anthropic interface is reached unless the settings say
/// otherwise.
pub const ANTHROPIC_BASE_URL: &'static str = "https://api.anthropic.com";

/// The interface of the provider called `provider`.
pub open spec fn kind_of(provider: Seq<char>) -> ProviderKind {
    if provider == "anthropic"@ {
        ProviderKind::AnthropicStyle
    } else {
        ProviderKind::OpenAICompatible
    }
}

/// Where a provider of the OpenAI-compatible interface is usually reached.
pub open spec fn usual_base_url(provider: Seq<char>) -> Seq<char> {
    if provider == "openai"@ {
        "https://api.openai.com/v1"@
    } else if provider == "minimax"@ {
        "https://api.minimaxi.chat/v1"@
    } else if provider == "openrouter"@ {
        "https://openrouter.ai/api/v1"@
    } else if provider == "google"@ {
        "https://generativelanguage.googleapis.com/v1beta/openai"@
    } else if provider == "groq"@ {
        "https://api.groq.com/openai/v1"@
    } else if provider == "together"@ {
        "https://api.together.xyz/v1"@
    } else if provider == "deepseek"@ {
        "https://api.deepseek.com/v1"@
    } else {
        "https://api.openai.com/v1"@
    }
}

pub fn default_base_url(provider: &str) -> (url: &'static str)
    ensures
        url@ == usual_base_url(provider@),
{
    if same_text(provider, "openai") {
        "https://api.openai.com/v1"
    } else if same_text(provider, "minimax") {
        "https://api.minimaxi.chat/v1"
    } else if same_text(provider, "openrouter") {
        "https://openrouter.ai/api/v1"
    } else if same_text(provider, "google") {
        "https://generativelanguage.googleapis.com/v1beta/openai"
    } else if same_text(provider, "groq") {
        "https://api.groq.com/openai/v1"
    } else if same_text(provider, "together") {
        "https://api.together.xyz/v1"
    } else if same_text(provider, "deepseek") {
        "https://api.deepseek.com/v1"
    } else {
        "https://api.openai.com/v1"
    }
}

/// How the model is reached: chosen once, when the assistant starts.
#[derive(Debug)]
pub struct ClientSettings {
    pub kind: ProviderKind,
    /// Where chat requests are sent.
    pub url: String,
    pub api_key: String,
    pub model: String,
    pub max_tokens: u32,
}

/// Where chat requests go for a provider reached at `base`.
pub open spec fn chat_url(kind: ProviderKind, base: Seq<char>) -> Seq<char> {
    match kind {
        ProviderKind::AnthropicStyle => trimmed_end(base, '/') + "/v1/messages"@,
        ProviderKind::OpenAICompatible => trimmed_end(base, '/') + "/chat/completions"@,
    }
}

/// The address that the settings give, or the provider's usual one.
pub open spec fn base_url_of(provider: Seq<char>, base_url: Option<Seq<char>>) -> Seq<char> {
    match base_url {
        Some(url) => url,
        None => match kind_of(provider) {
            ProviderKind::AnthropicStyle => ANTHROPIC_BASE_URL@,
            ProviderKind::OpenAICompatible => usual_base_url(provider),
        },
    }
}

/// Chooses the interface and the address for the provider that the
/// settings name.
pub fn create_client(config: &LlmConfig) -> (c: ClientSettings)
    ensures
        c.kind == kind_of(config.provider@),
        c.url@ == chat_url(c.kind, base_url_of(config.provider@, config.base_url.deep_view())),
        c.api_key@ == config.api_key@,
        c.model@ == config.model@,
        c.max_tokens == config.max_tokens,
{
    let kind = if same_text(config.provider.as_str(), "anthropic") {
        ProviderKind::AnthropicStyle
    } else {
        ProviderKind::OpenAICompatible
    };
    let base = match &config.base_url {
        Some(url) => url.clone(),
        None => match kind {
            ProviderKind::AnthropicStyle => String::from_str(ANTHROPIC_BASE_URL),
            ProviderKind::OpenAICompatible => String::from_str(
                default_base_url(config.provider.as_str()),
            ),
        },
    };
    let trimmed = trim_end(base.as_str(), '/');
    let url = match kind {
        ProviderKind::AnthropicStyle => concat(trimmed.as_str(), "/v1/messages"),
        ProviderKind::OpenAICompatible => concat(trimmed.as_str(), "/chat/completions"),
    };
    ClientSettings {
        kind,
        url,
        api_key: config.api_key.clone(),
        model: config.model.clone(),
        max_tokens: config.max_tokens,
    }
}

/// The tool and the arguments that a tool call names.
#[derive(Debug)]
pub struct FunctionCall {
    pub name: String,
    /// The arguments, as JSON text.
    pub arguments: String,
}

/// A request of the model to run a tool. The `id` is the model's own, and
/// goes back unchanged with the tool's result.
#[derive(Debug)]
pub struct ToolCall {
    pub id: String,
    pub type_: String,
    pub function: FunctionCall,
}

/// A `ToolCall`, as the contracts speak of it.
pub struct CallModel {
    pub id: Seq<char>,
    pub type_: Seq<char>,
    pub name: Seq<char>,
    pub arguments: Seq<char>,
}

impl View for ToolCall {
    type V = CallModel;

    open spec fn view(&self) -> CallModel {
        CallModel {
            id: self.id@,
            type_: self.type_@,
            name: self.function.name@,
            arguments: self.function.arguments@,
        }
    }
}

impl DeepView for ToolCall {
    type V = CallModel;

    open spec fn deep_view(&self) -> CallModel {
        self@
    }
}

impl Clone for ToolCall {
    fn clone(&self) -> (r: Self)
        ensures
            r@ == self@,
    {
        ToolCall {
            id: self.id.clone(),
            type_: self.type_.clone(),
            function: FunctionCall {
                name: self.function.name.clone(),
                arguments: self.function.arguments.clone(),
            },
        }
    }
}

/// A copy of `calls`.
pub fn clone_calls(calls: &Vec<ToolCall>) -> (r: Vec<ToolCall>)
    ensures
        r.deep_view() == calls.deep_view(),
{
    let mut r: Vec<ToolCall> = Vec::new();
    let mut i: usize = 0;
    while i < calls.len()
        invariant
            i <= calls@.len(),
            r@.len() == i,
            forall|k: int| 0 <= k < i ==> r@[k]@ == calls@[k]@,
        decreases calls@.len() - i,
    {
        r.push(calls[i].clone());
        i += 1;
    }
    assert(r.deep_view() =~= calls.deep_view());
    r
}

/// One message of a conversation: from the system, the user, the
/// assistant, or a tool.
#[derive(Debug)]
pub struct Message {
    pub role: String,
    pub content: Option<String>,
    pub tool_calls: Option<Vec<ToolCall>>,
    pub tool_call_id: Option<String>,
}

/// A `Message`, as the contracts speak of it.
pub struct MessageModel {
    pub role: Seq<char>,
    pub content: Option<Seq<char>>,
    pub tool_calls: Option<Seq<CallModel>>,
    pub tool_call_id: Option<Seq<char>>,
}

impl View for Message {
    type V = MessageModel;

    open spec fn view(&self) -> MessageModel {
        MessageModel {
            role: self.role@,
            content: self.content.deep_view(),
            tool_calls: self.tool_calls.deep_view(),
            tool_call_id: self.tool_call_id.deep_view(),
        }
    }
}

impl DeepView for Message {
    type V = MessageModel;

    open spec fn deep_view(&self) -> MessageModel {
        self@
    }
}

/// A message of the system with the text `content`.
pub open spec fn system_message(content: Seq<char>) -> MessageModel {
    MessageModel { role: "system"@, content: Some(content), tool_calls: None, tool_call_id: None }
}

/// A message of the user with the text `content`.
pub open spec fn user_message(content: Seq<char>) -> MessageModel {
    MessageModel { role: "user"@, content: Some(content), tool_calls: None, tool_call_id: None }
}

/// A message of the assistant with the text `content`.
pub open spec fn assistant_message(content: Seq<char>) -> MessageModel {
    MessageModel {
        role: "assistant"@,
        content: Some(content),
        tool_calls: None,
        tool_call_id: None,
    }
}

/// A message of the assistant that asks for tools to be run, with or
/// without text.
pub open spec fn tool_call_message(
    content: Option<Seq<char>>,
    tool_calls: Seq<CallModel>,
) -> MessageModel {
    MessageModel { role: "assistant"@, content, tool_calls: Some(tool_calls), tool_call_id: None }
}

/// The result of the tool call `id`.
pub open spec fn tool_result_message(id: Seq<char>, content: Seq<char>) -> MessageModel {
    MessageModel { role: "tool"@, content: Some(content), tool_calls: None, tool_call_id: Some(id) }
}

/// A copy of the text `s`, if there is one.
pub fn clone_text(s: &Option<String>) -> (r: Option<String>)
    ensures
        r.deep_view() == s.deep_view(),
{
    match s {
        Some(t) => Some(t.clone()),
        None => None,
    }
}

impl Clone for Message {
    fn clone(&self) -> (r: Self)
        ensures
            r@ == self@,
    {
        Message {
            role: self.role.clone(),
            content: clone_text(&self.content),
            tool_calls: match &self.tool_calls {
                Some(calls) => Some(clone_calls(calls)),
                None => None,
            },
            tool_call_id: clone_text(&self.tool_call_id),
        }
    }
}

impl Message {
    pub fn system(content: &str) -> (m: Self)
        ensures
            m@ == system_message(content@),
    {
        Message {
            role: String::from_str("system"),
            content: Some(String::from_str(content)),
            tool_calls: None,
            tool_call_id: None,
        }
    }

    pub fn user(content: &str) -> (m: Self)
        ensures
            m@ == user_message(content@),
    {
        Message {
            role: String::from_str("user"),
            content: Some(String::from_str(content)),
            tool_calls: None,
            tool_call_id: None,
        }
    }

    pub fn assistant(content: &str) -> (m: Self)
        ensures
            m@ == assistant_message(content@),
    {
        Message {
            role: String::from_str("assistant"),
            content: Some(String::from_str(content)),
            tool_calls: None,
            tool_call_id: None,
        }
    }

    pub fn assistant_with_tool_calls(content: Option<String>, tool_calls: Vec<ToolCall>) -> (m:
        Self)
        ensures
            m@ == tool_call_message(content.deep_view(), tool_calls.deep_view()),
    {
        Message {
            role: String::from_str("assistant"),
            content,
            tool_calls: Some(tool_calls),
            tool_call_id: None,
        }
    }

    pub fn tool_result(id: &str, content: &str) -> (m: Self)
        ensures
            m@ == tool_result_message(id@, content@),
    {
        Message {
            role: String::from_str("tool"),
            content: Some(String::from_str(content)),
            tool_calls: None,
            tool_call_id: Some(String::from_str(id)),
        }
    }
}

/// A copy of `messages`.
pub fn clone_messages(messages: &Vec<Message>) -> (r: Vec<Message>)
    ensures
        r.deep_view() == messages.deep_view(),
{
    let mut r: Vec<Message> = Vec::new();
    let mut i: usize = 0;
    while i < messages.len()
        invariant
            i <= messages@.len(),
            r@.len() == i,
            forall|k: int| 0 <= k < i ==> r@[k]@ == messages@[k]@,
        decreases messages@.len() - i,
    {
        r.push(messages[i].clone());
        i += 1;
    }
    assert(r.deep_view() =~= messages.deep_view());
    r
}

/// What the model answered: text, tool calls, or both.
#[derive(Debug)]
pub struct LlmResponse {
    pub content: Option<String>,
    pub tool_calls: Vec<ToolCall>,
}

/// An `LlmResponse`, as the contracts speak of it.
pub struct ResponseModel {
    pub content: Option<Seq<char>>,
    pub tool_calls: Seq<CallModel>,
}

impl View for LlmResponse {
    type V = ResponseModel;

    open spec fn view(&self) -> ResponseModel {
        ResponseModel {
            content: self.content.deep_view(),
            tool_calls: self.tool_calls.deep_view(),
        }
    }
}

/// What a tool is called, what it does and which arguments it takes.
#[derive(Debug)]
pub struct FunctionDef {
    pub name: String,
    pub description: String,
    /// The JSON schema of the arguments, as JSON text.
    pub parameters: String,
}

/// A `FunctionDef`, as the contracts speak of it.
pub struct FunctionModel {
    pub name: Seq<char>,
    pub description: Seq<char>,
    pub parameters: Seq<char>,
}

impl View for FunctionDef {
    type V = FunctionModel;

    open spec fn view(&self) -> FunctionModel {
        FunctionModel {
            name: self.name@,
            description: self.description@,
            parameters: self.parameters@,
        }
    }
}

/// A tool as the model is told of it.
#[derive(Debug)]
pub struct ToolDef {
    pub type_: String,
    pub function: FunctionDef,
}

/// A `ToolDef`, as the contracts speak of it.
pub struct ToolDefModel {
    pub type_: Seq<char>,
    pub function: FunctionModel,
}

impl View for ToolDef {
    type V = ToolDefModel;

    open spec fn view(&self) -> ToolDefModel {
        ToolDefModel { type_: self.type_@, function: self.function@ }
    }
}

/// The tool definitions in `v`, as the contracts speak of them.
pub open spec fn defs_model(v: Seq<ToolDef>) -> Seq<ToolDefModel> {
    Seq::new(v.len(), |i: int| v[i]@)
}

/// The function definitions in `v`, as the contracts speak of them.
pub open spec fn functions_model(v: Seq<FunctionDef>) -> Seq<FunctionModel> {
    Seq::new(v.len(), |i: int| v[i]@)
}

} // verus!
