//! Role-tagged chat messages, the requests built from them and the replies
//! that a provider gives.

use vstd::prelude::*;
use vstd::string::*;
use crate::config::{Config, ProviderConfig, ProviderConfigView};
use crate::error::{ErrorView, NanobotError};
use crate::llm::deepseek::DeepSeekProvider;
use crate::llm::minimax::MiniMaxProvider;
use crate::llm::moonshot::MoonshotProvider;
use crate::llm::openrouter::OpenRouterProvider;
use crate::llm::vllm::VllmProvider;
use crate::text::{clone_opt_string, concat, concat3, str_eq};

pub mod anthropic;
pub mod dashscope;
pub mod deepseek;
pub mod gemini;
pub mod groq;
pub mod minimax;
pub mod moonshot;
pub mod openrouter;
pub mod vllm;
pub mod wire;
pub mod zhipu;

verus! {

/// Who speaks in a chat message.
#[derive(Debug, Clone, Copy, PartialEq, Eq, Structural)]
pub enum Role {
    System,
    User,
    Assistant,
    Tool,
}

impl Role {
    /// The name of the role in stored conversations and on the wire.
    pub open spec fn spec_as_str(self) -> Seq<char> {
        match self {
            Role::System => "system"@,
            Role::User => "user"@,
            Role::Assistant => "assistant"@,
            Role::Tool => "tool"@,
        }
    }

    /// The name of the role in stored conversations and on the wire.
    pub fn as_str(self) -> (name: &'static str)
        ensures
            name@ == self.spec_as_str(),
    {
        match self {
            Role::System => "system",
            Role::User => "user",
            Role::Assistant => "assistant",
            Role::Tool => "tool",
        }
    }

    /// Whether `name` is the name of a role, as `as_str` gives it.
    pub open spec fn spec_is_name(name: Seq<char>) -> bool {
        name == "system"@ || name == "user"@ || name == "assistant"@ || name == "tool"@
    }

    /// Whether `name` is the name of a role, as `as_str` gives it.
    pub fn is_name(name: &str) -> (b: bool)
        ensures
            b == Role::spec_is_name(name@),
    {
        str_eq(name, "system") || str_eq(name, "user") || str_eq(name, "assistant") || str_eq(
            name,
            "tool",
        )
    }

    /// The role that a stored conversation names: an unknown name stands
    /// for the system.
    pub open spec fn spec_from_stored(name: Seq<char>) -> Role {
        if name == "user"@ {
            Role::User
        } else if name == "assistant"@ {
            Role::Assistant
        } else if name == "tool"@ {
            Role::Tool
        } else {
            Role::System
        }
    }

    /// The role that a stored conversation names.
    pub fn from_stored(name: &str) -> (role: Role)
        ensures
            role == Role::spec_from_stored(name@),
    {
        if str_eq(name, "user") {
            Role::User
        } else if str_eq(name, "assistant") {
            Role::Assistant
        } else if str_eq(name, "tool") {
            Role::Tool
        } else {
            Role::System
        }
    }

    /// The role that a provider's reply names: an unknown name stands for
    /// the user.
    pub open spec fn spec_from_wire(name: Seq<char>) -> Role {
        if name == "system"@ {
            Role::System
        } else if name == "assistant"@ {
            Role::Assistant
        } else if name == "tool"@ {
            Role::Tool
        } else {
            Role::User
        }
    }

    /// The role that a provider's reply names.
    pub fn from_wire(name: &str) -> (role: Role)
        ensures
            role == Role::spec_from_wire(name@),
    {
        if str_eq(name, "system") {
            Role::System
        } else if str_eq(name, "assistant") {
            Role::Assistant
        } else if str_eq(name, "tool") {
            Role::Tool
        } else {
            Role::User
        }
    }
}

/// Every role is read back from the name it is stored under.
pub proof fn role_name_round_trip(role: Role)
    ensures
        Role::spec_from_stored(role.spec_as_str()) == role,
        Role::spec_from_wire(role.spec_as_str()) == role,
{
    reveal_strlit("system");
    reveal_strlit("user");
    reveal_strlit("assistant");
    reveal_strlit("tool");
    assert("system"@.len() == 6 && "user"@.len() == 4 && "assistant"@.len() == 9 && "tool"@.len()
        == 4);
    assert("user"@[0] == 'u' && "tool"@[0] == 't');
}

/// The function that a tool call names, and its arguments as JSON text.
#[derive(Debug)]
pub struct FunctionCall {
    pub name: String,
    pub arguments: String,
}

/// `FunctionCall` as contracts see it.
pub struct FunctionCallView {
    pub name: Seq<char>,
    pub arguments: Seq<char>,
}

impl DeepView for FunctionCall {
    type V = FunctionCallView;

    open spec fn deep_view(&self) -> FunctionCallView {
        FunctionCallView { name: self.name@, arguments: self.arguments@ }
    }
}

impl View for FunctionCall {
    type V = FunctionCallView;

    open spec fn view(&self) -> FunctionCallView {
        self.deep_view()
    }
}

impl Clone for FunctionCall {
    fn clone(&self) -> (r: FunctionCall)
        ensures
            r@ == self@,
    {
        FunctionCall { name: self.name.clone(), arguments: self.arguments.clone() }
    }
}

/// A request of the model to run a tool. The eventual reply carries `id`.
#[derive(Debug)]
pub struct ToolCall {
    pub id: String,
    pub call_type: String,
    pub function: FunctionCall,
}

/// `ToolCall` as contracts see it.
pub struct ToolCallView {
    pub id: Seq<char>,
    pub call_type: Seq<char>,
    pub function: FunctionCallView,
}

impl DeepView for ToolCall {
    type V = ToolCallView;

    open spec fn deep_view(&self) -> ToolCallView {
        ToolCallView { id: self.id@, call_type: self.call_type@, function: self.function@ }
    }
}

impl View for ToolCall {
    type V = ToolCallView;

    open spec fn view(&self) -> ToolCallView {
        self.deep_view()
    }
}

impl Clone for ToolCall {
    fn clone(&self) -> (r: ToolCall)
        ensures
            r@ == self@,
    {
        ToolCall {
            id: self.id.clone(),
            call_type: self.call_type.clone(),
            function: self.function.clone(),
        }
    }
}

/// A copy of a list of tool calls.
pub fn clone_tool_calls(calls: &Vec<ToolCall>) -> (r: Vec<ToolCall>)
    ensures
        r.deep_view() == calls.deep_view(),
{
    let mut r: Vec<ToolCall> = Vec::new();
    let mut i: usize = 0;
    while i < calls.len()
        invariant
            i <= calls.len(),
            r.len() == i,
            forall|k: int| 0 <= k < i ==> r@[k]@ == calls@[k]@,
        decreases calls.len() - i,
    {
        r.push(calls[i].clone());
        i += 1;
    }
    assert(r.deep_view() =~= calls.deep_view());
    r
}

/// A message of a conversation.
#[derive(Debug)]
pub struct Message {
    pub role: Role,
    pub content: String,
    /// The tool calls that an assistant message asks for.
    pub tool_calls: Option<Vec<ToolCall>>,
    /// In a tool message, the id of the call that it answers.
    pub tool_call_id: Option<String>,
}

/// `Message` as contracts see it.
pub struct MessageView {
    pub role: Role,
    pub content: Seq<char>,
    pub tool_calls: Option<Seq<ToolCallView>>,
    pub tool_call_id: Option<Seq<char>>,
}

impl DeepView for Message {
    type V = MessageView;

    open spec fn deep_view(&self) -> MessageView {
        MessageView {
            role: self.role,
            content: self.content@,
            tool_calls: self.tool_calls.deep_view(),
            tool_call_id: self.tool_call_id.deep_view(),
        }
    }
}

impl View for Message {
    type V = MessageView;

    open spec fn view(&self) -> MessageView {
        self.deep_view()
    }
}

impl Clone for Message {
    fn clone(&self) -> (r: Message)
        ensures
            r@ == self@,
    {
        let tool_calls = match &self.tool_calls {
            Some(calls) => Some(clone_tool_calls(calls)),
            None => None,
        };
        Message {
            role: self.role,
            content: self.content.clone(),
            tool_calls,
            tool_call_id: clone_opt_string(&self.tool_call_id),
        }
    }
}

/// A message of `role` that holds `content` and nothing else.
pub open spec fn plain_message(role: Role, content: Seq<char>) -> MessageView {
    MessageView { role, content, tool_calls: None, tool_call_id: None }
}

/// The tool message that answers the call `id` with `content`.
pub open spec fn tool_message(id: Seq<char>, content: Seq<char>) -> MessageView {
    MessageView { role: Role::Tool, content, tool_calls: None, tool_call_id: Some(id) }
}

impl MessageView {
    /// Whether the message asks for at least one tool call.
    pub open spec fn has_tool_calls(self) -> bool {
        self.tool_calls matches Some(calls) && calls.len() > 0
    }

    /// A tool message is linked when it names the call it answers. Every
    /// other message is.
    pub open spec fn linked(self) -> bool {
        self.role == Role::Tool ==> self.tool_call_id is Some
    }
}

impl Message {
    /// A message of the system.
    pub fn system(content: &str) -> (m: Message)
        ensures
            m@ == plain_message(Role::System, content@),
    {
        Message {
            role: Role::System,
            content: content.to_owned(),
            tool_calls: None,
            tool_call_id: None,
        }
    }

    /// A message of the user.
    pub fn user(content: &str) -> (m: Message)
        ensures
            m@ == plain_message(Role::User, content@),
    {
        Message { role: Role::User, content: content.to_owned(), tool_calls: None, tool_call_id: None }
    }

    /// A message of the assistant.
    pub fn assistant(content: &str) -> (m: Message)
        ensures
            m@ == plain_message(Role::Assistant, content@),
    {
        Message {
            role: Role::Assistant,
            content: content.to_owned(),
            tool_calls: None,
            tool_call_id: None,
        }
    }

    /// The same message, asking for `calls`.
    pub fn with_tool_calls(self, calls: Vec<ToolCall>) -> (m: Message)
        ensures
            m@ == (MessageView { tool_calls: Some(calls.deep_view()), ..self@ }),
    {
        let mut m = self;
        m.tool_calls = Some(calls);
        m
    }

    /// The reply of a tool to the call `id`.
    pub fn tool_result(id: &str, content: &str) -> (m: Message)
        ensures
            m@ == tool_message(id@, content@),
    {
        Message {
            role: Role::Tool,
            content: content.to_owned(),
            tool_calls: None,
            tool_call_id: Some(id.to_owned()),
        }
    }

    /// Whether the message asks for at least one tool call.
    pub fn has_tool_calls(&self) -> (b: bool)
        ensures
            b == self@.has_tool_calls(),
    {
        match &self.tool_calls {
            Some(calls) => calls.len() > 0,
            None => false,
        }
    }
}

/// A copy of a list of messages.
pub fn clone_messages(messages: &Vec<Message>) -> (r: Vec<Message>)
    ensures
        r.deep_view() == messages.deep_view(),
{
    let mut r: Vec<Message> = Vec::new();
    let mut i: usize = 0;
    while i < messages.len()
        invariant
            i <= messages.len(),
            r.len() == i,
            forall|k: int| 0 <= k < i ==> r@[k]@ == messages@[k]@,
        decreases messages.len() - i,
    {
        r.push(messages[i].clone());
        i += 1;
    }
    assert(r.deep_view() =~= messages.deep_view());
    r
}

/// A tool as a provider is told of it.
#[derive(Debug)]
pub struct Tool {
    pub name: String,
    pub description: String,
    /// The JSON schema of the arguments, as text.
    pub parameters: String,
}

/// `Tool` as contracts see it.
pub struct ToolView {
    pub name: Seq<char>,
    pub description: Seq<char>,
    pub parameters: Seq<char>,
}

impl DeepView for Tool {
    type V = ToolView;

    open spec fn deep_view(&self) -> ToolView {
        ToolView { name: self.name@, description: self.description@, parameters: self.parameters@ }
    }
}

impl View for Tool {
    type V = ToolView;

    open spec fn view(&self) -> ToolView {
        self.deep_view()
    }
}

impl Clone for Tool {
    fn clone(&self) -> (r: Tool)
        ensures
            r@ == self@,
    {
        Tool {
            name: self.name.clone(),
            description: self.description.clone(),
            parameters: self.parameters.clone(),
        }
    }
}

/// The temperature that a request asks for unless told otherwise, in
/// thousandths.
pub const DEFAULT_TEMPERATURE_MILLI: u32 = 700;

/// What a provider is asked.
#[derive(Debug)]
pub struct ChatRequest {
    pub model: String,
    pub messages: Vec<Message>,
    /// The tools on offer; left out where there is none.
    pub tools: Option<Vec<Tool>>,
    /// The sampling temperature, in thousandths.
    pub temperature_milli: Option<u32>,
    pub max_tokens: Option<u32>,
}

/// `ChatRequest` as contracts see it.
pub struct ChatRequestView {
    pub model: Seq<char>,
    pub messages: Seq<MessageView>,
    pub tools: Option<Seq<ToolView>>,
    pub temperature_milli: Option<u32>,
    pub max_tokens: Option<u32>,
}

impl DeepView for ChatRequest {
    type V = ChatRequestView;

    open spec fn deep_view(&self) -> ChatRequestView {
        ChatRequestView {
            model: self.model@,
            messages: self.messages.deep_view(),
            tools: self.tools.deep_view(),
            temperature_milli: self.temperature_milli,
            max_tokens: self.max_tokens,
        }
    }
}

impl View for ChatRequest {
    type V = ChatRequestView;

    open spec fn view(&self) -> ChatRequestView {
        self.deep_view()
    }
}

impl ChatRequest {
    /// A request to `model` that holds `messages`, offers no tools and asks
    /// for the default temperature.
    pub fn new(model: &str, messages: Vec<Message>) -> (r: ChatRequest)
        ensures
            r@ == (ChatRequestView {
                model: model@,
                messages: messages.deep_view(),
                tools: None,
                temperature_milli: Some(DEFAULT_TEMPERATURE_MILLI),
                max_tokens: None,
            }),
    {
        ChatRequest {
            model: model.to_owned(),
            messages,
            tools: None,
            temperature_milli: Some(DEFAULT_TEMPERATURE_MILLI),
            max_tokens: None,
        }
    }

    /// The same request, offering `tools`.
    pub fn with_tools(self, tools: Vec<Tool>) -> (r: ChatRequest)
        ensures
            r@ == (ChatRequestView { tools: Some(tools.deep_view()), ..self@ }),
    {
        let mut r = self;
        r.tools = Some(tools);
        r
    }

    /// The same request, asking for the temperature `milli` thousandths.
    pub fn with_temperature(self, milli: u32) -> (r: ChatRequest)
        ensures
            r@ == (ChatRequestView { temperature_milli: Some(milli), ..self@ }),
    {
        let mut r = self;
        r.temperature_milli = Some(milli);
        r
    }
}

/// How many tokens an exchange took.
#[derive(Debug, Clone, Copy, PartialEq, Eq, Structural)]
pub struct Usage {
    pub prompt_tokens: u32,
    pub completion_tokens: u32,
    pub total_tokens: u32,
}

/// What a provider answers.
#[derive(Debug)]
pub struct ChatResponse {
    pub message: Message,
    pub usage: Option<Usage>,
    /// The model that answered.
    pub model: String,
}

/// `ChatResponse` as contracts see it.
pub struct ChatResponseView {
    pub message: MessageView,
    pub usage: Option<Usage>,
    pub model: Seq<char>,
}

impl DeepView for ChatResponse {
    type V = ChatResponseView;

    open spec fn deep_view(&self) -> ChatResponseView {
        ChatResponseView { message: self.message@, usage: self.usage, model: self.model@ }
    }
}

impl View for ChatResponse {
    type V = ChatResponseView;

    open spec fn view(&self) -> ChatResponseView {
        self.deep_view()
    }
}

/// An LLM backend, as far as the library reads it. Sending a request is
/// left to the program around the library.
pub trait LlmProvider {
    /// The name that the provider is selected by.
    fn name(&self) -> &str;

    /// Whether the provider is set up to answer.
    fn is_available(&self) -> bool;
}

/// A provider as contracts see it: its name and how it is reached.
pub struct ProviderView {
    pub name: Seq<char>,
    pub api_key: Seq<char>,
    pub base_url: Seq<char>,
    pub timeout_secs: u64,
    /// The model that the provider stands for, where it has one of its own.
    pub model: Option<Seq<char>>,
}

/// One of the providers that can be selected by name.
#[derive(Debug)]
pub enum Provider {
    OpenRouter(OpenRouterProvider),
    DeepSeek(DeepSeekProvider),
    Moonshot(MoonshotProvider),
    MiniMax(MiniMaxProvider),
    Vllm(VllmProvider),
}

impl View for Provider {
    type V = ProviderView;

    open spec fn view(&self) -> ProviderView {
        match self {
            Provider::OpenRouter(p) => p@,
            Provider::DeepSeek(p) => p@,
            Provider::Moonshot(p) => p@,
            Provider::MiniMax(p) => p@,
            Provider::Vllm(p) => p@,
        }
    }
}

impl DeepView for Provider {
    type V = ProviderView;

    open spec fn deep_view(&self) -> ProviderView {
        self.view()
    }
}

impl LlmProvider for Provider {
    fn name(&self) -> (name: &str)
        ensures
            name@ == self@.name,
    {
        match self {
            Provider::OpenRouter(p) => p.name(),
            Provider::DeepSeek(p) => p.name(),
            Provider::Moonshot(p) => p.name(),
            Provider::MiniMax(p) => p.name(),
            Provider::Vllm(p) => p.name(),
        }
    }

    fn is_available(&self) -> (available: bool)
        ensures
            available == if self is Vllm {
                self@.base_url.len() > 0
            } else {
                self@.api_key.len() > 0
            },
    {
        match self {
            Provider::OpenRouter(p) => p.is_available(),
            Provider::DeepSeek(p) => p.is_available(),
            Provider::Moonshot(p) => p.is_available(),
            Provider::MiniMax(p) => p.is_available(),
            Provider::Vllm(p) => p.is_available(),
        }
    }
}

/// Makes providers from their names and settings.
#[derive(Debug)]
pub struct LlmProviderFactory;

impl LlmProviderFactory {
    /// What `create` gives: the provider named `name`, set up from `config`.
    /// All but vLLM need a key; an unknown name is refused.
    pub open spec fn spec_create(name: Seq<char>, config: ProviderConfigView) -> Result<
        ProviderView,
        ErrorView,
    > {
        let base = |public: Seq<char>|
            match config.base_url {
                Some(url) => url,
                None => public,
            };
        let keyed = |public: Seq<char>, label: Seq<char>, model: Option<Seq<char>>|
            match config.api_key {
                Some(key) => Ok::<ProviderView, ErrorView>(
                    ProviderView {
                        name,
                        api_key: key,
                        base_url: base(public),
                        timeout_secs: config.timeout_secs,
                        model,
                    },
                ),
                None => Err::<ProviderView, ErrorView>(ErrorView::Llm(label + " 需要 API Key"@)),
            };
        if name == "openrouter"@ {
            keyed("https://openrouter.ai/api/v1"@, "OpenRouter"@, None)
        } else if name == "deepseek"@ {
            keyed("https://api.deepseek.com"@, "DeepSeek"@, None)
        } else if name == "moonshot"@ {
            keyed("https://api.moonshot.cn/v1"@, "Moonshot"@, None)
        } else if name == "minimax"@ {
            keyed("https://api.minimax.io/v1"@, "MiniMax"@, Some("MiniMax-M2.1"@))
        } else if name == "vllm"@ {
            Ok(
                ProviderView {
                    name,
                    api_key: match config.api_key {
                        Some(key) => key,
                        None => Seq::empty(),
                    },
                    base_url: base("http://localhost:8000/v1"@),
                    timeout_secs: config.timeout_secs,
                    model: Some(
                        match config.default_model {
                            Some(m) => m,
                            None => "default"@,
                        },
                    ),
                },
            )
        } else {
            Err(ErrorView::Llm("未知的 LLM 提供商: "@ + name))
        }
    }

    /// The provider named `name`, set up from `config`.
    pub fn create(name: &str, config: &ProviderConfig) -> (r: Result<Provider, NanobotError>)
        ensures
            match r {
                Ok(p) => Self::spec_create(name@, config.deep_view()) == Ok::<
                    ProviderView,
                    ErrorView,
                >(p@),
                Err(e) => Self::spec_create(name@, config.deep_view()) == Err::<
                    ProviderView,
                    ErrorView,
                >(e@),
            },
    {
        if str_eq(name, "openrouter") {
            match &config.api_key {
                Some(key) => Ok(
                    Provider::OpenRouter(
                        OpenRouterProvider::new(
                            key.clone(),
                            clone_opt_string(&config.base_url),
                            config.timeout_secs,
                        ),
                    ),
                ),
                None => Err(NanobotError::Llm(concat("OpenRouter", " 需要 API Key"))),
            }
        } else if str_eq(name, "deepseek") {
            match &config.api_key {
                Some(key) => Ok(
                    Provider::DeepSeek(
                        DeepSeekProvider::new(
                            key.clone(),
                            clone_opt_string(&config.base_url),
                            config.timeout_secs,
                        ),
                    ),
                ),
                None => Err(NanobotError::Llm(concat("DeepSeek", " 需要 API Key"))),
            }
        } else if str_eq(name, "moonshot") {
            match &config.api_key {
                Some(key) => Ok(
                    Provider::Moonshot(
                        MoonshotProvider::new(
                            key.clone(),
                            clone_opt_string(&config.base_url),
                            config.timeout_secs,
                        ),
                    ),
                ),
                None => Err(NanobotError::Llm(concat("Moonshot", " 需要 API Key"))),
            }
        } else if str_eq(name, "minimax") {
            match &config.api_key {
                Some(key) => Ok(
                    Provider::MiniMax(
                        MiniMaxProvider::new(
                            key.as_str(),
                            clone_opt_string(&config.base_url),
                            Some(config.timeout_secs),
                        ),
                    ),
                ),
                None => Err(NanobotError::Llm(concat("MiniMax", " 需要 API Key"))),
            }
        } else if str_eq(name, "vllm") {
            let api_key = match &config.api_key {
                Some(key) => key.clone(),
                None => String::new(),
            };
            Ok(
                Provider::Vllm(
                    VllmProvider::new(
                        api_key,
                        clone_opt_string(&config.base_url),
                        config.timeout_secs,
                        clone_opt_string(&config.default_model),
                    ),
                ),
            )
        } else {
            Err(NanobotError::Llm(concat("未知的 LLM 提供商: ", name)))
        }
    }
}

/// The providers that `LlmManager::new` sets up from a configuration, in
/// the order in which it tries them: each of OpenRouter, DeepSeek, MiniMax
/// and Moonshot that has a key, then vLLM if it has a base URL.
pub open spec fn configured_providers(config: crate::config::LlmConfigView) -> Seq<ProviderView> {
    let one = |name: Seq<char>, c: ProviderConfigView, wanted: bool|
        if wanted && LlmProviderFactory::spec_create(name, c) is Ok {
            seq![LlmProviderFactory::spec_create(name, c)->Ok_0]
        } else {
            Seq::<ProviderView>::empty()
        };
    one("openrouter"@, config.openrouter, config.openrouter.api_key is Some) + one(
        "deepseek"@,
        config.deepseek,
        config.deepseek.api_key is Some,
    ) + one("minimax"@, config.minimax, config.minimax.api_key is Some) + one(
        "moonshot"@,
        config.moonshot,
        config.moonshot.api_key is Some,
    ) + one("vllm"@, config.vllm, config.vllm.base_url is Some)
}

/// Whether a provider named `name` is among `providers`.
pub open spec fn has_provider(providers: Seq<ProviderView>, name: Seq<char>) -> bool {
    exists|i: int| 0 <= i < providers.len() && #[trigger] providers[i].name == name
}

/// The text that reports that the provider `name` cannot be had.
pub open spec fn unavailable_text(name: Seq<char>) -> Seq<char> {
    "提供商 '"@ + name + "' 不可用"@
}

/// The providers at hand, and the one that answers by default.
#[derive(Debug)]
pub struct LlmManager {
    providers: Vec<Provider>,
    default_provider: String,
}

impl LlmManager {
    /// The providers at hand, in the order in which they were set up.
    pub closed spec fn providers(&self) -> Seq<ProviderView> {
        self.providers.deep_view()
    }

    /// The name of the provider that answers by default.
    pub closed spec fn default_name(&self) -> Seq<char> {
        self.default_provider@
    }

    fn try_add(providers: &mut Vec<Provider>, name: &str, config: &ProviderConfig, wanted: bool)
        ensures
            final(providers).deep_view() == old(providers).deep_view() + (if wanted
                && LlmProviderFactory::spec_create(name@, config.deep_view()) is Ok {
                seq![LlmProviderFactory::spec_create(name@, config.deep_view())->Ok_0]
            } else {
                Seq::<ProviderView>::empty()
            }),
    {
        let ghost before = providers.deep_view();
        if wanted {
            match LlmProviderFactory::create(name, config) {
                Ok(p) => {
                    let ghost v = p@;
                    providers.push(p);
                    assert(providers.deep_view() =~= before + seq![v]);
                },
                Err(_) => {
                    assert(providers.deep_view() =~= before + Seq::<ProviderView>::empty());
                },
            }
        } else {
            assert(providers.deep_view() =~= before + Seq::<ProviderView>::empty());
        }
    }

    /// Sets up the providers that `config` holds what they need for. With
    /// none of them set up there is nothing to manage.
    pub fn new(config: &Config) -> (r: Result<LlmManager, NanobotError>)
        ensures
            match r {
                Ok(m) => m.providers() == configured_providers(config.llm.deep_view())
                    && m.providers().len() > 0 && m.default_name()
                    == config.agent.default_provider@,
                Err(e) => configured_providers(config.llm.deep_view()).len() == 0 && e@
                    == ErrorView::Llm("没有可用的 LLM 提供商，请配置 API Key"@),
            },
    {
        let mut providers: Vec<Provider> = Vec::new();
        assert(providers.deep_view() =~= Seq::<ProviderView>::empty());
        Self::try_add(
            &mut providers,
            "openrouter",
            &config.llm.openrouter,
            config.llm.openrouter.api_key.is_some(),
        );
        Self::try_add(
            &mut providers,
            "deepseek",
            &config.llm.deepseek,
            config.llm.deepseek.api_key.is_some(),
        );
        Self::try_add(
            &mut providers,
            "minimax",
            &config.llm.minimax,
            config.llm.minimax.api_key.is_some(),
        );
        Self::try_add(
            &mut providers,
            "moonshot",
            &config.llm.moonshot,
            config.llm.moonshot.api_key.is_some(),
        );
        Self::try_add(
            &mut providers,
            "vllm",
            &config.llm.vllm,
            config.llm.vllm.base_url.is_some(),
        );
        assert(providers.deep_view() =~= configured_providers(config.llm.deep_view()));
        if providers.len() == 0 {
            return Err(NanobotError::Llm("没有可用的 LLM 提供商，请配置 API Key".to_owned()));
        }
        Ok(LlmManager { providers, default_provider: config.agent.default_provider.clone() })
    }

    /// The provider named `name`, or the default one where no name is
    /// given.
    pub fn get_provider(&self, name: Option<&str>) -> (r: Result<&Provider, NanobotError>)
        ensures
            ({
                let wanted = match name {
                    Some(n) => n@,
                    None => self.default_name(),
                };
                match r {
                    Ok(p) => p@.name == wanted && self.providers().contains(p@),
                    Err(e) => !has_provider(self.providers(), wanted) && e@ == ErrorView::Llm(
                        unavailable_text(wanted),
                    ),
                }
            }),
    {
        let wanted: &str = match name {
            Some(n) => n,
            None => self.default_provider.as_str(),
        };
        let mut i: usize = 0;
        while i < self.providers.len()
            invariant
                i <= self.providers.len(),
                forall|k: int| 0 <= k < i ==> self.providers@[k]@.name != wanted@,
                wanted@ == (match name {
                    Some(n) => n@,
                    None => self.default_name(),
                }),
            decreases self.providers.len() - i,
        {
            if str_eq(self.providers[i].name(), wanted) {
                assert(self.providers()[i as int] == self.providers@[i as int]@);
                assert(self.providers().contains(self.providers@[i as int]@));
                return Ok(&self.providers[i]);
            }
            i += 1;
        }
        Err(NanobotError::Llm(concat3("提供商 '", wanted, "' 不可用")))
    }

    /// The provider that answers by default.
    pub fn default_provider(&self) -> (r: Result<&Provider, NanobotError>)
        ensures
            match r {
                Ok(p) => p@.name == self.default_name() && self.providers().contains(p@),
                Err(e) => !has_provider(self.providers(), self.default_name()) && e@
                    == ErrorView::Llm(unavailable_text(self.default_name())),
            },
    {
        self.get_provider(None)
    }

    /// The names of the providers at hand.
    pub fn list_providers(&self) -> (names: Vec<&str>)
        ensures
            names.len() == self.providers().len(),
            forall|i: int|
                0 <= i < names.len() ==> (#[trigger] names@[i])@ == self.providers()[i].name,
    {
        let mut names: Vec<&str> = Vec::new();
        let mut i: usize = 0;
        while i < self.providers.len()
            invariant
                i <= self.providers.len(),
                names.len() == i,
                forall|k: int| 0 <= k < i ==> (#[trigger] names@[k])@ == self.providers@[k]@.name,
            decreases self.providers.len() - i,
        {
            names.push(self.providers[i].name());
            i += 1;
        }
        names
    }
}

} // verus!
