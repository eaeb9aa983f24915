//! The agent: one conversation's context and the loop that turns a user's
//! message into a final answer, calling tools on the way.
//!
//! The loop is a state machine. `Agent::chat` starts a turn and each step
//! says what to do next: ask the provider, run a tool, or stop. The program
//! around the library does that and hands back what came of it. The state
//! of a turn travels in the value that asks for the next action, so that
//! several turns may run on one agent, each step taking the agent for
//! itself only while it runs.

use vstd::prelude::*;
use vstd::string::*;
use crate::clock::fresh_id;
use crate::config::Config;
use crate::error::{ErrorView, NanobotError};
use crate::json::{json_value, json_well_formed, parse_value};
use crate::llm::{clone_messages, clone_tool_calls, plain_message, tool_message, unavailable_text};
use crate::llm::{ChatRequest, ChatRequestView, ChatResponse, ChatResponseView, LlmManager};
use crate::llm::{has_provider, LlmProvider, Message, MessageView, Role, ToolCall, ToolCallView};
use crate::llm::{ToolView, DEFAULT_TEMPERATURE_MILLI};
use crate::memory::{ConversationMessage, ConversationMessageView, MemoryStore};
use crate::text::clone_opt_string;
use crate::tools::{has_tool, tool_failure, tool_failure_text, unknown_tool, unknown_tool_text};
use crate::tools::{ToolRegistry, ToolResult, ToolResultView};

pub mod laws;

verus! {

/// How often a turn asks the provider before it gives up, unless the agent
/// is told otherwise.
pub const MAX_ITERATIONS: usize = 10;

/// `messages` cut down to the first message and the last `max_context` of
/// the others. Up to `max_context + 1` messages are left as they are.
pub open spec fn trimmed(messages: Seq<MessageView>, max_context: nat) -> Seq<MessageView> {
    if messages.len() > max_context + 1 {
        seq![messages[0]] + messages.subrange(
            messages.len() - max_context,
            messages.len() as int,
        )
    } else {
        messages
    }
}

/// The messages of one conversation, in order, as they are sent to the
/// provider.
#[derive(Debug)]
pub struct AgentContext {
    pub messages: Vec<Message>,
    /// How many tokens the conversation took. Nothing depends on it.
    pub total_tokens: u32,
}

impl View for AgentContext {
    type V = Seq<MessageView>;

    open spec fn view(&self) -> Seq<MessageView> {
        self.messages.deep_view()
    }
}

impl AgentContext {
    /// A context that holds the system prompt and nothing else.
    pub fn new(system_prompt: &str) -> (ctx: AgentContext)
        ensures
            ctx@ == seq![plain_message(Role::System, system_prompt@)],
            ctx.total_tokens == 0,
    {
        let mut messages: Vec<Message> = Vec::new();
        messages.push(Message::system(system_prompt));
        assert(messages.deep_view() =~= seq![plain_message(Role::System, system_prompt@)]);
        AgentContext { messages, total_tokens: 0 }
    }

    /// How many messages the context holds.
    pub fn len(&self) -> (n: usize)
        ensures
            n == self@.len(),
    {
        self.messages.len()
    }

    /// Appends `message`.
    pub fn push(&mut self, message: Message)
        ensures
            final(self)@ == old(self)@.push(message@),
            final(self).total_tokens == old(self).total_tokens,
    {
        let ghost before = self.messages.deep_view();
        let ghost m = message@;
        self.messages.push(message);
        assert(self.messages.deep_view() =~= before.push(m));
    }

    /// Empties the context and opens it again with the system prompt.
    pub fn clear(&mut self, system_prompt: &str)
        ensures
            final(self)@ == seq![plain_message(Role::System, system_prompt@)],
            final(self).total_tokens == old(self).total_tokens,
    {
        self.messages.clear();
        self.messages.push(Message::system(system_prompt));
        assert(self.messages.deep_view() =~= seq![plain_message(Role::System, system_prompt@)]);
    }

    /// Cuts the context down to its first message and the last
    /// `max_context` of the others.
    pub fn trim(&mut self, max_context: usize)
        ensures
            final(self)@ == trimmed(old(self)@, max_context as nat),
            final(self).total_tokens == old(self).total_tokens,
    {
        let ghost before = self.messages.deep_view();
        let ghost mut dropped: int = 0;
        while self.messages.len() > 1 && self.messages.len() - 1 > max_context
            invariant
                0 <= dropped,
                self.messages.len() + dropped == before.len(),
                self.messages.len() >= 1 || dropped == 0,
                dropped > 0 ==> before.len() > max_context + 1,
                dropped > 0 ==> self.messages.len() >= max_context + 1,
                self.messages.len() >= 1 ==> self.messages.deep_view() =~= seq![before[0]]
                    + before.subrange(1 + dropped, before.len() as int),
                self.messages.len() == 0 ==> self.messages.deep_view() =~= before,
                self.total_tokens == old(self).total_tokens,
            decreases self.messages.len(),
        {
            let ghost now = self.messages.deep_view();
            self.messages.remove(1);
            proof {
                dropped = dropped + 1;
                assert(self.messages.deep_view() =~= now.remove(1));
            }
        }
        assert(self.messages.deep_view() =~= trimmed(before, max_context as nat));
    }

    /// A copy of the messages.
    pub fn snapshot(&self) -> (messages: Vec<Message>)
        ensures
            messages.deep_view() == self@,
    {
        clone_messages(&self.messages)
    }
}

/// What a finished turn answers.
#[derive(Debug)]
pub struct AgentResponse {
    pub content: String,
    /// The model that gave the answer.
    pub model: String,
}

/// `AgentResponse` as contracts see it.
pub struct AgentResponseView {
    pub content: Seq<char>,
    pub model: Seq<char>,
}

impl View for AgentResponse {
    type V = AgentResponseView;

    open spec fn view(&self) -> AgentResponseView {
        AgentResponseView { content: self.content@, model: self.model@ }
    }
}

impl Clone for AgentResponse {
    fn clone(&self) -> (r: AgentResponse)
        ensures
            r@ == self@,
    {
        AgentResponse { content: self.content.clone(), model: self.model.clone() }
    }
}

/// A message as it is handed to the conversation store.
#[derive(Debug)]
pub struct StoredMessage {
    pub session_id: String,
    pub role: Role,
    pub content: String,
    /// The id of the tool call that the message belongs to.
    pub tool_call_id: Option<String>,
    /// The tool calls of the message, when a whole context is written out.
    pub tool_calls: Option<Vec<ToolCall>>,
}

/// `StoredMessage` as contracts see it.
pub struct StoredMessageView {
    pub session_id: Seq<char>,
    pub role: Role,
    pub content: Seq<char>,
    pub tool_call_id: Option<Seq<char>>,
    pub tool_calls: Option<Seq<ToolCallView>>,
}

impl DeepView for StoredMessage {
    type V = StoredMessageView;

    open spec fn deep_view(&self) -> StoredMessageView {
        StoredMessageView {
            session_id: self.session_id@,
            role: self.role,
            content: self.content@,
            tool_call_id: self.tool_call_id.deep_view(),
            tool_calls: self.tool_calls.deep_view(),
        }
    }
}

impl View for StoredMessage {
    type V = StoredMessageView;

    open spec fn view(&self) -> StoredMessageView {
        self.deep_view()
    }
}

/// What a turn carries from step to step: the session it writes to and how
/// often it has asked the provider.
#[derive(Debug)]
pub struct Turn {
    pub session_id: String,
    pub iterations: usize,
}

/// `Turn` as contracts see it.
pub struct TurnView {
    pub session_id: Seq<char>,
    pub iterations: nat,
}

impl View for Turn {
    type V = TurnView;

    open spec fn view(&self) -> TurnView {
        TurnView { session_id: self.session_id@, iterations: self.iterations as nat }
    }
}

/// A request that waits for the provider's reply.
#[derive(Debug)]
pub struct ProviderCall {
    /// The name of the provider to ask.
    pub provider: String,
    pub request: ChatRequest,
    pub turn: Turn,
}

/// `ProviderCall` as contracts see it.
pub struct ProviderCallView {
    pub provider: Seq<char>,
    pub request: ChatRequestView,
    pub turn: TurnView,
}

impl View for ProviderCall {
    type V = ProviderCallView;

    open spec fn view(&self) -> ProviderCallView {
        ProviderCallView { provider: self.provider@, request: self.request@, turn: self.turn@ }
    }
}

/// A tool call that waits for the tool's result.
#[derive(Debug)]
pub struct ToolExecution {
    /// The calls of the round, in the order in which the model asked.
    pub calls: Vec<ToolCall>,
    /// Which of `calls` is to be run.
    pub index: usize,
    /// The arguments of that call, read from their JSON text.
    pub arguments: serde_json::Value,
    pub turn: Turn,
}

/// `ToolExecution` as contracts see it.
pub struct ToolExecutionView {
    pub calls: Seq<ToolCallView>,
    pub index: nat,
    pub arguments: serde_json::Value,
    pub turn: TurnView,
}

impl View for ToolExecution {
    type V = ToolExecutionView;

    open spec fn view(&self) -> ToolExecutionView {
        ToolExecutionView {
            calls: self.calls.deep_view(),
            index: self.index as nat,
            arguments: self.arguments,
            turn: self.turn@,
        }
    }
}

impl ToolExecution {
    /// What holds of every tool call that waits: it is one of its round.
    pub open spec fn wf(&self) -> bool {
        self.index < self.calls.len()
    }

    /// The call to run.
    pub fn call(&self) -> (call: &ToolCall)
        requires
            self.wf(),
        ensures
            call@ == self@.calls[self@.index as int],
    {
        &self.calls[self.index]
    }
}

/// What comes next in a turn.
#[derive(Debug)]
pub enum Next {
    /// Send the request to the provider and hand the reply to
    /// `Agent::provider_replied`.
    CallProvider(ProviderCall),
    /// Run the tool and hand the result to `Agent::tool_finished`.
    ExecuteTool(ToolExecution),
    /// The turn is over: this is the answer.
    Done(AgentResponse),
    /// The turn is over: it failed.
    Failed(NanobotError),
}

/// `Next` as contracts see it.
pub enum NextView {
    CallProvider(ProviderCallView),
    ExecuteTool(ToolExecutionView),
    Done(AgentResponseView),
    Failed(ErrorView),
}

impl View for Next {
    type V = NextView;

    open spec fn view(&self) -> NextView {
        match self {
            Next::CallProvider(c) => NextView::CallProvider(c@),
            Next::ExecuteTool(t) => NextView::ExecuteTool(t@),
            Next::Done(r) => NextView::Done(r@),
            Next::Failed(e) => NextView::Failed(e@),
        }
    }
}

/// What a step of a turn asks of the program around the library.
#[derive(Debug)]
pub struct Outcome {
    /// The messages to hand to the conversation store, in order, before
    /// anything else. A failure to store one is of no consequence.
    pub persist: Vec<StoredMessage>,
    pub next: Next,
}

impl Outcome {
    /// What holds of every outcome that a step gives.
    pub open spec fn wf(&self) -> bool {
        self.next matches Next::ExecuteTool(t) ==> t.wf()
    }
}

/// What a turn reads of its agent besides the context.
pub struct Env {
    /// How many messages a context keeps besides the first.
    pub max_context: nat,
    /// The model that requests name.
    pub model: Seq<char>,
    /// The name of the provider that answers.
    pub provider: Seq<char>,
    /// Whether that provider is at hand.
    pub provider_available: bool,
    /// The registered tools.
    pub tools: Seq<ToolView>,
    /// Whether messages are handed to a conversation store.
    pub persisting: bool,
    /// How often a turn may ask the provider.
    pub limit: nat,
}

/// A step of a turn, as contracts see it: the context after it, what it
/// hands to the store, and what comes next.
pub struct Step {
    pub messages: Seq<MessageView>,
    pub persist: Seq<StoredMessageView>,
    pub next: NextView,
}

/// What is handed to the store for one message of a turn.
pub open spec fn stored(
    env: Env,
    session_id: Seq<char>,
    role: Role,
    content: Seq<char>,
    tool_call_id: Option<Seq<char>>,
) -> Seq<StoredMessageView> {
    if env.persisting {
        seq![StoredMessageView { session_id, role, content, tool_call_id, tool_calls: None }]
    } else {
        Seq::empty()
    }
}

/// The request that a turn sends when the context holds `messages`: the
/// tools are named only where there are some.
pub open spec fn request_for(env: Env, messages: Seq<MessageView>) -> ChatRequestView {
    ChatRequestView {
        model: env.model,
        messages,
        tools: if env.tools.len() > 0 {
            Some(env.tools)
        } else {
            None
        },
        temperature_milli: Some(DEFAULT_TEMPERATURE_MILLI),
        max_tokens: None,
    }
}

/// The top of the loop: a turn that has asked the provider `limit` times
/// fails; any other asks once more, with the context as it is.
pub open spec fn loop_top(env: Env, messages: Seq<MessageView>, turn: TurnView) -> NextView {
    if turn.iterations >= env.limit {
        NextView::Failed(ErrorView::IterationLimit)
    } else if !env.provider_available {
        NextView::Failed(ErrorView::Llm(unavailable_text(env.provider)))
    } else {
        NextView::CallProvider(
            ProviderCallView {
                provider: env.provider,
                request: request_for(env, messages),
                turn: TurnView { iterations: turn.iterations + 1, ..turn },
            },
        )
    }
}

/// What the model reads of a tool's result: the result's own text, or the
/// reason why the tool could not be run.
pub open spec fn result_text(result: Result<ToolResultView, Seq<char>>) -> Seq<char> {
    match result {
        Ok(r) => r.text(),
        Err(reason) => tool_failure_text(reason),
    }
}

/// The tool calls of a round from `index` on. A call whose arguments are
/// not JSON ends the turn. A call to a tool that is not registered is
/// answered at once with a tool message that says so. The first call to a
/// registered tool is to be run, with the value that its arguments are read
/// as. After the last call the loop starts over.
pub open spec fn tools_from(
    env: Env,
    messages: Seq<MessageView>,
    turn: TurnView,
    calls: Seq<ToolCallView>,
    index: nat,
) -> Step
    decreases calls.len() - index,
{
    if index >= calls.len() {
        Step { messages, persist: Seq::empty(), next: loop_top(env, messages, turn) }
    } else {
        let call = calls[index as int];
        if !json_well_formed(call.function.arguments) {
            Step { messages, persist: Seq::empty(), next: NextView::Failed(ErrorView::Json) }
        } else if !has_tool(env.tools, call.function.name) {
            let text = tool_failure_text(unknown_tool_text(call.function.name));
            let rest = tools_from(
                env,
                messages.push(tool_message(call.id, text)),
                turn,
                calls,
                index + 1,
            );
            Step {
                messages: rest.messages,
                persist: stored(env, turn.session_id, Role::Tool, text, Some(call.id))
                    + rest.persist,
                next: rest.next,
            }
        } else {
            Step {
                messages,
                persist: Seq::empty(),
                next: NextView::ExecuteTool(
                    ToolExecutionView {
                        calls,
                        index,
                        arguments: json_value(call.function.arguments),
                        turn,
                    },
                ),
            }
        }
    }
}

/// The start of a turn: the user's message joins the context and is handed
/// to the store; then the provider is asked, if it is at hand.
pub open spec fn chat_step(
    env: Env,
    session_id: Seq<char>,
    messages: Seq<MessageView>,
    content: Seq<char>,
) -> Step {
    let messages = messages.push(plain_message(Role::User, content));
    Step {
        messages,
        persist: stored(env, session_id, Role::User, content, None),
        next: if env.provider_available {
            loop_top(env, messages, TurnView { session_id, iterations: 0 })
        } else {
            NextView::Failed(ErrorView::Llm(unavailable_text(env.provider)))
        },
    }
}

/// The step after the provider's reply. A failure of the provider ends the
/// turn. A reply that asks for tools joins the context and its tool round
/// begins. Any other reply is the final answer: it joins the context, which
/// is then trimmed.
pub open spec fn reply_step(
    env: Env,
    messages: Seq<MessageView>,
    turn: TurnView,
    reply: Result<ChatResponseView, Seq<char>>,
) -> Step {
    match reply {
        Err(reason) => Step {
            messages,
            persist: Seq::empty(),
            next: NextView::Failed(ErrorView::Llm(reason)),
        },
        Ok(response) => {
            let message = response.message;
            if message.has_tool_calls() {
                let calls = message.tool_calls->Some_0;
                let rest = tools_from(env, messages.push(message), turn, calls, 0);
                Step {
                    messages: rest.messages,
                    persist: stored(
                        env,
                        turn.session_id,
                        Role::Assistant,
                        message.content,
                        Some(calls[0].id),
                    ) + rest.persist,
                    next: rest.next,
                }
            } else {
                Step {
                    messages: trimmed(messages.push(message), env.max_context),
                    persist: stored(env, turn.session_id, Role::Assistant, message.content, None),
                    next: NextView::Done(
                        AgentResponseView { content: message.content, model: response.model },
                    ),
                }
            }
        },
    }
}

/// The step after a tool's result: a tool message with the result's text
/// and the call's id joins the context and is handed to the store; then the
/// round goes on with the next call.
pub open spec fn tool_step(
    env: Env,
    messages: Seq<MessageView>,
    pending: ToolExecutionView,
    result: Result<ToolResultView, Seq<char>>,
) -> Step {
    let call = pending.calls[pending.index as int];
    let text = result_text(result);
    let rest = tools_from(
        env,
        messages.push(tool_message(call.id, text)),
        pending.turn,
        pending.calls,
        pending.index + 1,
    );
    Step {
        messages: rest.messages,
        persist: stored(env, pending.turn.session_id, Role::Tool, text, Some(call.id))
            + rest.persist,
        next: rest.next,
    }
}

/// The messages that replaying `history` adds to a context: those of its
/// last `max_context` entries that are linked, each with the role that its
/// entry names.
pub open spec fn replayed(history: Seq<ConversationMessageView>, max_context: nat) -> Seq<
    MessageView,
> {
    let recent = if history.len() > max_context {
        history.subrange(history.len() - max_context, history.len() as int)
    } else {
        history
    };
    recent.map_values(|entry: ConversationMessageView| history_message(entry)).filter(
        |m: MessageView| m.linked(),
    )
}

/// The message that a stored entry stands for.
pub open spec fn history_message(entry: ConversationMessageView) -> MessageView {
    MessageView {
        role: Role::spec_from_stored(entry.role),
        content: entry.content,
        tool_calls: entry.tool_calls,
        tool_call_id: entry.tool_call_id,
    }
}

/// What is handed to the store for a context that is written out whole:
/// each message with its tool calls, under `session_id`.
pub open spec fn flushed(session_id: Seq<char>, messages: Seq<MessageView>) -> Seq<
    StoredMessageView,
> {
    messages.map_values(
        |m: MessageView|
            StoredMessageView {
                session_id,
                role: m.role,
                content: m.content,
                tool_call_id: None,
                tool_calls: m.tool_calls,
            },
    )
}

/// An agent: its settings, its tools, its session and its context.
#[derive(Debug)]
pub struct Agent {
    config: Config,
    llm_manager: LlmManager,
    tool_registry: ToolRegistry,
    memory: Option<MemoryStore>,
    session_id: String,
    context: AgentContext,
    max_iterations: usize,
}

impl Agent {
    /// The messages of the context.
    pub closed spec fn context_view(&self) -> Seq<MessageView> {
        self.context@
    }

    /// The session that the agent writes to.
    pub closed spec fn session(&self) -> Seq<char> {
        self.session_id@
    }

    /// The system prompt that opens the context.
    pub closed spec fn system_prompt(&self) -> Seq<char> {
        self.config.agent.system_prompt@
    }

    /// What a turn reads of the agent besides the context.
    pub closed spec fn env(&self) -> Env {
        Env {
            max_context: self.config.agent.max_context as nat,
            model: self.config.agent.default_model@,
            provider: self.llm_manager.default_name(),
            provider_available: has_provider(
                self.llm_manager.providers(),
                self.llm_manager.default_name(),
            ),
            tools: self.tool_registry@,
            persisting: self.memory is Some,
            limit: self.max_iterations as nat,
        }
    }

    /// What holds of every agent: its context opens with the system prompt,
    /// and no two of its tools share a name.
    pub closed spec fn wf(&self) -> bool {
        &&& self.context@.len() >= 1
        &&& self.context@[0] == plain_message(Role::System, self.config.agent.system_prompt@)
        &&& self.tool_registry.wf()
    }

    /// Whether `after` and `outcome` are what `step` says of an agent that
    /// was `before`: the context and what is asked are the step's, and
    /// nothing else of the agent has changed.
    pub open spec fn realizes(before: &Agent, after: &Agent, outcome: &Outcome, step: Step) -> bool {
        &&& after.wf()
        &&& after.env() == before.env()
        &&& after.session() == before.session()
        &&& after.system_prompt() == before.system_prompt()
        &&& after.context_view() == step.messages
        &&& outcome.persist.deep_view() == step.persist
        &&& outcome.next@ == step.next
        &&& outcome.wf()
    }

    /// An agent set up from `config`, with the tools that come with the
    /// library and a context that holds the system prompt. It writes to
    /// the session `session_id`, or to a fresh one. Messages are handed to a
    /// store only if `memory` is given and the configuration names a
    /// workspace. Without a provider to talk to there is no agent.
    pub fn new(config: Config, session_id: Option<String>, memory: Option<MemoryStore>) -> (r:
        Result<Agent, NanobotError>)
        ensures
            match r {
                Ok(agent) => {
                    &&& agent.wf()
                    &&& agent.context_view() == seq![
                        plain_message(Role::System, config.agent.system_prompt@),
                    ]
                    &&& agent.system_prompt() == config.agent.system_prompt@
                    &&& session_id matches Some(id) ==> agent.session() == id@
                    &&& session_id is None ==> agent.session().len() == 36
                    &&& agent.env() == Env {
                        max_context: config.agent.max_context as nat,
                        model: config.agent.default_model@,
                        provider: config.agent.default_provider@,
                        provider_available: has_provider(
                            crate::llm::configured_providers(config.llm.deep_view()),
                            config.agent.default_provider@,
                        ),
                        tools: ToolRegistry::default_tools(config.tools.search_api_key is Some),
                        persisting: memory is Some && config.memory.workspace_path@.len() > 0,
                        limit: MAX_ITERATIONS as nat,
                    }
                },
                Err(e) => crate::llm::configured_providers(config.llm.deep_view()).len() == 0
                    && e@ == ErrorView::Llm("没有可用的 LLM 提供商，请配置 API Key"@),
            },
    {
        let llm_manager = match LlmManager::new(&config) {
            Ok(m) => m,
            Err(e) => {
                return Err(e);
            },
        };
        let tool_registry = ToolRegistry::default_with_config(&config);
        let memory = if config.memory.workspace_path.as_str().is_empty() {
            None
        } else {
            memory
        };
        let session_id = match session_id {
            Some(id) => id,
            None => fresh_id(),
        };
        let context = AgentContext::new(config.agent.system_prompt.as_str());
        Ok(
            Agent {
                config,
                llm_manager,
                tool_registry,
                memory,
                session_id,
                context,
                max_iterations: MAX_ITERATIONS,
            },
        )
    }

    /// The same agent, with turns that may ask the provider `limit` times.
    pub fn with_iteration_limit(self, limit: usize) -> (agent: Agent)
        requires
            self.wf(),
        ensures
            agent.wf(),
            agent.context_view() == self.context_view(),
            agent.session() == self.session(),
            agent.system_prompt() == self.system_prompt(),
            agent.env() == (Env { limit: limit as nat, ..self.env() }),
    {
        let mut agent = self;
        agent.max_iterations = limit;
        agent
    }

    /// The same agent, offering the tools of `registry` in place of those
    /// that it offered.
    pub fn with_tools(self, registry: ToolRegistry) -> (agent: Agent)
        requires
            self.wf(),
            registry.wf(),
        ensures
            agent.wf(),
            agent.context_view() == self.context_view(),
            agent.session() == self.session(),
            agent.system_prompt() == self.system_prompt(),
            agent.env() == (Env { tools: registry@, ..self.env() }),
    {
        let mut agent = self;
        agent.tool_registry = registry;
        agent
    }

    /// The session that the agent writes to.
    pub fn session_id(&self) -> (id: String)
        ensures
            id@ == self.session(),
    {
        self.session_id.clone()
    }

    /// How many messages the context holds.
    pub fn context_length(&self) -> (n: usize)
        ensures
            n == self.context_view().len(),
    {
        self.context.len()
    }

    /// The messages of the context.
    pub fn messages(&self) -> (messages: &Vec<Message>)
        ensures
            messages.deep_view() == self.context_view(),
    {
        &self.context.messages
    }

    /// How many messages the context keeps besides the system prompt, and
    /// how many entries of a stored conversation are asked for.
    pub fn max_context(&self) -> (n: usize)
        ensures
            n == self.env().max_context,
    {
        self.config.agent.max_context
    }

    /// The store that messages are handed to, if there is one.
    pub fn memory(&self) -> (memory: &Option<MemoryStore>)
        ensures
            memory is Some == self.env().persisting,
    {
        &self.memory
    }

    /// The tools that the agent offers.
    pub fn tool_registry(&self) -> (registry: &ToolRegistry)
        ensures
            registry@ == self.env().tools,
    {
        &self.tool_registry
    }

    /// Empties the context and opens it again with the system prompt.
    pub fn clear_context(&mut self)
        requires
            old(self).wf(),
        ensures
            final(self).wf(),
            final(self).env() == old(self).env(),
            final(self).session() == old(self).session(),
            final(self).system_prompt() == old(self).system_prompt(),
            final(self).context_view() == seq![
                plain_message(Role::System, old(self).system_prompt()),
            ],
    {
        self.context.clear(self.config.agent.system_prompt.as_str());
    }

    fn replay(&mut self, history: Vec<ConversationMessage>)
        requires
            old(self).wf(),
        ensures
            final(self).wf(),
            final(self).env() == old(self).env(),
            final(self).session() == old(self).session(),
            final(self).system_prompt() == old(self).system_prompt(),
            final(self).context_view() == old(self).context_view() + replayed(
                history.deep_view(),
                old(self).env().max_context,
            ),
    {
        let max_context = self.config.agent.max_context;
        let start: usize = if history.len() > max_context {
            history.len() - max_context
        } else {
            0
        };
        let ghost before = self.context@;
        let ghost all = history.deep_view();
        let ghost recent = all.subrange(start as int, all.len() as int);
        let ghost mapped = recent.map_values(|entry: ConversationMessageView| history_message(entry));
        let ghost keep = |m: MessageView| m.linked();
        assert(start == 0 ==> recent =~= all);
        assert(mapped.subrange(0, 0) =~= Seq::<MessageView>::empty());
        assert(self.context@ =~= before + mapped.subrange(0, 0).filter(keep));
        let mut i: usize = start;
        while i < history.len()
            invariant
                start <= i <= history.len(),
                all == history.deep_view(),
                mapped.len() == all.len() - start,
                forall|k: int|
                    0 <= k < mapped.len() ==> mapped[k] == history_message(
                        #[trigger] all[start + k],
                    ),
                self.context@ == before + mapped.subrange(0, i - start).filter(keep),
                keep == (|m: MessageView| m.linked()),
                self.wf(),
                self.env() == old(self).env(),
                self.session() == old(self).session(),
                self.system_prompt() == old(self).system_prompt(),
                before.len() >= 1,
            decreases history.len() - i,
        {
            let entry = &history[i];
            let ghost m = history_message(entry@);
            proof {
                assert(all[start + (i - start)] == entry@);
                assert(mapped[i - start] == m);
                let done = mapped.subrange(0, i - start);
                let next = mapped.subrange(0, i - start + 1);
                assert(next =~= done.push(m));
                assert(next.drop_last() =~= done);
                reveal(Seq::filter);
                assert(next.filter(keep) == if keep(m) {
                    done.filter(keep).push(m)
                } else {
                    done.filter(keep)
                });
            }
            let role = Role::from_stored(entry.role.as_str());
            let linked = match role {
                Role::Tool => entry.tool_call_id.is_some(),
                _ => true,
            };
            if linked {
                let tool_calls = match &entry.tool_calls {
                    Some(calls) => Some(clone_tool_calls(calls)),
                    None => None,
                };
                let ghost now = self.context@;
                self.context.push(
                    Message {
                        role,
                        content: entry.content.clone(),
                        tool_calls,
                        tool_call_id: clone_opt_string(&entry.tool_call_id),
                    },
                );
                assert(self.context@ =~= before + mapped.subrange(0, i - start).filter(keep).push(m));
            }
            i += 1;
        }
        assert(mapped.subrange(0, mapped.len() as int) =~= mapped);
    }

    /// Replays a stored conversation into the context, as is done once
    /// after the agent is made: the linked ones of the last `max_context`
    /// entries of `history` follow what the context holds. An agent without
    /// a store replays nothing.
    pub fn restore_history(&mut self, history: Vec<ConversationMessage>)
        requires
            old(self).wf(),
        ensures
            final(self).wf(),
            final(self).env() == old(self).env(),
            final(self).session() == old(self).session(),
            final(self).system_prompt() == old(self).system_prompt(),
            final(self).context_view() == old(self).context_view() + (if old(self).env().persisting {
                replayed(history.deep_view(), old(self).env().max_context)
            } else {
                Seq::empty()
            }),
    {
        if self.memory.is_some() {
            self.replay(history);
        } else {
            assert(self.context_view() =~= self.context_view() + Seq::<MessageView>::empty());
        }
    }

    /// What is handed to the store before the session is left: the whole
    /// context, message by message, under the session's id. An agent
    /// without a store hands over nothing.
    pub fn flush(&self) -> (persist: Vec<StoredMessage>)
        ensures
            persist.deep_view() == if self.env().persisting {
                flushed(self.session(), self.context_view())
            } else {
                Seq::empty()
            },
    {
        let mut persist: Vec<StoredMessage> = Vec::new();
        if self.memory.is_none() {
            assert(persist.deep_view() =~= Seq::<StoredMessageView>::empty());
            return persist;
        }
        let mut i: usize = 0;
        while i < self.context.messages.len()
            invariant
                i <= self.context.messages.len(),
                persist.len() == i,
                forall|k: int|
                    0 <= k < i ==> (#[trigger] persist@[k])@ == flushed(
                        self.session(),
                        self.context_view(),
                    )[k],
            decreases self.context.messages.len() - i,
        {
            let m = &self.context.messages[i];
            let tool_calls = match &m.tool_calls {
                Some(calls) => Some(clone_tool_calls(calls)),
                None => None,
            };
            persist.push(
                StoredMessage {
                    session_id: self.session_id.clone(),
                    role: m.role,
                    content: m.content.clone(),
                    tool_call_id: None,
                    tool_calls,
                },
            );
            i += 1;
        }
        assert(persist.deep_view() =~= flushed(self.session(), self.context_view()));
        persist
    }

    /// Moves the agent to the session `session_id`: the context is emptied,
    /// opened again with the system prompt, and the stored conversation
    /// `history` of the new session is replayed into it. What `flush` gives
    /// is to be stored before the history of the new session is read.
    pub fn set_session_id(&mut self, session_id: &str, history: Vec<ConversationMessage>)
        requires
            old(self).wf(),
        ensures
            final(self).wf(),
            final(self).env() == old(self).env(),
            final(self).system_prompt() == old(self).system_prompt(),
            final(self).session() == session_id@,
            final(self).context_view() == seq![
                plain_message(Role::System, old(self).system_prompt()),
            ] + (if old(self).env().persisting {
                replayed(history.deep_view(), old(self).env().max_context)
            } else {
                Seq::empty()
            }),
    {
        self.clear_context();
        self.restore_history(history);
        self.session_id = session_id.to_owned();
    }

    fn store(
        &self,
        persist: &mut Vec<StoredMessage>,
        session_id: &str,
        role: Role,
        content: &str,
        tool_call_id: Option<String>,
    )
        ensures
            final(persist).deep_view() == old(persist).deep_view() + stored(
                self.env(),
                session_id@,
                role,
                content@,
                tool_call_id.deep_view(),
            ),
    {
        let ghost before = persist.deep_view();
        if self.memory.is_some() {
            let record = StoredMessage {
                session_id: session_id.to_owned(),
                role,
                content: content.to_owned(),
                tool_call_id,
                tool_calls: None,
            };
            let ghost r = record@;
            persist.push(record);
            assert(persist.deep_view() =~= before + seq![r]);
        } else {
            assert(persist.deep_view() =~= before + Seq::<StoredMessageView>::empty());
        }
    }

    fn next_request(&self, turn: Turn) -> (next: Next)
        requires
            self.wf(),
        ensures
            next@ == loop_top(self.env(), self.context_view(), turn@),
            !(next is ExecuteTool),
    {
        if turn.iterations >= self.max_iterations {
            return Next::Failed(NanobotError::IterationLimit);
        }
        let provider = match self.llm_manager.default_provider() {
            Ok(p) => {
                assert(has_provider(self.llm_manager.providers(), self.llm_manager.default_name()))
                    by {
                    let i = choose|i: int|
                        0 <= i < self.llm_manager.providers().len()
                            && self.llm_manager.providers()[i] == p@;
                    assert(self.llm_manager.providers()[i].name == p@.name);
                }
                p.name().to_owned()
            },
            Err(e) => {
                return Next::Failed(e);
            },
        };
        let mut request = ChatRequest::new(
            self.config.agent.default_model.as_str(),
            self.context.snapshot(),
        );
        if !self.tool_registry.is_empty() {
            request = request.with_tools(self.tool_registry.to_llm_tools());
        }
        Next::CallProvider(
            ProviderCall {
                provider,
                request,
                turn: Turn { session_id: turn.session_id, iterations: turn.iterations + 1 },
            },
        )
    }

    fn advance_tools(
        &mut self,
        persist: &mut Vec<StoredMessage>,
        turn: Turn,
        calls: Vec<ToolCall>,
        start: usize,
    ) -> (next: Next)
        requires
            old(self).wf(),
            start <= calls.len(),
        ensures
            final(self).wf(),
            final(self).env() == old(self).env(),
            final(self).session() == old(self).session(),
            final(self).system_prompt() == old(self).system_prompt(),
            next matches Next::ExecuteTool(t) ==> t.wf(),
            ({
                let step = tools_from(
                    old(self).env(),
                    old(self).context_view(),
                    turn@,
                    calls.deep_view(),
                    start as nat,
                );
                &&& final(self).context_view() == step.messages
                &&& final(persist).deep_view() == old(persist).deep_view() + step.persist
                &&& next@ == step.next
            }),
    {
        let ghost env = self.env();
        let ghost whole = tools_from(env, self.context_view(), turn@, calls.deep_view(), start as nat);
        let ghost persist0 = persist.deep_view();
        let mut i: usize = start;
        assert(persist.deep_view() + whole.persist =~= persist0 + whole.persist);
        while i < calls.len()
            invariant
                start <= i <= calls.len(),
                self.wf(),
                self.env() == env,
                env == old(self).env(),
                persist0 == old(persist).deep_view(),
                whole == tools_from(
                    env,
                    old(self).context_view(),
                    turn@,
                    calls.deep_view(),
                    start as nat,
                ),
                self.session() == old(self).session(),
                self.system_prompt() == old(self).system_prompt(),
                ({
                    let rest = tools_from(env, self.context_view(), turn@, calls.deep_view(), i as nat);
                    &&& rest.messages == whole.messages
                    &&& rest.next == whole.next
                    &&& persist.deep_view() + rest.persist == persist0 + whole.persist
                }),
            decreases calls.len() - i,
        {
            let ghost rest = tools_from(env, self.context_view(), turn@, calls.deep_view(), i as nat);
            assert(calls.deep_view()[i as int] == calls@[i as int]@);
            let arguments = match parse_value(calls[i].function.arguments.as_str()) {
                Ok(value) => value,
                Err(e) => {
                    assert(persist.deep_view() + rest.persist =~= persist.deep_view());
                    return Next::Failed(NanobotError::Json(e));
                },
            };
            if self.tool_registry.contains(calls[i].function.name.as_str()) {
                assert(persist.deep_view() + rest.persist =~= persist.deep_view());
                return Next::ExecuteTool(ToolExecution { calls, index: i, arguments, turn });
            }
            let reason = unknown_tool(calls[i].function.name.as_str());
            let text = tool_failure(reason.as_str());
            let ghost before_persist = persist.deep_view();
            self.context.push(Message::tool_result(calls[i].id.as_str(), text.as_str()));
            self.store(
                persist,
                turn.session_id.as_str(),
                Role::Tool,
                text.as_str(),
                Some(calls[i].id.clone()),
            );
            i += 1;
            proof {
                let after = tools_from(env, self.context_view(), turn@, calls.deep_view(), i as nat);
                let one = stored(env, turn@.session_id, Role::Tool, text@, Some(calls@[i - 1]@.id));
                assert(rest.persist == one + after.persist);
                assert(persist.deep_view() + after.persist =~= before_persist + rest.persist);
            }
        }
        let ghost rest = tools_from(env, self.context_view(), turn@, calls.deep_view(), i as nat);
        assert(persist.deep_view() + rest.persist =~= persist.deep_view());
        self.next_request(turn)
    }

    /// Starts a turn with the user's message `content`.
    pub fn chat(&mut self, content: &str) -> (outcome: Outcome)
        requires
            old(self).wf(),
        ensures
            Agent::realizes(
                old(self),
                final(self),
                &outcome,
                chat_step(old(self).env(), old(self).session(), old(self).context_view(), content@),
            ),
    {
        let mut persist: Vec<StoredMessage> = Vec::new();
        assert(persist.deep_view() =~= Seq::<StoredMessageView>::empty());
        self.context.push(Message::user(content));
        self.store(&mut persist, self.session_id.as_str(), Role::User, content, None);
        let next = match self.llm_manager.default_provider() {
            Ok(_) => self.next_request(Turn { session_id: self.session_id.clone(), iterations: 0 }),
            Err(e) => Next::Failed(e),
        };
        proof {
            let step = chat_step(
                old(self).env(),
                old(self).session(),
                old(self).context_view(),
                content@,
            );
            assert(persist.deep_view() =~= step.persist);
        }
        Outcome { persist, next }
    }

    /// Goes on with a turn after the provider has replied to `pending`, or
    /// has failed for the reason in `reply`.
    pub fn provider_replied(
        &mut self,
        pending: ProviderCall,
        reply: Result<ChatResponse, String>,
    ) -> (outcome: Outcome)
        requires
            old(self).wf(),
        ensures
            Agent::realizes(
                old(self),
                final(self),
                &outcome,
                reply_step(
                    old(self).env(),
                    old(self).context_view(),
                    pending@.turn,
                    match reply {
                        Ok(response) => Ok(response@),
                        Err(reason) => Err(reason@),
                    },
                ),
            ),
    {
        let mut persist: Vec<StoredMessage> = Vec::new();
        assert(persist.deep_view() =~= Seq::<StoredMessageView>::empty());
        let turn = pending.turn;
        let response = match reply {
            Ok(response) => response,
            Err(reason) => {
                return Outcome { persist, next: Next::Failed(NanobotError::Llm(reason)) };
            },
        };
        let message = response.message;
        if message.has_tool_calls() {
            let calls = match &message.tool_calls {
                Some(calls) => clone_tool_calls(calls),
                None => Vec::new(),
            };
            let first_id = calls[0].id.clone();
            let ghost before = persist.deep_view();
            self.store(
                &mut persist,
                turn.session_id.as_str(),
                Role::Assistant,
                message.content.as_str(),
                Some(first_id),
            );
            self.context.push(message);
            let ghost mid = persist.deep_view();
            let next = self.advance_tools(&mut persist, turn, calls, 0);
            proof {
                let step = reply_step(
                    old(self).env(),
                    old(self).context_view(),
                    pending@.turn,
                    Ok(response@),
                );
                assert(persist.deep_view() =~= step.persist);
            }
            Outcome { persist, next }
        } else {
            let answer = AgentResponse { content: message.content.clone(), model: response.model };
            self.store(
                &mut persist,
                turn.session_id.as_str(),
                Role::Assistant,
                message.content.as_str(),
                None,
            );
            self.context.push(message);
            self.context.trim(self.config.agent.max_context);
            proof {
                let step = reply_step(
                    old(self).env(),
                    old(self).context_view(),
                    pending@.turn,
                    Ok(response@),
                );
                assert(persist.deep_view() =~= step.persist);
            }
            Outcome { persist, next: Next::Done(answer) }
        }
    }

    /// Goes on with a turn after the tool of `pending` has given `result`,
    /// or could not be run for the reason in it.
    pub fn tool_finished(&mut self, pending: ToolExecution, result: Result<ToolResult, String>) -> (outcome:
        Outcome)
        requires
            old(self).wf(),
            pending.wf(),
        ensures
            Agent::realizes(
                old(self),
                final(self),
                &outcome,
                tool_step(
                    old(self).env(),
                    old(self).context_view(),
                    pending@,
                    match result {
                        Ok(r) => Ok(r@),
                        Err(reason) => Err(reason@),
                    },
                ),
            ),
    {
        let mut persist: Vec<StoredMessage> = Vec::new();
        assert(persist.deep_view() =~= Seq::<StoredMessageView>::empty());
        let text = match &result {
            Ok(r) => r.to_string(),
            Err(reason) => tool_failure(reason.as_str()),
        };
        let index = pending.index;
        let calls = pending.calls;
        let turn = pending.turn;
        assert(calls.deep_view()[index as int] == calls@[index as int]@);
        self.context.push(Message::tool_result(calls[index].id.as_str(), text.as_str()));
        self.store(
            &mut persist,
            turn.session_id.as_str(),
            Role::Tool,
            text.as_str(),
            Some(calls[index].id.clone()),
        );
        let next = self.advance_tools(&mut persist, turn, calls, index + 1);
        proof {
            let step = tool_step(
                old(self).env(),
                old(self).context_view(),
                pending@,
                match result {
                    Ok(r) => Ok(r@),
                    Err(reason) => Err(reason@),
                },
            );
            assert(persist.deep_view() =~= step.persist);
        }
        Outcome { persist, next }
    }

    /// The context of an agent is never empty and opens with the system
    /// prompt, as a system message.
    pub proof fn law_context_opens_with_system_prompt(&self)
        requires
            self.wf(),
        ensures
            self.context_view().len() >= 1,
            self.context_view()[0] == plain_message(Role::System, self.system_prompt()),
            self.context_view()[0].role == Role::System,
    {
    }
}

} // verus!
