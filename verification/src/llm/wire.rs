//! The OpenAI dialect that most providers speak: how a request is shaped
//! for the wire, and how a reply is read from it.

use vstd::prelude::*;
use vstd::string::*;
use crate::llm::{clone_tool_calls, ChatRequest, ChatResponse, ChatResponseView, Message};
use crate::llm::{MessageView, Role, Tool, ToolCall, ToolCallView, ToolView, Usage};
use crate::number::{decimal, u64_text};
use crate::text::{clone_opt_string, concat};

verus! {

/// A message as it travels.
#[derive(Debug)]
pub struct WireMessage {
    /// The name of the role.
    pub role: String,
    pub content: String,
    pub tool_calls: Option<Vec<ToolCall>>,
    pub tool_call_id: Option<String>,
}

/// `WireMessage` as contracts see it.
pub struct WireMessageView {
    pub role: Seq<char>,
    pub content: Seq<char>,
    pub tool_calls: Option<Seq<ToolCallView>>,
    pub tool_call_id: Option<Seq<char>>,
}

impl DeepView for WireMessage {
    type V = WireMessageView;

    open spec fn deep_view(&self) -> WireMessageView {
        WireMessageView {
            role: self.role@,
            content: self.content@,
            tool_calls: self.tool_calls.deep_view(),
            tool_call_id: self.tool_call_id.deep_view(),
        }
    }
}

/// A tool as it travels: a function, marked as one.
#[derive(Debug)]
pub struct WireTool {
    /// Always `function`.
    pub tool_type: String,
    pub function: Tool,
}

impl DeepView for WireTool {
    type V = ToolView;

    /// The function that the tool stands for.
    open spec fn deep_view(&self) -> ToolView {
        self.function@
    }
}

/// A request as it travels.
#[derive(Debug)]
pub struct WireRequest {
    pub model: String,
    pub messages: Vec<WireMessage>,
    /// Left out where there are none.
    pub tools: Option<Vec<WireTool>>,
    /// The sampling temperature, in thousandths; left out where unset.
    pub temperature_milli: Option<u32>,
    /// Left out where unset.
    pub max_tokens: Option<u32>,
}

/// A message as it travels: its role by name, and all else as it is.
pub open spec fn wire_message(m: MessageView) -> WireMessageView {
    WireMessageView {
        role: m.role.spec_as_str(),
        content: m.content,
        tool_calls: m.tool_calls,
        tool_call_id: m.tool_call_id,
    }
}

impl WireRequest {
    /// Shapes `request` for the wire: every message with its role by
    /// name, every tool marked as a function, and all else as it is.
    pub fn from_request(request: ChatRequest) -> (wire: WireRequest)
        ensures
            wire.model@ == request.model@,
            wire.messages.deep_view() == request.messages.deep_view().map_values(
                |m: MessageView| wire_message(m),
            ),
            wire.tools.deep_view() == request.tools.deep_view(),
            wire.tools matches Some(tools) ==> forall|i: int|
                0 <= i < tools@.len() ==> (#[trigger] tools@[i]).tool_type@ == "function"@,
            wire.temperature_milli == request.temperature_milli,
            wire.max_tokens == request.max_tokens,
    {
        let mut messages: Vec<WireMessage> = Vec::new();
        let mut i: usize = 0;
        while i < request.messages.len()
            invariant
                i <= request.messages.len(),
                messages.len() == i,
                forall|k: int|
                    0 <= k < i ==> (#[trigger] messages@[k]).deep_view() == wire_message(
                        request.messages@[k]@,
                    ),
            decreases request.messages.len() - i,
        {
            let m = &request.messages[i];
            let tool_calls = match &m.tool_calls {
                Some(calls) => Some(clone_tool_calls(calls)),
                None => None,
            };
            messages.push(
                WireMessage {
                    role: m.role.as_str().to_owned(),
                    content: m.content.clone(),
                    tool_calls,
                    tool_call_id: clone_opt_string(&m.tool_call_id),
                },
            );
            i += 1;
        }
        assert(messages.deep_view() =~= request.messages.deep_view().map_values(
            |m: MessageView| wire_message(m),
        ));
        let tools = match &request.tools {
            Some(list) => {
                let mut tools: Vec<WireTool> = Vec::new();
                let mut j: usize = 0;
                while j < list.len()
                    invariant
                        j <= list.len(),
                        tools.len() == j,
                        forall|k: int|
                            0 <= k < j ==> (#[trigger] tools@[k]).function@ == list@[k]@
                                && tools@[k].tool_type@ == "function"@,
                    decreases list.len() - j,
                {
                    tools.push(
                        WireTool { tool_type: "function".to_owned(), function: list[j].clone() },
                    );
                    j += 1;
                }
                assert(tools.deep_view() =~= list.deep_view());
                Some(tools)
            },
            None => None,
        };
        WireRequest {
            model: request.model,
            messages,
            tools,
            temperature_milli: request.temperature_milli,
            max_tokens: request.max_tokens,
        }
    }
}

/// The message of a reply, as it comes.
#[derive(Debug)]
pub struct WireReply {
    /// The name of the role.
    pub role: String,
    pub content: Option<String>,
    pub tool_calls: Option<Vec<ToolCall>>,
}

/// The message that a reply stands for: the role that it names, its
/// content, or none, and its tool calls.
pub open spec fn reply_message(
    role: Seq<char>,
    content: Option<Seq<char>>,
    tool_calls: Option<Seq<ToolCallView>>,
) -> MessageView {
    MessageView {
        role: Role::spec_from_wire(role),
        content: match content {
            Some(c) => c,
            None => Seq::empty(),
        },
        tool_calls,
        tool_call_id: None,
    }
}

/// What reports that the provider called `label` answered with nothing.
pub open spec fn empty_reply_text(label: Seq<char>) -> Seq<char> {
    label + " 返回空响应"@
}

/// What reports that the provider called `label` refused a request with
/// the HTTP status `status` and the text `body`.
pub open spec fn api_error_text(label: Seq<char>, status: Seq<char>, body: Seq<char>) -> Seq<char> {
    label + " API 错误: "@ + status + " - "@ + body
}

impl WireReply {
    /// The message that the reply stands for.
    pub fn into_message(self) -> (m: Message)
        ensures
            m@ == reply_message(self.role@, self.content.deep_view(), self.tool_calls.deep_view()),
    {
        Message {
            role: Role::from_wire(self.role.as_str()),
            content: match self.content {
                Some(c) => c,
                None => String::new(),
            },
            tool_calls: self.tool_calls,
            tool_call_id: None,
        }
    }
}

/// The response that a provider called `label` gave: the message of the
/// first of its `choices`, with the usage and the model that it names. A
/// reply without choices is a failure.
pub fn response_of(label: &str, choices: Vec<WireReply>, usage: Option<Usage>, model: String) -> (r:
    Result<ChatResponse, String>)
    ensures
        match r {
            Ok(response) => choices@.len() > 0 && response@ == (ChatResponseView {
                message: reply_message(
                    choices@[0].role@,
                    choices@[0].content.deep_view(),
                    choices@[0].tool_calls.deep_view(),
                ),
                usage,
                model: model@,
            }),
            Err(e) => choices@.len() == 0 && e@ == empty_reply_text(label@),
        },
{
    let mut choices = choices;
    if choices.len() == 0 {
        return Err(concat(label, " 返回空响应"));
    }
    let first = choices.swap_remove(0);
    Ok(ChatResponse { message: first.into_message(), usage, model })
}

/// What reports that the provider called `label` refused a request.
pub fn api_error(label: &str, status: &str, body: &str) -> (text: String)
    ensures
        text@ == api_error_text(label@, status@, body@),
{
    let mut text = concat(label, " API 错误: ");
    text.append(status);
    text.append(" - ");
    text.append(body);
    text
}

/// The value of the authorization header for the key `api_key`.
pub fn bearer(api_key: &str) -> (value: String)
    ensures
        value@ == "Bearer "@ + api_key@,
{
    concat("Bearer ", api_key)
}

/// A temperature in thousandths as the decimal number that travels: the
/// whole part, a point, and three digits.
pub open spec fn temperature_text(milli: u32) -> Seq<char> {
    let frac = (milli % 1000) as nat;
    decimal((milli / 1000) as nat) + "."@ + decimal(frac / 100) + decimal((frac / 10) % 10) + decimal(
        frac % 10,
    )
}

/// A temperature in thousandths as the decimal number that travels.
pub fn temperature_number(milli: u32) -> (text: String)
    ensures
        text@ == temperature_text(milli),
{
    let frac = milli % 1000;
    let mut text = u64_text((milli / 1000) as u64);
    text.append(".");
    text.append(u64_text((frac / 100) as u64).as_str());
    text.append(u64_text(((frac / 10) % 10) as u64).as_str());
    text.append(u64_text((frac % 10) as u64).as_str());
    text
}

} // verus!
