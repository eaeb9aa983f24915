//! The Anthropic provider.

use vstd::prelude::*;
use vstd::string::*;
use crate::llm::{plain_message, FunctionCall, FunctionCallView, LlmProvider, Message};
use crate::llm::{MessageView, ProviderView, Role, ToolCall, ToolCallView, Usage};
use crate::text::str_eq;
use crate::text::{concat, trim_end_char, without_trailing};

verus! {

/// How Anthropic is reached.
#[derive(Debug)]
pub struct AnthropicProvider {
    pub api_key: String,
    pub base_url: String,
    /// Seconds after which a request is given up.
    pub timeout_secs: u64,
}

impl View for AnthropicProvider {
    type V = ProviderView;

    open spec fn view(&self) -> ProviderView {
        ProviderView {
            name: "anthropic"@,
            api_key: self.api_key@,
            base_url: self.base_url@,
            timeout_secs: self.timeout_secs,
            model: None,
        }
    }
}

impl AnthropicProvider {
    /// Anthropic with `api_key`, at `base_url` or its public endpoint, giving a
    /// request `timeout_secs` seconds, or 60.
    pub fn new(api_key: String, base_url: Option<String>, timeout_secs: Option<u64>) -> (p: AnthropicProvider)
        ensures
            p@ == (ProviderView {
                name: "anthropic"@,
                api_key: api_key@,
                base_url: match base_url {
                    Some(url) => url@,
                    None => "https://api.anthropic.com/v1"@,
                },
                timeout_secs: match timeout_secs {
                    Some(secs) => secs,
                    None => 60,
                },
                model: None,
            }),
    {
        let base_url = match base_url {
            Some(url) => url,
            None => "https://api.anthropic.com/v1".to_owned(),
        };
        let timeout_secs = match timeout_secs {
            Some(secs) => secs,
            None => 60,
        };
        AnthropicProvider { api_key, base_url, timeout_secs }
    }

    /// Where a chat request is posted: `/messages` under the base URL, taken
    /// without the slashes it ends in. The model does not show in it.
    pub fn build_api_url(&self, model: &str) -> (url: String)
        ensures
            url@ == without_trailing(self.base_url@, '/') + "/messages"@,
    {
        let base = trim_end_char(self.base_url.as_str(), '/');
        concat(base.as_str(), "/messages")
    }

    /// The role that Anthropic is told for a message of `role`.
    pub fn wire_role(role: Role) -> (name: &'static str)
        ensures
            name@ == (match role {
                Role::System => "assistant"@,
                Role::User => "user"@,
                Role::Assistant => "assistant"@,
                Role::Tool => "user"@,
            }),
    {
        match role {
            Role::System => "assistant",
            Role::User => "user",
            Role::Assistant => "assistant",
            Role::Tool => "user",
        }
    }

    /// How many tokens a reply may take where the request sets no bound.
    pub fn max_tokens_for(requested: Option<u32>) -> (n: u32)
        ensures
            n == (match requested {
                Some(m) => m,
                None => 4096,
            }),
    {
        match requested {
            Some(m) => m,
            None => 4096,
        }
    }

    /// The usage of an exchange that took `input` tokens in and `output`
    /// tokens out. The total stops at the largest number it can hold.
    pub fn usage(input: u32, output: u32) -> (u: Usage)
        ensures
            u.prompt_tokens == input,
            u.completion_tokens == output,
            u.total_tokens == if input + output <= u32::MAX {
                (input + output) as u32
            } else {
                u32::MAX
            },
    {
        Usage {
            prompt_tokens: input,
            completion_tokens: output,
            total_tokens: input.saturating_add(output),
        }
    }
}

/// The message that the first part of a reply of Anthropic stands for. A
/// part of the kind `tool_use` is a message of the assistant without
/// content that asks for one call, to the function `name` with
/// `arguments`, under the id of the reply. A part of any other kind is a
/// message of the assistant with the text of the part, or none.
pub open spec fn anthropic_message(
    kind: Seq<char>,
    text: Option<Seq<char>>,
    id: Seq<char>,
    name: Seq<char>,
    arguments: Seq<char>,
) -> MessageView {
    if kind == "tool_use"@ {
        MessageView {
            role: Role::Assistant,
            content: Seq::empty(),
            tool_calls: Some(
                seq![
                    ToolCallView {
                        id,
                        call_type: "function"@,
                        function: FunctionCallView { name, arguments },
                    },
                ],
            ),
            tool_call_id: None,
        }
    } else {
        plain_message(
            Role::Assistant,
            match text {
                Some(t) => t,
                None => Seq::empty(),
            },
        )
    }
}

impl AnthropicProvider {
    /// The message that the first part of a reply stands for: `kind` and
    /// `text` are the kind and the text of the part, `id` is the id of the
    /// reply, and `name` and `arguments` are what the text of a part of the
    /// kind `tool_use` names as the function and its input.
    pub fn reply_message(kind: &str, text: Option<&str>, id: &str, name: String, arguments: String) -> (m:
        Message)
        ensures
            m@ == anthropic_message(
                kind@,
                match text {
                    Some(t) => Some(t@),
                    None => None,
                },
                id@,
                name@,
                arguments@,
            ),
    {
        if str_eq(kind, "tool_use") {
            let mut calls: Vec<ToolCall> = Vec::new();
            calls.push(
                ToolCall {
                    id: id.to_owned(),
                    call_type: "function".to_owned(),
                    function: FunctionCall { name, arguments },
                },
            );
            let m = Message::assistant("").with_tool_calls(calls);
            assert(calls.deep_view() =~= seq![calls@[0]@]);
            assert(""@ =~= Seq::<char>::empty()) by {
                reveal_strlit("");
            }
            m
        } else {
            match text {
                Some(t) => Message::assistant(t),
                None => {
                    assert(""@ =~= Seq::<char>::empty()) by {
                        reveal_strlit("");
                    }
                    Message::assistant("")
                },
            }
        }
    }
}

impl LlmProvider for AnthropicProvider {
    fn name(&self) -> (name: &str)
        ensures
            name@ == "anthropic"@,
    {
        "anthropic"
    }

    /// Whether a key is at hand.
    fn is_available(&self) -> (available: bool)
        ensures
            available == (self@.api_key.len() > 0),
    {
        !self.api_key.as_str().is_empty()
    }
}

} // verus!
