//! The MiniMax provider.

use vstd::prelude::*;
use vstd::string::*;
use crate::llm::{ChatResponse, ChatResponseView, LlmProvider, Message, MessageView};
use crate::llm::{ProviderView, Role, ToolCallView, Usage};
use crate::llm::wire::WireReply;
use crate::text::{concat, from_chars, starts_with, to_chars};

verus! {

/// What a MiniMax provider is made from.
#[derive(Debug)]
pub struct MiniMaxConfig {
    pub api_key: String,
    pub base_url: Option<String>,
    pub timeout_secs: Option<u64>,
}

impl Default for MiniMaxConfig {
    fn default() -> (c: MiniMaxConfig)
        ensures
            c.api_key@.len() == 0,
            c.base_url.deep_view() == Some("https://api.minimax.io/v1"@),
            c.timeout_secs == Some(60u64),
    {
        MiniMaxConfig {
            api_key: String::new(),
            base_url: Some("https://api.minimax.io/v1".to_owned()),
            timeout_secs: Some(60),
        }
    }
}

/// How MiniMax is reached.
#[derive(Debug)]
pub struct MiniMaxProvider {
    pub api_key: String,
    pub base_url: String,
    /// Seconds after which a request is given up.
    pub timeout_secs: u64,
    pub model: String,
}

impl View for MiniMaxProvider {
    type V = ProviderView;

    open spec fn view(&self) -> ProviderView {
        ProviderView {
            name: "minimax"@,
            api_key: self.api_key@,
            base_url: self.base_url@,
            timeout_secs: self.timeout_secs,
            model: Some(self.model@),
        }
    }
}

impl MiniMaxProvider {
    /// MiniMax with `api_key`, at `base_url` or its public endpoint, giving a
    /// request `timeout_secs` seconds, or 60, and serving `MiniMax-M2.1`.
    pub fn new(api_key: &str, base_url: Option<String>, timeout_secs: Option<u64>) -> (p:
        MiniMaxProvider)
        ensures
            p@ == (ProviderView {
                name: "minimax"@,
                api_key: api_key@,
                base_url: match base_url {
                    Some(url) => url@,
                    None => "https://api.minimax.io/v1"@,
                },
                timeout_secs: match timeout_secs {
                    Some(secs) => secs,
                    None => 60,
                },
                model: Some("MiniMax-M2.1"@),
            }),
    {
        let base_url = match base_url {
            Some(url) => url,
            None => "https://api.minimax.io/v1".to_owned(),
        };
        let timeout_secs = match timeout_secs {
            Some(secs) => secs,
            None => 60,
        };
        MiniMaxProvider {
            api_key: api_key.to_owned(),
            base_url,
            timeout_secs,
            model: "MiniMax-M2.1".to_owned(),
        }
    }

    /// The same provider, serving `model`.
    pub fn with_model(self, model: &str) -> (p: MiniMaxProvider)
        ensures
            p@ == (ProviderView { model: Some(model@), ..self@ }),
    {
        let mut p = self;
        p.model = model.to_owned();
        p
    }

    /// Where a chat request is posted.
    pub fn chat_url(&self) -> (url: String)
        ensures
            url@ == self@.base_url + "/chat/completions"@,
    {
        concat(self.base_url.as_str(), "/chat/completions")
    }

    /// The value of the authorization header.
    pub fn authorization(&self) -> (value: String)
        ensures
            value@ == "Bearer "@ + self.api_key@,
    {
        concat("Bearer ", self.api_key.as_str())
    }

    /// The model name that MiniMax is sent for `requested`: the name without
    /// a leading `minimax/`.
    pub open spec fn spec_wire_model(requested: Seq<char>) -> Seq<char> {
        if "minimax/"@.is_prefix_of(requested) {
            requested.skip("minimax/"@.len() as int)
        } else {
            requested
        }
    }

    /// The model name that MiniMax is sent for `requested`.
    pub fn wire_model(requested: &str) -> (model: String)
        ensures
            model@ == Self::spec_wire_model(requested@),
    {
        let chars = to_chars(requested);
        let prefix = to_chars("minimax/");
        if starts_with(&chars, 0, &prefix) {
            assert(chars@.subrange(0, prefix@.len() as int) == prefix@);
            assert(chars@.subrange(prefix@.len() as int, chars@.len() as int) == chars@.skip(
                prefix@.len() as int,
            ));
            from_chars(&chars, prefix.len(), chars.len())
        } else {
            requested.to_owned()
        }
    }
}

/// The message that MiniMax answered with, when `first` is the first
/// choice of its reply, if it has one: always a message of the assistant,
/// with the content of that choice, or none, and with its tool calls where
/// it has at least one.
pub open spec fn minimax_message(
    first: Option<(Option<Seq<char>>, Option<Seq<ToolCallView>>)>,
) -> MessageView {
    MessageView {
        role: Role::Assistant,
        content: match first {
            Some((Some(content), _)) => content,
            _ => Seq::empty(),
        },
        tool_calls: match first {
            Some((_, Some(calls))) => if calls.len() > 0 {
                Some(calls)
            } else {
                None
            },
            _ => None,
        },
        tool_call_id: None,
    }
}

/// The first of the choices of a reply, by its content and its calls.
pub open spec fn first_choice(choices: Seq<WireReply>) -> Option<
    (Option<Seq<char>>, Option<Seq<ToolCallView>>),
> {
    if choices.len() > 0 {
        Some((choices[0].content.deep_view(), choices[0].tool_calls.deep_view()))
    } else {
        None
    }
}

impl MiniMaxProvider {
    /// The response that MiniMax gave with the choices `choices`: the
    /// message of the first of them, as a message of the assistant whatever
    /// role the reply names, with the usage and the model of the reply. An
    /// empty list of tool calls is none, and a reply without choices is an
    /// empty answer.
    pub fn response_of(choices: Vec<WireReply>, usage: Option<Usage>, model: String) -> (r:
        ChatResponse)
        ensures
            r@ == (ChatResponseView {
                message: minimax_message(first_choice(choices@)),
                usage,
                model: model@,
            }),
    {
        let mut choices = choices;
        let ghost given = choices@;
        if choices.len() == 0 {
            return ChatResponse {
                message: Message {
                    role: Role::Assistant,
                    content: String::new(),
                    tool_calls: None,
                    tool_call_id: None,
                },
                usage,
                model,
            };
        }
        let first = choices.swap_remove(0);
        assert(first == given[0]);
        let content = match first.content {
            Some(c) => c,
            None => String::new(),
        };
        let tool_calls = match first.tool_calls {
            Some(calls) => if calls.len() > 0 {
                Some(calls)
            } else {
                None
            },
            None => None,
        };
        ChatResponse {
            message: Message { role: Role::Assistant, content, tool_calls, tool_call_id: None },
            usage,
            model,
        }
    }
}

/// What reports that MiniMax refused a request with the text `body`.
pub open spec fn minimax_refusal_text(body: Seq<char>) -> Seq<char> {
    "MiniMax API 错误: "@ + body
}

/// What a chat with MiniMax gives, by its characters.
pub open spec fn chat_view(r: Result<ChatResponse, String>) -> Result<ChatResponseView, Seq<char>> {
    match r {
        Ok(response) => Ok(response@),
        Err(e) => Err(e@),
    }
}

impl MiniMaxProvider {
    /// What a chat gives for the reply of MiniMax to a request. A reply
    /// whose status is not one of success is a failure that reports its
    /// text, which is `refused`. Any other reply gives the response that
    /// its choices, its usage and its model stand for.
    pub fn reply_of(
        refused: Option<String>,
        choices: Vec<WireReply>,
        usage: Option<Usage>,
        model: String,
    ) -> (r: Result<ChatResponse, String>)
        ensures
            chat_view(r) == (match refused {
                Some(body) => Err(minimax_refusal_text(body@)),
                None => Ok(
                    ChatResponseView {
                        message: minimax_message(first_choice(choices@)),
                        usage,
                        model: model@,
                    },
                ),
            }),
    {
        match refused {
            Some(body) => Err(concat("MiniMax API 错误: ", body.as_str())),
            None => Ok(MiniMaxProvider::response_of(choices, usage, model)),
        }
    }
}

impl LlmProvider for MiniMaxProvider {
    fn name(&self) -> (name: &str)
        ensures
            name@ == "minimax"@,
    {
        "minimax"
    }

    /// Whether a key is at hand.
    fn is_available(&self) -> (available: bool)
        ensures
            available == (self@.api_key.len() > 0),
    {
        !self.api_key.as_str().is_empty()
    }
}

} // verus!
