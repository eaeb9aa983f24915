//! The message tool: lets the agent write to a chat on its own.

use vstd::prelude::*;
use vstd::string::*;
use crate::json::{member, str_field, text_members};
use crate::llm::ToolView;
use crate::text::{concat, concat3, contains_str};
use crate::tools::{Tool, ToolDef, ToolResult, ToolResultView};

verus! {

/// Where the message tool writes unless it is told otherwise.
#[derive(Debug)]
pub struct MessageToolConfig {
    pub default_channel: String,
    pub default_chat_id: String,
}

impl Default for MessageToolConfig {
    fn default() -> (c: MessageToolConfig)
        ensures
            c.default_channel@.len() == 0,
            c.default_chat_id@.len() == 0,
    {
        MessageToolConfig { default_channel: String::new(), default_chat_id: String::new() }
    }
}

/// What the message tool is to do for a call.
#[derive(Debug)]
pub enum MessagePlan {
    /// Send `content` to the chat `chat_id` on `channel`.
    Send { channel: String, chat_id: String, content: String },
    /// Send nothing: this is the result.
    Refuse(ToolResult),
}

/// `MessagePlan` as contracts see it.
pub enum MessagePlanView {
    Send { channel: Seq<char>, chat_id: Seq<char>, content: Seq<char> },
    Refuse(ToolResultView),
}

impl View for MessagePlan {
    type V = MessagePlanView;

    open spec fn view(&self) -> MessagePlanView {
        match self {
            MessagePlan::Send { channel, chat_id, content } => MessagePlanView::Send {
                channel: channel@,
                chat_id: chat_id@,
                content: content@,
            },
            MessagePlan::Refuse(result) => MessagePlanView::Refuse(result@),
        }
    }
}

/// A failure of the tool with the text `error`.
pub open spec fn failure(error: Seq<char>) -> ToolResultView {
    ToolResultView { success: false, output: Seq::empty(), error: Some(error) }
}

/// Sends a message to a chat on one of the channels.
#[derive(Debug)]
pub struct MessageTool {
    /// The names of the channels that can be written to, in the order in
    /// which they were given.
    pub channels: Vec<String>,
    /// The channel written to where a call names none.
    pub default_channel: String,
    /// The chat written to where a call names none.
    pub default_chat_id: String,
}

impl MessageTool {
    /// The tool over `channels`, with no channel or chat to fall back on.
    pub fn new(channels: Vec<String>) -> (tool: MessageTool)
        ensures
            tool.channels == channels,
            tool.default_channel@.len() == 0,
            tool.default_chat_id@.len() == 0,
    {
        MessageTool { channels, default_channel: String::new(), default_chat_id: String::new() }
    }

    /// Makes `channel` and `chat_id` what a call falls back on.
    pub fn set_context(&mut self, channel: &str, chat_id: &str)
        ensures
            final(self).channels == old(self).channels,
            final(self).default_channel@ == channel@,
            final(self).default_chat_id@ == chat_id@,
    {
        self.default_channel = channel.to_owned();
        self.default_chat_id = chat_id.to_owned();
    }

    /// The tool as the model is told of it.
    pub open spec fn spec_definition() -> ToolView {
        ToolView {
            name: "message"@,
            description: "Send a message to the user. Use this when you want to communicate something to the user on the chat platform."@,
            parameters: "{\"type\":\"object\",\"properties\":{\"content\":{\"type\":\"string\",\"description\":\"The message content to send\"},\"channel\":{\"type\":\"string\",\"description\":\"Optional: target channel (telegram, discord, feishu, whatsapp)\"},\"chat_id\":{\"type\":\"string\",\"description\":\"Optional: target chat/user ID\"}},\"required\":[\"content\"]}"@,
        }
    }

}

impl MessageTool {
    /// What to do for a message with `content` that names `channel` and
    /// `chat_id`, or leaves them to what the tool falls back on: without a
    /// channel or a chat there is no target, and a channel that is not at
    /// hand cannot be written to.
    pub open spec fn spec_route(
        &self,
        content: Seq<char>,
        channel: Option<Seq<char>>,
        chat_id: Option<Seq<char>>,
    ) -> MessagePlanView {
        let channel = match channel {
            Some(c) => c,
            None => self.default_channel@,
        };
        let chat_id = match chat_id {
            Some(c) => c,
            None => self.default_chat_id@,
        };
        if channel.len() == 0 || chat_id.len() == 0 {
            MessagePlanView::Refuse(failure("No target channel/chat specified"@))
        } else if !self.channels.deep_view().contains(channel) {
            MessagePlanView::Refuse(failure("Channel '"@ + channel + "' not found"@))
        } else {
            MessagePlanView::Send { channel, chat_id, content }
        }
    }

    /// What to do for a message with `content` that names `channel` and
    /// `chat_id`, or leaves them to what the tool falls back on.
    pub fn route(&self, content: String, channel: Option<String>, chat_id: Option<String>) -> (plan:
        MessagePlan)
        ensures
            plan@ == self.spec_route(content@, channel.deep_view(), chat_id.deep_view()),
    {
        let channel = match channel {
            Some(c) => c,
            None => self.default_channel.clone(),
        };
        let chat_id = match chat_id {
            Some(c) => c,
            None => self.default_chat_id.clone(),
        };
        if channel.as_str().is_empty() || chat_id.as_str().is_empty() {
            return MessagePlan::Refuse(ToolResult::error("No target channel/chat specified"));
        }
        if !contains_str(&self.channels, channel.as_str()) {
            let text = concat3("Channel '", channel.as_str(), "' not found");
            return MessagePlan::Refuse(ToolResult::error(text.as_str()));
        }
        MessagePlan::Send { channel, chat_id, content }
    }

    /// What to do for a call with the arguments `args`: the content, the
    /// channel and the chat are their text members of these names, and the
    /// message is routed as `route` does. A call without content is refused
    /// as an error.
    pub fn plan(&self, args: &serde_json::Value) -> (r: Result<MessagePlan, String>)
        ensures
            match member(text_members(*args), "content"@) {
                None => r matches Err(e) && e@ == "Missing 'content' parameter"@,
                Some(content) => r matches Ok(plan) && plan@ == self.spec_route(
                    content,
                    member(text_members(*args), "channel"@),
                    member(text_members(*args), "chat_id"@),
                ),
            },
    {
        let content = match str_field(args, "content") {
            Some(c) => c,
            None => {
                return Err("Missing 'content' parameter".to_owned());
            },
        };
        let channel = str_field(args, "channel");
        let chat_id = str_field(args, "chat_id");
        let ghost c = content@;
        let ghost ch = channel.deep_view();
        let ghost id = chat_id.deep_view();
        let plan = self.route(content, channel, chat_id);
        assert(plan@ == self.spec_route(c, ch, id));
        Ok(plan)
    }

    /// The result of sending a message to the chat `chat_id` on `channel`.
    pub fn result_of(channel: &str, chat_id: &str, sent: Result<(), String>) -> (result: ToolResult)
        ensures
            result@ == (match sent {
                Ok(()) => ToolResultView {
                    success: true,
                    output: "Message sent to "@ + channel@ + ":"@ + chat_id@,
                    error: None,
                },
                Err(reason) => failure("Failed to send message: "@ + reason@),
            }),
    {
        match sent {
            Ok(()) => {
                let mut text = concat("Message sent to ", channel);
                text.append(":");
                text.append(chat_id);
                ToolResult::success(text.as_str())
            },
            Err(reason) => {
                let text = concat("Failed to send message: ", reason.as_str());
                ToolResult::error(text.as_str())
            },
        }
    }
}

impl Tool for MessageTool {
    /// How the model is told of the tool.
    fn definition(&self) -> (def: ToolDef)
        ensures
            def@ == Self::spec_definition(),
    {
        ToolDef {
            name: "message".to_owned(),
            description: "Send a message to the user. Use this when you want to communicate something to the user on the chat platform.".to_owned(),
            parameters: "{\"type\":\"object\",\"properties\":{\"content\":{\"type\":\"string\",\"description\":\"The message content to send\"},\"channel\":{\"type\":\"string\",\"description\":\"Optional: target channel (telegram, discord, feishu, whatsapp)\"},\"chat_id\":{\"type\":\"string\",\"description\":\"Optional: target chat/user ID\"}},\"required\":[\"content\"]}".to_owned(),
        }
    }
}

} // verus!
