//! The Gemini provider.

use vstd::prelude::*;
use vstd::string::*;
use crate::llm::{LlmProvider, Message, ProviderView, Role};
use crate::text::{trim_end_char, without_trailing};

verus! {

/// How Gemini is reached.
#[derive(Debug)]
pub struct GeminiProvider {
    pub api_key: String,
    pub base_url: String,
    /// Seconds after which a request is given up.
    pub timeout_secs: u64,
}

impl View for GeminiProvider {
    type V = ProviderView;

    open spec fn view(&self) -> ProviderView {
        ProviderView {
            name: "gemini"@,
            api_key: self.api_key@,
            base_url: self.base_url@,
            timeout_secs: self.timeout_secs,
            model: None,
        }
    }
}

impl GeminiProvider {
    /// Gemini with `api_key`, at `base_url` or its public endpoint, giving a
    /// request `timeout_secs` seconds, or 60.
    pub fn new(api_key: String, base_url: Option<String>, timeout_secs: Option<u64>) -> (p: GeminiProvider)
        ensures
            p@ == (ProviderView {
                name: "gemini"@,
                api_key: api_key@,
                base_url: match base_url {
                    Some(url) => url@,
                    None => "https://generativelanguage.googleapis.com/v1beta/models"@,
                },
                timeout_secs: match timeout_secs {
                    Some(secs) => secs,
                    None => 60,
                },
                model: None,
            }),
    {
        let base_url = match base_url {
            Some(url) => url,
            None => "https://generativelanguage.googleapis.com/v1beta/models".to_owned(),
        };
        let timeout_secs = match timeout_secs {
            Some(secs) => secs,
            None => 60,
        };
        GeminiProvider { api_key, base_url, timeout_secs }
    }

    /// Where a chat request to `model` is posted: the model and the action
    /// under the base URL, taken without the slashes it ends in.
    pub fn build_api_url(&self, model: &str) -> (url: String)
        ensures
            url@ == without_trailing(self.base_url@, '/') + "/"@ + model@ + ":generateContent"@,
    {
        let base = trim_end_char(self.base_url.as_str(), '/');
        let mut url = base;
        url.append("/");
        url.append(model);
        url.append(":generateContent");
        url
    }

    /// The role that Gemini is told for a message of `role`.
    pub fn wire_role(role: Role) -> (name: &'static str)
        ensures
            name@ == (match role {
                Role::Assistant => "model"@,
                _ => "user"@,
            }),
    {
        match role {
            Role::Assistant => "model",
            _ => "user",
        }
    }

    /// Whether a message travels to Gemini: system messages do not.
    pub fn sends(message: &Message) -> (b: bool)
        ensures
            b == (message.role != Role::System),
    {
        match message.role {
            Role::System => false,
            _ => true,
        }
    }

    /// Whether a message travels as a function call: it does when it has no
    /// text and asks for tools.
    pub fn sends_function_call(message: &Message) -> (b: bool)
        ensures
            b == (message.content@.len() == 0 && message.tool_calls is Some),
    {
        message.content.as_str().is_empty() && message.tool_calls.is_some()
    }
}

impl LlmProvider for GeminiProvider {
    fn name(&self) -> (name: &str)
        ensures
            name@ == "gemini"@,
    {
        "gemini"
    }

    /// Whether a key is at hand.
    fn is_available(&self) -> (available: bool)
        ensures
            available == (self@.api_key.len() > 0),
    {
        !self.api_key.as_str().is_empty()
    }
}

} // verus!
