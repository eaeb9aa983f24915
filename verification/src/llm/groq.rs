//! The Groq provider: where it is reached and with what.

use vstd::prelude::*;
use vstd::string::*;
use crate::llm::{LlmProvider, ProviderView};
use crate::text::concat;

verus! {

/// How Groq is reached.
#[derive(Debug)]
pub struct GroqProvider {
    pub api_key: String,
    pub base_url: String,
    /// Seconds after which a request is given up.
    pub timeout_secs: u64,
}

impl View for GroqProvider {
    type V = ProviderView;

    open spec fn view(&self) -> ProviderView {
        ProviderView {
            name: "groq"@,
            api_key: self.api_key@,
            base_url: self.base_url@,
            timeout_secs: self.timeout_secs,
            model: None,
        }
    }
}

impl GroqProvider {
    /// Groq with `api_key`, at `base_url` or, where none is given, at its
    /// public endpoint.
    pub fn new(api_key: String, base_url: Option<String>, timeout_secs: u64) -> (p: GroqProvider)
        ensures
            p@ == (ProviderView {
                name: "groq"@,
                api_key: api_key@,
                base_url: match base_url {
                    Some(url) => url@,
                    None => "https://api.groq.com/openai/v1"@,
                },
                timeout_secs,
                model: None,
            }),
    {
        let base_url = match base_url {
            Some(url) => url,
            None => "https://api.groq.com/openai/v1".to_owned(),
        };
        GroqProvider { api_key, base_url, timeout_secs }
    }

    /// Where a chat request is posted.
    pub fn chat_url(&self) -> (url: String)
        ensures
            url@ == self@.base_url + "/chat/completions"@,
    {
        concat(self.base_url.as_str(), "/chat/completions")
    }

    /// The model that Groq is asked for unless another is named.
    pub fn default_model() -> (model: &'static str)
        ensures
            model@ == "llama-3.1-70b-versatile"@,
    {
        "llama-3.1-70b-versatile"
    }
}

impl LlmProvider for GroqProvider {
    fn name(&self) -> (name: &str)
        ensures
            name@ == "groq"@,
    {
        "groq"
    }

    /// Whether a key is at hand.
    fn is_available(&self) -> (available: bool)
        ensures
            available == (self@.api_key.len() > 0),
    {
        !self.api_key.as_str().is_empty()
    }
}

} // verus!
