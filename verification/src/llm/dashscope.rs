//! The DashScope provider: where it is reached and with what.

use vstd::prelude::*;
use vstd::string::*;
use crate::llm::{LlmProvider, ProviderView};
use crate::text::concat;

verus! {

/// How DashScope is reached.
#[derive(Debug)]
pub struct DashScopeProvider {
    pub api_key: String,
    pub base_url: String,
    /// Seconds after which a request is given up.
    pub timeout_secs: u64,
}

impl View for DashScopeProvider {
    type V = ProviderView;

    open spec fn view(&self) -> ProviderView {
        ProviderView {
            name: "dashscope"@,
            api_key: self.api_key@,
            base_url: self.base_url@,
            timeout_secs: self.timeout_secs,
            model: None,
        }
    }
}

impl DashScopeProvider {
    /// DashScope with `api_key`, at `base_url` or, where none is given, at its
    /// public endpoint.
    pub fn new(api_key: String, base_url: Option<String>, timeout_secs: u64) -> (p: DashScopeProvider)
        ensures
            p@ == (ProviderView {
                name: "dashscope"@,
                api_key: api_key@,
                base_url: match base_url {
                    Some(url) => url@,
                    None => "https://dashscope.aliyuncs.com/api/v1"@,
                },
                timeout_secs,
                model: None,
            }),
    {
        let base_url = match base_url {
            Some(url) => url,
            None => "https://dashscope.aliyuncs.com/api/v1".to_owned(),
        };
        DashScopeProvider { api_key, base_url, timeout_secs }
    }

    /// Where a chat request is posted.
    pub fn chat_url(&self) -> (url: String)
        ensures
            url@ == self@.base_url + "/services/aigc/text-generation/generation"@,
    {
        concat(self.base_url.as_str(), "/services/aigc/text-generation/generation")
    }

    /// The model that DashScope is asked for unless another is named.
    pub fn default_model() -> (model: &'static str)
        ensures
            model@ == "qwen-turbo"@,
    {
        "qwen-turbo"
    }
}

impl LlmProvider for DashScopeProvider {
    fn name(&self) -> (name: &str)
        ensures
            name@ == "dashscope"@,
    {
        "dashscope"
    }

    /// Whether a key is at hand.
    fn is_available(&self) -> (available: bool)
        ensures
            available == (self@.api_key.len() > 0),
    {
        !self.api_key.as_str().is_empty()
    }
}

} // verus!
