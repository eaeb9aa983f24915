//! The Moonshot provider: where it is reached and with what.

use vstd::prelude::*;
use vstd::string::*;
use crate::llm::{LlmProvider, ProviderView};
use crate::text::concat;
use crate::text::{contains_seq, spec_contains_seq, to_chars};
use crate::text::{lowercase, unicode_lowercase};

verus! {

/// How Moonshot is reached.
#[derive(Debug)]
pub struct MoonshotProvider {
    pub api_key: String,
    pub base_url: String,
    /// Seconds after which a request is given up.
    pub timeout_secs: u64,
}

impl View for MoonshotProvider {
    type V = ProviderView;

    open spec fn view(&self) -> ProviderView {
        ProviderView {
            name: "moonshot"@,
            api_key: self.api_key@,
            base_url: self.base_url@,
            timeout_secs: self.timeout_secs,
            model: None,
        }
    }
}

impl MoonshotProvider {
    /// Moonshot with `api_key`, at `base_url` or, where none is given, at its
    /// public endpoint.
    pub fn new(api_key: String, base_url: Option<String>, timeout_secs: u64) -> (p: MoonshotProvider)
        ensures
            p@ == (ProviderView {
                name: "moonshot"@,
                api_key: api_key@,
                base_url: match base_url {
                    Some(url) => url@,
                    None => "https://api.moonshot.cn/v1"@,
                },
                timeout_secs,
                model: None,
            }),
    {
        let base_url = match base_url {
            Some(url) => url,
            None => "https://api.moonshot.cn/v1".to_owned(),
        };
        MoonshotProvider { api_key, base_url, timeout_secs }
    }

    /// Where a chat request is posted.
    pub fn chat_url(&self) -> (url: String)
        ensures
            url@ == self@.base_url + "/chat/completions"@,
    {
        concat(self.base_url.as_str(), "/chat/completions")
    }

    /// The model that Moonshot is asked for unless another is named.
    pub fn default_model() -> (model: &'static str)
        ensures
            model@ == "moonshot-v1-8k"@,
    {
        "moonshot-v1-8k"
    }

    /// The temperature to ask of `model`, in thousandths: models of the
    /// `kimi-k2.5` family take 1000 and nothing else, whatever was wanted.
    pub open spec fn spec_adjust_temperature(model: Seq<char>, wanted: Option<u32>) -> Option<u32> {
        if spec_contains_seq(unicode_lowercase(model), "kimi-k2.5"@) {
            Some(1000u32)
        } else {
            wanted
        }
    }

    /// The temperature to ask of `model`, in thousandths.
    pub fn adjust_temperature(&self, model: &str, wanted: Option<u32>) -> (t: Option<u32>)
        ensures
            t == Self::spec_adjust_temperature(model@, wanted),
    {
        let lower = lowercase(model);
        let hay = to_chars(lower.as_str());
        let needle = to_chars("kimi-k2.5");
        if contains_seq(&hay, &needle) {
            Some(1000)
        } else {
            wanted
        }
    }
}

impl LlmProvider for MoonshotProvider {
    fn name(&self) -> (name: &str)
        ensures
            name@ == "moonshot"@,
    {
        "moonshot"
    }

    /// Whether a key is at hand.
    fn is_available(&self) -> (available: bool)
        ensures
            available == (self@.api_key.len() > 0),
    {
        !self.api_key.as_str().is_empty()
    }
}

} // verus!
