//! The vLLM provider: a server of one's own that speaks the OpenAI
//! dialect.

use vstd::prelude::*;
use vstd::string::*;
use crate::llm::{LlmProvider, ProviderView};
use crate::text::{concat, str_eq};

verus! {

/// How a vLLM server is reached.
#[derive(Debug)]
pub struct VllmProvider {
    /// May be empty: a local server asks for none.
    pub api_key: String,
    pub base_url: String,
    /// Seconds after which a request is given up.
    pub timeout_secs: u64,
    /// The model that stands in where a request names none.
    pub default_model: String,
}

impl View for VllmProvider {
    type V = ProviderView;

    open spec fn view(&self) -> ProviderView {
        ProviderView {
            name: "vllm"@,
            api_key: self.api_key@,
            base_url: self.base_url@,
            timeout_secs: self.timeout_secs,
            model: Some(self.default_model@),
        }
    }
}

impl VllmProvider {
    /// A vLLM server at `base_url`, or on this machine where none is given,
    /// serving `default_model`, or the model `default`.
    pub fn new(
        api_key: String,
        base_url: Option<String>,
        timeout_secs: u64,
        default_model: Option<String>,
    ) -> (p: VllmProvider)
        ensures
            p@ == (ProviderView {
                name: "vllm"@,
                api_key: api_key@,
                base_url: match base_url {
                    Some(url) => url@,
                    None => "http://localhost:8000/v1"@,
                },
                timeout_secs,
                model: Some(
                    match default_model {
                        Some(m) => m@,
                        None => "default"@,
                    },
                ),
            }),
    {
        let base_url = match base_url {
            Some(url) => url,
            None => "http://localhost:8000/v1".to_owned(),
        };
        let default_model = match default_model {
            Some(m) => m,
            None => "default".to_owned(),
        };
        VllmProvider { api_key, base_url, timeout_secs, default_model }
    }

    /// The model that stands in where a request names none.
    pub fn default_model(&self) -> (model: &str)
        ensures
            model@ == self.default_model@,
    {
        self.default_model.as_str()
    }

    /// Where a chat request is posted.
    pub fn chat_url(&self) -> (url: String)
        ensures
            url@ == self@.base_url + "/chat/completions"@,
    {
        concat(self.base_url.as_str(), "/chat/completions")
    }

    /// Where the models on offer are listed.
    pub fn models_url(&self) -> (url: String)
        ensures
            url@ == self@.base_url + "/models"@,
    {
        concat(self.base_url.as_str(), "/models")
    }

    /// The model to ask for when a request names `requested`: the default
    /// model where it names none, or `default`.
    pub open spec fn spec_model_for(&self, requested: Seq<char>) -> Seq<char> {
        if requested.len() == 0 || requested == "default"@ {
            self.default_model@
        } else {
            requested
        }
    }

    /// The model to ask for when a request names `requested`.
    pub fn model_for(&self, requested: &str) -> (model: String)
        ensures
            model@ == self.spec_model_for(requested@),
    {
        if requested.is_empty() || str_eq(requested, "default") {
            self.default_model.clone()
        } else {
            requested.to_owned()
        }
    }

    /// Whether the key travels with a request: an empty key does not.
    pub fn sends_key(&self) -> (b: bool)
        ensures
            b == (self.api_key@.len() > 0),
    {
        !self.api_key.as_str().is_empty()
    }
}

impl LlmProvider for VllmProvider {
    fn name(&self) -> (name: &str)
        ensures
            name@ == "vllm"@,
    {
        "vllm"
    }

    /// Whether the server's address is known; a key is not needed.
    fn is_available(&self) -> (available: bool)
        ensures
            available == (self@.base_url.len() > 0),
    {
        !self.base_url.as_str().is_empty()
    }
}

} // verus!
