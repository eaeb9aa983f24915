use nanobot::config::{Config, ProviderConfig};
use nanobot::error::NanobotError;
use nanobot::llm::anthropic::AnthropicProvider;
use nanobot::llm::dashscope::DashScopeProvider;
use nanobot::llm::deepseek::DeepSeekProvider;
use nanobot::llm::gemini::GeminiProvider;
use nanobot::llm::groq::GroqProvider;
use nanobot::llm::minimax::{MiniMaxConfig, MiniMaxProvider};
use nanobot::llm::moonshot::MoonshotProvider;
use nanobot::llm::openrouter::OpenRouterProvider;
use nanobot::llm::vllm::VllmProvider;
use nanobot::llm::wire::{api_error, bearer, response_of, temperature_number, WireReply, WireRequest};
use nanobot::llm::zhipu::ZhipuProvider;
use nanobot::llm::{ChatRequest, FunctionCall, LlmManager, LlmProvider, LlmProviderFactory, Message};
use nanobot::llm::{Provider, Role, Tool, ToolCall, Usage};

#[test]
fn test_adjust_temperature() {
    let provider = MoonshotProvider::new("test-key".to_string(), None, 60);

    assert_eq!(provider.adjust_temperature("kimi-k2.5", Some(700)), Some(1000));
    assert_eq!(provider.adjust_temperature("moonshot-kimi-k2.5", Some(700)), Some(1000));

    assert_eq!(provider.adjust_temperature("moonshot-v1-8k", Some(700)), Some(700));
    assert_eq!(provider.adjust_temperature("moonshot-v1-32k", None), None);
    // The name of the model is taken in lower case.
    assert_eq!(provider.adjust_temperature("Kimi-K2.5-Preview", None), Some(1000));
}

#[test]
fn test_vllm_provider_creation() {
    let provider = VllmProvider::new(
        "".to_string(),
        Some("http://localhost:8000/v1".to_string()),
        60,
        Some("llama-2-7b".to_string()),
    );

    assert_eq!(provider.name(), "vllm");
    assert_eq!(provider.default_model(), "llama-2-7b");
    assert!(provider.is_available());
}

#[test]
fn test_vllm_provider_default_model() {
    let provider = VllmProvider::new("test-key".to_string(), None, 60, None);

    assert_eq!(provider.default_model(), "default");
    assert_eq!(provider.name(), "vllm");
}

#[test]
fn vllm_details() {
    let provider = VllmProvider::new(String::new(), None, 60, Some("m".to_string()));
    assert_eq!(provider.base_url, "http://localhost:8000/v1");
    assert_eq!(provider.chat_url(), "http://localhost:8000/v1/chat/completions");
    assert_eq!(provider.models_url(), "http://localhost:8000/v1/models");
    assert_eq!(provider.model_for(""), "m");
    assert_eq!(provider.model_for("default"), "m");
    assert_eq!(provider.model_for("other"), "other");
    assert!(!provider.sends_key());
    let unreachable = VllmProvider::new("k".to_string(), Some(String::new()), 1, None);
    assert!(!unreachable.is_available());
    assert!(unreachable.sends_key());
}

#[test]
fn providers_fall_back_to_their_public_endpoints() {
    let key = || "k".to_string();
    assert_eq!(OpenRouterProvider::new(key(), None, 1).base_url, "https://openrouter.ai/api/v1");
    assert_eq!(DeepSeekProvider::new(key(), None, 1).base_url, "https://api.deepseek.com");
    assert_eq!(MoonshotProvider::new(key(), None, 1).base_url, "https://api.moonshot.cn/v1");
    assert_eq!(GroqProvider::new(key(), None, 1).base_url, "https://api.groq.com/openai/v1");
    assert_eq!(ZhipuProvider::new(key(), None, 1).base_url, "https://open.bigmodel.cn/api/paas/v4");
    assert_eq!(
        DashScopeProvider::new(key(), None, 1).chat_url(),
        "https://dashscope.aliyuncs.com/api/v1/services/aigc/text-generation/generation"
    );
    let own = DeepSeekProvider::new(key(), Some("http://x".to_string()), 9);
    assert_eq!((own.chat_url().as_str(), own.timeout_secs), ("http://x/chat/completions", 9));
    assert_eq!(own.name(), "deepseek");
    assert!(own.is_available());
    assert!(!GroqProvider::new(String::new(), None, 1).is_available());
    assert_eq!(MoonshotProvider::default_model(), "moonshot-v1-8k");
    assert_eq!(GroqProvider::default_model(), "llama-3.1-70b-versatile");
    assert_eq!(ZhipuProvider::default_model(), "glm-4");
    assert_eq!(DashScopeProvider::default_model(), "qwen-turbo");
    assert_eq!(ZhipuProvider::new(key(), None, 1).name(), "zhipu");
    assert_eq!(GroqProvider::new(key(), None, 1).name(), "groq");
    assert_eq!(DashScopeProvider::new(key(), None, 1).name(), "dashscope");
    assert_eq!(OpenRouterProvider::new(key(), None, 1).name(), "openrouter");
}

#[test]
fn anthropic_and_gemini() {
    let a = AnthropicProvider::new("k".to_string(), None, None);
    assert_eq!((a.base_url.as_str(), a.timeout_secs), ("https://api.anthropic.com/v1", 60));
    assert_eq!(a.build_api_url("any-model"), "https://api.anthropic.com/v1/messages");
    let slashed = AnthropicProvider::new("k".to_string(), Some("http://x//".to_string()), Some(5));
    assert_eq!(slashed.build_api_url("m"), "http://x/messages");
    assert_eq!(slashed.timeout_secs, 5);
    assert_eq!(a.name(), "anthropic");
    assert_eq!(AnthropicProvider::wire_role(Role::System), "assistant");
    assert_eq!(AnthropicProvider::wire_role(Role::Tool), "user");
    assert_eq!(AnthropicProvider::max_tokens_for(None), 4096);
    assert_eq!(AnthropicProvider::max_tokens_for(Some(7)), 7);
    assert_eq!(
        AnthropicProvider::usage(3, 4),
        Usage { prompt_tokens: 3, completion_tokens: 4, total_tokens: 7 }
    );
    assert_eq!(AnthropicProvider::usage(u32::MAX, 4).total_tokens, u32::MAX);

    let g = GeminiProvider::new("k".to_string(), None, None);
    assert_eq!(
        g.build_api_url("gemini-pro"),
        "https://generativelanguage.googleapis.com/v1beta/models/gemini-pro:generateContent"
    );
    assert_eq!(g.name(), "gemini");
    assert!(g.is_available());
    assert_eq!(GeminiProvider::wire_role(Role::Assistant), "model");
    assert_eq!(GeminiProvider::wire_role(Role::System), "user");
    assert!(!GeminiProvider::sends(&Message::system("s")));
    assert!(GeminiProvider::sends(&Message::user("u")));
    let asking = Message::assistant("").with_tool_calls(Vec::new());
    assert!(GeminiProvider::sends_function_call(&asking));
    assert!(!GeminiProvider::sends_function_call(&Message::assistant("")));
}

#[test]
fn minimax_details() {
    let defaults = MiniMaxConfig::default();
    assert_eq!(defaults.base_url.as_deref(), Some("https://api.minimax.io/v1"));
    assert_eq!(defaults.timeout_secs, Some(60));
    let p = MiniMaxProvider::new("k", None, None);
    assert_eq!((p.base_url.as_str(), p.timeout_secs), ("https://api.minimax.io/v1", 60));
    assert_eq!(p.model, "MiniMax-M2.1");
    assert_eq!(p.authorization(), "Bearer k");
    assert_eq!(p.chat_url(), "https://api.minimax.io/v1/chat/completions");
    assert_eq!(p.with_model("m2").model, "m2");
    assert_eq!(MiniMaxProvider::wire_model("minimax/abab"), "abab");
    assert_eq!(MiniMaxProvider::wire_model("abab"), "abab");
    assert_eq!(MiniMaxProvider::wire_model("minimax/"), "");
    assert_eq!(MiniMaxProvider::wire_model("x/minimax/y"), "x/minimax/y");
}

#[test]
fn factory_makes_the_named_provider() {
    let keyed = ProviderConfig {
        api_key: Some("k".to_string()),
        base_url: None,
        default_model: Some("m".to_string()),
        timeout_secs: 7,
    };
    let bare = ProviderConfig::default();
    for (name, label) in [
        ("openrouter", "OpenRouter"),
        ("deepseek", "DeepSeek"),
        ("moonshot", "Moonshot"),
        ("minimax", "MiniMax"),
    ] {
        let provider = LlmProviderFactory::create(name, &keyed).unwrap();
        assert_eq!(provider.name(), name);
        assert!(provider.is_available());
        match LlmProviderFactory::create(name, &bare) {
            Err(NanobotError::Llm(text)) => assert_eq!(text, format!("{} 需要 API Key", label)),
            other => panic!("unexpected {:?}", other),
        }
    }
    match LlmProviderFactory::create("vllm", &bare).unwrap() {
        Provider::Vllm(p) => {
            assert_eq!(p.api_key, "");
            assert_eq!(p.default_model, "default");
            assert_eq!(p.timeout_secs, 0);
        },
        other => panic!("unexpected {:?}", other),
    }
    match LlmProviderFactory::create("minimax", &keyed).unwrap() {
        Provider::MiniMax(p) => assert_eq!(p.timeout_secs, 7),
        other => panic!("unexpected {:?}", other),
    }
    match LlmProviderFactory::create("openai", &keyed) {
        Err(NanobotError::Llm(text)) => assert_eq!(text, "未知的 LLM 提供商: openai"),
        other => panic!("unexpected {:?}", other),
    }
}

#[test]
fn manager_holds_what_is_configured() {
    let mut config = Config::default();
    assert!(matches!(
        LlmManager::new(&config),
        Err(NanobotError::Llm(text)) if text == "没有可用的 LLM 提供商，请配置 API Key"
    ));
    config.llm.vllm.base_url = Some("http://v".to_string());
    config.llm.moonshot.api_key = Some("m".to_string());
    config.llm.openrouter.api_key = Some("o".to_string());
    config.llm.openai.api_key = Some("ignored".to_string());
    let manager = LlmManager::new(&config).unwrap();
    assert_eq!(manager.list_providers(), vec!["openrouter", "moonshot", "vllm"]);
    assert_eq!(manager.default_provider().unwrap().name(), "openrouter");
    assert_eq!(manager.get_provider(Some("vllm")).unwrap().name(), "vllm");
    assert!(matches!(
        manager.get_provider(Some("deepseek")),
        Err(NanobotError::Llm(text)) if text == "提供商 'deepseek' 不可用"
    ));
}

#[test]
fn requests_are_shaped_for_the_wire() {
    let call = ToolCall {
        id: "c1".to_string(),
        call_type: "function".to_string(),
        function: FunctionCall { name: "shell".to_string(), arguments: "{}".to_string() },
    };
    let messages = vec![
        Message::system("s"),
        Message::user("u"),
        Message::assistant("").with_tool_calls(vec![call]),
        Message::tool_result("c1", "out"),
    ];
    let request = ChatRequest::new("m", messages);
    assert_eq!(request.temperature_milli, Some(700));
    assert!(request.tools.is_none());
    let bare = WireRequest::from_request(request);
    assert!(bare.tools.is_none());
    let roles: Vec<&str> = bare.messages.iter().map(|m| m.role.as_str()).collect();
    assert_eq!(roles, vec!["system", "user", "assistant", "tool"]);
    assert_eq!(bare.messages[2].tool_calls.as_ref().unwrap()[0].id, "c1");
    assert_eq!(bare.messages[3].tool_call_id.as_deref(), Some("c1"));
    assert_eq!(bare.messages[3].content, "out");

    let tool = Tool {
        name: "shell".to_string(),
        description: "d".to_string(),
        parameters: "{}".to_string(),
    };
    let request = ChatRequest::new("m", Vec::new()).with_tools(vec![tool]).with_temperature(1250);
    let wire = WireRequest::from_request(request);
    let tools = wire.tools.unwrap();
    assert_eq!(tools.len(), 1);
    assert_eq!(tools[0].tool_type, "function");
    assert_eq!(tools[0].function.name, "shell");
    assert_eq!(wire.temperature_milli, Some(1250));
    assert_eq!(wire.model, "m");
    assert_eq!(temperature_number(700), "0.700");
    assert_eq!(temperature_number(1000), "1.000");
    assert_eq!(temperature_number(1250), "1.250");
    assert_eq!(temperature_number(5), "0.005");
    assert_eq!(bearer("k"), "Bearer k");
    assert_eq!(api_error("Groq", "500", "oops"), "Groq API 错误: 500 - oops");
}

#[test]
fn replies_are_read_from_the_wire() {
    let reply = |role: &str, content: Option<&str>| WireReply {
        role: role.to_string(),
        content: content.map(|c| c.to_string()),
        tool_calls: None,
    };
    let usage = Usage { prompt_tokens: 1, completion_tokens: 2, total_tokens: 3 };
    let response =
        response_of("DeepSeek", vec![reply("assistant", Some("hi")), reply("user", None)], Some(usage), "m".to_string())
            .unwrap();
    assert_eq!(response.message.role, Role::Assistant);
    assert_eq!(response.message.content, "hi");
    assert_eq!(response.usage, Some(usage));
    assert_eq!(response.model, "m");
    assert_eq!(reply("weird", None).into_message().role, Role::User);
    assert_eq!(reply("tool", None).into_message().content, "");
    assert_eq!(reply("system", Some("x")).into_message().role, Role::System);
    assert_eq!(
        response_of("DeepSeek", Vec::new(), None, "m".to_string()).unwrap_err(),
        "DeepSeek 返回空响应"
    );
    for role in [Role::System, Role::User, Role::Assistant, Role::Tool] {
        assert_eq!(Role::from_wire(role.as_str()), role);
        assert_eq!(Role::from_stored(role.as_str()), role);
    }
    assert_eq!(Role::from_stored("other"), Role::System);
}

#[test]
fn minimax_replies_are_messages_of_the_assistant() {
    let tool_call = |id: &str| ToolCall {
        id: id.to_string(),
        call_type: "function".to_string(),
        function: FunctionCall { name: "shell".to_string(), arguments: "{}".to_string() },
    };
    let usage = Usage { prompt_tokens: 1, completion_tokens: 2, total_tokens: 3 };
    let first = WireReply {
        role: "user".to_string(),
        content: Some("hi".to_string()),
        tool_calls: Some(vec![tool_call("a"), tool_call("b")]),
    };
    let second =
        WireReply { role: "tool".to_string(), content: Some("no".to_string()), tool_calls: None };
    let response = MiniMaxProvider::response_of(vec![first, second], Some(usage), "m".to_string());
    assert_eq!(response.message.role, Role::Assistant);
    assert_eq!(response.message.content, "hi");
    let calls = response.message.tool_calls.unwrap();
    assert_eq!(calls.len(), 2);
    assert_eq!(calls[0].id, "a");
    assert_eq!(calls[1].id, "b");
    assert_eq!(calls[0].function.name, "shell");
    assert_eq!(calls[0].function.arguments, "{}");
    assert!(response.message.tool_call_id.is_none());
    assert_eq!(response.model, "m");
    assert_eq!(response.usage.unwrap().total_tokens, 3);

    // An empty list of calls is none, and a missing content is empty.
    let bare = WireReply { role: "system".to_string(), content: None, tool_calls: Some(vec![]) };
    let response = MiniMaxProvider::response_of(vec![bare], None, "m2".to_string());
    assert_eq!(response.message.role, Role::Assistant);
    assert_eq!(response.message.content, "");
    assert!(response.message.tool_calls.is_none());
    assert!(response.usage.is_none());

    // A reply without choices is an empty answer, where other providers fail.
    let response = MiniMaxProvider::response_of(vec![], None, "m3".to_string());
    assert_eq!(response.message.role, Role::Assistant);
    assert_eq!(response.message.content, "");
    assert!(response.message.tool_calls.is_none());
    assert_eq!(response.model, "m3");
    assert!(response_of("MiniMax", vec![], None, "m3".to_string()).is_err());

    // A reply that is no success is a failure with its text.
    let refused =
        MiniMaxProvider::reply_of(Some("quota".to_string()), vec![], None, String::new());
    assert_eq!(refused.unwrap_err(), "MiniMax API 错误: quota");
    let answered = WireReply {
        role: "assistant".to_string(),
        content: Some("ok".to_string()),
        tool_calls: None,
    };
    let response = MiniMaxProvider::reply_of(None, vec![answered], None, "m4".to_string()).unwrap();
    assert_eq!(response.message.content, "ok");
    assert_eq!(response.model, "m4");
}

#[test]
fn anthropic_replies_are_read_by_their_kind() {
    let text = AnthropicProvider::reply_message(
        "text",
        Some("hello"),
        "msg_1",
        "ignored".to_string(),
        "ignored".to_string(),
    );
    assert_eq!(text.role, Role::Assistant);
    assert_eq!(text.content, "hello");
    assert!(text.tool_calls.is_none());
    assert!(text.tool_call_id.is_none());

    let other = AnthropicProvider::reply_message("image", None, "msg_1", String::new(), String::new());
    assert_eq!(other.content, "");
    assert!(other.tool_calls.is_none());

    let call = AnthropicProvider::reply_message(
        "tool_use",
        Some("{\"name\":\"shell\"}"),
        "msg_2",
        "shell".to_string(),
        "{\"command\":\"ls\"}".to_string(),
    );
    assert_eq!(call.role, Role::Assistant);
    assert_eq!(call.content, "");
    let calls = call.tool_calls.unwrap();
    assert_eq!(calls.len(), 1);
    assert_eq!(calls[0].id, "msg_2");
    assert_eq!(calls[0].call_type, "function");
    assert_eq!(calls[0].function.name, "shell");
    assert_eq!(calls[0].function.arguments, "{\"command\":\"ls\"}");
}
