use nanobot::config::{default_max_context, default_max_memories, default_model, default_prefix};
use nanobot::config::{default_provider, default_reconnect_interval, default_system_prompt};
use nanobot::config::{default_timeout, default_true, default_workspace_path, join_path};
use nanobot::config::{workspace_path_in, Config, EnvOverrides};
use nanobot::error::NanobotError;

#[test]
fn defaults() {
    assert_eq!(default_reconnect_interval(), 5);
    assert_eq!(default_prefix(), "!");
    assert!(default_true());
    assert_eq!(default_system_prompt(), "你是一个有帮助的 AI 助手。你可以使用工具来完成用户的请求。");
    assert_eq!(default_max_context(), 20);
    assert_eq!(default_provider(), "openrouter");
    assert_eq!(default_model(), "openrouter/optimus-alpha");
    assert_eq!(default_timeout(), 60);
    assert_eq!(default_max_memories(), 1000);
    assert!(default_workspace_path().ends_with("/.nanobot"));
    assert_eq!(workspace_path_in(Some("/home/ada".to_string())), "/home/ada/.nanobot");
    assert_eq!(workspace_path_in(None), "/tmp/.nanobot");
    assert_eq!(join_path("/a", "b"), "/a/b");
    assert_eq!(join_path("/a/", "b"), "/a/b");
    assert_eq!(join_path("", "b"), "b");
    assert_eq!(join_path("/", "b"), "/b");

    let config = Config::default();
    assert_eq!(config.agent.default_provider, "openrouter");
    assert_eq!(config.agent.default_model, "openrouter/optimus-alpha");
    assert_eq!(config.llm.openrouter.api_key, None);
    assert_eq!(config.llm.openrouter.timeout_secs, 0);
    assert_eq!(config.channel.discord.prefix, "");
    assert!(!config.channel.discord.enable_slash_commands);
    assert!(!config.channel.whatsapp.auto_reconnect);
    assert_eq!(config.memory.max_memories, 1000);
    assert!(config.memory.workspace_path.ends_with("/.nanobot"));
    assert_eq!(config.tools.shell_whitelist, vec!["echo", "cat", "ls"]);
    assert_eq!(config.tools.allowed_paths, vec!["/home", "/tmp"]);
    assert_eq!(config.tools.search_api_key, None);
}

#[test]
fn example_names_every_secret() {
    let example = Config::example();
    assert_eq!(example.agent.system_prompt, "你是一个有帮助的 AI 助手。");
    assert_eq!(example.agent.max_context, 20);
    assert_eq!(example.llm.openrouter.api_key.as_deref(), Some("your-openrouter-api-key"));
    assert_eq!(example.llm.deepseek.base_url.as_deref(), Some("https://api.deepseek.com"));
    assert_eq!(example.llm.moonshot.default_model.as_deref(), Some("moonshot-v1-8k"));
    assert_eq!(example.llm.vllm.api_key.as_deref(), Some(""));
    assert_eq!(example.llm.vllm.timeout_secs, 60);
    assert_eq!(example.llm.openai.api_key, None);
    assert_eq!(example.channel.telegram.bot_token.as_deref(), Some("your-telegram-bot-token"));
    assert_eq!(example.channel.discord.application_id, Some(1234567890123456789));
    assert_eq!(example.channel.discord.prefix, "!");
    assert!(example.channel.discord.enable_slash_commands);
    assert_eq!(example.channel.feishu.app_id.as_deref(), Some("cli_xxxxxxxxxxxxxxxx"));
    assert!(example.channel.feishu.verify_signature);
    assert_eq!(example.channel.whatsapp.bridge_url.as_deref(), Some("ws://localhost:3000"));
    assert_eq!(example.channel.whatsapp.reconnect_interval_secs, 5);
    assert_eq!(example.tools.shell_whitelist, vec!["echo", "cat", "ls", "pwd"]);
    assert_eq!(example.tools.search_api_key.as_deref(), Some("your-search-api-key"));
    assert_eq!(example.memory.max_memories, 1000);
}

#[test]
fn environment_stands_above_the_file() {
    let mut config = Config::example();
    let untouched = EnvOverrides::default();
    config.apply_env_overrides(&untouched);
    assert_eq!(config.llm.openrouter.api_key.as_deref(), Some("your-openrouter-api-key"));
    assert_eq!(config.channel.discord.application_id, Some(1234567890123456789));

    let env = EnvOverrides {
        openrouter_api_key: Some("or".to_string()),
        vllm_base_url: Some("http://v".to_string()),
        anthropic_api_key: Some("an".to_string()),
        telegram_bot_token: Some("tg".to_string()),
        discord_application_id: Some("77".to_string()),
        feishu_encrypt_key: Some("fe".to_string()),
        whatsapp_bridge_url: Some("ws://w".to_string()),
        search_api_key: Some("se".to_string()),
        ..EnvOverrides::default()
    };
    config.apply_env_overrides(&env);
    assert_eq!(config.llm.openrouter.api_key.as_deref(), Some("or"));
    assert_eq!(config.llm.deepseek.api_key.as_deref(), Some("your-deepseek-api-key"));
    assert_eq!(config.llm.vllm.base_url.as_deref(), Some("http://v"));
    assert_eq!(config.llm.anthropic.api_key.as_deref(), Some("an"));
    assert_eq!(config.channel.telegram.bot_token.as_deref(), Some("tg"));
    assert_eq!(config.channel.discord.application_id, Some(77));
    assert_eq!(config.channel.feishu.encrypt_key.as_deref(), Some("fe"));
    assert_eq!(config.channel.whatsapp.bridge_url.as_deref(), Some("ws://w"));
    assert_eq!(config.tools.search_api_key.as_deref(), Some("se"));

    let not_a_number =
        EnvOverrides { discord_application_id: Some("x77".to_string()), ..EnvOverrides::default() };
    config.apply_env_overrides(&not_a_number);
    assert_eq!(config.channel.discord.application_id, Some(77));
}

#[test]
fn config_path_and_error_texts() {
    assert_eq!(Config::config_path_in("/home/ada"), "/home/ada/.nanobot/config.toml");
    assert!(Config::default_config_path().unwrap().ends_with("/.nanobot/config.toml"));
    assert_eq!(NanobotError::Config("c".to_string()).message(), "配置错误: c");
    assert_eq!(NanobotError::Llm("l".to_string()).message(), "LLM 提供商错误: l");
    assert_eq!(NanobotError::Tool("t".to_string()).message(), "工具执行错误: t");
    assert_eq!(NanobotError::Channel("c".to_string()).message(), "通道错误: c");
    assert_eq!(NanobotError::Memory("m".to_string()).message(), "内存系统错误: m");
    assert_eq!(NanobotError::Io("i".to_string()).message(), "IO 错误: i");
    assert_eq!(NanobotError::Http("h".to_string()).message(), "HTTP 错误: h");
    assert_eq!(NanobotError::Unknown("u".to_string()).message(), "未知错误: u");
    let json = serde_json::from_str::<serde_json::Value>("{").unwrap_err();
    let text = json.to_string();
    assert_eq!(NanobotError::Json(json).message(), format!("JSON 解析错误: {}", text));
}
