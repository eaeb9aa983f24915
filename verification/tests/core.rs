use nanobot::config::{Config, DiscordConfig, FeishuConfig};
use nanobot::llm::{Message, Role};

#[test]
fn test_config_default() {
    let config = Config::default();
    assert_eq!(config.agent.max_context, 20);
    assert!(!config.agent.system_prompt.is_empty());
}

#[test]
fn test_message_creation() {
    let user_msg = Message::user("Hello");
    assert_eq!(user_msg.role, Role::User);
    assert_eq!(user_msg.content, "Hello");

    let system_msg = Message::system("You are a helpful assistant");
    assert_eq!(system_msg.role, Role::System);

    let assistant_msg = Message::assistant("Hi there!");
    assert_eq!(assistant_msg.role, Role::Assistant);
}

#[test]
fn test_channel_configs() {
    let discord = DiscordConfig {
        prefix: "!".to_string(),
        enable_slash_commands: true,
        ..Default::default()
    };
    assert_eq!(discord.prefix, "!");
    assert!(discord.enable_slash_commands);

    let feishu = FeishuConfig { verify_signature: true, ..Default::default() };
    assert!(feishu.verify_signature);
}
