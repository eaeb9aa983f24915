use nanobot::channel::discord::DiscordChannel;
use nanobot::channel::feishu::FeishuChannel;
use nanobot::channel::telegram::{Command, TelegramChannel};
use nanobot::channel::whatsapp::{BridgeAction, BridgeMessage, WhatsAppChannel};
use nanobot::channel::{AnyChannel, Channel, ChannelFactory, ChannelManager, Media, MediaType};
use nanobot::config::{Config, DiscordConfig, FeishuConfig, TelegramConfig, WhatsAppConfig};
use nanobot::error::NanobotError;

#[test]
fn test_split_message() {
    let content = "a".repeat(2500);
    let chunks = DiscordChannel::split_message(&content, 2000);
    assert!(chunks.len() > 1);
    assert!(chunks[0].len() <= 2000);
}

#[test]
fn test_split_message_short() {
    let content = "Hello, World!";
    let chunks = DiscordChannel::split_message(content, 2000);
    assert_eq!(chunks.len(), 1);
    assert_eq!(chunks[0], content);
}

#[test]
fn split_cuts_behind_line_feeds_and_blanks() {
    let chunks = DiscordChannel::split_message("ab cd\nefgh ij", 7);
    assert_eq!(chunks, vec!["ab cd\n", "efgh ij"]);
    assert_eq!(DiscordChannel::split_message("efgh ij kl", 7), vec!["efgh ", "ij kl"]);
    assert_eq!(DiscordChannel::split_message("abcdefgh", 3), vec!["abc", "def", "gh"]);
    // Telegram cuts at line feeds only.
    assert_eq!(TelegramChannel::split_message("ab cd ef", 5), vec!["ab cd", " ef"]);
    assert_eq!(TelegramChannel::split_message("a\nbcdefg", 4), vec!["a\n", "bcde", "fg"]);
    assert_eq!(DiscordChannel::split_message("", 5), vec![""]);
    assert_eq!(DiscordChannel::split_message("exact", 5), vec!["exact"]);
    // Characters are counted, not bytes.
    assert_eq!(DiscordChannel::split_message("äöüß", 2), vec!["äö", "üß"]);
    for max in 1..9 {
        for text in ["one two\nthree  four\n\nfive", "nospacesatallinthisone", " \n \n"] {
            let pieces = DiscordChannel::split_message(text, max);
            assert_eq!(pieces.concat(), text);
            if text.chars().count() > max {
                assert!(pieces.iter().all(|p| !p.is_empty() && p.chars().count() <= max));
            }
        }
    }
}

#[test]
fn escape_markdown_puts_a_backslash_before_special_characters() {
    assert_eq!(TelegramChannel::escape_markdown("a_b*c"), "a\\_b\\*c");
    assert_eq!(
        TelegramChannel::escape_markdown("_*[]()~`>#+-=|{}.!"),
        "\\_\\*\\[\\]\\(\\)\\~\\`\\>\\#\\+\\-\\=\\|\\{\\}\\.\\!"
    );
    assert_eq!(TelegramChannel::escape_markdown("plain text 你好"), "plain text 你好");
    assert_eq!(TelegramChannel::escape_markdown(""), "");
    assert_eq!(TelegramChannel::reply_pieces("1.5"), vec!["1\\.5"]);
}

#[test]
fn telegram_rules() {
    let none = TelegramConfig::default();
    assert!(matches!(
        TelegramChannel::new(none),
        Err(NanobotError::Channel(text)) if text == "Telegram Bot Token 未配置"
    ));
    let open = TelegramConfig { bot_token: Some("t".to_string()), ..Default::default() };
    let channel = TelegramChannel::new(open).unwrap();
    assert_eq!(channel.name(), "telegram");
    assert!(channel.is_allowed(5));
    let closed = TelegramConfig {
        bot_token: Some("t".to_string()),
        allowed_users: vec![1, -2],
        ..Default::default()
    };
    let channel = TelegramChannel::new(closed).unwrap();
    assert!(channel.is_allowed(-2));
    assert!(!channel.is_allowed(2));
    assert_eq!(TelegramChannel::session_key(-100123), "telegram:-100123");
    assert_eq!(TelegramChannel::session_key(0), "telegram:0");
    assert_eq!(TelegramChannel::session_key(i64::MIN), format!("telegram:{}", i64::MIN));
    assert_eq!(TelegramChannel::chat_id_of("42").unwrap(), 42);
    assert_eq!(TelegramChannel::chat_id_of("-42").unwrap(), -42);
    assert_eq!(TelegramChannel::chat_id_of("+7").unwrap(), 7);
    assert_eq!(TelegramChannel::chat_id_of("-9223372036854775808").unwrap(), i64::MIN);
    for bad in ["", "-", "4 2", "9223372036854775808", "x1", "1.0"] {
        assert!(matches!(
            TelegramChannel::chat_id_of(bad),
            Err(NanobotError::Channel(text)) if text == "无效的 chat ID"
        ));
    }
    assert_eq!(TelegramChannel::error_reply("boom"), "❌ 错误: boom");
    assert!(TelegramChannel::clears_context(Command::Clear));
    assert!(!TelegramChannel::clears_context(Command::Status));
    assert_eq!(TelegramChannel::handle_command(Command::Clear, "s", 1), "🧹 对话上下文已清空。");
    assert_eq!(
        TelegramChannel::handle_command(Command::Status, "abc", 12),
        "📊 *状态信息*\n\n会话 ID: `abc`\n上下文消息数: 12\n提供商: deepseek\n模型: deepseek-chat"
    );
    assert!(TelegramChannel::handle_command(Command::Help, "s", 1).contains("/status"));
    assert!(TelegramChannel::handle_command(Command::Start, "s", 1).starts_with("👋"));
}

#[test]
fn discord_rules() {
    assert!(DiscordChannel::new(DiscordConfig::default()).is_err());
    let config = DiscordConfig {
        bot_token: Some("t".to_string()),
        allowed_channels: vec![7, 8],
        ..Default::default()
    };
    let channel = DiscordChannel::new(config).unwrap();
    assert_eq!(channel.name(), "discord");
    assert!(channel.is_guild_allowed(1));
    assert!(channel.is_user_allowed(1));
    assert!(channel.is_channel_allowed(8));
    assert!(!channel.is_channel_allowed(9));
    assert_eq!(channel.send_message("7", "hi").unwrap(), vec!["hi"]);
    assert!(matches!(
        channel.send_message("9", "hi"),
        Err(NanobotError::Channel(text)) if text == "频道 9 不在白名单中"
    ));
    assert!(matches!(
        channel.send_message("seven", "hi"),
        Err(NanobotError::Channel(text)) if text == "无效的 Discord Channel ID"
    ));
    assert!(channel.send_message("18446744073709551616", "hi").is_err());
    assert_eq!(channel.send_message("+8", &"x".repeat(2001)).unwrap().len(), 2);
}

#[test]
fn whatsapp_rules() {
    assert!(WhatsAppChannel::new(WhatsAppConfig::default()).is_err());
    let config = WhatsAppConfig {
        bridge_url: Some("ws://localhost:3000".to_string()),
        allowed_users: vec!["491234".to_string()],
        reconnect_interval_secs: 5,
        auto_reconnect: true,
    };
    let mut channel = WhatsAppChannel::new(config).unwrap();
    assert_eq!(channel.name(), "whatsapp");
    assert_eq!(WhatsAppChannel::phone_number("491234@s.whatsapp.net"), "491234");
    assert_eq!(WhatsAppChannel::phone_number("491234"), "491234");
    assert_eq!(WhatsAppChannel::phone_number("@x"), "");
    assert_eq!(WhatsAppChannel::address("491234"), "491234@s.whatsapp.net");
    assert_eq!(WhatsAppChannel::address("a@g.us"), "a@g.us");

    let hello = BridgeMessage::Message {
        sender: "491234@s.whatsapp.net".to_string(),
        content: "hello".to_string(),
    };
    match channel.handle_bridge_message(hello) {
        BridgeAction::Chat { reply_to, content } => {
            assert_eq!(reply_to, "491234@s.whatsapp.net");
            assert_eq!(content, "hello");
        },
        other => panic!("unexpected {:?}", other),
    }
    let voice = BridgeMessage::Message {
        sender: "491234@s.whatsapp.net".to_string(),
        content: "[Voice Message]".to_string(),
    };
    match channel.handle_bridge_message(voice) {
        BridgeAction::Chat { content, .. } => assert_eq!(content, "[语音消息: 暂不支持转录]"),
        other => panic!("unexpected {:?}", other),
    }
    let stranger = BridgeMessage::Message {
        sender: "1@s.whatsapp.net".to_string(),
        content: "hello".to_string(),
    };
    assert!(matches!(channel.handle_bridge_message(stranger), BridgeAction::Ignore));

    assert!(!channel.connected);
    channel.handle_bridge_message(BridgeMessage::Status { status: "connected".to_string() });
    assert!(channel.connected);
    channel.handle_bridge_message(BridgeMessage::Status { status: "syncing".to_string() });
    assert!(channel.connected);
    channel.handle_bridge_message(BridgeMessage::Qr { qr: "q".to_string() });
    channel.handle_bridge_message(BridgeMessage::Error { error: "e".to_string() });
    assert!(channel.connected);
    channel.handle_bridge_message(BridgeMessage::Status { status: "disconnected".to_string() });
    assert!(!channel.connected);

    assert_eq!(channel.reconnect_after(false), None);
    assert_eq!(channel.reconnect_after(true), Some(5));
    channel.connection_opened();
    assert_eq!(channel.reconnect_after(false), Some(5));
    channel.connection_closed();
    assert!(!channel.running);
}

#[test]
fn feishu_rules() {
    assert!(FeishuChannel::new(FeishuConfig::default()).is_err());
    let config = FeishuConfig {
        app_id: Some("a".to_string()),
        app_secret: Some("s".to_string()),
        allowed_open_ids: vec!["ou_1".to_string()],
        ..Default::default()
    };
    let mut channel = FeishuChannel::new(config).unwrap();
    assert_eq!(channel.name(), "feishu");
    assert!(channel.is_user_allowed("anyone"));
    assert!(channel.is_open_id_allowed("ou_1"));
    assert!(!channel.is_open_id_allowed("ou_2"));
    assert!(channel.accepts("ou_1", "text"));
    assert!(!channel.accepts("ou_1", "image"));
    assert!(!channel.accepts("ou_2", "text"));
    assert_eq!(FeishuChannel::get_msg_type_text("image"), "[image]");
    assert_eq!(FeishuChannel::get_msg_type_text("sticker"), "[sticker]");
    assert_eq!(FeishuChannel::get_msg_type_text("video"), "[video]");
    assert!(FeishuChannel::token_is_fresh(1000, 939));
    assert!(!FeishuChannel::token_is_fresh(1000, 940));

    for i in 0..1005 {
        assert!(!channel.is_message_processed(&format!("m{}", i)));
        channel.add_processed_message(&format!("m{}", i));
        assert!(channel.is_message_processed(&format!("m{}", i)));
    }
    assert_eq!(channel.processed_message_ids.len(), 1000);
    assert!(!channel.is_message_processed("m4"));
    assert!(channel.is_message_processed("m5"));
    channel.processed_message_ids.push("extra".to_string());
    channel.trim_message_cache();
    assert_eq!(channel.processed_message_ids.len(), 1000);
    assert!(!channel.is_message_processed("m5"));
    assert!(channel.is_message_processed("extra"));
}

#[test]
fn factory_and_manager() {
    let mut config = Config::default();
    for name in ["telegram", "discord", "feishu", "whatsapp"] {
        assert!(matches!(ChannelFactory::create(name, &config), Err(NanobotError::Channel(_))));
    }
    assert!(matches!(
        ChannelFactory::create("irc", &config),
        Err(NanobotError::Channel(text)) if text == "未知的通道: irc"
    ));
    config.channel.telegram.bot_token = Some("t".to_string());
    config.channel.discord.bot_token = Some("d".to_string());
    config.channel.feishu.app_id = Some("a".to_string());
    assert!(matches!(
        ChannelFactory::create("feishu", &config),
        Err(NanobotError::Channel(text)) if text == "飞书 App ID 或 App Secret 未配置"
    ));
    config.channel.feishu.app_secret = Some("s".to_string());
    config.channel.whatsapp.bridge_url = Some("ws://b".to_string());
    let mut manager = ChannelManager::new();
    for name in ["discord", "telegram", "whatsapp", "feishu"] {
        let channel = ChannelFactory::create(name, &config).unwrap();
        assert_eq!(channel.name(), name);
        manager.register(channel);
    }
    assert_eq!(manager.names(), vec!["discord", "telegram", "whatsapp", "feishu"]);
    match &manager.channels[1] {
        AnyChannel::Telegram(c) => assert_eq!(c.config.bot_token.as_deref(), Some("t")),
        other => panic!("unexpected {:?}", other),
    }
}

#[test]
fn media_constructors() {
    let image = Media::new_image(Some("/p".to_string()), None, Some("n".to_string()));
    assert_eq!(image.media_type, MediaType::Image);
    assert_eq!(image.path.as_deref(), Some("/p"));
    assert_eq!(image.url, None);
    assert_eq!(image.name.as_deref(), Some("n"));
    assert_eq!(Media::new_audio(None, Some("u".to_string()), None).media_type, MediaType::Audio);
    assert_eq!(Media::new_file(None, None, None).media_type, MediaType::File);
    assert_eq!(nanobot::channel::media_unsupported("discord"), "discord 不支持发送媒体消息");
}

#[test]
fn webhook_signatures_are_checked() {
    // The SHA-256 digest of "abc" and of the empty text.
    let abc = "ba7816bf8f01cfea414140de5dae2223b00361a396177a9cb410ff61f20015ad";
    let empty = "e3b0c44298fc1c149afbf4c8996fb92427ae41e4649b934ca495991b7852b855";
    assert_eq!(FeishuChannel::webhook_signature("a", "b", "c", ""), abc);
    assert_eq!(FeishuChannel::webhook_signature("", "ab", "", "c"), abc);
    assert_eq!(FeishuChannel::webhook_signature("", "", "", ""), empty);
    assert_eq!(FeishuChannel::webhook_signature("1700000000", "n", "{}", "secret").len(), 64);

    let config = FeishuConfig {
        app_id: Some("id".to_string()),
        app_secret: Some("c".to_string()),
        ..FeishuConfig::default()
    };
    let mut channel = FeishuChannel::new(config).unwrap();
    assert_eq!(channel.verify_webhook_signature("a", "b", "", abc), Ok(true));
    assert_eq!(channel.verify_webhook_signature("a", "b", "", &abc.to_uppercase()), Ok(false));
    assert_eq!(channel.verify_webhook_signature("a", "b", "x", abc), Ok(false));
    assert_eq!(channel.verify_webhook_signature("a", "b", "", ""), Ok(false));
    channel.config.app_secret = None;
    assert_eq!(
        channel.verify_webhook_signature("a", "b", "", abc),
        Err("App Secret 未配置".to_string())
    );
}
