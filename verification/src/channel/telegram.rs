//! The Telegram channel.

use vstd::prelude::*;
use vstd::string::*;
use crate::channel::{spec_split, split_text, Channel};
use crate::config::TelegramConfig;
use crate::error::{ErrorView, NanobotError};
use crate::number::{decimal, i64_text, parse_i64, signed_decimal, spec_parse_i64, u64_text};
use crate::text::{concat, to_chars};

verus! {

/// How long a message to Telegram may be.
pub const TELEGRAM_MESSAGE_LIMIT: usize = 4096;

/// What a user can ask of the bot besides talking to it.
#[derive(Debug, Clone, Copy, PartialEq, Eq, Structural)]
pub enum Command {
    Help,
    Start,
    Clear,
    Status,
}

/// Whether `c` has a meaning in Telegram's Markdown.
pub open spec fn is_special(c: char) -> bool {
    c == '_' || c == '*' || c == '[' || c == ']' || c == '(' || c == ')' || c == '~' || c == '`'
        || c == '>' || c == '#' || c == '+' || c == '-' || c == '=' || c == '|' || c == '{' || c
        == '}' || c == '.' || c == '!'
}

/// `s` with a backslash before every character that has a meaning in
/// Telegram's Markdown.
pub open spec fn escaped(s: Seq<char>) -> Seq<char>
    decreases s.len(),
{
    if s.len() == 0 {
        Seq::empty()
    } else if is_special(s.last()) {
        escaped(s.drop_last()).push('\\').push(s.last())
    } else {
        escaped(s.drop_last()).push(s.last())
    }
}

/// The Telegram channel: what it is set up with, and whether it runs.
#[derive(Debug)]
pub struct TelegramChannel {
    pub config: TelegramConfig,
    pub running: bool,
}

impl TelegramChannel {
    /// The channel set up with `config`. There is no channel without a
    /// bot token.
    pub fn new(config: TelegramConfig) -> (r: Result<TelegramChannel, NanobotError>)
        ensures
            match r {
                Ok(c) => config.bot_token is Some && c.config == config && !c.running,
                Err(e) => config.bot_token is None && e@ == ErrorView::Channel(
                    "Telegram Bot Token 未配置"@,
                ),
            },
    {
        if config.bot_token.is_none() {
            return Err(NanobotError::Channel("Telegram Bot Token 未配置".to_owned()));
        }
        Ok(TelegramChannel { config, running: false })
    }

    /// Whether the user `user_id` may talk to the bot: everyone may where
    /// no users are listed.
    pub fn is_allowed(&self, user_id: i64) -> (b: bool)
        ensures
            b == (self.config.allowed_users@.len() == 0 || self.config.allowed_users@.contains(
                user_id,
            )),
    {
        if self.config.allowed_users.len() == 0 {
            return true;
        }
        let mut i: usize = 0;
        while i < self.config.allowed_users.len()
            invariant
                i <= self.config.allowed_users.len(),
                forall|k: int| 0 <= k < i ==> self.config.allowed_users@[k] != user_id,
            decreases self.config.allowed_users.len() - i,
        {
            if self.config.allowed_users[i] == user_id {
                return true;
            }
            i += 1;
        }
        false
    }

    /// `text` with a backslash before every character that has a meaning
    /// in Telegram's Markdown.
    pub fn escape_markdown(text: &str) -> (r: String)
        ensures
            r@ == escaped(text@),
    {
        let chars = to_chars(text);
        let mut r = String::new();
        let mut i: usize = 0;
        assert(chars@.take(0) =~= Seq::<char>::empty());
        while i < chars.len()
            invariant
                i <= chars.len(),
                r@ == escaped(chars@.take(i as int)),
            decreases chars.len() - i,
        {
            let c = chars[i];
            proof {
                let next = chars@.take(i + 1);
                assert(next.drop_last() =~= chars@.take(i as int));
                assert(next.last() == c);
            }
            let special = c == '_' || c == '*' || c == '[' || c == ']' || c == '(' || c == ')' || c
                == '~' || c == '`' || c == '>' || c == '#' || c == '+' || c == '-' || c == '='
                || c == '|' || c == '{' || c == '}' || c == '.' || c == '!';
            if special {
                r.push('\\');
            }
            r.push(c);
            i += 1;
        }
        assert(chars@.take(chars@.len() as int) =~= chars@);
        r
    }

    /// `text` in pieces of at most `max_len` characters, cut behind a line
    /// feed where that can be done.
    pub fn split_message(text: &str, max_len: usize) -> (pieces: Vec<String>)
        requires
            max_len > 0,
        ensures
            pieces.deep_view() == spec_split(text@, max_len as int, false),
    {
        split_text(text, max_len, false)
    }

    /// The session that the talk in the chat `chat_id` is kept under.
    pub fn session_key(chat_id: i64) -> (key: String)
        ensures
            key@ == "telegram:"@ + signed_decimal(chat_id as int),
    {
        let number = i64_text(chat_id);
        concat("telegram:", number.as_str())
    }

    /// The pieces to send for the agent's answer `content`: the answer is
    /// escaped and split.
    pub fn reply_pieces(content: &str) -> (pieces: Vec<String>)
        ensures
            pieces.deep_view() == spec_split(escaped(content@), TELEGRAM_MESSAGE_LIMIT as int, false),
    {
        let escaped = TelegramChannel::escape_markdown(content);
        TelegramChannel::split_message(escaped.as_str(), TELEGRAM_MESSAGE_LIMIT)
    }

    /// What a user is told whose turn failed for `reason`.
    pub fn error_reply(reason: &str) -> (text: String)
        ensures
            text@ == "❌ 错误: "@ + reason@,
    {
        concat("❌ 错误: ", reason)
    }

    /// What a user is told who may not talk to the bot.
    pub fn refusal() -> (text: &'static str)
        ensures
            text@ == "⛔ 你无权使用此 Bot。"@,
    {
        "⛔ 你无权使用此 Bot。"
    }

    /// What the bot says to a command other than `Status`.
    pub open spec fn spec_command_text(cmd: Command) -> Seq<char> {
        match cmd {
            Command::Help => "🤖 *Nanobot 帮助*\n\n可用命令:\n/help - 显示此帮助\n/start - 开始对话\n/clear - 清空对话上下文\n/status - 查看状态\n\n直接发送消息即可与 AI 对话。"@,
            Command::Start => "👋 你好！我是 Nanobot，你的个人 AI 助手。\n\n直接发送消息即可开始对话。"@,
            Command::Clear => "🧹 对话上下文已清空。"@,
            Command::Status => Seq::empty(),
        }
    }

    /// What the bot says of its state: the session, the length of the
    /// context, and the provider and model it names.
    pub open spec fn spec_status_text(session_id: Seq<char>, context_length: nat) -> Seq<char> {
        "📊 *状态信息*\n\n会话 ID: `"@ + session_id + "`\n上下文消息数: "@ + decimal(context_length)
            + "\n提供商: deepseek\n模型: deepseek-chat"@
    }

    /// Whether the context is to be emptied for `cmd`.
    pub fn clears_context(cmd: Command) -> (b: bool)
        ensures
            b == (cmd == Command::Clear),
    {
        match cmd {
            Command::Clear => true,
            _ => false,
        }
    }

    /// What the bot answers to `cmd`, for an agent in the session
    /// `session_id` whose context holds `context_length` messages.
    pub fn handle_command(cmd: Command, session_id: &str, context_length: usize) -> (text: String)
        ensures
            text@ == if cmd == Command::Status {
                Self::spec_status_text(session_id@, context_length as nat)
            } else {
                Self::spec_command_text(cmd)
            },
    {
        match cmd {
            Command::Help => "🤖 *Nanobot 帮助*\n\n可用命令:\n/help - 显示此帮助\n/start - 开始对话\n/clear - 清空对话上下文\n/status - 查看状态\n\n直接发送消息即可与 AI 对话。".to_owned(),
            Command::Start => "👋 你好！我是 Nanobot，你的个人 AI 助手。\n\n直接发送消息即可开始对话。".to_owned(),
            Command::Clear => "🧹 对话上下文已清空。".to_owned(),
            Command::Status => {
                let count = u64_text(context_length as u64);
                let mut text = "📊 *状态信息*\n\n会话 ID: `".to_owned();
                text.append(session_id);
                text.append("`\n上下文消息数: ");
                text.append(count.as_str());
                text.append("\n提供商: deepseek\n模型: deepseek-chat");
                text
            },
        }
    }

    /// The chat that `target` names.
    pub fn chat_id_of(target: &str) -> (r: Result<i64, NanobotError>)
        ensures
            match r {
                Ok(id) => spec_parse_i64(target@) == Some(id),
                Err(e) => spec_parse_i64(target@) is None && e@ == ErrorView::Channel(
                    "无效的 chat ID"@,
                ),
            },
    {
        match parse_i64(target) {
            Some(id) => Ok(id),
            None => Err(NanobotError::Channel("无效的 chat ID".to_owned())),
        }
    }
}

impl Channel for TelegramChannel {
    fn name(&self) -> (name: &str)
        ensures
            name@ == "telegram"@,
    {
        "telegram"
    }
}

} // verus!
