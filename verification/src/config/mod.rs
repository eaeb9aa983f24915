//! Configuration: what the agent, the LLM providers, the channels, the memory
//! store and the tools are set up with, and the values they default to.

use vstd::prelude::*;
use vstd::string::*;
use crate::number::{parse_u64, spec_parse_u64};
use crate::text::{clone_opt_string, clone_strings, concat, to_chars};

verus! {

/// Settings of the conversation loop.
#[derive(Debug)]
pub struct AgentConfig {
    /// The system prompt that opens every context.
    pub system_prompt: String,
    /// How many messages a context keeps besides the system prompt.
    pub max_context: usize,
    /// The provider that answers when none is named.
    pub default_provider: String,
    /// The model that requests name.
    pub default_model: String,
}

/// `AgentConfig` as contracts see it.
pub struct AgentConfigView {
    pub system_prompt: Seq<char>,
    pub max_context: usize,
    pub default_provider: Seq<char>,
    pub default_model: Seq<char>,
}

impl DeepView for AgentConfig {
    type V = AgentConfigView;

    open spec fn deep_view(&self) -> AgentConfigView {
        AgentConfigView {
            system_prompt: self.system_prompt@,
            max_context: self.max_context,
            default_provider: self.default_provider@,
            default_model: self.default_model@,
        }
    }
}

/// Settings of one LLM provider.
#[derive(Debug)]
pub struct ProviderConfig {
    pub api_key: Option<String>,
    /// A base URL, for an endpoint of one's own.
    pub base_url: Option<String>,
    pub default_model: Option<String>,
    /// Seconds after which a request is given up.
    pub timeout_secs: u64,
}

/// `ProviderConfig` as contracts see it.
pub struct ProviderConfigView {
    pub api_key: Option<Seq<char>>,
    pub base_url: Option<Seq<char>>,
    pub default_model: Option<Seq<char>>,
    pub timeout_secs: u64,
}

impl DeepView for ProviderConfig {
    type V = ProviderConfigView;

    open spec fn deep_view(&self) -> ProviderConfigView {
        ProviderConfigView {
            api_key: self.api_key.deep_view(),
            base_url: self.base_url.deep_view(),
            default_model: self.default_model.deep_view(),
            timeout_secs: self.timeout_secs,
        }
    }
}

/// Settings of the LLM providers, one entry each.
#[derive(Debug)]
pub struct LlmConfig {
    pub openrouter: ProviderConfig,
    pub deepseek: ProviderConfig,
    pub moonshot: ProviderConfig,
    pub minimax: ProviderConfig,
    pub vllm: ProviderConfig,
    pub openai: ProviderConfig,
    pub anthropic: ProviderConfig,
}

/// `LlmConfig` as contracts see it.
pub struct LlmConfigView {
    pub openrouter: ProviderConfigView,
    pub deepseek: ProviderConfigView,
    pub moonshot: ProviderConfigView,
    pub minimax: ProviderConfigView,
    pub vllm: ProviderConfigView,
    pub openai: ProviderConfigView,
    pub anthropic: ProviderConfigView,
}

impl DeepView for LlmConfig {
    type V = LlmConfigView;

    open spec fn deep_view(&self) -> LlmConfigView {
        LlmConfigView {
            openrouter: self.openrouter.deep_view(),
            deepseek: self.deepseek.deep_view(),
            moonshot: self.moonshot.deep_view(),
            minimax: self.minimax.deep_view(),
            vllm: self.vllm.deep_view(),
            openai: self.openai.deep_view(),
            anthropic: self.anthropic.deep_view(),
        }
    }
}

/// Settings of the Telegram channel.
#[derive(Debug)]
pub struct TelegramConfig {
    pub bot_token: Option<String>,
    /// The users that may talk to the bot; empty admits everyone.
    pub allowed_users: Vec<i64>,
    pub webhook_url: Option<String>,
}

/// `TelegramConfig` as contracts see it.
pub struct TelegramConfigView {
    pub bot_token: Option<Seq<char>>,
    pub allowed_users: Seq<i64>,
    pub webhook_url: Option<Seq<char>>,
}

impl DeepView for TelegramConfig {
    type V = TelegramConfigView;

    open spec fn deep_view(&self) -> TelegramConfigView {
        TelegramConfigView {
            bot_token: self.bot_token.deep_view(),
            allowed_users: self.allowed_users@,
            webhook_url: self.webhook_url.deep_view(),
        }
    }
}

/// Settings of the Discord channel.
#[derive(Debug)]
pub struct DiscordConfig {
    pub bot_token: Option<String>,
    pub application_id: Option<u64>,
    /// The servers that are served; empty admits every server.
    pub allowed_guilds: Vec<u64>,
    /// The channels that are served; empty admits every channel.
    pub allowed_channels: Vec<u64>,
    /// The users that are served; empty admits every user.
    pub allowed_users: Vec<u64>,
    /// What a command starts with.
    pub prefix: String,
    pub webhook_url: Option<String>,
    pub enable_slash_commands: bool,
}

/// `DiscordConfig` as contracts see it.
pub struct DiscordConfigView {
    pub bot_token: Option<Seq<char>>,
    pub application_id: Option<u64>,
    pub allowed_guilds: Seq<u64>,
    pub allowed_channels: Seq<u64>,
    pub allowed_users: Seq<u64>,
    pub prefix: Seq<char>,
    pub webhook_url: Option<Seq<char>>,
    pub enable_slash_commands: bool,
}

impl DeepView for DiscordConfig {
    type V = DiscordConfigView;

    open spec fn deep_view(&self) -> DiscordConfigView {
        DiscordConfigView {
            bot_token: self.bot_token.deep_view(),
            application_id: self.application_id,
            allowed_guilds: self.allowed_guilds@,
            allowed_channels: self.allowed_channels@,
            allowed_users: self.allowed_users@,
            prefix: self.prefix@,
            webhook_url: self.webhook_url.deep_view(),
            enable_slash_commands: self.enable_slash_commands,
        }
    }
}

/// Settings of the Feishu channel.
#[derive(Debug)]
pub struct FeishuConfig {
    pub app_id: Option<String>,
    pub app_secret: Option<String>,
    pub verification_token: Option<String>,
    pub encrypt_key: Option<String>,
    /// The users that are served; empty admits every user.
    pub allowed_users: Vec<String>,
    /// The open ids that are served; empty admits every one.
    pub allowed_open_ids: Vec<String>,
    /// The group chats that are served.
    pub allowed_chats: Vec<String>,
    /// Whether the signature of an incoming request is checked.
    pub verify_signature: bool,
    pub card_template_id: Option<String>,
}

/// `FeishuConfig` as contracts see it.
pub struct FeishuConfigView {
    pub app_id: Option<Seq<char>>,
    pub app_secret: Option<Seq<char>>,
    pub verification_token: Option<Seq<char>>,
    pub encrypt_key: Option<Seq<char>>,
    pub allowed_users: Seq<Seq<char>>,
    pub allowed_open_ids: Seq<Seq<char>>,
    pub allowed_chats: Seq<Seq<char>>,
    pub verify_signature: bool,
    pub card_template_id: Option<Seq<char>>,
}

impl DeepView for FeishuConfig {
    type V = FeishuConfigView;

    open spec fn deep_view(&self) -> FeishuConfigView {
        FeishuConfigView {
            app_id: self.app_id.deep_view(),
            app_secret: self.app_secret.deep_view(),
            verification_token: self.verification_token.deep_view(),
            encrypt_key: self.encrypt_key.deep_view(),
            allowed_users: self.allowed_users.deep_view(),
            allowed_open_ids: self.allowed_open_ids.deep_view(),
            allowed_chats: self.allowed_chats.deep_view(),
            verify_signature: self.verify_signature,
            card_template_id: self.card_template_id.deep_view(),
        }
    }
}

/// Settings of the WhatsApp channel.
#[derive(Debug)]
pub struct WhatsAppConfig {
    /// Where the WebSocket bridge listens.
    pub bridge_url: Option<String>,
    /// The phone numbers that are served; empty admits every one.
    pub allowed_users: Vec<String>,
    /// Seconds between two attempts to connect.
    pub reconnect_interval_secs: u64,
    pub auto_reconnect: bool,
}

/// `WhatsAppConfig` as contracts see it.
pub struct WhatsAppConfigView {
    pub bridge_url: Option<Seq<char>>,
    pub allowed_users: Seq<Seq<char>>,
    pub reconnect_interval_secs: u64,
    pub auto_reconnect: bool,
}

impl DeepView for WhatsAppConfig {
    type V = WhatsAppConfigView;

    open spec fn deep_view(&self) -> WhatsAppConfigView {
        WhatsAppConfigView {
            bridge_url: self.bridge_url.deep_view(),
            allowed_users: self.allowed_users.deep_view(),
            reconnect_interval_secs: self.reconnect_interval_secs,
            auto_reconnect: self.auto_reconnect,
        }
    }
}

/// Settings of the channels, one entry each.
#[derive(Debug)]
pub struct ChannelConfig {
    pub telegram: TelegramConfig,
    pub discord: DiscordConfig,
    pub feishu: FeishuConfig,
    pub whatsapp: WhatsAppConfig,
}

/// `ChannelConfig` as contracts see it.
pub struct ChannelConfigView {
    pub telegram: TelegramConfigView,
    pub discord: DiscordConfigView,
    pub feishu: FeishuConfigView,
    pub whatsapp: WhatsAppConfigView,
}

impl DeepView for ChannelConfig {
    type V = ChannelConfigView;

    open spec fn deep_view(&self) -> ChannelConfigView {
        ChannelConfigView {
            telegram: self.telegram.deep_view(),
            discord: self.discord.deep_view(),
            feishu: self.feishu.deep_view(),
            whatsapp: self.whatsapp.deep_view(),
        }
    }
}

/// Settings of the memory store.
#[derive(Debug)]
pub struct MemoryConfig {
    /// The directory under which the memory files are kept; empty switches
    /// the store off.
    pub workspace_path: String,
    /// How many memories are kept at most.
    pub max_memories: usize,
}

/// `MemoryConfig` as contracts see it.
pub struct MemoryConfigView {
    pub workspace_path: Seq<char>,
    pub max_memories: usize,
}

impl DeepView for MemoryConfig {
    type V = MemoryConfigView;

    open spec fn deep_view(&self) -> MemoryConfigView {
        MemoryConfigView { workspace_path: self.workspace_path@, max_memories: self.max_memories }
    }
}

/// Settings of the tools.
#[derive(Debug)]
pub struct ToolsConfig {
    /// The commands that the shell tool may run; empty admits every command.
    pub shell_whitelist: Vec<String>,
    /// The directories that the file tools may touch; empty admits every path.
    pub allowed_paths: Vec<String>,
    /// The key of the web search service.
    pub search_api_key: Option<String>,
}

/// `ToolsConfig` as contracts see it.
pub struct ToolsConfigView {
    pub shell_whitelist: Seq<Seq<char>>,
    pub allowed_paths: Seq<Seq<char>>,
    pub search_api_key: Option<Seq<char>>,
}

impl DeepView for ToolsConfig {
    type V = ToolsConfigView;

    open spec fn deep_view(&self) -> ToolsConfigView {
        ToolsConfigView {
            shell_whitelist: self.shell_whitelist.deep_view(),
            allowed_paths: self.allowed_paths.deep_view(),
            search_api_key: self.search_api_key.deep_view(),
        }
    }
}

/// The whole configuration.
#[derive(Debug)]
pub struct Config {
    pub agent: AgentConfig,
    pub llm: LlmConfig,
    pub channel: ChannelConfig,
    pub memory: MemoryConfig,
    pub tools: ToolsConfig,
}

/// `Config` as contracts see it.
pub struct ConfigView {
    pub agent: AgentConfigView,
    pub llm: LlmConfigView,
    pub channel: ChannelConfigView,
    pub memory: MemoryConfigView,
    pub tools: ToolsConfigView,
}

impl DeepView for Config {
    type V = ConfigView;

    open spec fn deep_view(&self) -> ConfigView {
        ConfigView {
            agent: self.agent.deep_view(),
            llm: self.llm.deep_view(),
            channel: self.channel.deep_view(),
            memory: self.memory.deep_view(),
            tools: self.tools.deep_view(),
        }
    }
}

/// Seconds between two attempts to reach the WhatsApp bridge.
pub fn default_reconnect_interval() -> (secs: u64)
    ensures
        secs == 5,
{
    5
}

/// What a Discord command starts with.
pub fn default_prefix() -> (prefix: String)
    ensures
        prefix@ == "!"@,
{
    "!".to_owned()
}

/// What is switched on unless the configuration says otherwise.
pub fn default_true() -> (b: bool)
    ensures
        b,
{
    true
}

/// The system prompt of an agent that is given none.
pub fn default_system_prompt() -> (prompt: String)
    ensures
        prompt@ == "你是一个有帮助的 AI 助手。你可以使用工具来完成用户的请求。"@,
{
    "你是一个有帮助的 AI 助手。你可以使用工具来完成用户的请求。".to_owned()
}

/// How many messages a context keeps besides the system prompt.
pub fn default_max_context() -> (n: usize)
    ensures
        n == 20,
{
    20
}

/// The provider that answers unless another is named.
pub fn default_provider() -> (name: String)
    ensures
        name@ == "openrouter"@,
{
    "openrouter".to_owned()
}

/// The model that is asked for unless another is named.
pub fn default_model() -> (name: String)
    ensures
        name@ == "openrouter/optimus-alpha"@,
{
    "openrouter/optimus-alpha".to_owned()
}

/// Seconds after which a request to a provider is given up.
pub fn default_timeout() -> (secs: u64)
    ensures
        secs == 60,
{
    60
}

/// How many memories are kept at most.
pub fn default_max_memories() -> (n: usize)
    ensures
        n == 1000,
{
    1000
}

/// The home directory that `dirs::home_dir` reports, as text. It depends
/// on the environment, so nothing is claimed of it.
#[verifier::external_body]
pub(crate) fn home_dir() -> Option<String> {
    match dirs::home_dir() {
        Some(path) => Some(path.to_string_lossy().into_owned()),
        None => None,
    }
}

/// `name` under the directory `base`: the two joined by one `/`, unless
/// `base` is empty or ends in `/` already.
pub open spec fn spec_join(base: Seq<char>, name: Seq<char>) -> Seq<char> {
    if base.len() == 0 || base.last() == '/' {
        base + name
    } else {
        base + seq!['/'] + name
    }
}

/// `name` under the directory `base`. `name` is taken as relative.
pub fn join_path(base: &str, name: &str) -> (path: String)
    ensures
        path@ == spec_join(base@, name@),
{
    let chars = to_chars(base);
    if chars.len() == 0 || chars[chars.len() - 1] == '/' {
        concat(base, name)
    } else {
        let mut path = base.to_owned();
        path.push('/');
        path.append(name);
        path
    }
}

/// The workspace of a user whose home directory is `home`: `.nanobot` under
/// it, or under `/tmp` where no home directory is known.
pub open spec fn spec_workspace_path(home: Option<Seq<char>>) -> Seq<char> {
    match home {
        Some(h) => spec_join(h, ".nanobot"@),
        None => spec_join("/tmp"@, ".nanobot"@),
    }
}

/// The workspace of a user whose home directory is `home`.
pub fn workspace_path_in(home: Option<String>) -> (path: String)
    ensures
        path@ == spec_workspace_path(home.deep_view()),
{
    match home {
        Some(h) => join_path(h.as_str(), ".nanobot"),
        None => join_path("/tmp", ".nanobot"),
    }
}

/// The workspace of the current user. The home directory is asked of the
/// environment, so the path is that of some home directory, or of `/tmp`.
pub fn default_workspace_path() -> (path: String)
    ensures
        exists|home: Option<Seq<char>>| path@ == spec_workspace_path(home),
{
    let home = home_dir();
    let ghost h = home.deep_view();
    let path = workspace_path_in(home);
    assert(path@ == spec_workspace_path(h));
    path
}

impl AgentConfig {
    /// What the settings are unless they are given.
    pub open spec fn spec_default() -> AgentConfigView {
        AgentConfigView {
            system_prompt: "你是一个有帮助的 AI 助手。你可以使用工具来完成用户的请求。"@,
            max_context: 20,
            default_provider: "openrouter"@,
            default_model: "openrouter/optimus-alpha"@,
        }
    }

    /// A copy.
    pub fn duplicate(&self) -> (r: AgentConfig)
        ensures
            r.deep_view() == self.deep_view(),
    {
        AgentConfig {
            system_prompt: self.system_prompt.clone(),
            max_context: self.max_context,
            default_provider: self.default_provider.clone(),
            default_model: self.default_model.clone(),
        }
    }
}

impl Default for AgentConfig {
    fn default() -> (c: AgentConfig)
        ensures
            c.deep_view() == AgentConfig::spec_default(),
    {
        AgentConfig {
            system_prompt: default_system_prompt(),
            max_context: default_max_context(),
            default_provider: default_provider(),
            default_model: default_model(),
        }
    }
}

impl ProviderConfig {
    /// What the settings are unless they are given.
    pub open spec fn spec_default() -> ProviderConfigView {
        ProviderConfigView { api_key: None, base_url: None, default_model: None, timeout_secs: 0 }
    }

    /// A copy.
    pub fn duplicate(&self) -> (r: ProviderConfig)
        ensures
            r.deep_view() == self.deep_view(),
    {
        ProviderConfig {
            api_key: clone_opt_string(&self.api_key),
            base_url: clone_opt_string(&self.base_url),
            default_model: clone_opt_string(&self.default_model),
            timeout_secs: self.timeout_secs,
        }
    }
}

impl Default for ProviderConfig {
    fn default() -> (c: ProviderConfig)
        ensures
            c.deep_view() == ProviderConfig::spec_default(),
    {
        ProviderConfig { api_key: None, base_url: None, default_model: None, timeout_secs: 0 }
    }
}

impl LlmConfig {
    /// What the settings are unless they are given.
    pub open spec fn spec_default() -> LlmConfigView {
        LlmConfigView {
            openrouter: ProviderConfig::spec_default(),
            deepseek: ProviderConfig::spec_default(),
            moonshot: ProviderConfig::spec_default(),
            minimax: ProviderConfig::spec_default(),
            vllm: ProviderConfig::spec_default(),
            openai: ProviderConfig::spec_default(),
            anthropic: ProviderConfig::spec_default(),
        }
    }
}

impl Default for LlmConfig {
    fn default() -> (c: LlmConfig)
        ensures
            c.deep_view() == LlmConfig::spec_default(),
    {
        LlmConfig {
            openrouter: ProviderConfig::default(),
            deepseek: ProviderConfig::default(),
            moonshot: ProviderConfig::default(),
            minimax: ProviderConfig::default(),
            vllm: ProviderConfig::default(),
            openai: ProviderConfig::default(),
            anthropic: ProviderConfig::default(),
        }
    }
}

/// A copy of a list of numbers.
pub fn clone_u64s(v: &Vec<u64>) -> (r: Vec<u64>)
    ensures
        r@ == v@,
{
    let mut r: Vec<u64> = Vec::new();
    let mut i: usize = 0;
    while i < v.len()
        invariant
            i <= v.len(),
            r@ == v@.take(i as int),
        decreases v.len() - i,
    {
        r.push(v[i]);
        i += 1;
        assert(v@.take(i as int) =~= v@.take(i - 1).push(v@[i - 1]));
    }
    assert(v@.take(v@.len() as int) =~= v@);
    r
}

/// A copy of a list of numbers.
pub fn clone_i64s(v: &Vec<i64>) -> (r: Vec<i64>)
    ensures
        r@ == v@,
{
    let mut r: Vec<i64> = Vec::new();
    let mut i: usize = 0;
    while i < v.len()
        invariant
            i <= v.len(),
            r@ == v@.take(i as int),
        decreases v.len() - i,
    {
        r.push(v[i]);
        i += 1;
        assert(v@.take(i as int) =~= v@.take(i - 1).push(v@[i - 1]));
    }
    assert(v@.take(v@.len() as int) =~= v@);
    r
}

impl TelegramConfig {
    /// What the settings are unless they are given.
    pub open spec fn spec_default() -> TelegramConfigView {
        TelegramConfigView { bot_token: None, allowed_users: Seq::empty(), webhook_url: None }
    }

    /// A copy.
    pub fn duplicate(&self) -> (r: TelegramConfig)
        ensures
            r.deep_view() == self.deep_view(),
    {
        TelegramConfig {
            bot_token: clone_opt_string(&self.bot_token),
            allowed_users: clone_i64s(&self.allowed_users),
            webhook_url: clone_opt_string(&self.webhook_url),
        }
    }
}

impl Default for TelegramConfig {
    fn default() -> (c: TelegramConfig)
        ensures
            c.deep_view() == TelegramConfig::spec_default(),
    {
        TelegramConfig { bot_token: None, allowed_users: Vec::new(), webhook_url: None }
    }
}

impl DiscordConfig {
    /// What the settings are unless they are given.
    pub open spec fn spec_default() -> DiscordConfigView {
        DiscordConfigView {
            bot_token: None,
            application_id: None,
            allowed_guilds: Seq::empty(),
            allowed_channels: Seq::empty(),
            allowed_users: Seq::empty(),
            prefix: Seq::empty(),
            webhook_url: None,
            enable_slash_commands: false,
        }
    }

    /// A copy.
    pub fn duplicate(&self) -> (r: DiscordConfig)
        ensures
            r.deep_view() == self.deep_view(),
    {
        DiscordConfig {
            bot_token: clone_opt_string(&self.bot_token),
            application_id: self.application_id,
            allowed_guilds: clone_u64s(&self.allowed_guilds),
            allowed_channels: clone_u64s(&self.allowed_channels),
            allowed_users: clone_u64s(&self.allowed_users),
            prefix: self.prefix.clone(),
            webhook_url: clone_opt_string(&self.webhook_url),
            enable_slash_commands: self.enable_slash_commands,
        }
    }
}

impl Default for DiscordConfig {
    fn default() -> (c: DiscordConfig)
        ensures
            c.deep_view() == DiscordConfig::spec_default(),
    {
        DiscordConfig {
            bot_token: None,
            application_id: None,
            allowed_guilds: Vec::new(),
            allowed_channels: Vec::new(),
            allowed_users: Vec::new(),
            prefix: String::new(),
            webhook_url: None,
            enable_slash_commands: false,
        }
    }
}

impl FeishuConfig {
    /// What the settings are unless they are given.
    pub open spec fn spec_default() -> FeishuConfigView {
        FeishuConfigView {
            app_id: None,
            app_secret: None,
            verification_token: None,
            encrypt_key: None,
            allowed_users: Seq::empty(),
            allowed_open_ids: Seq::empty(),
            allowed_chats: Seq::empty(),
            verify_signature: false,
            card_template_id: None,
        }
    }

    /// A copy.
    pub fn duplicate(&self) -> (r: FeishuConfig)
        ensures
            r.deep_view() == self.deep_view(),
    {
        FeishuConfig {
            app_id: clone_opt_string(&self.app_id),
            app_secret: clone_opt_string(&self.app_secret),
            verification_token: clone_opt_string(&self.verification_token),
            encrypt_key: clone_opt_string(&self.encrypt_key),
            allowed_users: clone_strings(&self.allowed_users),
            allowed_open_ids: clone_strings(&self.allowed_open_ids),
            allowed_chats: clone_strings(&self.allowed_chats),
            verify_signature: self.verify_signature,
            card_template_id: clone_opt_string(&self.card_template_id),
        }
    }
}

impl Default for FeishuConfig {
    fn default() -> (c: FeishuConfig)
        ensures
            c.deep_view() == FeishuConfig::spec_default(),
    {
        let c = FeishuConfig {
            app_id: None,
            app_secret: None,
            verification_token: None,
            encrypt_key: None,
            allowed_users: Vec::new(),
            allowed_open_ids: Vec::new(),
            allowed_chats: Vec::new(),
            verify_signature: false,
            card_template_id: None,
        };
        assert(c.allowed_users.deep_view() =~= Seq::empty());
        assert(c.allowed_open_ids.deep_view() =~= Seq::empty());
        assert(c.allowed_chats.deep_view() =~= Seq::empty());
        c
    }
}

impl WhatsAppConfig {
    /// What the settings are unless they are given.
    pub open spec fn spec_default() -> WhatsAppConfigView {
        WhatsAppConfigView {
            bridge_url: None,
            allowed_users: Seq::empty(),
            reconnect_interval_secs: 0,
            auto_reconnect: false,
        }
    }

    /// A copy.
    pub fn duplicate(&self) -> (r: WhatsAppConfig)
        ensures
            r.deep_view() == self.deep_view(),
    {
        WhatsAppConfig {
            bridge_url: clone_opt_string(&self.bridge_url),
            allowed_users: clone_strings(&self.allowed_users),
            reconnect_interval_secs: self.reconnect_interval_secs,
            auto_reconnect: self.auto_reconnect,
        }
    }
}

impl Default for WhatsAppConfig {
    fn default() -> (c: WhatsAppConfig)
        ensures
            c.deep_view() == WhatsAppConfig::spec_default(),
    {
        let c = WhatsAppConfig {
            bridge_url: None,
            allowed_users: Vec::new(),
            reconnect_interval_secs: 0,
            auto_reconnect: false,
        };
        assert(c.allowed_users.deep_view() =~= Seq::empty());
        c
    }
}

impl ChannelConfig {
    /// What the settings are unless they are given.
    pub open spec fn spec_default() -> ChannelConfigView {
        ChannelConfigView {
            telegram: TelegramConfig::spec_default(),
            discord: DiscordConfig::spec_default(),
            feishu: FeishuConfig::spec_default(),
            whatsapp: WhatsAppConfig::spec_default(),
        }
    }
}

impl Default for ChannelConfig {
    fn default() -> (c: ChannelConfig)
        ensures
            c.deep_view() == ChannelConfig::spec_default(),
    {
        ChannelConfig {
            telegram: TelegramConfig::default(),
            discord: DiscordConfig::default(),
            feishu: FeishuConfig::default(),
            whatsapp: WhatsAppConfig::default(),
        }
    }
}

impl Default for MemoryConfig {
    fn default() -> (c: MemoryConfig)
        ensures
            c.max_memories == 1000,
            exists|home: Option<Seq<char>>| c.workspace_path@ == spec_workspace_path(home),
    {
        MemoryConfig { workspace_path: default_workspace_path(), max_memories: default_max_memories() }
    }
}

impl ToolsConfig {
    /// What the settings are unless they are given.
    pub open spec fn spec_default() -> ToolsConfigView {
        ToolsConfigView {
            shell_whitelist: seq!["echo"@, "cat"@, "ls"@],
            allowed_paths: seq!["/home"@, "/tmp"@],
            search_api_key: None,
        }
    }

    /// A copy.
    pub fn duplicate(&self) -> (r: ToolsConfig)
        ensures
            r.deep_view() == self.deep_view(),
    {
        ToolsConfig {
            shell_whitelist: clone_strings(&self.shell_whitelist),
            allowed_paths: clone_strings(&self.allowed_paths),
            search_api_key: clone_opt_string(&self.search_api_key),
        }
    }
}

impl Default for ToolsConfig {
    fn default() -> (c: ToolsConfig)
        ensures
            c.deep_view() == ToolsConfig::spec_default(),
    {
        let mut shell_whitelist: Vec<String> = Vec::new();
        shell_whitelist.push("echo".to_owned());
        shell_whitelist.push("cat".to_owned());
        shell_whitelist.push("ls".to_owned());
        let mut allowed_paths: Vec<String> = Vec::new();
        allowed_paths.push("/home".to_owned());
        allowed_paths.push("/tmp".to_owned());
        assert(shell_whitelist.deep_view() =~= seq!["echo"@, "cat"@, "ls"@]);
        assert(allowed_paths.deep_view() =~= seq!["/home"@, "/tmp"@]);
        ToolsConfig { shell_whitelist, allowed_paths, search_api_key: None }
    }
}

impl Default for Config {
    fn default() -> (c: Config)
        ensures
            c.agent.deep_view() == AgentConfig::spec_default(),
            c.llm.deep_view() == LlmConfig::spec_default(),
            c.channel.deep_view() == ChannelConfig::spec_default(),
            c.tools.deep_view() == ToolsConfig::spec_default(),
            c.memory.max_memories == 1000,
            exists|home: Option<Seq<char>>|
                c.memory.workspace_path@ == spec_workspace_path(home),
    {
        Config {
            agent: AgentConfig::default(),
            llm: LlmConfig::default(),
            channel: ChannelConfig::default(),
            memory: MemoryConfig::default(),
            tools: ToolsConfig::default(),
        }
    }
}

/// What the environment sets, by the name of the variable. A variable that
/// is set stands above what the configuration file says.
#[derive(Debug)]
pub struct EnvOverrides {
    /// `OPENROUTER_API_KEY`
    pub openrouter_api_key: Option<String>,
    /// `DEEPSEEK_API_KEY`
    pub deepseek_api_key: Option<String>,
    /// `MOONSHOT_API_KEY`
    pub moonshot_api_key: Option<String>,
    /// `VLLM_BASE_URL`
    pub vllm_base_url: Option<String>,
    /// `VLLM_API_KEY`
    pub vllm_api_key: Option<String>,
    /// `OPENAI_API_KEY`
    pub openai_api_key: Option<String>,
    /// `ANTHROPIC_API_KEY`
    pub anthropic_api_key: Option<String>,
    /// `TELEGRAM_BOT_TOKEN`
    pub telegram_bot_token: Option<String>,
    /// `DISCORD_BOT_TOKEN`
    pub discord_bot_token: Option<String>,
    /// `DISCORD_APPLICATION_ID`
    pub discord_application_id: Option<String>,
    /// `FEISHU_APP_ID`
    pub feishu_app_id: Option<String>,
    /// `FEISHU_APP_SECRET`
    pub feishu_app_secret: Option<String>,
    /// `FEISHU_VERIFICATION_TOKEN`
    pub feishu_verification_token: Option<String>,
    /// `FEISHU_ENCRYPT_KEY`
    pub feishu_encrypt_key: Option<String>,
    /// `WHATSAPP_BRIDGE_URL`
    pub whatsapp_bridge_url: Option<String>,
    /// `SEARCH_API_KEY`
    pub search_api_key: Option<String>,
}

/// `value`, unless the environment sets `over`.
pub open spec fn overridden(value: Option<Seq<char>>, over: Option<Seq<char>>) -> Option<Seq<char>> {
    match over {
        Some(o) => Some(o),
        None => value,
    }
}

fn override_with(value: &mut Option<String>, over: &Option<String>)
    ensures
        final(value).deep_view() == overridden(old(value).deep_view(), over.deep_view()),
{
    match over {
        Some(o) => {
            *value = Some(o.clone());
        },
        None => {},
    }
}

impl Default for EnvOverrides {
    fn default() -> (e: EnvOverrides)
        ensures
            e.openrouter_api_key is None,
            e.deepseek_api_key is None,
            e.moonshot_api_key is None,
            e.vllm_base_url is None,
            e.vllm_api_key is None,
            e.openai_api_key is None,
            e.anthropic_api_key is None,
            e.telegram_bot_token is None,
            e.discord_bot_token is None,
            e.discord_application_id is None,
            e.feishu_app_id is None,
            e.feishu_app_secret is None,
            e.feishu_verification_token is None,
            e.feishu_encrypt_key is None,
            e.whatsapp_bridge_url is None,
            e.search_api_key is None,
    {
        EnvOverrides {
            openrouter_api_key: None,
            deepseek_api_key: None,
            moonshot_api_key: None,
            vllm_base_url: None,
            vllm_api_key: None,
            openai_api_key: None,
            anthropic_api_key: None,
            telegram_bot_token: None,
            discord_bot_token: None,
            discord_application_id: None,
            feishu_app_id: None,
            feishu_app_secret: None,
            feishu_verification_token: None,
            feishu_encrypt_key: None,
            whatsapp_bridge_url: None,
            search_api_key: None,
        }
    }
}

impl Config {
    /// The configuration with what the environment sets put above it. The
    /// id of the Discord application is taken only where it is a number.
    pub open spec fn spec_with_overrides(self, env: &EnvOverrides) -> ConfigView {
        let c = self.deep_view();
        ConfigView {
            llm: LlmConfigView {
                openrouter: ProviderConfigView {
                    api_key: overridden(
                        c.llm.openrouter.api_key,
                        env.openrouter_api_key.deep_view(),
                    ),
                    ..c.llm.openrouter
                },
                deepseek: ProviderConfigView {
                    api_key: overridden(c.llm.deepseek.api_key, env.deepseek_api_key.deep_view()),
                    ..c.llm.deepseek
                },
                moonshot: ProviderConfigView {
                    api_key: overridden(c.llm.moonshot.api_key, env.moonshot_api_key.deep_view()),
                    ..c.llm.moonshot
                },
                vllm: ProviderConfigView {
                    api_key: overridden(c.llm.vllm.api_key, env.vllm_api_key.deep_view()),
                    base_url: overridden(c.llm.vllm.base_url, env.vllm_base_url.deep_view()),
                    ..c.llm.vllm
                },
                openai: ProviderConfigView {
                    api_key: overridden(c.llm.openai.api_key, env.openai_api_key.deep_view()),
                    ..c.llm.openai
                },
                anthropic: ProviderConfigView {
                    api_key: overridden(
                        c.llm.anthropic.api_key,
                        env.anthropic_api_key.deep_view(),
                    ),
                    ..c.llm.anthropic
                },
                ..c.llm
            },
            channel: ChannelConfigView {
                telegram: TelegramConfigView {
                    bot_token: overridden(
                        c.channel.telegram.bot_token,
                        env.telegram_bot_token.deep_view(),
                    ),
                    ..c.channel.telegram
                },
                discord: DiscordConfigView {
                    bot_token: overridden(
                        c.channel.discord.bot_token,
                        env.discord_bot_token.deep_view(),
                    ),
                    application_id: match env.discord_application_id {
                        Some(text) => match spec_parse_u64(text@) {
                            Some(id) => Some(id),
                            None => c.channel.discord.application_id,
                        },
                        None => c.channel.discord.application_id,
                    },
                    ..c.channel.discord
                },
                feishu: FeishuConfigView {
                    app_id: overridden(c.channel.feishu.app_id, env.feishu_app_id.deep_view()),
                    app_secret: overridden(
                        c.channel.feishu.app_secret,
                        env.feishu_app_secret.deep_view(),
                    ),
                    verification_token: overridden(
                        c.channel.feishu.verification_token,
                        env.feishu_verification_token.deep_view(),
                    ),
                    encrypt_key: overridden(
                        c.channel.feishu.encrypt_key,
                        env.feishu_encrypt_key.deep_view(),
                    ),
                    ..c.channel.feishu
                },
                whatsapp: WhatsAppConfigView {
                    bridge_url: overridden(
                        c.channel.whatsapp.bridge_url,
                        env.whatsapp_bridge_url.deep_view(),
                    ),
                    ..c.channel.whatsapp
                },
            },
            tools: ToolsConfigView {
                search_api_key: overridden(c.tools.search_api_key, env.search_api_key.deep_view()),
                ..c.tools
            },
            ..c
        }
    }

    /// Puts what the environment sets above what the configuration holds.
    pub fn apply_env_overrides(&mut self, env: &EnvOverrides)
        ensures
            final(self).deep_view() == old(self).spec_with_overrides(env),
    {
        override_with(&mut self.llm.openrouter.api_key, &env.openrouter_api_key);
        override_with(&mut self.llm.deepseek.api_key, &env.deepseek_api_key);
        override_with(&mut self.llm.moonshot.api_key, &env.moonshot_api_key);
        override_with(&mut self.llm.vllm.base_url, &env.vllm_base_url);
        override_with(&mut self.llm.vllm.api_key, &env.vllm_api_key);
        override_with(&mut self.llm.openai.api_key, &env.openai_api_key);
        override_with(&mut self.llm.anthropic.api_key, &env.anthropic_api_key);
        override_with(&mut self.channel.telegram.bot_token, &env.telegram_bot_token);
        override_with(&mut self.channel.discord.bot_token, &env.discord_bot_token);
        match &env.discord_application_id {
            Some(text) => match parse_u64(text.as_str()) {
                Some(id) => {
                    self.channel.discord.application_id = Some(id);
                },
                None => {},
            },
            None => {},
        }
        override_with(&mut self.channel.feishu.app_id, &env.feishu_app_id);
        override_with(&mut self.channel.feishu.app_secret, &env.feishu_app_secret);
        override_with(&mut self.channel.feishu.verification_token, &env.feishu_verification_token);
        override_with(&mut self.channel.feishu.encrypt_key, &env.feishu_encrypt_key);
        override_with(&mut self.channel.whatsapp.bridge_url, &env.whatsapp_bridge_url);
        override_with(&mut self.tools.search_api_key, &env.search_api_key);
    }

    /// The path of the configuration file of a user whose home directory
    /// is `home`.
    pub fn config_path_in(home: &str) -> (path: String)
        ensures
            path@ == spec_join(spec_join(home@, ".nanobot"@), "config.toml"@),
    {
        let dir = join_path(home, ".nanobot");
        join_path(dir.as_str(), "config.toml")
    }

    /// The path of the configuration file of the current user. There is
    /// none where the home directory is not known.
    pub fn default_config_path() -> (r: Result<String, crate::error::NanobotError>)
        ensures
            match r {
                Ok(path) => exists|home: Seq<char>|
                    path@ == spec_join(#[trigger] spec_join(home, ".nanobot"@), "config.toml"@),
                Err(e) => e@ == crate::error::ErrorView::Config("无法获取家目录"@),
            },
    {
        match home_dir() {
            Some(home) => {
                let path = Config::config_path_in(home.as_str());
                assert(path@ == spec_join(spec_join(home@, ".nanobot"@), "config.toml"@));
                Ok(path)
            },
            None => Err(crate::error::NanobotError::Config("无法获取家目录".to_owned())),
        }
    }

    /// What the example holds of the providers.
    pub open spec fn spec_example_llm() -> LlmConfigView {
        let provider = |key: Seq<char>, url: Seq<char>, model: Seq<char>|
            ProviderConfigView {
                api_key: Some(key),
                base_url: Some(url),
                default_model: Some(model),
                timeout_secs: 60,
            };
        LlmConfigView {
            openrouter: provider(
                "your-openrouter-api-key"@,
                "https://openrouter.ai/api/v1"@,
                "openrouter/optimus-alpha"@,
            ),
            deepseek: provider(
                "your-deepseek-api-key"@,
                "https://api.deepseek.com"@,
                "deepseek-chat"@,
            ),
            moonshot: provider(
                "your-moonshot-api-key"@,
                "https://api.moonshot.cn/v1"@,
                "moonshot-v1-8k"@,
            ),
            minimax: ProviderConfig::spec_default(),
            vllm: provider(""@, "http://localhost:8000/v1"@, "default"@),
            openai: ProviderConfig::spec_default(),
            anthropic: ProviderConfig::spec_default(),
        }
    }

    /// What the example holds of the channels.
    pub open spec fn spec_example_channel() -> ChannelConfigView {
        ChannelConfigView {
            telegram: TelegramConfigView {
                bot_token: Some("your-telegram-bot-token"@),
                allowed_users: Seq::empty(),
                webhook_url: None,
            },
            discord: DiscordConfigView {
                bot_token: Some("your-discord-bot-token"@),
                application_id: Some(1234567890123456789u64),
                allowed_guilds: Seq::empty(),
                allowed_channels: Seq::empty(),
                allowed_users: Seq::empty(),
                prefix: "!"@,
                webhook_url: None,
                enable_slash_commands: true,
            },
            feishu: FeishuConfigView {
                app_id: Some("cli_xxxxxxxxxxxxxxxx"@),
                app_secret: Some("xxxxxxxxxxxxxxxxxxxxxxxxxxxxxxxx"@),
                verification_token: Some("xxxxxxxxxxxxxxxxxxxxxxxxxxxxxxxx"@),
                encrypt_key: Some("xxxxxxxxxxxxxxxx"@),
                allowed_users: Seq::empty(),
                allowed_open_ids: Seq::empty(),
                allowed_chats: Seq::empty(),
                verify_signature: true,
                card_template_id: None,
            },
            whatsapp: WhatsAppConfigView {
                bridge_url: Some("ws://localhost:3000"@),
                allowed_users: Seq::empty(),
                reconnect_interval_secs: 5,
                auto_reconnect: true,
            },
        }
    }

    /// A configuration to start from: every provider and channel is filled
    /// in with a place for its secrets.
    pub fn example() -> (c: Config)
        ensures
            c.agent.deep_view() == (AgentConfigView {
                system_prompt: "你是一个有帮助的 AI 助手。"@,
                max_context: 20,
                default_provider: "openrouter"@,
                default_model: "openrouter/optimus-alpha"@,
            }),
            c.llm.deep_view() == Self::spec_example_llm(),
            c.channel.deep_view() == Self::spec_example_channel(),
            c.memory.max_memories == 1000,
            exists|home: Option<Seq<char>>|
                c.memory.workspace_path@ == spec_workspace_path(home),
            c.tools.deep_view() == (ToolsConfigView {
                shell_whitelist: seq!["echo"@, "cat"@, "ls"@, "pwd"@],
                allowed_paths: seq!["/home"@, "/tmp"@],
                search_api_key: Some("your-search-api-key"@),
            }),
    {
        let provider = |key: &str, url: &str, model: &str| -> (p: ProviderConfig)
            ensures
                p.deep_view() == (ProviderConfigView {
                    api_key: Some(key@),
                    base_url: Some(url@),
                    default_model: Some(model@),
                    timeout_secs: 60,
                }),
            {
                ProviderConfig {
                    api_key: Some(key.to_owned()),
                    base_url: Some(url.to_owned()),
                    default_model: Some(model.to_owned()),
                    timeout_secs: 60,
                }
            };
        let mut shell_whitelist: Vec<String> = Vec::new();
        shell_whitelist.push("echo".to_owned());
        shell_whitelist.push("cat".to_owned());
        shell_whitelist.push("ls".to_owned());
        shell_whitelist.push("pwd".to_owned());
        let mut allowed_paths: Vec<String> = Vec::new();
        allowed_paths.push("/home".to_owned());
        allowed_paths.push("/tmp".to_owned());
        assert(shell_whitelist.deep_view() =~= seq!["echo"@, "cat"@, "ls"@, "pwd"@]);
        assert(allowed_paths.deep_view() =~= seq!["/home"@, "/tmp"@]);
        let feishu = FeishuConfig {
            app_id: Some("cli_xxxxxxxxxxxxxxxx".to_owned()),
            app_secret: Some("xxxxxxxxxxxxxxxxxxxxxxxxxxxxxxxx".to_owned()),
            verification_token: Some("xxxxxxxxxxxxxxxxxxxxxxxxxxxxxxxx".to_owned()),
            encrypt_key: Some("xxxxxxxxxxxxxxxx".to_owned()),
            allowed_users: Vec::new(),
            allowed_open_ids: Vec::new(),
            allowed_chats: Vec::new(),
            verify_signature: true,
            card_template_id: None,
        };
        assert(feishu.allowed_users.deep_view() =~= Seq::empty());
        assert(feishu.allowed_open_ids.deep_view() =~= Seq::empty());
        assert(feishu.allowed_chats.deep_view() =~= Seq::empty());
        let whatsapp = WhatsAppConfig {
            bridge_url: Some("ws://localhost:3000".to_owned()),
            allowed_users: Vec::new(),
            reconnect_interval_secs: 5,
            auto_reconnect: true,
        };
        assert(whatsapp.allowed_users.deep_view() =~= Seq::empty());
        Config {
            agent: AgentConfig {
                system_prompt: "你是一个有帮助的 AI 助手。".to_owned(),
                max_context: 20,
                default_provider: "openrouter".to_owned(),
                default_model: "openrouter/optimus-alpha".to_owned(),
            },
            llm: LlmConfig {
                openrouter: provider(
                    "your-openrouter-api-key",
                    "https://openrouter.ai/api/v1",
                    "openrouter/optimus-alpha",
                ),
                deepseek: provider(
                    "your-deepseek-api-key",
                    "https://api.deepseek.com",
                    "deepseek-chat",
                ),
                moonshot: provider(
                    "your-moonshot-api-key",
                    "https://api.moonshot.cn/v1",
                    "moonshot-v1-8k",
                ),
                minimax: ProviderConfig::default(),
                vllm: provider("", "http://localhost:8000/v1", "default"),
                openai: ProviderConfig::default(),
                anthropic: ProviderConfig::default(),
            },
            channel: ChannelConfig {
                telegram: TelegramConfig {
                    bot_token: Some("your-telegram-bot-token".to_owned()),
                    allowed_users: Vec::new(),
                    webhook_url: None,
                },
                discord: DiscordConfig {
                    bot_token: Some("your-discord-bot-token".to_owned()),
                    application_id: Some(1234567890123456789),
                    allowed_guilds: Vec::new(),
                    allowed_channels: Vec::new(),
                    allowed_users: Vec::new(),
                    prefix: "!".to_owned(),
                    webhook_url: None,
                    enable_slash_commands: true,
                },
                feishu,
                whatsapp,
            },
            memory: MemoryConfig { workspace_path: default_workspace_path(), max_memories: 1000 },
            tools: ToolsConfig {
                shell_whitelist,
                allowed_paths,
                search_api_key: Some("your-search-api-key".to_owned()),
            },
        }
    }
}

} // verus!
