//! The Discord channel.

use vstd::prelude::*;
use vstd::string::*;
use crate::channel::{allowed_by, is_listed, spec_split, split_text, Channel};
use crate::config::DiscordConfig;
use crate::error::{ErrorView, NanobotError};
use crate::number::{decimal, parse_u64, spec_parse_u64, u64_text};
use crate::text::concat3;

verus! {

/// How long a message to Discord may be.
pub const DISCORD_MESSAGE_LIMIT: usize = 2000;

/// The Discord channel: what it is set up with, and whether it runs.
#[derive(Debug)]
pub struct DiscordChannel {
    pub config: DiscordConfig,
    pub running: bool,
}

impl DiscordChannel {
    /// The channel set up with `config`. There is no channel without a
    /// bot token.
    pub fn new(config: DiscordConfig) -> (r: Result<DiscordChannel, NanobotError>)
        ensures
            match r {
                Ok(c) => config.bot_token is Some && c.config == config && !c.running,
                Err(e) => config.bot_token is None && e@ == ErrorView::Channel(
                    "Discord Bot Token 未配置"@,
                ),
            },
    {
        if config.bot_token.is_none() {
            return Err(NanobotError::Channel("Discord Bot Token 未配置".to_owned()));
        }
        Ok(DiscordChannel { config, running: false })
    }

    /// Whether the server `guild_id` is served.
    pub fn is_guild_allowed(&self, guild_id: u64) -> (b: bool)
        ensures
            b == allowed_by(self.config.allowed_guilds@, guild_id),
    {
        is_listed(&self.config.allowed_guilds, guild_id)
    }

    /// Whether the channel `channel_id` is served.
    pub fn is_channel_allowed(&self, channel_id: u64) -> (b: bool)
        ensures
            b == allowed_by(self.config.allowed_channels@, channel_id),
    {
        is_listed(&self.config.allowed_channels, channel_id)
    }

    /// Whether the user `user_id` is served.
    pub fn is_user_allowed(&self, user_id: u64) -> (b: bool)
        ensures
            b == allowed_by(self.config.allowed_users@, user_id),
    {
        is_listed(&self.config.allowed_users, user_id)
    }

    /// `content` in pieces of at most `max_length` characters, cut behind a
    /// line feed or a blank where that can be done.
    pub fn split_message(content: &str, max_length: usize) -> (pieces: Vec<String>)
        requires
            max_length > 0,
        ensures
            pieces.deep_view() == spec_split(content@, max_length as int, true),
    {
        split_text(content, max_length, true)
    }

    /// Takes note that the channel runs, or does not.
    pub fn set_running(&mut self, running: bool)
        ensures
            final(self).config == old(self).config,
            final(self).running == running,
    {
        self.running = running;
    }

    /// The pieces to send for a message with `content` to `target`. The
    /// target has to be the number of a channel that is served.
    pub fn send_message(&self, target: &str, content: &str) -> (r: Result<Vec<String>, NanobotError>)
        ensures
            match r {
                Ok(pieces) => spec_parse_u64(target@) matches Some(id) && allowed_by(
                    self.config.allowed_channels@,
                    id,
                ) && pieces.deep_view() == spec_split(content@, DISCORD_MESSAGE_LIMIT as int, true),
                Err(e) => match spec_parse_u64(target@) {
                    None => e@ == ErrorView::Channel("无效的 Discord Channel ID"@),
                    Some(id) => !allowed_by(self.config.allowed_channels@, id) && e@
                        == ErrorView::Channel("频道 "@ + decimal(id as nat) + " 不在白名单中"@),
                },
            },
    {
        let channel_id = match parse_u64(target) {
            Some(id) => id,
            None => {
                return Err(NanobotError::Channel("无效的 Discord Channel ID".to_owned()));
            },
        };
        if !self.is_channel_allowed(channel_id) {
            let number = u64_text(channel_id);
            return Err(NanobotError::Channel(concat3("频道 ", number.as_str(), " 不在白名单中")));
        }
        Ok(DiscordChannel::split_message(content, DISCORD_MESSAGE_LIMIT))
    }
}

impl Channel for DiscordChannel {
    fn name(&self) -> (name: &str)
        ensures
            name@ == "discord"@,
    {
        "discord"
    }
}

} // verus!
