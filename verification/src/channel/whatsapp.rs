//! The WhatsApp channel, which talks to a bridge over a WebSocket.

use vstd::prelude::*;
use vstd::string::*;
use crate::channel::Channel;
use crate::config::WhatsAppConfig;
use crate::error::{ErrorView, NanobotError};
use crate::text::{concat, contains_str, from_chars, str_eq, to_chars};

verus! {

/// What the bridge says.
#[derive(Debug)]
pub enum BridgeMessage {
    /// Someone wrote.
    Message { sender: String, content: String },
    /// The connection to WhatsApp changed.
    Status { status: String },
    /// A QR code is to be scanned.
    Qr { qr: String },
    /// The bridge failed.
    Error { error: String },
}

/// What is to be done about a message of the bridge.
#[derive(Debug)]
pub enum BridgeAction {
    /// Hand `content` to the agent and send its answer to `reply_to`.
    Chat { reply_to: String, content: String },
    /// Nothing.
    Ignore,
}

/// Where the first `c` stands in `s`, or the length of `s` where it has
/// none.
pub open spec fn first_index(s: Seq<char>, c: char) -> int
    decreases s.len(),
{
    if s.len() == 0 {
        0
    } else if s[0] == c {
        0
    } else {
        1 + first_index(s.drop_first(), c)
    }
}

/// The phone number of a sender: what stands before the first `@`.
pub open spec fn spec_phone_number(sender: Seq<char>) -> Seq<char> {
    sender.take(first_index(sender, '@'))
}

/// The address of `target`: the target itself if it holds an `@`, and else
/// the target at WhatsApp's own domain.
pub open spec fn spec_address(target: Seq<char>) -> Seq<char> {
    if target.contains('@') {
        target
    } else {
        target + "@s.whatsapp.net"@
    }
}

/// What the agent is given for `content`: a note in place of a voice
/// message, which cannot be transcribed.
pub open spec fn spec_chat_content(content: Seq<char>) -> Seq<char> {
    if content == "[Voice Message]"@ {
        "[语音消息: 暂不支持转录]"@
    } else {
        content
    }
}

proof fn lemma_first_index(s: Seq<char>, c: char)
    ensures
        0 <= first_index(s, c) <= s.len(),
        first_index(s, c) < s.len() ==> s[first_index(s, c)] == c,
        forall|i: int| 0 <= i < first_index(s, c) ==> s[i] != c,
    decreases s.len(),
{
    if s.len() > 0 && s[0] != c {
        lemma_first_index(s.drop_first(), c);
        assert forall|i: int| 0 <= i < first_index(s, c) implies s[i] != c by {
            if i > 0 {
                assert(s.drop_first()[i - 1] == s[i]);
            }
        }
    }
}

fn index_of_char(v: &Vec<char>, c: char) -> (r: usize)
    ensures
        r == first_index(v@, c),
        r <= v.len(),
{
    let mut i: usize = 0;
    let ghost s = v@;
    assert(s.skip(0) =~= s);
    while i < v.len() && v[i] != c
        invariant
            i <= v.len(),
            s == v@,
            first_index(s, c) == i + first_index(s.skip(i as int), c),
        decreases v.len() - i,
    {
        assert(s.skip(i as int)[0] == s[i as int]);
        assert(s.skip(i as int).drop_first() =~= s.skip(i + 1));
        i += 1;
    }
    proof {
        if i < v.len() {
            assert(s.skip(i as int)[0] == s[i as int]);
        } else {
            assert(s.skip(i as int).len() == 0);
        }
    }
    i
}

/// The WhatsApp channel: what it is set up with, and how it stands.
#[derive(Debug)]
pub struct WhatsAppChannel {
    pub config: WhatsAppConfig,
    /// Whether the bridge has reported a connection to WhatsApp.
    pub connected: bool,
    pub running: bool,
}

impl WhatsAppChannel {
    /// The channel set up with `config`. There is no channel without the
    /// address of the bridge.
    pub fn new(config: WhatsAppConfig) -> (r: Result<WhatsAppChannel, NanobotError>)
        ensures
            match r {
                Ok(c) => config.bridge_url is Some && c.config == config && !c.running
                    && !c.connected,
                Err(e) => config.bridge_url is None && e@ == ErrorView::Channel(
                    "WhatsApp Bridge URL 未配置"@,
                ),
            },
    {
        if config.bridge_url.is_none() {
            return Err(NanobotError::Channel("WhatsApp Bridge URL 未配置".to_owned()));
        }
        Ok(WhatsAppChannel { config, connected: false, running: false })
    }

    /// Whether the phone number may talk to the agent: every number may
    /// where none is listed.
    pub fn is_allowed(&self, phone_number: &str) -> (b: bool)
        ensures
            b == (self.config.allowed_users@.len() == 0
                || self.config.allowed_users.deep_view().contains(phone_number@)),
    {
        if self.config.allowed_users.len() == 0 {
            return true;
        }
        contains_str(&self.config.allowed_users, phone_number)
    }

    /// The phone number of `sender`.
    pub fn phone_number(sender: &str) -> (number: String)
        ensures
            number@ == spec_phone_number(sender@),
    {
        let chars = to_chars(sender);
        let at = index_of_char(&chars, '@');
        assert(chars@.subrange(0, at as int) =~= chars@.take(at as int));
        from_chars(&chars, 0, at)
    }

    /// The address that a message to `target` is sent to.
    pub fn address(target: &str) -> (to: String)
        ensures
            to@ == spec_address(target@),
    {
        let chars = to_chars(target);
        let at = index_of_char(&chars, '@');
        proof {
            lemma_first_index(chars@, '@');
            if at < chars.len() {
                assert(chars@.contains('@'));
            } else if chars@.contains('@') {
                let k = choose|k: int| 0 <= k < chars@.len() && chars@[k] == '@';
                assert(chars@[k] != '@');
            }
        }
        if at < chars.len() {
            target.to_owned()
        } else {
            concat(target, "@s.whatsapp.net")
        }
    }

    /// What is to be done about `message`, and what becomes of the
    /// channel: a message of a sender who may talk to the agent is handed
    /// on, a status says whether WhatsApp is connected, and nothing else
    /// matters.
    pub fn handle_bridge_message(&mut self, message: BridgeMessage) -> (action: BridgeAction)
        ensures
            final(self).config == old(self).config,
            final(self).running == old(self).running,
            final(self).connected == (match message {
                BridgeMessage::Status { status } => if status@ == "connected"@ {
                    true
                } else if status@ == "disconnected"@ {
                    false
                } else {
                    old(self).connected
                },
                _ => old(self).connected,
            }),
            match message {
                BridgeMessage::Message { sender, content } => if old(self).config.allowed_users@.len() == 0 || old(self).config.allowed_users.deep_view().contains(spec_phone_number(sender@)) {
                    action matches BridgeAction::Chat { reply_to, content: text } && reply_to@
                        == sender@ && text@ == spec_chat_content(content@)
                } else {
                    action is Ignore
                },
                _ => action is Ignore,
            },
    {
        match message {
            BridgeMessage::Message { sender, content } => {
                let number = WhatsAppChannel::phone_number(sender.as_str());
                if !self.is_allowed(number.as_str()) {
                    return BridgeAction::Ignore;
                }
                let content = if str_eq(content.as_str(), "[Voice Message]") {
                    "[语音消息: 暂不支持转录]".to_owned()
                } else {
                    content
                };
                BridgeAction::Chat { reply_to: sender, content }
            },
            BridgeMessage::Status { status } => {
                if str_eq(status.as_str(), "connected") {
                    self.connected = true;
                } else if str_eq(status.as_str(), "disconnected") {
                    self.connected = false;
                }
                BridgeAction::Ignore
            },
            BridgeMessage::Qr { .. } => BridgeAction::Ignore,
            BridgeMessage::Error { .. } => BridgeAction::Ignore,
        }
    }

    /// What a sender is told whose turn failed for `reason`.
    pub fn error_reply(reason: &str) -> (text: String)
        ensures
            text@ == "❌ 错误: "@ + reason@,
    {
        concat("❌ 错误: ", reason)
    }

    /// Takes note that the connection to the bridge stands.
    pub fn connection_opened(&mut self)
        ensures
            final(self).config == old(self).config,
            final(self).connected == old(self).connected,
            final(self).running,
    {
        self.running = true;
    }

    /// Takes note that the connection to the bridge is gone.
    pub fn connection_closed(&mut self)
        ensures
            final(self).config == old(self).config,
            !final(self).connected,
            !final(self).running,
    {
        self.running = false;
        self.connected = false;
    }

    /// After how many seconds the bridge is tried again when a connection
    /// ended and the channel was running until then, or failed to be made:
    /// it is tried again only if the channel reconnects by itself and was
    /// not stopped.
    pub fn reconnect_after(&self, failed: bool) -> (delay: Option<u64>)
        ensures
            delay == if self.config.auto_reconnect && (self.running || failed) {
                Some(self.config.reconnect_interval_secs)
            } else {
                None
            },
    {
        if self.config.auto_reconnect && (self.running || failed) {
            Some(self.config.reconnect_interval_secs)
        } else {
            None
        }
    }
}

impl Channel for WhatsAppChannel {
    fn name(&self) -> (name: &str)
        ensures
            name@ == "whatsapp"@,
    {
        "whatsapp"
    }
}

} // verus!
