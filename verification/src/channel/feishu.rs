//! The Feishu channel.

use vstd::prelude::*;
use vstd::string::*;
use crate::channel::Channel;
use crate::config::FeishuConfig;
use crate::error::{ErrorView, NanobotError};
use crate::text::{concat3, contains_str, str_eq};

verus! {

/// How many ids of handled messages are remembered.
pub const PROCESSED_LIMIT: usize = 1000;

/// What stands for a message of the kind `msg_type` that is not text.
pub open spec fn spec_msg_type_text(msg_type: Seq<char>) -> Seq<char> {
    if msg_type == "image"@ {
        "[image]"@
    } else if msg_type == "audio"@ {
        "[audio]"@
    } else if msg_type == "file"@ {
        "[file]"@
    } else if msg_type == "sticker"@ {
        "[sticker]"@
    } else {
        "["@ + msg_type + "]"@
    }
}

/// `ids` after `id` is remembered: it comes last, and the oldest id makes
/// room where the limit is reached.
pub open spec fn remembered(ids: Seq<Seq<char>>, id: Seq<char>) -> Seq<Seq<char>> {
    if ids.len() >= PROCESSED_LIMIT {
        ids.drop_first().push(id)
    } else {
        ids.push(id)
    }
}

/// The SHA-256 digest of the UTF-8 bytes of a text.
pub uninterp spec fn sha256_of(text: Seq<char>) -> Seq<u8>;

/// The digest that `sha2::Sha256::digest` computes of the bytes of `text`:
/// the 32 bytes that `sha256_of` names, which depend on the text alone.
#[verifier::external_body]
pub(crate) fn sha256(text: &str) -> (digest: Vec<u8>)
    ensures
        digest@ == sha256_of(text@),
        digest@.len() == 32,
{
    <sha2::Sha256 as sha2::Digest>::digest(text.as_bytes()).to_vec()
}

/// The hexadecimal digit of a number below 16, in lower case.
pub open spec fn hex_digit(n: int) -> char {
    if 0 <= n < 16 {
        seq![
            '0',
            '1',
            '2',
            '3',
            '4',
            '5',
            '6',
            '7',
            '8',
            '9',
            'a',
            'b',
            'c',
            'd',
            'e',
            'f',
        ][n]
    } else {
        '0'
    }
}

/// Bytes in hexadecimal digits: two for each byte, the upper half first.
pub open spec fn hex_text(bytes: Seq<u8>) -> Seq<char> {
    Seq::new(
        2 * bytes.len(),
        |i: int|
            hex_digit(
                if i % 2 == 0 {
                    bytes[i / 2] as int / 16
                } else {
                    bytes[i / 2] as int % 16
                },
            ),
    )
}

/// `bytes` as `hex::encode` writes them: every byte as two hexadecimal
/// digits in lower case, the upper half first.
#[verifier::external_body]
pub(crate) fn hex_encode(bytes: &Vec<u8>) -> (text: String)
    ensures
        text@ == hex_text(bytes@),
{
    hex::encode(bytes)
}

/// The signature of a request of the platform: the SHA-256 digest of its
/// time, its nonce, its body and the secret of the app in a row, in
/// hexadecimal digits.
pub open spec fn spec_signature(
    timestamp: Seq<char>,
    nonce: Seq<char>,
    body: Seq<char>,
    secret: Seq<char>,
) -> Seq<char> {
    hex_text(sha256_of(timestamp + nonce + body + secret))
}

/// What reports that a signature cannot be checked without the secret of
/// the app.
pub open spec fn no_secret_text() -> Seq<char> {
    "App Secret 未配置"@
}

/// The Feishu channel: what it is set up with, and what it remembers.
#[derive(Debug)]
pub struct FeishuChannel {
    pub config: FeishuConfig,
    pub running: bool,
    /// The ids of the messages handled last, oldest first.
    pub processed_message_ids: Vec<String>,
}

impl FeishuChannel {
    /// The channel set up with `config`. There is no channel without the
    /// id and the secret of the app.
    pub fn new(config: FeishuConfig) -> (r: Result<FeishuChannel, NanobotError>)
        ensures
            match r {
                Ok(c) => config.app_id is Some && config.app_secret is Some && c.config == config
                    && !c.running && c.processed_message_ids@.len() == 0,
                Err(e) => (config.app_id is None || config.app_secret is None) && e@
                    == ErrorView::Channel("飞书 App ID 或 App Secret 未配置"@),
            },
    {
        if config.app_id.is_none() || config.app_secret.is_none() {
            return Err(NanobotError::Channel("飞书 App ID 或 App Secret 未配置".to_owned()));
        }
        Ok(FeishuChannel { config, running: false, processed_message_ids: Vec::new() })
    }

    /// The signature of a request with the time `timestamp`, the nonce
    /// `nonce` and the body `body`, for an app with the secret `secret`.
    pub fn webhook_signature(timestamp: &str, nonce: &str, body: &str, secret: &str) -> (signature:
        String)
        ensures
            signature@ == spec_signature(timestamp@, nonce@, body@, secret@),
            signature@.len() == 64,
    {
        let mut signed = concat3(timestamp, nonce, body);
        signed.append(secret);
        let digest = sha256(signed.as_str());
        hex_encode(&digest)
    }

    /// Whether `signature` is the signature of the request with the time
    /// `timestamp`, the nonce `nonce` and the body `body`. Without the
    /// secret of the app no signature can be checked.
    pub fn verify_webhook_signature(&self, timestamp: &str, nonce: &str, body: &str, signature: &str) -> (r:
        Result<bool, String>)
        ensures
            match self.config.app_secret {
                Some(secret) => r matches Ok(valid) && valid == (signature@ == spec_signature(
                    timestamp@,
                    nonce@,
                    body@,
                    secret@,
                )),
                None => r matches Err(e) && e@ == no_secret_text(),
            },
    {
        match &self.config.app_secret {
            Some(secret) => {
                let computed = FeishuChannel::webhook_signature(
                    timestamp,
                    nonce,
                    body,
                    secret.as_str(),
                );
                Ok(str_eq(computed.as_str(), signature))
            },
            None => Err("App Secret 未配置".to_owned()),
        }
    }

    /// Whether the message `message_id` was handled before, as far as is
    /// remembered.
    pub fn is_message_processed(&self, message_id: &str) -> (b: bool)
        ensures
            b == self.processed_message_ids.deep_view().contains(message_id@),
    {
        contains_str(&self.processed_message_ids, message_id)
    }

    /// Remembers that the message `message_id` was handled.
    pub fn add_processed_message(&mut self, message_id: &str)
        ensures
            final(self).processed_message_ids.deep_view() == remembered(
                old(self).processed_message_ids.deep_view(),
                message_id@,
            ),
            final(self).config == old(self).config,
            final(self).running == old(self).running,
            old(self).processed_message_ids@.len() <= PROCESSED_LIMIT ==> final(self).processed_message_ids@.len() <= PROCESSED_LIMIT,
    {
        let ghost before = self.processed_message_ids.deep_view();
        if self.processed_message_ids.len() >= PROCESSED_LIMIT {
            self.processed_message_ids.remove(0);
            assert(self.processed_message_ids.deep_view() =~= before.drop_first());
        }
        let ghost mid = self.processed_message_ids.deep_view();
        self.processed_message_ids.push(message_id.to_owned());
        assert(self.processed_message_ids.deep_view() =~= mid.push(message_id@));
    }

    /// Forgets the oldest ids until no more than the limit are remembered.
    pub fn trim_message_cache(&mut self)
        ensures
            final(self).config == old(self).config,
            final(self).running == old(self).running,
            final(self).processed_message_ids.deep_view() == if old(self).processed_message_ids@.len() > PROCESSED_LIMIT {
                old(self).processed_message_ids.deep_view().skip(
                    old(self).processed_message_ids@.len() - PROCESSED_LIMIT,
                )
            } else {
                old(self).processed_message_ids.deep_view()
            },
    {
        let ghost before = self.processed_message_ids.deep_view();
        assert(before.skip(0) =~= before);
        while self.processed_message_ids.len() > PROCESSED_LIMIT
            invariant
                self.config == old(self).config,
                self.running == old(self).running,
                self.processed_message_ids@.len() <= before.len(),
                before.len() > PROCESSED_LIMIT ==> self.processed_message_ids@.len()
                    >= PROCESSED_LIMIT,
                before.len() <= PROCESSED_LIMIT ==> self.processed_message_ids@.len()
                    == before.len(),
                self.processed_message_ids.deep_view() == before.skip(
                    before.len() - self.processed_message_ids@.len(),
                ),
                before == old(self).processed_message_ids.deep_view(),
            decreases self.processed_message_ids.len(),
        {
            let ghost now = self.processed_message_ids.deep_view();
            self.processed_message_ids.remove(0);
            assert(self.processed_message_ids.deep_view() =~= now.drop_first());
            assert(now.drop_first() =~= before.skip(before.len() - now.len() + 1));
        }
        proof {
            assert(before.len() == old(self).processed_message_ids@.len());
            if before.len() > PROCESSED_LIMIT {
                assert(self.processed_message_ids@.len() == PROCESSED_LIMIT);
            } else {
                assert(self.processed_message_ids@.len() == before.len());
                assert(before.skip(0) =~= before);
            }
        }
    }

    /// What stands for a message of the kind `msg_type` that is not text.
    pub fn get_msg_type_text(msg_type: &str) -> (text: String)
        ensures
            text@ == spec_msg_type_text(msg_type@),
    {
        if str_eq(msg_type, "image") {
            "[image]".to_owned()
        } else if str_eq(msg_type, "audio") {
            "[audio]".to_owned()
        } else if str_eq(msg_type, "file") {
            "[file]".to_owned()
        } else if str_eq(msg_type, "sticker") {
            "[sticker]".to_owned()
        } else {
            concat3("[", msg_type, "]")
        }
    }

    /// Whether the user `user_id` is served: every user is where none is
    /// listed.
    pub fn is_user_allowed(&self, user_id: &str) -> (b: bool)
        ensures
            b == (self.config.allowed_users@.len() == 0
                || self.config.allowed_users.deep_view().contains(user_id@)),
    {
        if self.config.allowed_users.len() == 0 {
            return true;
        }
        contains_str(&self.config.allowed_users, user_id)
    }

    /// Whether the open id `open_id` is served: every one is where none is
    /// listed.
    pub fn is_open_id_allowed(&self, open_id: &str) -> (b: bool)
        ensures
            b == (self.config.allowed_open_ids@.len() == 0
                || self.config.allowed_open_ids.deep_view().contains(open_id@)),
    {
        if self.config.allowed_open_ids.len() == 0 {
            return true;
        }
        contains_str(&self.config.allowed_open_ids, open_id)
    }

    /// Whether an incoming message is handed to the agent: it is if its
    /// sender is served and it is text.
    pub fn accepts(&self, sender_open_id: &str, msg_type: &str) -> (b: bool)
        ensures
            b == ((self.config.allowed_open_ids@.len() == 0
                || self.config.allowed_open_ids.deep_view().contains(sender_open_id@)) && msg_type@
                == "text"@),
    {
        self.is_open_id_allowed(sender_open_id) && str_eq(msg_type, "text")
    }

    /// Whether an access token that runs out at `expire_at` is still good
    /// at `now`, both in seconds: it is for up to a minute before it runs
    /// out.
    pub fn token_is_fresh(expire_at: i64, now: i64) -> (b: bool)
        ensures
            b == (now + 60 < expire_at),
    {
        (now as i128) + 60 < expire_at as i128
    }
}

impl Channel for FeishuChannel {
    fn name(&self) -> (name: &str)
        ensures
            name@ == "feishu"@,
    {
        "feishu"
    }
}

} // verus!
