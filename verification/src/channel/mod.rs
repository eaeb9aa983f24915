//! Channels: the chat platforms that messages come from and go to. The
//! library holds what a channel is set up with and the rules it applies to
//! a message; talking to the platform is left to the program around it.

use vstd::prelude::*;
use vstd::string::*;
use crate::channel::discord::DiscordChannel;
use crate::channel::feishu::FeishuChannel;
use crate::channel::telegram::TelegramChannel;
use crate::channel::whatsapp::WhatsAppChannel;
use crate::config::Config;
use crate::error::{ErrorView, NanobotError};
use crate::text::{concat, from_chars, str_eq, to_chars};

pub mod discord;
pub mod feishu;
pub mod telegram;
pub mod whatsapp;

verus! {

/// What a piece of media is.
#[derive(Debug, Clone, Copy, PartialEq, Eq, Structural)]
pub enum MediaType {
    Image,
    Audio,
    File,
}

/// A piece of media to send.
#[derive(Debug)]
pub struct Media {
    pub media_type: MediaType,
    /// Where the media is on disk.
    pub path: Option<String>,
    /// Where the media is on the web.
    pub url: Option<String>,
    pub name: Option<String>,
}

impl Media {
    /// An image.
    pub fn new_image(path: Option<String>, url: Option<String>, name: Option<String>) -> (m: Media)
        ensures
            m.media_type == MediaType::Image,
            m.path == path,
            m.url == url,
            m.name == name,
    {
        Media { media_type: MediaType::Image, path, url, name }
    }

    /// A piece of audio.
    pub fn new_audio(path: Option<String>, url: Option<String>, name: Option<String>) -> (m: Media)
        ensures
            m.media_type == MediaType::Audio,
            m.path == path,
            m.url == url,
            m.name == name,
    {
        Media { media_type: MediaType::Audio, path, url, name }
    }

    /// A file of any other kind.
    pub fn new_file(path: Option<String>, url: Option<String>, name: Option<String>) -> (m: Media)
        ensures
            m.media_type == MediaType::File,
            m.path == path,
            m.url == url,
            m.name == name,
    {
        Media { media_type: MediaType::File, path, url, name }
    }
}

/// A chat platform, as far as the library reads it. Starting, stopping and
/// sending are left to the program around the library.
pub trait Channel {
    /// The name that the channel is selected by.
    fn name(&self) -> &str;
}

/// The text that reports that a channel cannot send media.
pub fn media_unsupported(channel: &str) -> (text: String)
    ensures
        text@ == channel@ + " 不支持发送媒体消息"@,
{
    concat(channel, " 不支持发送媒体消息")
}

/// One of the channels that can be selected by name.
#[derive(Debug)]
pub enum AnyChannel {
    Telegram(TelegramChannel),
    Discord(DiscordChannel),
    Feishu(FeishuChannel),
    WhatsApp(WhatsAppChannel),
}

impl AnyChannel {
    /// The name of the channel.
    pub open spec fn spec_name(&self) -> Seq<char> {
        match self {
            AnyChannel::Telegram(_) => "telegram"@,
            AnyChannel::Discord(_) => "discord"@,
            AnyChannel::Feishu(_) => "feishu"@,
            AnyChannel::WhatsApp(_) => "whatsapp"@,
        }
    }
}

impl Channel for AnyChannel {
    fn name(&self) -> (name: &str)
        ensures
            name@ == self.spec_name(),
    {
        match self {
            AnyChannel::Telegram(c) => c.name(),
            AnyChannel::Discord(c) => c.name(),
            AnyChannel::Feishu(c) => c.name(),
            AnyChannel::WhatsApp(c) => c.name(),
        }
    }
}

/// Makes channels from their names and the configuration.
#[derive(Debug)]
pub struct ChannelFactory;

impl ChannelFactory {
    /// The failure that `create` reports for the channel `name`, if it
    /// reports one: the channel is not known, or the configuration lacks
    /// what it needs.
    pub open spec fn refusal(name: Seq<char>, config: &Config) -> Option<Seq<char>> {
        if name == "telegram"@ {
            if config.channel.telegram.bot_token is None {
                Some("Telegram Bot Token 未配置"@)
            } else {
                None
            }
        } else if name == "discord"@ {
            if config.channel.discord.bot_token is None {
                Some("Discord Bot Token 未配置"@)
            } else {
                None
            }
        } else if name == "feishu"@ {
            if config.channel.feishu.app_id is None || config.channel.feishu.app_secret is None {
                Some("飞书 App ID 或 App Secret 未配置"@)
            } else {
                None
            }
        } else if name == "whatsapp"@ {
            if config.channel.whatsapp.bridge_url is None {
                Some("WhatsApp Bridge URL 未配置"@)
            } else {
                None
            }
        } else {
            Some("未知的通道: "@ + name)
        }
    }

    /// The channel named `name`, set up from `config`.
    pub fn create(name: &str, config: &Config) -> (r: Result<AnyChannel, NanobotError>)
        ensures
            match r {
                Ok(channel) => {
                    &&& Self::refusal(name@, config) is None
                    &&& channel.spec_name() == name@
                    &&& match channel {
                        AnyChannel::Telegram(c) => c.config.deep_view()
                            == config.channel.telegram.deep_view(),
                        AnyChannel::Discord(c) => c.config.deep_view()
                            == config.channel.discord.deep_view(),
                        AnyChannel::Feishu(c) => c.config.deep_view()
                            == config.channel.feishu.deep_view(),
                        AnyChannel::WhatsApp(c) => c.config.deep_view()
                            == config.channel.whatsapp.deep_view(),
                    }
                },
                Err(e) => Self::refusal(name@, config) matches Some(text) && e@
                    == ErrorView::Channel(text),
            },
    {
        if str_eq(name, "telegram") {
            match TelegramChannel::new(config.channel.telegram.duplicate()) {
                Ok(c) => Ok(AnyChannel::Telegram(c)),
                Err(e) => Err(e),
            }
        } else if str_eq(name, "discord") {
            match DiscordChannel::new(config.channel.discord.duplicate()) {
                Ok(c) => Ok(AnyChannel::Discord(c)),
                Err(e) => Err(e),
            }
        } else if str_eq(name, "feishu") {
            match FeishuChannel::new(config.channel.feishu.duplicate()) {
                Ok(c) => Ok(AnyChannel::Feishu(c)),
                Err(e) => Err(e),
            }
        } else if str_eq(name, "whatsapp") {
            match WhatsAppChannel::new(config.channel.whatsapp.duplicate()) {
                Ok(c) => Ok(AnyChannel::WhatsApp(c)),
                Err(e) => Err(e),
            }
        } else {
            Err(NanobotError::Channel(concat("未知的通道: ", name)))
        }
    }
}

/// The channels that are served, in the order in which they are started.
#[derive(Debug)]
pub struct ChannelManager {
    pub channels: Vec<AnyChannel>,
}

impl ChannelManager {
    /// A manager without channels.
    pub fn new() -> (m: ChannelManager)
        ensures
            m.channels@.len() == 0,
    {
        ChannelManager { channels: Vec::new() }
    }

    /// Adds `channel` after the channels that are there.
    pub fn register(&mut self, channel: AnyChannel)
        ensures
            final(self).channels@ == old(self).channels@.push(channel),
    {
        self.channels.push(channel);
    }

    /// The names of the channels, in the order in which they are started
    /// and stopped.
    pub fn names(&self) -> (names: Vec<&str>)
        ensures
            names.len() == self.channels@.len(),
            forall|i: int|
                0 <= i < names.len() ==> (#[trigger] names@[i])@ == self.channels@[i].spec_name(),
    {
        let mut names: Vec<&str> = Vec::new();
        let mut i: usize = 0;
        while i < self.channels.len()
            invariant
                i <= self.channels.len(),
                names.len() == i,
                forall|k: int|
                    0 <= k < i ==> (#[trigger] names@[k])@ == self.channels@[k].spec_name(),
            decreases self.channels.len() - i,
        {
            names.push(self.channels[i].name());
            i += 1;
        }
        names
    }
}

/// Where the last `c` before `to` stands in `s`, not before `from`.
pub open spec fn last_index(s: Seq<char>, from: int, to: int, c: char) -> Option<int>
    decreases to - from,
{
    if to <= from {
        None
    } else if s[to - 1] == c {
        Some(to - 1)
    } else {
        last_index(s, from, to - 1, c)
    }
}

/// Where the piece that begins at `start` and could reach to `end` is cut:
/// behind its last line feed; without one, behind its last blank, if pieces
/// are cut at blanks; else at `end`. The last piece is not cut.
pub open spec fn cut_point(s: Seq<char>, start: int, end: int, at_blanks: bool) -> int {
    if end < s.len() {
        match last_index(s, start, end, '\n') {
            Some(p) => p + 1,
            None => if at_blanks {
                match last_index(s, start, end, ' ') {
                    Some(p) => p + 1,
                    None => end,
                }
            } else {
                end
            },
        }
    } else {
        end
    }
}

/// The pieces of `s` from `start` on, each of at most `max` characters.
pub open spec fn pieces_from(s: Seq<char>, start: int, max: int, at_blanks: bool) -> Seq<Seq<char>>
    decreases s.len() - start,
{
    if start >= s.len() || start < 0 {
        Seq::empty()
    } else {
        let end = if start + max < s.len() {
            start + max
        } else {
            s.len() as int
        };
        let cut = cut_point(s, start, end, at_blanks);
        if start < cut <= s.len() {
            seq![s.subrange(start, cut)] + pieces_from(s, cut, max, at_blanks)
        } else {
            seq![s.skip(start)]
        }
    }
}

/// A text in pieces of at most `max` characters: the text itself where it
/// is short enough, and else pieces that end behind a line feed, or a
/// blank, where they can.
pub open spec fn spec_split(s: Seq<char>, max: int, at_blanks: bool) -> Seq<Seq<char>> {
    if s.len() <= max {
        seq![s]
    } else {
        pieces_from(s, 0, max, at_blanks)
    }
}

/// The pieces of a text, one after the other.
pub open spec fn joined(pieces: Seq<Seq<char>>) -> Seq<char>
    decreases pieces.len(),
{
    if pieces.len() == 0 {
        Seq::empty()
    } else {
        pieces[0] + joined(pieces.drop_first())
    }
}

proof fn lemma_last_index(s: Seq<char>, from: int, to: int, c: char)
    requires
        0 <= from,
        to <= s.len(),
    ensures
        match last_index(s, from, to, c) {
            Some(p) => from <= p < to && s[p] == c && forall|k: int| p < k < to ==> s[k] != c,
            None => forall|k: int| from <= k < to ==> s[k] != c,
        },
    decreases to - from,
{
    if to > from && s[to - 1] != c {
        lemma_last_index(s, from, to - 1, c);
    }
}

proof fn lemma_cut_point(s: Seq<char>, start: int, end: int, at_blanks: bool)
    requires
        0 <= start < end <= s.len(),
    ensures
        start < cut_point(s, start, end, at_blanks) <= end,
{
    lemma_last_index(s, start, end, '\n');
    lemma_last_index(s, start, end, ' ');
}

/// The pieces of a text, put together, are the text, and no piece is
/// longer than `max` or empty.
pub proof fn law_pieces_restore(s: Seq<char>, start: int, max: int, at_blanks: bool)
    requires
        0 <= start <= s.len(),
        max > 0,
    ensures
        joined(pieces_from(s, start, max, at_blanks)) == s.skip(start),
        forall|i: int|
            0 <= i < pieces_from(s, start, max, at_blanks).len() ==> 0 < (
            #[trigger] pieces_from(s, start, max, at_blanks)[i]).len() <= max,
    decreases s.len() - start,
{
    let pieces = pieces_from(s, start, max, at_blanks);
    if start >= s.len() {
        assert(s.skip(start) =~= Seq::<char>::empty());
    } else {
        let end = if start + max < s.len() {
            start + max
        } else {
            s.len() as int
        };
        lemma_cut_point(s, start, end, at_blanks);
        let cut = cut_point(s, start, end, at_blanks);
        law_pieces_restore(s, cut, max, at_blanks);
        let rest = pieces_from(s, cut, max, at_blanks);
        assert(pieces == seq![s.subrange(start, cut)] + rest);
        assert(pieces.drop_first() =~= rest);
        assert(s.subrange(start, cut) + s.skip(cut) =~= s.skip(start));
        assert forall|i: int| 0 <= i < pieces.len() implies 0 < (#[trigger] pieces[i]).len()
            <= max by {
            if i > 0 {
                assert(pieces[i] == rest[i - 1]);
            }
        }
    }
}

/// A text that is split is restored by putting its pieces together, and
/// no piece of a text that had to be split is longer than `max`.
pub proof fn law_split_restores(s: Seq<char>, max: int, at_blanks: bool)
    requires
        max > 0,
    ensures
        joined(spec_split(s, max, at_blanks)) == s,
        forall|i: int|
            0 <= i < spec_split(s, max, at_blanks).len() ==> (#[trigger] spec_split(
                s,
                max,
                at_blanks,
            )[i]).len() <= max,
        s.len() <= max ==> spec_split(s, max, at_blanks) == seq![s],
{
    if s.len() <= max {
        let one = seq![s];
        assert(one.drop_first() =~= Seq::<Seq<char>>::empty());
        assert(joined(one.drop_first()) =~= Seq::<char>::empty());
        assert(joined(one) =~= s);
    } else {
        law_pieces_restore(s, 0, max, at_blanks);
        assert(s.skip(0) =~= s);
    }
}

fn find_last(v: &Vec<char>, from: usize, to: usize, c: char) -> (r: Option<usize>)
    requires
        from <= to <= v.len(),
    ensures
        last_index(v@, from as int, to as int, c) == (match r {
            Some(p) => Some(p as int),
            None => None,
        }),
        r matches Some(p) ==> from <= p < to,
{
    let mut i: usize = to;
    while i > from
        invariant
            from <= i <= to <= v.len(),
            last_index(v@, from as int, to as int, c) == last_index(v@, from as int, i as int, c),
        decreases i,
    {
        if v[i - 1] == c {
            return Some(i - 1);
        }
        i -= 1;
    }
    None
}

/// A text in pieces of at most `max_length` characters. Pieces end behind
/// a line feed where they can, or behind a blank if `at_blanks` is set.
pub fn split_text(content: &str, max_length: usize, at_blanks: bool) -> (pieces: Vec<String>)
    requires
        max_length > 0,
    ensures
        pieces.deep_view() == spec_split(content@, max_length as int, at_blanks),
{
    let chars = to_chars(content);
    let mut pieces: Vec<String> = Vec::new();
    if chars.len() <= max_length {
        pieces.push(content.to_owned());
        assert(pieces.deep_view() =~= seq![content@]);
        return pieces;
    }
    let ghost s = chars@;
    let ghost max = max_length as int;
    let mut start: usize = 0;
    assert(pieces.deep_view() =~= Seq::<Seq<char>>::empty());
    assert(pieces.deep_view() + pieces_from(s, 0, max, at_blanks) =~= pieces_from(
        s,
        0,
        max,
        at_blanks,
    ));
    while start < chars.len()
        invariant
            start <= chars.len(),
            s == chars@,
            max == max_length as int,
            max > 0,
            pieces.deep_view() + pieces_from(s, start as int, max, at_blanks) == pieces_from(
                s,
                0,
                max,
                at_blanks,
            ),
        decreases chars.len() - start,
    {
        let end: usize = if max_length < chars.len() - start {
            start + max_length
        } else {
            chars.len()
        };
        let cut: usize = if end < chars.len() {
            match find_last(&chars, start, end, '\n') {
                Some(p) => p + 1,
                None => {
                    if at_blanks {
                        match find_last(&chars, start, end, ' ') {
                            Some(p) => p + 1,
                            None => end,
                        }
                    } else {
                        end
                    }
                },
            }
        } else {
            end
        };
        proof {
            lemma_cut_point(s, start as int, end as int, at_blanks);
        }
        let ghost before = pieces.deep_view();
        let piece = from_chars(&chars, start, cut);
        let ghost p = piece@;
        pieces.push(piece);
        proof {
            assert(pieces.deep_view() =~= before.push(p));
            let rest = pieces_from(s, cut as int, max, at_blanks);
            assert(pieces_from(s, start as int, max, at_blanks) == seq![p] + rest);
            assert(before.push(p) + rest =~= before + (seq![p] + rest));
        }
        start = cut;
    }
    assert(pieces.deep_view() + Seq::<Seq<char>>::empty() =~= pieces.deep_view());
    pieces
}

/// Whether `id` may pass a list of allowed ids: every id passes an empty
/// list.
pub open spec fn allowed_by(list: Seq<u64>, id: u64) -> bool {
    list.len() == 0 || list.contains(id)
}

/// Whether `id` may pass the list `list`.
pub fn is_listed(list: &Vec<u64>, id: u64) -> (b: bool)
    ensures
        b == allowed_by(list@, id),
{
    if list.len() == 0 {
        return true;
    }
    let mut i: usize = 0;
    while i < list.len()
        invariant
            i <= list.len(),
            forall|k: int| 0 <= k < i ==> list@[k] != id,
        decreases list.len() - i,
    {
        if list[i] == id {
            return true;
        }
        i += 1;
    }
    false
}

} // verus!
