//! Sessions: who talks to the agent over which channel, what was counted
//! of the talk, and when a session counts as idle.

use vstd::prelude::*;
use vstd::string::*;
use crate::clock::{fresh_id, now_millis};
use crate::json::clone_value;
use crate::text::str_eq;

verus! {

/// Where a session stands.
#[derive(Debug, Clone, Copy, PartialEq, Eq, Structural)]
pub enum SessionState {
    Active,
    /// Without activity for a while.
    Idle,
    Paused,
    Ended,
}

impl SessionState {
    /// The name of the state in durable storage.
    pub fn as_str(self) -> (name: &'static str)
        ensures
            name@ == (match self {
                SessionState::Active => "active"@,
                SessionState::Idle => "idle"@,
                SessionState::Paused => "paused"@,
                SessionState::Ended => "ended"@,
            }),
    {
        match self {
            SessionState::Active => "active",
            SessionState::Idle => "idle",
            SessionState::Paused => "paused",
            SessionState::Ended => "ended",
        }
    }
}

/// A named text of a session.
#[derive(Debug)]
pub struct Property {
    pub key: String,
    pub value: String,
}

/// Who a session is with.
#[derive(Debug)]
pub struct SessionMetadata {
    pub user_id: Option<String>,
    /// The kind of channel.
    pub channel: String,
    /// The id of the chat on the channel.
    pub channel_id: String,
    /// Further texts by name, no two under the same name.
    pub properties: Vec<Property>,
}

/// In a sequence without duplicates an element is found where it stands.
pub proof fn lemma_index_of_unique(keys: Seq<Seq<char>>, i: int)
    requires
        keys.no_duplicates(),
        0 <= i < keys.len(),
    ensures
        keys.contains(keys[i]),
        keys.index_of(keys[i]) == i,
{
    assert(keys.contains(keys[i]));
    let j = keys.index_of(keys[i]);
    assert(keys[j] == keys[i]);
}

impl SessionMetadata {
    /// The names of the properties, in order.
    pub open spec fn keys(&self) -> Seq<Seq<char>> {
        Seq::new(self.properties@.len(), |i: int| self.properties@[i].key@)
    }

    /// The text under the name `key`, if there is one.
    pub open spec fn spec_property(&self, key: Seq<char>) -> Option<Seq<char>> {
        if self.keys().contains(key) {
            Some(self.properties@[self.keys().index_of(key)].value@)
        } else {
            None
        }
    }

    /// No two properties have the same name.
    pub open spec fn wf(&self) -> bool {
        self.keys().no_duplicates()
    }

    fn find(&self, key: &str) -> (r: Option<usize>)
        requires
            self.wf(),
        ensures
            match r {
                Some(i) => i < self.keys().len() && self.keys()[i as int] == key@
                    && self.keys().contains(key@) && self.keys().index_of(key@) == i,
                None => !self.keys().contains(key@),
            },
    {
        let mut i: usize = 0;
        while i < self.properties.len()
            invariant
                i <= self.properties.len(),
                self.wf(),
                forall|k: int| 0 <= k < i ==> self.keys()[k] != key@,
            decreases self.properties.len() - i,
        {
            if str_eq(self.properties[i].key.as_str(), key) {
                proof {
                    assert(self.keys()[i as int] == key@);
                    lemma_index_of_unique(self.keys(), i as int);
                }
                return Some(i);
            }
            i += 1;
        }
        None
    }

    /// The text under the name `key`, if there is one.
    pub fn property(&self, key: &str) -> (value: Option<&str>)
        requires
            self.wf(),
        ensures
            (match value {
                Some(v) => Some(v@),
                None => None,
            }) == self.spec_property(key@),
    {
        match self.find(key) {
            Some(i) => Some(self.properties[i].value.as_str()),
            None => None,
        }
    }

    /// Puts `value` under the name `key`, in place of what was there.
    pub fn set_property(&mut self, key: &str, value: &str)
        requires
            old(self).wf(),
        ensures
            final(self).wf(),
            final(self).spec_property(key@) == Some(value@),
            forall|other: Seq<char>|
                other != key@ ==> final(self).spec_property(other) == old(self).spec_property(other),
            final(self).user_id == old(self).user_id,
            final(self).channel == old(self).channel,
            final(self).channel_id == old(self).channel_id,
    {
        let ghost before = self.keys();
        let ghost values = self.properties@;
        let entry = Property { key: key.to_owned(), value: value.to_owned() };
        match self.find(key) {
            Some(i) => {
                self.properties.set(i, entry);
                proof {
                    assert(self.keys() =~= before);
                    lemma_index_of_unique(before, i as int);
                    assert forall|other: Seq<char>| other != key@ implies final(self).spec_property(
                        other,
                    ) == old(self).spec_property(other) by {
                        if before.contains(other) {
                            let j = before.index_of(other);
                            assert(before[j] == other);
                            assert(self.properties@[j] == values[j]);
                        }
                    }
                }
            },
            None => {
                self.properties.push(entry);
                proof {
                    let after = self.keys();
                    assert(after =~= before.push(key@));
                    assert forall|a: int, b: int|
                        0 <= a < after.len() && 0 <= b < after.len() && a != b implies after[a]
                        != after[b] by {
                        if a < before.len() && b < before.len() {
                            assert(before[a] != before[b]);
                        } else if a < before.len() {
                            assert(before.contains(before[a]));
                        } else {
                            assert(before.contains(before[b]));
                        }
                    }
                    lemma_index_of_unique(after, before.len() as int);
                    assert forall|other: Seq<char>| other != key@ implies final(self).spec_property(
                        other,
                    ) == old(self).spec_property(other) by {
                        if before.contains(other) {
                            let j = before.index_of(other);
                            assert(before[j] == other);
                            assert(after[j] == other);
                            lemma_index_of_unique(after, j);
                            assert(self.properties@[j] == values[j]);
                        } else if after.contains(other) {
                            let j = after.index_of(other);
                            assert(after[j] == other);
                            assert(before[j] == other);
                        }
                    }
                }
            },
        }
    }
}

impl Default for SessionMetadata {
    fn default() -> (m: SessionMetadata)
        ensures
            m.user_id is None,
            m.channel@ == "unknown"@,
            m.properties@.len() == 0,
            m.channel_id@.len() == 36,
            m.wf(),
    {
        let m = SessionMetadata {
            user_id: None,
            channel: "unknown".to_owned(),
            channel_id: fresh_id(),
            properties: Vec::new(),
        };
        assert(m.keys() =~= Seq::<Seq<char>>::empty());
        m
    }
}

/// What was counted of a session.
#[derive(Debug, Clone, Copy, PartialEq, Eq, Structural)]
pub struct SessionStats {
    pub message_count: u64,
    pub user_message_count: u64,
    pub assistant_message_count: u64,
    pub tool_call_count: u64,
    /// An estimate of the tokens used.
    pub total_tokens: u64,
}

impl Default for SessionStats {
    fn default() -> (s: SessionStats)
        ensures
            s == SessionStats::zero(),
    {
        SessionStats {
            message_count: 0,
            user_message_count: 0,
            assistant_message_count: 0,
            tool_call_count: 0,
            total_tokens: 0,
        }
    }
}

/// `a + b`, or the largest count where the sum does not fit.
pub open spec fn capped(a: u64, b: u64) -> u64 {
    if a + b <= u64::MAX {
        (a + b) as u64
    } else {
        u64::MAX
    }
}

impl SessionStats {
    /// Nothing counted.
    pub open spec fn zero() -> SessionStats {
        SessionStats {
            message_count: 0,
            user_message_count: 0,
            assistant_message_count: 0,
            tool_call_count: 0,
            total_tokens: 0,
        }
    }

    /// The counts of two sessions taken together. A count that does not
    /// fit stops at the largest.
    pub open spec fn spec_plus(self, other: SessionStats) -> SessionStats {
        SessionStats {
            message_count: capped(self.message_count, other.message_count),
            user_message_count: capped(self.user_message_count, other.user_message_count),
            assistant_message_count: capped(
                self.assistant_message_count,
                other.assistant_message_count,
            ),
            tool_call_count: capped(self.tool_call_count, other.tool_call_count),
            total_tokens: capped(self.total_tokens, other.total_tokens),
        }
    }

    /// The counts of two sessions taken together.
    pub fn plus(self, other: SessionStats) -> (sum: SessionStats)
        ensures
            sum == self.spec_plus(other),
    {
        SessionStats {
            message_count: self.message_count.saturating_add(other.message_count),
            user_message_count: self.user_message_count.saturating_add(other.user_message_count),
            assistant_message_count: self.assistant_message_count.saturating_add(
                other.assistant_message_count,
            ),
            tool_call_count: self.tool_call_count.saturating_add(other.tool_call_count),
            total_tokens: self.total_tokens.saturating_add(other.total_tokens),
        }
    }
}

/// A value of a session's context, under its name.
#[derive(Debug)]
pub struct ContextEntry {
    pub key: String,
    pub value: serde_json::Value,
}

/// Values that a session carries along, by name.
#[derive(Debug)]
pub struct SessionContext {
    data: Vec<ContextEntry>,
}

impl SessionContext {
    /// The names under which values are kept, in order.
    pub closed spec fn keys(&self) -> Seq<Seq<char>> {
        Seq::new(self.data@.len(), |i: int| self.data@[i].key@)
    }

    /// The value at the position `i`.
    pub closed spec fn value_at(&self, i: int) -> serde_json::Value {
        self.data@[i].value
    }

    /// No two values are kept under the same name.
    pub open spec fn wf(&self) -> bool {
        self.keys().no_duplicates()
    }

    /// The value kept under the name `key`, if there is one.
    pub open spec fn spec_get(&self, key: Seq<char>) -> Option<serde_json::Value> {
        if self.keys().contains(key) {
            Some(self.value_at(self.keys().index_of(key)))
        } else {
            None
        }
    }

    /// A context without values.
    pub fn new() -> (c: SessionContext)
        ensures
            c.keys() == Seq::<Seq<char>>::empty(),
            c.wf(),
    {
        let c = SessionContext { data: Vec::new() };
        assert(c.keys() =~= Seq::<Seq<char>>::empty());
        c
    }

    fn find(&self, key: &str) -> (r: Option<usize>)
        requires
            self.wf(),
        ensures
            match r {
                Some(i) => i < self.keys().len() && self.keys()[i as int] == key@
                    && self.keys().index_of(key@) == i,
                None => !self.keys().contains(key@),
            },
    {
        let mut i: usize = 0;
        while i < self.data.len()
            invariant
                i <= self.data.len(),
                self.wf(),
                forall|k: int| 0 <= k < i ==> self.keys()[k] != key@,
            decreases self.data.len() - i,
        {
            if str_eq(self.data[i].key.as_str(), key) {
                proof {
                    assert(self.keys()[i as int] == key@);
                    lemma_index_of_unique(self.keys(), i as int);
                }
                return Some(i);
            }
            i += 1;
        }
        None
    }

    /// Keeps `value` under the name `key`, in place of what was there.
    pub fn set(&mut self, key: &str, value: serde_json::Value)
        requires
            old(self).wf(),
        ensures
            final(self).wf(),
            final(self).spec_get(key@) == Some(value),
            forall|other: Seq<char>|
                other != key@ ==> final(self).spec_get(other) == old(self).spec_get(other),
    {
        let ghost before = self.keys();
        let entry = ContextEntry { key: key.to_owned(), value };
        match self.find(key) {
            Some(i) => {
                self.data.set(i, entry);
                assert(self.keys() =~= before);
                assert forall|other: Seq<char>| other != key@ implies final(self).spec_get(other)
                    == old(self).spec_get(other) by {
                    if before.contains(other) {
                        assert(before[before.index_of(other)] == other);
                    }
                }
            },
            None => {
                self.data.push(entry);
                assert(self.keys() =~= before.push(key@));
                assert(self.keys()[before.len() as int] == key@);
                assert(self.keys().contains(key@));
                assert(self.keys()[self.keys().index_of(key@)] == key@);
                assert forall|other: Seq<char>| other != key@ implies final(self).spec_get(other)
                    == old(self).spec_get(other) by {
                    if before.contains(other) {
                        let j = before.index_of(other);
                        assert(before[j] == other);
                        assert(self.keys()[j] == other);
                        assert(self.keys()[self.keys().index_of(other)] == other);
                    } else if self.keys().contains(other) {
                        assert(self.keys()[self.keys().index_of(other)] == other);
                    }
                }
            },
        }
    }

    /// A copy of the value kept under the name `key`.
    pub fn get(&self, key: &str) -> (value: Option<serde_json::Value>)
        requires
            self.wf(),
        ensures
            value == self.spec_get(key@),
    {
        match self.find(key) {
            Some(i) => Some(clone_value(&self.data[i].value)),
            None => None,
        }
    }

    /// Takes out the value kept under the name `key`.
    pub fn remove(&mut self, key: &str) -> (value: Option<serde_json::Value>)
        requires
            old(self).wf(),
        ensures
            final(self).wf(),
            value == old(self).spec_get(key@),
            final(self).spec_get(key@) is None,
            forall|other: Seq<char>|
                other != key@ ==> final(self).spec_get(other) == old(self).spec_get(other),
    {
        let ghost before = self.keys();
        match self.find(key) {
            Some(i) => {
                let entry = self.data.remove(i);
                proof {
                    let after = self.keys();
                    assert(after =~= before.remove(i as int));
                    assert forall|a: int, b: int|
                        0 <= a < after.len() && 0 <= b < after.len() && a != b implies after[a]
                        != after[b] by {
                        let a0 = if a < i {
                            a
                        } else {
                            a + 1
                        };
                        let b0 = if b < i {
                            b
                        } else {
                            b + 1
                        };
                        assert(after[a] == before[a0] && after[b] == before[b0]);
                    }
                    assert(!after.contains(key@)) by {
                        if after.contains(key@) {
                            let a = after.index_of(key@);
                            assert(after[a] == key@);
                            let a0 = if a < i {
                                a
                            } else {
                                a + 1
                            };
                            assert(before[a0] == key@);
                        }
                    }
                    assert forall|other: Seq<char>| other != key@ implies final(self).spec_get(other)
                        == old(self).spec_get(other) by {
                        if before.contains(other) {
                            let j = before.index_of(other);
                            assert(before[j] == other);
                            let j1 = if j < i {
                                j
                            } else {
                                j - 1
                            };
                            assert(after[j1] == other);
                            assert(after.contains(other));
                            assert(after[after.index_of(other)] == other);
                        } else if after.contains(other) {
                            let a = after.index_of(other);
                            assert(after[a] == other);
                            let a0 = if a < i {
                                a
                            } else {
                                a + 1
                            };
                            assert(before[a0] == other);
                        }
                    }
                }
                Some(entry.value)
            },
            None => None,
        }
    }

    /// Takes out every value.
    pub fn clear(&mut self)
        ensures
            final(self).keys() == Seq::<Seq<char>>::empty(),
            final(self).wf(),
    {
        self.data.clear();
        assert(self.keys() =~= Seq::<Seq<char>>::empty());
    }
}

impl Default for SessionContext {
    fn default() -> (c: SessionContext)
        ensures
            c.keys() == Seq::<Seq<char>>::empty(),
            c.wf(),
    {
        SessionContext::new()
    }
}

/// The whole seconds of a span of `millis` milliseconds, towards zero.
pub open spec fn whole_seconds(millis: int) -> int {
    if millis >= 0 {
        millis / 1000
    } else {
        -((-millis) / 1000)
    }
}

/// The whole seconds from `from` to `to`, both in milliseconds.
pub fn seconds_between(from: i64, to: i64) -> (secs: i64)
    ensures
        secs == whole_seconds(to - from),
{
    let span: i128 = to as i128 - from as i128;
    let secs: i128 = if span >= 0 {
        span / 1000
    } else {
        -((-span) / 1000)
    };
    secs as i64
}

/// A talk with someone over a channel.
#[derive(Debug)]
pub struct Session {
    pub id: String,
    pub state: SessionState,
    pub metadata: SessionMetadata,
    pub context: SessionContext,
    pub stats: SessionStats,
    /// In milliseconds since the Unix epoch, as are the times below.
    pub created_at: i64,
    pub last_activity: i64,
    pub ended_at: Option<i64>,
}

impl Session {
    /// What holds of every session: names are used once, among its
    /// properties and in its context.
    pub open spec fn wf(&self) -> bool {
        self.metadata.wf() && self.context.wf()
    }

    /// A session over `channel` with the chat `channel_id`, with the id
    /// `id`, opened at `now`: it is active and nothing is counted.
    pub fn new_at(id: String, now: i64, channel: &str, channel_id: &str) -> (s: Session)
        ensures
            s.wf(),
            s.id == id,
            s.state == SessionState::Active,
            s.metadata.channel@ == channel@,
            s.metadata.channel_id@ == channel_id@,
            s.metadata.user_id is None,
            s.metadata.properties@.len() == 0,
            s.context.keys().len() == 0,
            s.stats == SessionStats::zero(),
            s.created_at == now,
            s.last_activity == now,
            s.ended_at is None,
    {
        let s = Session {
            id,
            state: SessionState::Active,
            metadata: SessionMetadata {
                user_id: None,
                channel: channel.to_owned(),
                channel_id: channel_id.to_owned(),
                properties: Vec::new(),
            },
            context: SessionContext::new(),
            stats: SessionStats::default(),
            created_at: now,
            last_activity: now,
            ended_at: None,
        };
        assert(s.metadata.keys() =~= Seq::<Seq<char>>::empty());
        s
    }

    /// A session over `channel` with the chat `channel_id`, with a fresh
    /// id, opened now.
    pub fn new(channel: &str, channel_id: &str) -> (s: Session)
        ensures
            s.wf(),
            s.state == SessionState::Active,
            s.metadata.channel@ == channel@,
            s.metadata.channel_id@ == channel_id@,
            s.metadata.user_id is None,
            s.stats == SessionStats::zero(),
            s.created_at == s.last_activity,
            s.ended_at is None,
            s.id@.len() == 36,
    {
        Session::new_at(fresh_id(), now_millis(), channel, channel_id)
    }

    /// The same session, with the user `user_id`.
    pub fn with_user_id(self, user_id: &str) -> (s: Session)
        ensures
            s.metadata.user_id.deep_view() == Some(user_id@),
            s.metadata.channel == self.metadata.channel,
            s.metadata.channel_id == self.metadata.channel_id,
            s.metadata.properties == self.metadata.properties,
            s.id == self.id,
            s.state == self.state,
            s.context == self.context,
            s.stats == self.stats,
            s.created_at == self.created_at,
            s.last_activity == self.last_activity,
            s.ended_at == self.ended_at,
    {
        let mut s = self;
        s.metadata.user_id = Some(user_id.to_owned());
        s
    }

    /// The same session, with `value` under the name `key`.
    pub fn with_property(self, key: &str, value: &str) -> (s: Session)
        requires
            self.wf(),
        ensures
            s.wf(),
            s.metadata.spec_property(key@) == Some(value@),
            forall|other: Seq<char>|
                other != key@ ==> s.metadata.spec_property(other) == self.metadata.spec_property(
                    other,
                ),
            s.id == self.id,
            s.state == self.state,
            s.stats == self.stats,
    {
        let mut s = self;
        s.metadata.set_property(key, value);
        s
    }

    /// The session with its last activity at `now`.
    pub open spec fn touched(self, now: i64) -> Session {
        Session { last_activity: now, ..self }
    }

    /// The session with the counts `stats`.
    pub open spec fn counted(self, stats: SessionStats) -> Session {
        Session { stats, ..self }
    }

    /// The session, active, with its last activity at `now`.
    pub open spec fn resumed(self, now: i64) -> Session {
        Session { state: SessionState::Active, last_activity: now, ..self }
    }

    /// The session, ended at `now`.
    pub open spec fn ended(self, now: i64) -> Session {
        Session { state: SessionState::Ended, ended_at: Some(now), ..self }
    }

    /// Takes note of activity at `now`.
    pub fn touch_at(&mut self, now: i64)
        ensures
            *final(self) == old(self).touched(now),
    {
        self.last_activity = now;
    }

    /// Takes note of activity now.
    pub fn touch(&mut self)
        ensures
            exists|now: i64| *final(self) == old(self).touched(now),
    {
        let now = now_millis();
        self.touch_at(now);
        assert(*self == old(self).touched(now));
    }

    /// Counts a message, of the user or of the assistant, and takes note
    /// of activity now.
    pub fn record_message(&mut self, is_user: bool)
        requires
            old(self).stats.message_count < u64::MAX,
            old(self).stats.user_message_count < u64::MAX,
            old(self).stats.assistant_message_count < u64::MAX,
        ensures
            final(self).stats == (SessionStats {
                message_count: (old(self).stats.message_count + 1) as u64,
                user_message_count: if is_user {
                    (old(self).stats.user_message_count + 1) as u64
                } else {
                    old(self).stats.user_message_count
                },
                assistant_message_count: if is_user {
                    old(self).stats.assistant_message_count
                } else {
                    (old(self).stats.assistant_message_count + 1) as u64
                },
                ..old(self).stats
            }),
            exists|now: i64| *final(self) == old(self).counted(final(self).stats).touched(now),
    {
        self.stats.message_count += 1;
        if is_user {
            self.stats.user_message_count += 1;
        } else {
            self.stats.assistant_message_count += 1;
        }
        let now = now_millis();
        self.last_activity = now;
        assert(*self == old(self).counted(self.stats).touched(now));
    }

    /// Counts a tool call, and takes note of activity now.
    pub fn record_tool_call(&mut self)
        requires
            old(self).stats.tool_call_count < u64::MAX,
        ensures
            final(self).stats == (SessionStats {
                tool_call_count: (old(self).stats.tool_call_count + 1) as u64,
                ..old(self).stats
            }),
            exists|now: i64| *final(self) == old(self).counted(final(self).stats).touched(now),
    {
        self.stats.tool_call_count += 1;
        let now = now_millis();
        self.last_activity = now;
        assert(*self == old(self).counted(self.stats).touched(now));
    }

    /// Counts `tokens` tokens.
    pub fn record_tokens(&mut self, tokens: u64)
        requires
            old(self).stats.total_tokens + tokens <= u64::MAX,
        ensures
            *final(self) == (Session {
                stats: SessionStats {
                    total_tokens: (old(self).stats.total_tokens + tokens) as u64,
                    ..old(self).stats
                },
                ..*old(self)
            }),
    {
        self.stats.total_tokens += tokens;
    }

    /// Sets the session aside.
    pub fn pause(&mut self)
        ensures
            *final(self) == (Session { state: SessionState::Paused, ..*old(self) }),
    {
        self.state = SessionState::Paused;
    }

    /// Takes the session up again, at `now`.
    pub fn resume_at(&mut self, now: i64)
        ensures
            *final(self) == old(self).resumed(now),
    {
        self.state = SessionState::Active;
        self.last_activity = now;
    }

    /// Takes the session up again, now.
    pub fn resume(&mut self)
        ensures
            exists|now: i64| *final(self) == old(self).resumed(now),
    {
        let now = now_millis();
        self.resume_at(now);
        assert(*self == old(self).resumed(now));
    }

    /// Ends the session at `now`.
    pub fn end_at(&mut self, now: i64)
        ensures
            *final(self) == old(self).ended(now),
    {
        self.state = SessionState::Ended;
        self.ended_at = Some(now);
    }

    /// Ends the session now, for `reason`.
    pub fn end(&mut self, reason: &str)
        ensures
            exists|now: i64| *final(self) == old(self).ended(now),
    {
        let now = now_millis();
        self.end_at(now);
        assert(*self == old(self).ended(now));
    }

    /// Whether more than `timeout_secs` whole seconds have passed since the
    /// last activity, at `now`.
    pub open spec fn spec_is_idle(&self, timeout_secs: u64, now: i64) -> bool {
        whole_seconds(now - self.last_activity) > timeout_secs
    }

    /// Whether the session has been without activity for more than
    /// `timeout_secs` seconds, at `now`.
    pub fn is_idle_at(&self, timeout_secs: u64, now: i64) -> (idle: bool)
        ensures
            idle == self.spec_is_idle(timeout_secs, now),
    {
        let elapsed = seconds_between(self.last_activity, now);
        elapsed >= 0 && elapsed as u64 > timeout_secs
    }

    /// Whether the session has been without activity for more than
    /// `timeout_secs` seconds, now.
    pub fn is_idle(&self, timeout_secs: u64) -> (idle: bool)
        ensures
            exists|now: i64| idle == #[trigger] self.spec_is_idle(timeout_secs, now),
    {
        let now = now_millis();
        let idle = self.is_idle_at(timeout_secs, now);
        assert(idle == self.spec_is_idle(timeout_secs, now));
        idle
    }

    /// How many whole seconds the session has lasted: to its end, or to
    /// `now` while it lasts.
    pub fn duration_secs_at(&self, now: i64) -> (secs: i64)
        ensures
            secs == whole_seconds(
                (match self.ended_at {
                    Some(end) => end,
                    None => now,
                }) - self.created_at,
            ),
    {
        let end = match self.ended_at {
            Some(end) => end,
            None => now,
        };
        seconds_between(self.created_at, end)
    }

    /// How many whole seconds the session has lasted, to its end or to now.
    pub fn duration_secs(&self) -> (secs: i64)
        ensures
            self.ended_at matches Some(end) ==> secs == whole_seconds(end - self.created_at),
    {
        self.duration_secs_at(now_millis())
    }
}

/// The ids of `sessions`, in order.
pub open spec fn session_ids(sessions: Seq<Session>) -> Seq<Seq<char>> {
    Seq::new(sessions.len(), |i: int| sessions[i].id@)
}

/// The counts of `sessions` taken together, from the first on.
pub open spec fn total_stats(sessions: Seq<Session>) -> SessionStats
    decreases sessions.len(),
{
    if sessions.len() == 0 {
        SessionStats::zero()
    } else {
        total_stats(sessions.drop_last()).spec_plus(sessions.last().stats)
    }
}

/// Whether a cleanup at `now` ends the session: it does if the session is
/// active and has been idle for more than `timeout` seconds.
pub open spec fn ends_idle(session: Session, timeout: u64, now: i64) -> bool {
    session.state == SessionState::Active && session.spec_is_idle(timeout, now)
}

/// How many of `sessions` a cleanup at `now` ends.
pub open spec fn idle_count(sessions: Seq<Session>, timeout: u64, now: i64) -> nat
    decreases sessions.len(),
{
    if sessions.len() == 0 {
        0
    } else {
        idle_count(sessions.drop_last(), timeout, now) + (if ends_idle(
            sessions.last(),
            timeout,
            now,
        ) {
            1nat
        } else {
            0nat
        })
    }
}

/// `sessions` after a cleanup at `now`: every session that the cleanup
/// ends is ended at `now`, and every other is as it was.
pub open spec fn swept(sessions: Seq<Session>, timeout: u64, now: i64) -> Seq<Session> {
    Seq::new(
        sessions.len(),
        |i: int|
            if ends_idle(sessions[i], timeout, now) {
                sessions[i].ended(now)
            } else {
                sessions[i]
            },
    )
}

/// Whether `id` is what opening a session under the fresh id `fresh` gives
/// when the ids `ids` are in use: the fresh id, unless it is in use.
pub open spec fn opened_as(ids: Seq<Seq<char>>, fresh: Seq<char>, id: Option<Seq<char>>) -> bool {
    id == if ids.contains(fresh) {
        None
    } else {
        Some(fresh)
    }
}

/// The sessions, by id.
#[derive(Debug)]
pub struct SessionManager {
    sessions: Vec<Session>,
    durable: bool,
    idle_timeout: u64,
}

impl SessionManager {
    /// The sessions, in the order in which they were opened.
    pub closed spec fn sessions(&self) -> Seq<Session> {
        self.sessions@
    }

    /// Whether sessions are written to durable storage.
    pub closed spec fn durable(&self) -> bool {
        self.durable
    }

    /// After how many seconds without activity a session is idle.
    pub closed spec fn idle_timeout(&self) -> u64 {
        self.idle_timeout
    }

    /// What holds of every manager: no two sessions have the same id, and
    /// every session is as it should be.
    pub open spec fn wf(&self) -> bool {
        &&& session_ids(self.sessions()).no_duplicates()
        &&& forall|i: int| 0 <= i < self.sessions().len() ==> (#[trigger] self.sessions()[i]).wf()
    }

    /// A manager without sessions that keeps them in memory only. A
    /// session is idle after an hour.
    pub fn new() -> (m: SessionManager)
        ensures
            m.wf(),
            m.sessions().len() == 0,
            !m.durable(),
            m.idle_timeout() == 3600,
    {
        SessionManager { sessions: Vec::new(), durable: false, idle_timeout: 3600 }
    }

    /// A manager without sessions that writes them to durable storage.
    pub fn with_db() -> (m: SessionManager)
        ensures
            m.wf(),
            m.sessions().len() == 0,
            m.durable(),
            m.idle_timeout() == 3600,
    {
        SessionManager { sessions: Vec::new(), durable: true, idle_timeout: 3600 }
    }

    /// The same manager, with sessions idle after `seconds` seconds.
    pub fn with_idle_timeout(self, seconds: u64) -> (m: SessionManager)
        ensures
            m.sessions() == self.sessions(),
            m.durable() == self.durable(),
            m.idle_timeout() == seconds,
    {
        let mut m = self;
        m.idle_timeout = seconds;
        m
    }

    fn find(&self, session_id: &str) -> (r: Option<usize>)
        ensures
            match r {
                Some(i) => i < self.sessions().len() && self.sessions()[i as int].id@
                    == session_id@,
                None => !session_ids(self.sessions()).contains(session_id@),
            },
    {
        let mut i: usize = 0;
        while i < self.sessions.len()
            invariant
                i <= self.sessions.len(),
                forall|k: int| 0 <= k < i ==> self.sessions@[k].id@ != session_id@,
            decreases self.sessions.len() - i,
        {
            if str_eq(self.sessions[i].id.as_str(), session_id) {
                return Some(i);
            }
            i += 1;
        }
        proof {
            let ids = session_ids(self.sessions());
            if ids.contains(session_id@) {
                let k = ids.index_of(session_id@);
                assert(ids[k] == session_id@);
            }
        }
        None
    }

    /// Opens `session`, unless a session with its id is open already.
    /// Tells whether it was opened.
    pub fn insert(&mut self, session: Session) -> (opened: bool)
        requires
            old(self).wf(),
            session.wf(),
        ensures
            final(self).wf(),
            final(self).durable() == old(self).durable(),
            final(self).idle_timeout() == old(self).idle_timeout(),
            opened == !session_ids(old(self).sessions()).contains(session.id@),
            final(self).sessions() == if opened {
                old(self).sessions().push(session)
            } else {
                old(self).sessions()
            },
    {
        match self.find(session.id.as_str()) {
            Some(_) => {
                proof {
                    let ids = session_ids(self.sessions());
                    let i = choose|i: int|
                        0 <= i < self.sessions().len() && self.sessions()[i].id@ == session.id@;
                    assert(ids[i] == session.id@);
                }
                false
            },
            None => {
                let ghost before = self.sessions@;
                self.sessions.push(session);
                proof {
                    let ids0 = session_ids(before);
                    let ids = session_ids(self.sessions@);
                    assert(ids =~= ids0.push(session.id@));
                    assert forall|a: int, b: int|
                        0 <= a < ids.len() && 0 <= b < ids.len() && a != b implies ids[a]
                        != ids[b] by {
                        if a < ids0.len() && b < ids0.len() {
                            assert(ids0[a] != ids0[b]);
                        } else if a < ids0.len() {
                            assert(ids0[a] == ids[a]);
                            assert(ids0.contains(ids0[a]));
                        } else {
                            assert(ids0[b] == ids[b]);
                            assert(ids0.contains(ids0[b]));
                        }
                    }
                }
                true
            },
        }
    }

    /// Opens a session over `channel` with the chat `channel_id`, with a
    /// fresh id, now. Gives the id of the session, or nothing where the
    /// fresh id is that of an open session.
    pub fn create_session(&mut self, channel: &str, channel_id: &str) -> (id: Option<String>)
        requires
            old(self).wf(),
        ensures
            final(self).wf(),
            final(self).durable() == old(self).durable(),
            final(self).idle_timeout() == old(self).idle_timeout(),
            exists|fresh: Seq<char>|
                #[trigger] opened_as(session_ids(old(self).sessions()), fresh, id.deep_view())
                    && fresh.len() == 36,
            old(self).sessions().len() == 0 ==> id is Some,
            match id {
                Some(id) => {
                    &&& final(self).sessions().len() == old(self).sessions().len() + 1
                    &&& final(self).sessions().drop_last() == old(self).sessions()
                    &&& final(self).sessions().last().id@ == id@
                    &&& final(self).sessions().last().state == SessionState::Active
                    &&& final(self).sessions().last().metadata.channel@ == channel@
                    &&& final(self).sessions().last().metadata.channel_id@ == channel_id@
                    &&& final(self).sessions().last().metadata.user_id is None
                    &&& final(self).sessions().last().stats == SessionStats::zero()
                    &&& final(self).sessions().last().created_at
                        == final(self).sessions().last().last_activity
                    &&& final(self).sessions().last().ended_at is None
                },
                None => final(self).sessions() == old(self).sessions(),
            },
    {
        let session = Session::new(channel, channel_id);
        let id = session.id.clone();
        let ghost before = self.sessions();
        let ghost fresh = session.id@;
        let opened = self.insert(session);
        let id = if opened {
            assert(self.sessions().drop_last() =~= before);
            Some(id)
        } else {
            None
        };
        assert(opened_as(session_ids(before), fresh, id.deep_view()));
        id
    }

    /// The session `session_id`, if it is open.
    pub fn get_session(&self, session_id: &str) -> (r: Option<&Session>)
        ensures
            match r {
                Some(s) => s.id@ == session_id@ && self.sessions().contains(*s),
                None => !session_ids(self.sessions()).contains(session_id@),
            },
    {
        match self.find(session_id) {
            Some(i) => {
                assert(self.sessions()[i as int] == self.sessions@[i as int]);
                Some(&self.sessions[i])
            },
            None => None,
        }
    }

    /// The positions of the sessions over `channel` with the chat
    /// `channel_id`, in order.
    pub fn find_by_channel(&self, channel: &str, channel_id: &str) -> (found: Vec<usize>)
        ensures
            forall|k: int|
                0 <= k < found.len() ==> (#[trigger] found@[k]) < self.sessions().len()
                    && self.sessions()[found@[k] as int].metadata.channel@ == channel@
                    && self.sessions()[found@[k] as int].metadata.channel_id@ == channel_id@,
            forall|i: int|
                0 <= i < self.sessions().len() && (#[trigger] self.sessions()[i]).metadata.channel@
                    == channel@ && self.sessions()[i].metadata.channel_id@ == channel_id@
                    ==> found@.contains(i as usize),
            forall|a: int, b: int| 0 <= a < b < found.len() ==> found@[a] < found@[b],
    {
        let mut found: Vec<usize> = Vec::new();
        let mut i: usize = 0;
        while i < self.sessions.len()
            invariant
                i <= self.sessions.len(),
                forall|k: int|
                    0 <= k < found.len() ==> (#[trigger] found@[k]) < i
                        && self.sessions()[found@[k] as int].metadata.channel@ == channel@
                        && self.sessions()[found@[k] as int].metadata.channel_id@ == channel_id@,
                forall|j: int|
                    0 <= j < i && (#[trigger] self.sessions()[j]).metadata.channel@ == channel@
                        && self.sessions()[j].metadata.channel_id@ == channel_id@
                        ==> found@.contains(j as usize),
                forall|a: int, b: int| 0 <= a < b < found.len() ==> found@[a] < found@[b],
            decreases self.sessions.len() - i,
        {
            let s = &self.sessions[i];
            if str_eq(s.metadata.channel.as_str(), channel) && str_eq(
                s.metadata.channel_id.as_str(),
                channel_id,
            ) {
                let ghost before = found@;
                found.push(i);
                proof {
                    assert(found@[before.len() as int] == i);
                    assert forall|j: int|
                        0 <= j < i + 1 && (#[trigger] self.sessions()[j]).metadata.channel@
                            == channel@ && self.sessions()[j].metadata.channel_id@
                            == channel_id@ implies found@.contains(j as usize) by {
                        if j < i {
                            assert(before.contains(j as usize));
                            let k = before.index_of(j as usize);
                            assert(before[k] == j as usize);
                            assert(found@[k] == j as usize);
                        }
                    }
                }
            }
            i += 1;
        }
        found
    }

    /// The positions of the sessions that are active, in order.
    pub fn list_active_sessions(&self) -> (found: Vec<usize>)
        ensures
            forall|k: int|
                0 <= k < found.len() ==> (#[trigger] found@[k]) < self.sessions().len()
                    && self.sessions()[found@[k] as int].state == SessionState::Active,
            forall|i: int|
                0 <= i < self.sessions().len() && (#[trigger] self.sessions()[i]).state
                    == SessionState::Active ==> found@.contains(i as usize),
            forall|a: int, b: int| 0 <= a < b < found.len() ==> found@[a] < found@[b],
    {
        let mut found: Vec<usize> = Vec::new();
        let mut i: usize = 0;
        while i < self.sessions.len()
            invariant
                i <= self.sessions.len(),
                forall|k: int|
                    0 <= k < found.len() ==> (#[trigger] found@[k]) < i
                        && self.sessions()[found@[k] as int].state == SessionState::Active,
                forall|j: int|
                    0 <= j < i && (#[trigger] self.sessions()[j]).state == SessionState::Active
                        ==> found@.contains(j as usize),
                forall|a: int, b: int| 0 <= a < b < found.len() ==> found@[a] < found@[b],
            decreases self.sessions.len() - i,
        {
            match self.sessions[i].state {
                SessionState::Active => {
                    let ghost before = found@;
                    found.push(i);
                    proof {
                        assert(found@[before.len() as int] == i);
                        assert forall|j: int|
                            0 <= j < i + 1 && (#[trigger] self.sessions()[j]).state
                                == SessionState::Active implies found@.contains(j as usize) by {
                            if j < i {
                                assert(before.contains(j as usize));
                                let k = before.index_of(j as usize);
                                assert(before[k] == j as usize);
                                assert(found@[k] == j as usize);
                            }
                        }
                    }
                },
                _ => {},
            }
            i += 1;
        }
        found
    }

    /// The session at the position `i`.
    pub fn session_at(&self, i: usize) -> (s: &Session)
        requires
            i < self.sessions().len(),
        ensures
            *s == self.sessions()[i as int],
    {
        &self.sessions[i]
    }

    /// How many sessions are open.
    pub fn len(&self) -> (n: usize)
        ensures
            n == self.sessions().len(),
    {
        self.sessions.len()
    }

    fn end_index(&mut self, i: usize, now: i64)
        requires
            old(self).wf(),
            i < old(self).sessions().len(),
        ensures
            final(self).wf(),
            final(self).durable() == old(self).durable(),
            final(self).idle_timeout() == old(self).idle_timeout(),
            final(self).sessions() == old(self).sessions().update(
                i as int,
                old(self).sessions()[i as int].ended(now),
            ),
    {
        let ghost before = self.sessions@;
        let mut session = self.sessions.remove(i);
        session.end_at(now);
        let ghost ended = session;
        self.sessions.insert(i, session);
        proof {
            assert(self.sessions@ =~= before.update(i as int, ended));
            assert(session_ids(self.sessions@) =~= session_ids(before));
            assert(before[i as int].wf());
        }
    }

    /// Ends the session `session_id` at `now`, if it is open. Tells
    /// whether the session is to be written to durable storage.
    pub fn end_session_at(&mut self, session_id: &str, now: i64) -> (save: bool)
        requires
            old(self).wf(),
        ensures
            final(self).wf(),
            final(self).durable() == old(self).durable(),
            final(self).idle_timeout() == old(self).idle_timeout(),
            save == (old(self).durable() && session_ids(old(self).sessions()).contains(
                session_id@,
            )),
            final(self).sessions().len() == old(self).sessions().len(),
            forall|i: int|
                0 <= i < old(self).sessions().len() ==> #[trigger] final(self).sessions()[i]
                    == if old(self).sessions()[i].id@ == session_id@ {
                    old(self).sessions()[i].ended(now)
                } else {
                    old(self).sessions()[i]
                },
    {
        match self.find(session_id) {
            Some(i) => {
                proof {
                    let ids = session_ids(self.sessions());
                    assert(ids[i as int] == session_id@);
                    assert forall|k: int|
                        0 <= k < self.sessions().len() && k != i implies self.sessions()[k].id@
                        != session_id@ by {
                        assert(ids[k] == self.sessions()[k].id@);
                    }
                }
                self.end_index(i, now);
                self.durable
            },
            None => {
                proof {
                    let ids = session_ids(self.sessions());
                    assert forall|k: int| 0 <= k < self.sessions().len() implies self.sessions()[k].id@
                        != session_id@ by {
                        assert(ids[k] == self.sessions()[k].id@);
                    }
                }
                false
            },
        }
    }

    /// Ends the session `session_id` now, for `reason`, if it is open.
    /// Tells whether the session is to be written to durable storage.
    pub fn end_session(&mut self, session_id: &str, reason: &str) -> (save: bool)
        requires
            old(self).wf(),
        ensures
            final(self).wf(),
            final(self).durable() == old(self).durable(),
            save == (old(self).durable() && session_ids(old(self).sessions()).contains(
                session_id@,
            )),
            final(self).sessions().len() == old(self).sessions().len(),
            forall|i: int|
                0 <= i < old(self).sessions().len() ==> (#[trigger] final(self).sessions()[i]).id
                    == old(self).sessions()[i].id && (final(self).sessions()[i].state == if old(self).sessions()[i].id@ == session_id@ {
                    SessionState::Ended
                } else {
                    old(self).sessions()[i].state
                }),
    {
        self.end_session_at(session_id, now_millis())
    }

    /// Ends the active sessions that are idle at `now`. Gives their
    /// positions, in order.
    pub fn cleanup_idle_sessions_at(&mut self, now: i64) -> (ended: Vec<usize>)
        requires
            old(self).wf(),
        ensures
            final(self).wf(),
            final(self).durable() == old(self).durable(),
            final(self).idle_timeout() == old(self).idle_timeout(),
            final(self).sessions().len() == old(self).sessions().len(),
            final(self).sessions() == swept(old(self).sessions(), old(self).idle_timeout(), now),
            ended.len() == idle_count(old(self).sessions(), old(self).idle_timeout(), now),
            forall|i: int|
                0 <= i < old(self).sessions().len() ==> #[trigger] final(self).sessions()[i]
                    == if old(self).sessions()[i].state == SessionState::Active && old(self).sessions()[i].spec_is_idle(old(self).idle_timeout(), now) {
                    old(self).sessions()[i].ended(now)
                } else {
                    old(self).sessions()[i]
                },
            forall|k: int|
                0 <= k < ended.len() ==> (#[trigger] ended@[k]) < old(self).sessions().len() && old(self).sessions()[ended@[k] as int].state == SessionState::Active && old(self).sessions()[ended@[k] as int].spec_is_idle(old(self).idle_timeout(), now),
            forall|a: int, b: int| 0 <= a < b < ended.len() ==> ended@[a] < ended@[b],
            forall|i: int|
                0 <= i < old(self).sessions().len() && (#[trigger] old(self).sessions()[i]).state
                    == SessionState::Active && old(self).sessions()[i].spec_is_idle(
                    old(self).idle_timeout(),
                    now,
                ) ==> ended@.contains(i as usize),
    {
        let mut ended: Vec<usize> = Vec::new();
        let mut i: usize = 0;
        let ghost start = self.sessions();
        assert(start.take(0) =~= Seq::<Session>::empty());
        while i < self.sessions.len()
            invariant
                i <= self.sessions.len(),
                ended.len() == idle_count(start.take(i as int), self.idle_timeout(), now),
                self.wf(),
                self.durable() == old(self).durable(),
                self.idle_timeout() == old(self).idle_timeout(),
                start == old(self).sessions(),
                self.sessions().len() == start.len(),
                forall|j: int| i <= j < start.len() ==> #[trigger] self.sessions()[j] == start[j],
                forall|j: int|
                    0 <= j < i ==> #[trigger] self.sessions()[j] == if start[j].state
                        == SessionState::Active && start[j].spec_is_idle(
                        self.idle_timeout(),
                        now,
                    ) {
                        start[j].ended(now)
                    } else {
                        start[j]
                    },
                forall|k: int|
                    0 <= k < ended.len() ==> (#[trigger] ended@[k]) < i && start[ended@[k] as int].state
                        == SessionState::Active && start[ended@[k] as int].spec_is_idle(
                        self.idle_timeout(),
                        now,
                    ),
                forall|a: int, b: int| 0 <= a < b < ended.len() ==> ended@[a] < ended@[b],
                forall|j: int|
                    0 <= j < i && (#[trigger] start[j]).state == SessionState::Active
                        && start[j].spec_is_idle(self.idle_timeout(), now) ==> ended@.contains(
                        j as usize,
                    ),
            decreases self.sessions.len() - i,
        {
            let idle = match self.sessions[i].state {
                SessionState::Active => self.sessions[i].is_idle_at(self.idle_timeout, now),
                _ => false,
            };
            proof {
                let next = start.take(i + 1);
                assert(next.drop_last() =~= start.take(i as int));
                assert(next.last() == start[i as int]);
                assert(self.sessions()[i as int] == start[i as int]);
                assert(idle == ends_idle(start[i as int], self.idle_timeout(), now));
            }
            if idle {
                self.end_index(i, now);
                let ghost before = ended@;
                ended.push(i);
                proof {
                    assert(ended@[before.len() as int] == i);
                    assert forall|j: int|
                        0 <= j < i + 1 && (#[trigger] start[j]).state == SessionState::Active
                            && start[j].spec_is_idle(self.idle_timeout(), now) implies ended@.contains(
                        j as usize,
                    ) by {
                        if j < i {
                            assert(before.contains(j as usize));
                            let k = before.index_of(j as usize);
                            assert(before[k] == j as usize);
                            assert(ended@[k] == j as usize);
                        }
                    }
                }
            }
            i += 1;
        }
        assert(start.take(start.len() as int) =~= start);
        assert(self.sessions() =~= swept(start, self.idle_timeout(), now));
        ended
    }

    /// Ends the active sessions that are idle now: the sessions afterwards
    /// are those after a cleanup at the time that the clock gave, and the
    /// result tells how many sessions that cleanup ended.
    pub fn cleanup_idle_sessions(&mut self) -> (count: usize)
        requires
            old(self).wf(),
        ensures
            final(self).wf(),
            final(self).durable() == old(self).durable(),
            final(self).idle_timeout() == old(self).idle_timeout(),
            exists|now: i64|
                final(self).sessions() == #[trigger] swept(
                    old(self).sessions(),
                    old(self).idle_timeout(),
                    now,
                ) && count == idle_count(old(self).sessions(), old(self).idle_timeout(), now),
            final(self).sessions().len() == old(self).sessions().len(),
            count <= old(self).sessions().len(),
    {
        let now = now_millis();
        let ended = self.cleanup_idle_sessions_at(now);
        proof {
            lemma_increasing_bounded(ended@, self.sessions().len() as int);
            assert(self.sessions() == swept(old(self).sessions(), old(self).idle_timeout(), now));
        }
        ended.len()
    }

    /// How many sessions are open, and their counts taken together.
    pub fn get_global_stats(&self) -> (r: (usize, SessionStats))
        ensures
            r.0 == self.sessions().len(),
            r.1 == total_stats(self.sessions()),
    {
        let mut total = SessionStats::default();
        let mut i: usize = 0;
        assert(self.sessions@.take(0) =~= Seq::<Session>::empty());
        while i < self.sessions.len()
            invariant
                i <= self.sessions.len(),
                total == total_stats(self.sessions@.take(i as int)),
            decreases self.sessions.len() - i,
        {
            proof {
                let next = self.sessions@.take(i + 1);
                assert(next.drop_last() =~= self.sessions@.take(i as int));
                assert(next.last() == self.sessions@[i as int]);
            }
            total = total.plus(self.sessions[i].stats);
            i += 1;
        }
        assert(self.sessions@.take(self.sessions@.len() as int) =~= self.sessions@);
        (self.sessions.len(), total)
    }
}

/// Increasing positions below a bound are no more than the bound.
proof fn lemma_increasing_bounded(s: Seq<usize>, bound: int)
    requires
        0 <= bound,
        forall|k: int| 0 <= k < s.len() ==> (#[trigger] s[k]) < bound,
        forall|a: int, b: int| 0 <= a < b < s.len() ==> s[a] < s[b],
    ensures
        s.len() <= bound,
    decreases s.len(),
{
    if s.len() > 0 {
        let t = s.drop_last();
        assert(s.len() == t.len() + 1);
        assert forall|k: int| 0 <= k < t.len() implies (#[trigger] t[k]) < bound - 1 by {
            assert(t[k] == s[k]);
            assert(s[k] < s[s.len() - 1]);
        }
        assert forall|a: int, b: int| 0 <= a < b < t.len() implies t[a] < t[b] by {
            assert(t[a] == s[a] && t[b] == s[b]);
        }
        assert(s[s.len() - 1] < bound);
        lemma_increasing_bounded(t, bound - 1);
    }
}

impl Default for SessionManager {
    fn default() -> (m: SessionManager)
        ensures
            m.wf(),
            m.sessions().len() == 0,
            !m.durable(),
            m.idle_timeout() == 3600,
    {
        SessionManager::new()
    }
}

} // verus!
