//! The memory store: conversations and notes kept as Markdown files. The
//! library says where the files are and what they hold; reading and writing
//! them is left to the program around it.

use vstd::prelude::*;
use vstd::string::*;
use crate::clock::{local_time_text, now_millis, time_format};
use crate::config::{join_path, spec_join};
use crate::llm::{Role, ToolCall, ToolCallView};
use crate::memory::escape::{escape, first_tab, spec_escape, spec_unescape, tab_at, unescape};
use crate::text::{concat, concat3, contains_seq, find, from_chars, lines, lowercase};
use crate::text::{spec_contains_seq, spec_find, spec_lines, spec_starts_at, spec_trim};
use crate::text::{starts_with, string_of, to_chars, trim_range, unicode_lowercase};

pub mod escape;
pub mod laws;

verus! {

/// Where the memory files are.
#[derive(Debug)]
pub struct MemoryStore {
    workspace: String,
    memory_dir: String,
    memory_file: String,
    conversations_dir: String,
}

/// A message of a stored conversation.
#[derive(Debug)]
pub struct ConversationMessage {
    /// The position of the message in its conversation.
    pub id: i64,
    pub session_id: String,
    /// The name of the role, in lower case.
    pub role: String,
    pub content: String,
    pub tool_calls: Option<Vec<ToolCall>>,
    /// For a tool message, the id of the call that it answers.
    pub tool_call_id: Option<String>,
    /// When the message was stored, in milliseconds since the Unix epoch.
    pub created_at: i64,
}

/// `ConversationMessage` as contracts see it.
pub struct ConversationMessageView {
    pub id: i64,
    pub session_id: Seq<char>,
    pub role: Seq<char>,
    pub content: Seq<char>,
    pub tool_calls: Option<Seq<ToolCallView>>,
    pub tool_call_id: Option<Seq<char>>,
    pub created_at: i64,
}

impl DeepView for ConversationMessage {
    type V = ConversationMessageView;

    open spec fn deep_view(&self) -> ConversationMessageView {
        ConversationMessageView {
            id: self.id,
            session_id: self.session_id@,
            role: self.role@,
            content: self.content@,
            tool_calls: self.tool_calls.deep_view(),
            tool_call_id: self.tool_call_id.deep_view(),
            created_at: self.created_at,
        }
    }
}

impl View for ConversationMessage {
    type V = ConversationMessageView;

    open spec fn view(&self) -> ConversationMessageView {
        self.deep_view()
    }
}

/// A note of the long-term memory.
#[derive(Debug)]
pub struct Memory {
    pub key: String,
    pub value: String,
    pub category: Option<String>,
    pub importance: i32,
    /// In milliseconds since the Unix epoch, as is `updated_at`.
    pub created_at: i64,
    pub updated_at: i64,
}

/// `Memory` as contracts see it.
pub struct MemoryView {
    pub key: Seq<char>,
    pub value: Seq<char>,
    pub category: Option<Seq<char>>,
    pub importance: i32,
    pub created_at: i64,
    pub updated_at: i64,
}

impl DeepView for Memory {
    type V = MemoryView;

    open spec fn deep_view(&self) -> MemoryView {
        MemoryView {
            key: self.key@,
            value: self.value@,
            category: self.category.deep_view(),
            importance: self.importance,
            created_at: self.created_at,
            updated_at: self.updated_at,
        }
    }
}

impl View for Memory {
    type V = MemoryView;

    open spec fn view(&self) -> MemoryView {
        self.deep_view()
    }
}

/// Reads a time with `chrono::DateTime::parse_from_str` in the pattern
/// `format`, in milliseconds since the Unix epoch. The pattern is the one
/// that times are written in; it names no time zone, and `parse_from_str`
/// reads no time without one: the call gives nothing, whatever the text.
#[verifier::external_body]
pub(crate) fn parse_timestamp(text: &str, format: &str) -> (r: Option<i64>)
    requires
        format@ == time_format(),
    ensures
        r is None,
{
    match chrono::DateTime::parse_from_str(text, format) {
        Ok(time) => Some(time.timestamp_millis()),
        Err(_) => None,
    }
}

/// The heading that opens the file of the conversation `session_id`: the
/// name is written so that it stays on its line.
pub open spec fn conversation_header(session_id: Seq<char>) -> Seq<char> {
    "# Conversation: "@ + spec_escape(session_id) + "\n\n"@
}

/// What stands on the line of a message after the role: the content,
/// written so that it stays on the line, and for a message that answers a
/// tool call a tab and the id of the call, written likewise.
pub open spec fn entry_body(content: Seq<char>, tool_call_id: Option<Seq<char>>) -> Seq<char> {
    spec_escape(content) + (match tool_call_id {
        Some(id) => seq!['\t'] + spec_escape(id),
        None => Seq::empty(),
    })
}

/// The entry of a message: a line with the time, a line with the role
/// between asterisks, a colon, a blank and the body, and an empty line.
pub open spec fn conversation_entry(
    timestamp: Seq<char>,
    role: Seq<char>,
    content: Seq<char>,
    tool_call_id: Option<Seq<char>>,
) -> Seq<char> {
    "## "@ + spec_escape(timestamp) + "\n**"@ + role + "**: "@ + entry_body(content, tool_call_id)
        + "\n\n"@
}

/// What the file of the day `day` holds after `content` is appended: what
/// it held, or a heading with the day for a new file, then a line feed and
/// `content`.
pub open spec fn day_content(existing: Option<Seq<char>>, day: Seq<char>, content: Seq<char>) -> Seq<
    char,
> {
    (match existing {
        Some(e) => e,
        None => "# "@ + day + "\n\n"@,
    }) + "\n"@ + content
}

/// What the file of a conversation holds after a message is added: what it
/// held, or the heading of the conversation for a new file, then the entry
/// of the message.
pub open spec fn conversation_content(
    existing: Option<Seq<char>>,
    session_id: Seq<char>,
    timestamp: Seq<char>,
    role: Seq<char>,
    content: Seq<char>,
    tool_call_id: Option<Seq<char>>,
) -> Seq<char> {
    (match existing {
        Some(e) => e,
        None => conversation_header(session_id),
    }) + conversation_entry(timestamp, role, content, tool_call_id)
}

/// Whether a text holds no line feed and no carriage return, as no time
/// does that the clock writes.
pub open spec fn is_plain(text: Seq<char>) -> bool {
    forall|i: int| 0 <= i < text.len() ==> text[i] != '\n' && text[i] != '\r'
}

/// The view of a text that may not be there.
pub open spec fn text_view(text: Option<&str>) -> Option<Seq<char>> {
    match text {
        Some(t) => Some(t@),
        None => None,
    }
}

/// A text without the blank that it begins with, if it does.
pub open spec fn after_blank(text: Seq<char>) -> Seq<char> {
    if text.len() > 0 && text[0] == ' ' {
        text.skip(1)
    } else {
        text
    }
}

/// The content that a body holds: what its part before the first tab
/// stood for.
pub open spec fn body_content(body: Seq<char>) -> Seq<char> {
    spec_unescape(body.take(first_tab(body)))
}

/// The id of the tool call that a body names: what its part after the
/// first tab stood for, if it has a tab.
pub open spec fn body_call(body: Seq<char>) -> Option<Seq<char>> {
    if 0 <= first_tab(body) < body.len() {
        Some(spec_unescape(body.skip(first_tab(body) + 1)))
    } else {
        None
    }
}

/// The role that is read where a line names `raw`: the name of a role,
/// which is in lower case, is taken as it stands, and any other name is
/// taken in lower case.
pub open spec fn line_role(raw: Seq<char>) -> Seq<char> {
    if Role::spec_is_name(raw) {
        raw
    } else {
        unicode_lowercase(raw)
    }
}

/// What the line of a message holds.
pub struct LineMessage {
    pub role: Seq<char>,
    pub content: Seq<char>,
    pub tool_call_id: Option<Seq<char>>,
}

/// The message that `line` holds, if it holds one: it does if it begins
/// with two asterisks and, after them, holds two asterisks and a colon. The
/// name of the role stands between the two; the body is what follows the
/// colon, without the one blank that the writer puts there.
#[verifier::opaque]
pub open spec fn line_message(line: Seq<char>) -> Option<LineMessage> {
    if !spec_starts_at(line, 0, "## "@) && spec_starts_at(line, 0, "**"@) {
        match spec_find(line, 2, "**:"@) {
            Some(end) => {
                let body = after_blank(line.skip(end + 3));
                Some(
                    LineMessage {
                        role: line_role(line.subrange(2, end)),
                        content: body_content(body),
                        tool_call_id: body_call(body),
                    },
                )
            },
            None => None,
        }
    } else {
        None
    }
}

/// The number of a message, which stops at the largest that fits.
pub open spec fn message_number(count: nat) -> i64 {
    if count <= i64::MAX {
        count as i64
    } else {
        i64::MAX
    }
}

/// The messages that `lines` hold, when `count` messages came before them.
/// Every message is stamped with `timestamp`: the time lines carry no time
/// zone, so that none of them is read as a time.
pub open spec fn parse_lines(
    lines: Seq<Seq<char>>,
    session_id: Seq<char>,
    timestamp: i64,
    count: nat,
) -> Seq<ConversationMessageView>
    decreases lines.len(),
{
    if lines.len() == 0 {
        Seq::empty()
    } else {
        let line = lines[0];
        match line_message(line) {
            Some(message) => seq![
                ConversationMessageView {
                    id: message_number(count),
                    session_id,
                    role: message.role,
                    content: message.content,
                    tool_calls: None,
                    tool_call_id: message.tool_call_id,
                    created_at: timestamp,
                },
            ] + parse_lines(lines.drop_first(), session_id, timestamp, count + 1),
            None => parse_lines(lines.drop_first(), session_id, timestamp, count),
        }
    }
}

/// The messages of the conversation `session_id` that the file content
/// `content` holds, read at the time `now`, which every message is stamped
/// with.
pub open spec fn spec_parse_conversation(content: Seq<char>, session_id: Seq<char>, now: i64) -> Seq<
    ConversationMessageView,
> {
    parse_lines(spec_lines(content), session_id, now, 0)
}

/// The last `limit` of `messages`, or all of them where there are no more
/// or `limit` is negative: a negative limit is none.
pub open spec fn last_messages(messages: Seq<ConversationMessageView>, limit: int) -> Seq<
    ConversationMessageView,
> {
    if limit < 0 || limit >= messages.len() {
        messages
    } else {
        messages.skip(messages.len() - limit)
    }
}

/// What is read of the conversation `session_id` at the time `now` with
/// the limit `limit`: the last `limit` messages that its file holds, and
/// nothing where it has no file.
pub open spec fn spec_conversation(
    content: Option<Seq<char>>,
    session_id: Seq<char>,
    limit: i64,
    now: i64,
) -> Seq<ConversationMessageView> {
    match content {
        Some(c) => last_messages(spec_parse_conversation(c, session_id, now), limit as int),
        None => Seq::empty(),
    }
}

/// The messages of the conversation `session_id` that `content` holds,
/// read at the time `now`.
pub fn parse_conversation_at(content: &str, session_id: &str, now: i64) -> (messages: Vec<
    ConversationMessage,
>)
    ensures
        messages.deep_view() == spec_parse_conversation(content@, session_id@, now),
{
    let chars = to_chars(content);
    let all = lines(&chars);
    let time_mark = to_chars("## ");
    let stars = to_chars("**");
    let stars_colon = to_chars("**:");
    let ghost ls = all.deep_view();
    let mut messages: Vec<ConversationMessage> = Vec::new();
    let mut timestamp = now;
    let mut i: usize = 0;
    assert(ls.skip(0) =~= ls);
    assert(messages.deep_view() =~= Seq::<ConversationMessageView>::empty());
    assert(messages.deep_view() + parse_lines(ls.skip(0), session_id@, timestamp, 0) =~= parse_lines(
        ls,
        session_id@,
        now,
        0,
    ));
    while i < all.len()
        invariant
            i <= all.len(),
            ls == all.deep_view(),
            ls == spec_lines(content@),
            time_mark@ == "## "@,
            stars@ == "**"@,
            stars_colon@ == "**:"@,
            messages.deep_view() + parse_lines(
                ls.skip(i as int),
                session_id@,
                timestamp,
                messages.len() as nat,
            ) == parse_lines(ls, session_id@, now, 0),
        decreases all.len() - i,
    {
        let line = &all[i];
        let ghost l = ls[i as int];
        proof {
            assert(line.deep_view() =~= line@);
            assert(l == line@);
            assert(ls.skip(i as int)[0] == l);
            assert(ls.skip(i as int).drop_first() =~= ls.skip(i + 1));
        }
        let ghost before = messages.deep_view();
        proof {
            reveal(line_message);
        }
        if starts_with(line, 0, &time_mark) {
            proof {
                reveal_strlit("## ");
                reveal_strlit("**");
                assert(l.subrange(0, 3)[0] == '#');
                if spec_starts_at(l, 0, "**"@) {
                    assert(l.subrange(0, 2)[0] == '*');
                }
                assert(line_message(l) is None);
                assert(l.subrange(3, l.len() as int) =~= l.skip(3));
            }
            let text = from_chars(line, 3, line.len());
            match parse_timestamp(text.as_str(), "%Y-%m-%d %H:%M:%S") {
                Some(t) => {
                    timestamp = t;
                },
                None => {},
            }
        } else if starts_with(line, 0, &stars) {
            match find(line, 2, &stars_colon) {
                Some(end) => {
                    proof {
                        reveal_strlit("**:");
                        assert("**:"@.len() == 3);
                        assert(end + 3 <= l.len());
                        assert(l.len() == line.len());
                    }
                    let raw_role = from_chars(line, 2, end);
                    let role = if Role::is_name(raw_role.as_str()) {
                        raw_role
                    } else {
                        lowercase(raw_role.as_str())
                    };
                    let start = if end + 3 < line.len() && line[end + 3] == ' ' {
                        end + 4
                    } else {
                        end + 3
                    };
                    let tab = tab_at(line, start, line.len());
                    let ghost body = after_blank(l.skip(end + 3));
                    proof {
                        assert(l.subrange(start as int, l.len() as int) =~= body);
                        assert(l.subrange(start as int, tab as int) =~= body.take(
                            first_tab(body),
                        ));
                    }
                    let content = unescape(line, start, tab);
                    let tool_call_id = if tab < line.len() {
                        proof {
                            assert(l.subrange(tab + 1, l.len() as int) =~= body.skip(
                                first_tab(body) + 1,
                            ));
                        }
                        Some(unescape(line, tab + 1, line.len()))
                    } else {
                        None
                    };
                    let n = messages.len() as u64;
                    let id: i64 = if n <= 0x7fff_ffff_ffff_ffff {
                        n as i64
                    } else {
                        i64::MAX
                    };
                    let message = ConversationMessage {
                        id,
                        session_id: session_id.to_owned(),
                        role,
                        content,
                        tool_calls: None,
                        tool_call_id,
                        created_at: timestamp,
                    };
                    let ghost m = message@;
                    messages.push(message);
                    assert(messages.deep_view() =~= before.push(m));
                    assert(line_message(l) == Some(
                        LineMessage {
                            role: m.role,
                            content: m.content,
                            tool_call_id: m.tool_call_id,
                        },
                    ));
                    assert(m.id == message_number(before.len()));
                    assert(before.push(m) + parse_lines(
                        ls.skip(i + 1),
                        session_id@,
                        timestamp,
                        (before.len() + 1) as nat,
                    ) =~= before + (seq![m] + parse_lines(
                        ls.skip(i + 1),
                        session_id@,
                        timestamp,
                        (before.len() + 1) as nat,
                    )));
                },
                None => {},
            }
        }
        i += 1;
    }
    assert(ls.skip(ls.len() as int) =~= Seq::<Seq<char>>::empty());
    assert(messages.deep_view() + Seq::<ConversationMessageView>::empty() =~= messages.deep_view());
    messages
}

/// The messages of the conversation `session_id` that `content` holds,
/// read now.
pub fn parse_conversation_markdown(content: &str, session_id: &str) -> (messages: Vec<
    ConversationMessage,
>)
    ensures
        exists|now: i64|
            messages.deep_view() == spec_parse_conversation(content@, session_id@, now),
{
    let now = now_millis();
    let messages = parse_conversation_at(content, session_id, now);
    assert(messages.deep_view() == spec_parse_conversation(content@, session_id@, now));
    messages
}

/// The content of the long-term memory after the note `key` is saved in
/// it: an empty memory gets its heading first; the note comes last, under
/// the heading of its category where the memory does not hold that heading
/// yet.
pub open spec fn spec_save_memory(
    content: Seq<char>,
    key: Seq<char>,
    value: Seq<char>,
    category: Option<Seq<char>>,
) -> Seq<char> {
    let content = if content.len() == 0 {
        "# Long-term Memory\n\n"@
    } else {
        content
    };
    let header = "## "@ + (match category {
        Some(c) => c,
        None => "General"@,
    });
    let entry = "- **"@ + key + "**: "@ + value;
    if !spec_contains_seq(content, header) {
        content + "\n"@ + header + "\n\n"@ + entry + "\n"@
    } else {
        content + entry + "\n"@
    }
}

/// What marks the line of the note `key`.
pub open spec fn key_mark(key: Seq<char>) -> Seq<char> {
    "**"@ + key + "**:"@
}

/// Where the first colon of `s` stands, or the length of `s` where it has
/// none.
pub open spec fn first_colon(s: Seq<char>) -> int
    decreases s.len(),
{
    if s.len() == 0 {
        0
    } else if s[0] == ':' {
        0
    } else {
        1 + first_colon(s.drop_first())
    }
}

/// What stands in `line` between its first colon and its second, or its
/// end: nothing where the line has no colon.
pub open spec fn second_piece(line: Seq<char>) -> Option<Seq<char>> {
    let a = first_colon(line);
    if 0 <= a < line.len() {
        let rest = line.skip(a + 1);
        let b = first_colon(rest);
        if 0 <= b <= rest.len() {
            Some(rest.take(b))
        } else {
            None
        }
    } else {
        None
    }
}

/// The value of the note `key` in the first of `lines` that holds its
/// mark: what stands between the first two colons of the line, without
/// the white space around it.
pub open spec fn value_in(lines: Seq<Seq<char>>, key: Seq<char>) -> Option<Seq<char>>
    decreases lines.len(),
{
    if lines.len() == 0 {
        None
    } else if spec_contains_seq(lines[0], key_mark(key)) && second_piece(lines[0]) is Some {
        Some(spec_trim(second_piece(lines[0])->Some_0))
    } else {
        value_in(lines.drop_first(), key)
    }
}

/// The lines of `lines` that do not hold the mark of the note `key`, each
/// ended by a line feed.
pub open spec fn lines_without(lines: Seq<Seq<char>>, key: Seq<char>) -> Seq<char>
    decreases lines.len(),
{
    if lines.len() == 0 {
        Seq::empty()
    } else if spec_contains_seq(lines.last(), key_mark(key)) {
        lines_without(lines.drop_last(), key)
    } else {
        lines_without(lines.drop_last(), key) + lines.last() + seq!['\n']
    }
}

/// The key and the value of the note that `line` holds, if it matches
/// `query` and holds a note: it matches if it holds `query`, both taken in
/// lower case; it holds a note if it begins with a dash, a blank and two
/// asterisks and, after them, holds two asterisks and a colon. The key
/// stands between the two, and the value is what follows the colon, without
/// the white space around it.
pub open spec fn line_note(line: Seq<char>, query: Seq<char>) -> Option<(Seq<char>, Seq<char>)> {
    if spec_contains_seq(unicode_lowercase(line), unicode_lowercase(query)) && spec_starts_at(
        line,
        0,
        "- **"@,
    ) {
        match spec_find(line, 4, "**:"@) {
            Some(end) => Some((line.subrange(4, end), spec_trim(line.skip(end + 3)))),
            None => None,
        }
    } else {
        None
    }
}

/// The notes that the first `n` of `lines` hold and that match `query`,
/// as found at the time `now`.
pub open spec fn notes_in(lines: Seq<Seq<char>>, query: Seq<char>, now: i64, n: int) -> Seq<MemoryView>
    decreases n,
{
    if n <= 0 {
        Seq::empty()
    } else {
        match line_note(lines[n - 1], query) {
            Some((key, value)) => notes_in(lines, query, now, n - 1).push(
                MemoryView {
                    key,
                    value,
                    category: None,
                    importance: 0,
                    created_at: now,
                    updated_at: now,
                },
            ),
            None => notes_in(lines, query, now, n - 1),
        }
    }
}

/// The name of the conversation that the file called `name` holds: the
/// name without `.md`, for a file whose name ends so and has more to it.
pub open spec fn spec_session_of_file(name: Seq<char>) -> Option<Seq<char>> {
    if name.len() > 3 && name.subrange(name.len() - 3, name.len() as int) == ".md"@ {
        Some(name.subrange(0, name.len() - 3))
    } else {
        None
    }
}

impl MemoryStore {
    /// The directory that the store was made for.
    pub closed spec fn spec_workspace(&self) -> Seq<char> {
        self.workspace@
    }

    /// The directory that holds the memory files.
    pub closed spec fn spec_memory_dir(&self) -> Seq<char> {
        self.memory_dir@
    }

    /// The file of the long-term memory.
    pub closed spec fn spec_memory_file(&self) -> Seq<char> {
        self.memory_file@
    }

    /// The directory that holds one file for each conversation.
    pub closed spec fn spec_conversations_dir(&self) -> Seq<char> {
        self.conversations_dir@
    }

    /// The store under `workspace`: its files are in `memory` under it, the
    /// long-term memory in `MEMORY.md`, the conversations in
    /// `conversations`.
    pub fn new(workspace: &str) -> (store: MemoryStore)
        ensures
            store.spec_workspace() == workspace@,
            store.spec_memory_dir() == spec_join(workspace@, "memory"@),
            store.spec_memory_file() == spec_join(store.spec_memory_dir(), "MEMORY.md"@),
            store.spec_conversations_dir() == spec_join(
                store.spec_memory_dir(),
                "conversations"@,
            ),
    {
        let memory_dir = join_path(workspace, "memory");
        let memory_file = join_path(memory_dir.as_str(), "MEMORY.md");
        let conversations_dir = join_path(memory_dir.as_str(), "conversations");
        MemoryStore { workspace: workspace.to_owned(), memory_dir, memory_file, conversations_dir }
    }

    /// The directory that holds the memory files.
    pub fn memory_dir(&self) -> (dir: &str)
        ensures
            dir@ == self.spec_memory_dir(),
    {
        self.memory_dir.as_str()
    }

    /// The directory that the store was made for.
    pub fn workspace(&self) -> (dir: &str)
        ensures
            dir@ == self.spec_workspace(),
    {
        self.workspace.as_str()
    }

    /// The file of the long-term memory.
    pub fn memory_file(&self) -> (file: &str)
        ensures
            file@ == self.spec_memory_file(),
    {
        self.memory_file.as_str()
    }

    /// The directory that holds one file for each conversation.
    pub fn conversations_dir(&self) -> (dir: &str)
        ensures
            dir@ == self.spec_conversations_dir(),
    {
        self.conversations_dir.as_str()
    }

    /// The file of the notes of the day `day`.
    pub fn day_file(&self, day: &str) -> (file: String)
        ensures
            file@ == spec_join(self.spec_memory_dir(), day@ + ".md"@),
    {
        let name = concat(day, ".md");
        join_path(self.memory_dir.as_str(), name.as_str())
    }

    /// The file of the notes of today, by the local date.
    pub fn get_today_file(&self) -> (file: String)
        ensures
            exists|day: Seq<char>|
                file@ == spec_join(self.spec_memory_dir(), day + ".md"@) && is_plain(day),
    {
        let day = local_time_text("%Y-%m-%d");
        let file = self.day_file(day.as_str());
        assert(file@ == spec_join(self.spec_memory_dir(), day@ + ".md"@) && is_plain(day@));
        file
    }

    /// The file of the conversation `session_id`.
    pub fn get_conversation_file(&self, session_id: &str) -> (file: String)
        ensures
            file@ == spec_join(self.spec_conversations_dir(), session_id@ + ".md"@),
    {
        let name = concat(session_id, ".md");
        join_path(self.conversations_dir.as_str(), name.as_str())
    }

    /// What the file of the day `day` holds after `content` is appended.
    pub fn append_day(existing: Option<&str>, day: &str, content: &str) -> (updated: String)
        ensures
            updated@ == day_content(text_view(existing), day@, content@),
    {
        let mut updated = match existing {
            Some(e) => e.to_owned(),
            None => concat3("# ", day, "\n\n"),
        };
        updated.append("\n");
        updated.append(content);
        updated
    }

    /// What the file of today holds after `content` is appended.
    pub fn append_today(&self, existing: Option<&str>, content: &str) -> (updated: String)
        ensures
            exists|day: Seq<char>|
                updated@ == day_content(text_view(existing), day, content@) && is_plain(day),
    {
        let day = local_time_text("%Y-%m-%d");
        let updated = MemoryStore::append_day(existing, day.as_str(), content);
        assert(updated@ == day_content(text_view(existing), day@, content@) && is_plain(day@));
        updated
    }

    /// What the file of the conversation `session_id` holds after a message
    /// written at `timestamp` is added. `tool_call_id` is the id of the
    /// tool call that the message answers, if it answers one.
    pub fn add_message_at(
        existing: Option<&str>,
        session_id: &str,
        timestamp: &str,
        role: &str,
        content: &str,
        tool_call_id: Option<&str>,
    ) -> (updated: String)
        ensures
            updated@ == conversation_content(
                text_view(existing),
                session_id@,
                timestamp@,
                role@,
                content@,
                text_view(tool_call_id),
            ),
    {
        let mut updated = match existing {
            Some(e) => e.to_owned(),
            None => concat3("# Conversation: ", escape(session_id).as_str(), "\n\n"),
        };
        let ghost start = updated@;
        updated.append("## ");
        updated.append(escape(timestamp).as_str());
        updated.append("\n**");
        updated.append(role);
        updated.append("**: ");
        updated.append(escape(content).as_str());
        match tool_call_id {
            Some(id) => {
                updated.push('\t');
                updated.append(escape(id).as_str());
            },
            None => {},
        }
        updated.append("\n\n");
        assert(updated@ =~= start + conversation_entry(
            timestamp@,
            role@,
            content@,
            text_view(tool_call_id),
        ));
        updated
    }

    /// What the file of the conversation `session_id` holds after a message
    /// is added now, by the local time.
    pub fn add_message(
        &self,
        existing: Option<&str>,
        session_id: &str,
        role: &str,
        content: &str,
        tool_call_id: Option<&str>,
    ) -> (updated: String)
        ensures
            exists|timestamp: Seq<char>|
                updated@ == conversation_content(
                    text_view(existing),
                    session_id@,
                    timestamp,
                    role@,
                    content@,
                    text_view(tool_call_id),
                ) && is_plain(timestamp),
    {
        let timestamp = local_time_text("%Y-%m-%d %H:%M:%S");
        let updated = MemoryStore::add_message_at(
            existing,
            session_id,
            timestamp.as_str(),
            role,
            content,
            tool_call_id,
        );
        assert(updated@ == conversation_content(
            text_view(existing),
            session_id@,
            timestamp@,
            role@,
            content@,
            text_view(tool_call_id),
        ) && is_plain(timestamp@));
        updated
    }

    /// The last `limit` messages of the conversation `session_id` at the
    /// time `now`, in the order in which they were stored. `content` is
    /// what the file of the conversation holds, if it exists.
    pub fn get_conversation_at(content: Option<&str>, session_id: &str, limit: i64, now: i64) -> (messages:
        Vec<ConversationMessage>)
        ensures
            messages.deep_view() == spec_conversation(text_view(content), session_id@, limit, now),
            limit >= 0 ==> messages.len() <= limit,
    {
        match content {
            Some(c) => {
                let mut all = parse_conversation_at(c, session_id, now);
                let ghost stored = all.deep_view();
                let wanted: usize = if limit < 0 {
                    all.len()
                } else if limit as u64 >= all.len() as u64 {
                    all.len()
                } else {
                    limit as usize
                };
                let messages = all.split_off(all.len() - wanted);
                assert(messages.deep_view() =~= last_messages(stored, limit as int));
                messages
            },
            None => {
                let messages: Vec<ConversationMessage> = Vec::new();
                assert(messages.deep_view() =~= Seq::<ConversationMessageView>::empty());
                messages
            },
        }
    }

    /// The last `limit` messages of the conversation `session_id` as they
    /// are read now, in the order in which they were stored. `content` is
    /// what the file of the conversation holds, if it exists.
    pub fn get_conversation(&self, content: Option<&str>, session_id: &str, limit: i64) -> (messages:
        Vec<ConversationMessage>)
        ensures
            exists|now: i64|
                messages.deep_view() == spec_conversation(
                    text_view(content),
                    session_id@,
                    limit,
                    now,
                ),
            limit >= 0 ==> messages.len() <= limit,
    {
        let now = now_millis();
        let messages = MemoryStore::get_conversation_at(content, session_id, limit, now);
        assert(messages.deep_view() == spec_conversation(
            text_view(content),
            session_id@,
            limit,
            now,
        ));
        messages
    }

    /// What the long-term memory holds after the note `key` is saved.
    pub fn save_memory(content: &str, key: &str, value: &str, category: Option<&str>) -> (updated:
        String)
        ensures
            updated@ == spec_save_memory(
                content@,
                key@,
                value@,
                match category {
                    Some(c) => Some(c@),
                    None => None,
                },
            ),
    {
        let mut updated = if content.is_empty() {
            "# Long-term Memory\n\n".to_owned()
        } else {
            content.to_owned()
        };
        let header = concat(
            "## ",
            match category {
                Some(c) => c,
                None => "General",
            },
        );
        let hay = to_chars(updated.as_str());
        let needle = to_chars(header.as_str());
        let ghost start = updated@;
        if !contains_seq(&hay, &needle) {
            updated.append("\n");
            updated.append(header.as_str());
            updated.append("\n\n");
        }
        updated.append("- **");
        updated.append(key);
        updated.append("**: ");
        updated.append(value);
        updated.append("\n");
        proof {
            let entry = "- **"@ + key@ + "**: "@ + value@;
            if !spec_contains_seq(start, header@) {
                assert(updated@ =~= start + "\n"@ + header@ + "\n\n"@ + entry + "\n"@);
            } else {
                assert(updated@ =~= start + entry + "\n"@);
            }
        }
        updated
    }

    fn colon_at(line: &Vec<char>, from: usize) -> (r: usize)
        requires
            from <= line.len(),
        ensures
            from <= r <= line.len(),
            r - from == first_colon(line@.skip(from as int)),
    {
        let mut i: usize = from;
        let ghost s = line@;
        while i < line.len() && line[i] != ':'
            invariant
                from <= i <= line.len(),
                s == line@,
                first_colon(s.skip(from as int)) == (i - from) + first_colon(s.skip(i as int)),
            decreases line.len() - i,
        {
            assert(s.skip(i as int)[0] == s[i as int]);
            assert(s.skip(i as int).drop_first() =~= s.skip(i + 1));
            i += 1;
        }
        proof {
            if i < line.len() {
                assert(s.skip(i as int)[0] == s[i as int]);
            } else {
                assert(s.skip(i as int).len() == 0);
            }
        }
        i
    }

    /// The note `key` of the long-term memory that holds `content`, as
    /// found at the time `now`.
    pub fn get_memory_at(content: &str, key: &str, now: i64) -> (memory: Option<Memory>)
        ensures
            memory.deep_view() == (match value_in(spec_lines(content@), key@) {
                Some(value) => Some(
                    MemoryView {
                        key: key@,
                        value,
                        category: None,
                        importance: 0,
                        created_at: now,
                        updated_at: now,
                    },
                ),
                None => None,
            }),
    {
        let chars = to_chars(content);
        let all = lines(&chars);
        let mark_text = concat3("**", key, "**:");
        let mark = to_chars(mark_text.as_str());
        let ghost ls = all.deep_view();
        let mut i: usize = 0;
        assert(ls.skip(0) =~= ls);
        while i < all.len()
            invariant
                i <= all.len(),
                ls == all.deep_view(),
                ls == spec_lines(content@),
                mark@ == key_mark(key@),
                value_in(ls, key@) == value_in(ls.skip(i as int), key@),
            decreases all.len() - i,
        {
            let line = &all[i];
            proof {
                assert(line.deep_view() =~= line@);
                assert(ls.skip(i as int)[0] == line@);
                assert(ls.skip(i as int).drop_first() =~= ls.skip(i + 1));
            }
            if contains_seq(line, &mark) {
                let a = MemoryStore::colon_at(line, 0);
                proof {
                    assert(line@.skip(0) =~= line@);
                }
                if a < line.len() {
                    let b = MemoryStore::colon_at(line, a + 1);
                    proof {
                        let rest = line@.skip(a + 1);
                        assert(rest.take(b - (a + 1)) =~= line@.subrange(a + 1, b as int));
                    }
                    let value = trim_range(line, a + 1, b);
                    return Some(
                        Memory {
                            key: key.to_owned(),
                            value,
                            category: None,
                            importance: 0,
                            created_at: now,
                            updated_at: now,
                        },
                    );
                }
            }
            i += 1;
        }
        assert(ls.skip(ls.len() as int) =~= Seq::<Seq<char>>::empty());
        None
    }

    /// The note `key` of the long-term memory that holds `content`, as
    /// found now.
    pub fn get_memory(content: &str, key: &str) -> (memory: Option<Memory>)
        ensures
            memory is Some == value_in(spec_lines(content@), key@) is Some,
            memory matches Some(m) ==> m@.key == key@ && Some(m@.value) == value_in(
                spec_lines(content@),
                key@,
            ) && m@.category is None && m@.importance == 0 && m@.created_at == m@.updated_at,
    {
        MemoryStore::get_memory_at(content, key, now_millis())
    }

    /// The notes of the long-term memory that holds `content` which match
    /// `query`, in their order, as found at the time `now`.
    pub fn search_memories_at(content: &str, query: &str, now: i64) -> (found: Vec<Memory>)
        ensures
            found.deep_view() == notes_in(
                spec_lines(content@),
                query@,
                now,
                spec_lines(content@).len() as int,
            ),
    {
        let chars = to_chars(content);
        let all = lines(&chars);
        let wanted_text = lowercase(query);
        let wanted = to_chars(wanted_text.as_str());
        let dash = to_chars("- **");
        let stars_colon = to_chars("**:");
        let ghost ls = all.deep_view();
        let mut found: Vec<Memory> = Vec::new();
        assert(found.deep_view() =~= Seq::<MemoryView>::empty());
        let mut i: usize = 0;
        while i < all.len()
            invariant
                i <= all.len(),
                ls == all.deep_view(),
                wanted@ == unicode_lowercase(query@),
                dash@ == "- **"@,
                stars_colon@ == "**:"@,
                found.deep_view() == notes_in(ls, query@, now, i as int),
            decreases all.len() - i,
        {
            let line = &all[i];
            proof {
                assert(line.deep_view() =~= line@);
                assert(ls[i as int] == line@);
            }
            let text = string_of(line);
            let lower_text = lowercase(text.as_str());
            let lower = to_chars(lower_text.as_str());
            if contains_seq(&lower, &wanted) && starts_with(line, 0, &dash) {
                match find(line, 4, &stars_colon) {
                    Some(end) => {
                        proof {
                            reveal_strlit("**:");
                            assert(line@.subrange(end + 3, line@.len() as int) =~= line@.skip(
                                end + 3,
                            ));
                        }
                        let key = from_chars(line, 4, end);
                        let value = trim_range(line, end + 3, line.len());
                        let ghost before = found.deep_view();
                        let memory = Memory {
                            key,
                            value,
                            category: None,
                            importance: 0,
                            created_at: now,
                            updated_at: now,
                        };
                        let ghost m = memory@;
                        found.push(memory);
                        assert(found.deep_view() =~= before.push(m));
                    },
                    None => {},
                }
            }
            i += 1;
        }
        found
    }

    /// The notes of the long-term memory that holds `content` which match
    /// `query`, as found now. No count is kept: `limit` is not looked at.
    pub fn search_memories(content: &str, query: &str, limit: i64) -> (found: Vec<Memory>)
        ensures
            exists|now: i64|
                found.deep_view() == notes_in(
                    spec_lines(content@),
                    query@,
                    now,
                    spec_lines(content@).len() as int,
                ),
    {
        let now = now_millis();
        let found = MemoryStore::search_memories_at(content, query, now);
        assert(found.deep_view() == notes_in(
            spec_lines(content@),
            query@,
            now,
            spec_lines(content@).len() as int,
        ));
        found
    }

    /// What the long-term memory holds after the note `key` is deleted:
    /// the lines that do not hold its mark.
    pub fn delete_memory(content: &str, key: &str) -> (updated: String)
        ensures
            updated@ == lines_without(spec_lines(content@), key@),
    {
        let chars = to_chars(content);
        let all = lines(&chars);
        let mark_text = concat3("**", key, "**:");
        let mark = to_chars(mark_text.as_str());
        let ghost ls = all.deep_view();
        let mut updated = String::new();
        let mut i: usize = 0;
        assert(ls.take(0) =~= Seq::<Seq<char>>::empty());
        while i < all.len()
            invariant
                i <= all.len(),
                ls == all.deep_view(),
                mark@ == key_mark(key@),
                updated@ == lines_without(ls.take(i as int), key@),
            decreases all.len() - i,
        {
            let line = &all[i];
            proof {
                assert(line.deep_view() =~= line@);
                assert(ls.take(i + 1).last() == line@);
                assert(ls.take(i + 1).drop_last() =~= ls.take(i as int));
            }
            if !contains_seq(line, &mark) {
                let text = string_of(line);
                updated.append(text.as_str());
                updated.push('\n');
                assert(updated@ =~= lines_without(ls.take(i as int), key@) + line@ + seq!['\n']);
            }
            i += 1;
        }
        assert(ls.take(ls.len() as int) =~= ls);
        updated
    }

    /// The name of the conversation that the file called `name` holds.
    pub fn session_of_file(name: &str) -> (session: Option<String>)
        ensures
            session.deep_view() == spec_session_of_file(name@),
    {
        let chars = to_chars(name);
        let ending = to_chars(".md");
        proof {
            reveal_strlit(".md");
        }
        if chars.len() > 3 && starts_with(&chars, chars.len() - 3, &ending) {
            Some(from_chars(&chars, 0, chars.len() - 3))
        } else {
            None
        }
    }
}

} // verus!
