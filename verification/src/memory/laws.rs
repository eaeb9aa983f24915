//! What holds of the stored conversations.

use vstd::prelude::*;
use vstd::string::*;
use crate::memory::{after_blank, body_call, body_content, conversation_entry};
use crate::memory::{conversation_header, entry_body, last_messages, line_message, line_role};
use crate::memory::{conversation_content, message_number, parse_lines, spec_conversation};
use crate::memory::spec_parse_conversation;
use crate::memory::{ConversationMessageView, LineMessage};
use crate::memory::escape::{first_tab, lemma_escaped_is_plain, lemma_first_tab_is};
use crate::memory::escape::{lemma_unescape_escaped, spec_escape};
use crate::config::spec_join;
use crate::llm::{role_name_round_trip, Role};
use crate::text::{lemma_find_is, lemma_lines_concat, lemma_lines_of_line, occurs_between};
use crate::text::{spec_lines, spec_starts_at};

verus! {

/// The number of messages after `lines`, when `count` came before them.
pub open spec fn count_after(lines: Seq<Seq<char>>, count: nat) -> nat
    decreases lines.len(),
{
    if lines.len() == 0 {
        count
    } else {
        match line_message(lines[0]) {
            Some(_) => count_after(lines.drop_first(), count + 1),
            None => count_after(lines.drop_first(), count),
        }
    }
}

/// The messages of lines in a row are those of the first lines and then
/// those of the others, numbered on from the first.
pub proof fn lemma_parse_concat(
    a: Seq<Seq<char>>,
    b: Seq<Seq<char>>,
    session_id: Seq<char>,
    timestamp: i64,
    count: nat,
)
    ensures
        parse_lines(a + b, session_id, timestamp, count) == parse_lines(
            a,
            session_id,
            timestamp,
            count,
        ) + parse_lines(b, session_id, timestamp, count_after(a, count)),
        count_after(a, count) == count + parse_lines(a, session_id, timestamp, count).len(),
    decreases a.len(),
{
    if a.len() == 0 {
        assert(a + b =~= b);
        assert(parse_lines(a, session_id, timestamp, count) + parse_lines(
            b,
            session_id,
            timestamp,
            count,
        ) =~= parse_lines(b, session_id, timestamp, count));
    } else {
        let ab = a + b;
        assert(ab[0] == a[0]);
        assert(ab.drop_first() =~= a.drop_first() + b);
        match line_message(a[0]) {
            Some(_) => {
                lemma_parse_concat(a.drop_first(), b, session_id, timestamp, count + 1);
            },
            None => {
                lemma_parse_concat(a.drop_first(), b, session_id, timestamp, count);
            },
        }
        assert(parse_lines(ab, session_id, timestamp, count) =~= parse_lines(
            a,
            session_id,
            timestamp,
            count,
        ) + parse_lines(b, session_id, timestamp, count_after(a, count)));
    }
}

/// Whether `text` can be written on one line and read back: it holds no
/// line feed and does not end in a carriage return.
pub open spec fn one_line(text: Seq<char>) -> bool {
    &&& forall|i: int| 0 <= i < text.len() ==> text[i] != '\n'
    &&& text.len() > 0 ==> text.last() != '\r'
}

/// The three lines of an entry.
proof fn lemma_entry_lines(stamp: Seq<char>, role: Seq<char>, body: Seq<char>)
    requires
        one_line(stamp),
        one_line(role),
        one_line(body),
    ensures
        spec_lines("## "@ + stamp + "\n**"@ + role + "**: "@ + body + "\n\n"@) == seq![
            "## "@ + stamp,
            "**"@ + role + "**: "@ + body,
            Seq::<char>::empty(),
        ],
{
    reveal_strlit("## ");
    reveal_strlit("\n**");
    reveal_strlit("**");
    reveal_strlit("**: ");
    reveal_strlit("\n\n");
    let l1 = "## "@ + stamp;
    let l2 = "**"@ + role + "**: "@ + body;
    let l3 = Seq::<char>::empty();
    let entry = "## "@ + stamp + "\n**"@ + role + "**: "@ + body + "\n\n"@;
    let tail = l2.push('\n') + l3.push('\n');
    assert(entry =~= l1.push('\n') + tail);
    assert(l1.last() != '\r') by {
        if stamp.len() > 0 {
            assert(l1.last() == stamp.last());
        } else {
            assert(l1 =~= "## "@);
        }
    }
    assert(l2.last() != '\r') by {
        if body.len() > 0 {
            assert(l2.last() == body.last());
        } else {
            assert(l2 =~= "**"@ + role + "**: "@);
            assert(l2.last() == ' ');
        }
    }
    lemma_lines_of_line(l1);
    lemma_lines_of_line(l2);
    lemma_lines_of_line(l3);
    lemma_lines_concat(l2.push('\n'), l3.push('\n'));
    lemma_lines_concat(l1.push('\n'), tail);
    assert(spec_lines(entry) =~= seq![l1, l2, l3]);
}

/// A written text stays on its line.
proof fn lemma_escaped_is_one_line(text: Seq<char>)
    ensures
        one_line(spec_escape(text)),
{
    lemma_escaped_is_plain(text);
    let written = spec_escape(text);
    assert forall|i: int| 0 <= i < written.len() implies written[i] != '\n' by {
        assert(written[i] != '\n');
    }
    if written.len() > 0 {
        assert(written[written.len() - 1] != '\r');
    }
}

/// The body of an entry stays on its line, and the content and the id are
/// read back from it as they were.
proof fn lemma_body_read_back(content: Seq<char>, tool_call_id: Option<Seq<char>>)
    ensures
        one_line(entry_body(content, tool_call_id)),
        body_content(entry_body(content, tool_call_id)) == content,
        body_call(entry_body(content, tool_call_id)) == tool_call_id,
{
    let body = entry_body(content, tool_call_id);
    let front = spec_escape(content);
    lemma_escaped_is_plain(content);
    lemma_unescape_escaped(content);
    assert forall|i: int| 0 <= i < front.len() implies body[i] != '\t' && body[i] != '\n'
        && body[i] != '\r' by {
        assert(body[i] == front[i]);
    }
    match tool_call_id {
        Some(id) => {
            let back = spec_escape(id);
            lemma_escaped_is_plain(id);
            lemma_unescape_escaped(id);
            assert(body =~= front + seq!['\t'] + back);
            assert(body[front.len() as int] == '\t');
            lemma_first_tab_is(body, front.len() as int);
            assert(body.take(front.len() as int) =~= front);
            assert(body.skip(front.len() as int + 1) =~= back);
            assert forall|i: int| 0 <= i < body.len() implies body[i] != '\n' by {
                if i > front.len() {
                    assert(body[i] == back[i - front.len() - 1]);
                }
            }
            if back.len() > 0 {
                assert(body.last() == back[back.len() - 1]);
            }
        },
        None => {
            assert(body =~= front);
            lemma_first_tab_is(body, front.len() as int);
            assert(body.take(front.len() as int) =~= front);
        },
    }
}

/// The message that the second line of an entry holds.
proof fn lemma_entry_message(role: Seq<char>, body: Seq<char>)
    requires
        forall|i: int| 0 <= i < role.len() ==> role[i] != '*',
    ensures
        line_message("**"@ + role + "**: "@ + body) == Some(
            LineMessage {
                role: line_role(role),
                content: body_content(body),
                tool_call_id: body_call(body),
            },
        ),
{
    reveal(line_message);
    reveal_strlit("## ");
    reveal_strlit("**");
    reveal_strlit("**: ");
    reveal_strlit("**:");
    let line = "**"@ + role + "**: "@ + body;
    let end = 2 + role.len() as int;
    assert(line.subrange(0, 2) =~= "**"@);
    assert(!spec_starts_at(line, 0, "## "@)) by {
        if spec_starts_at(line, 0, "## "@) {
            assert(line.subrange(0, 3)[0] == '#');
        }
    }
    assert(line.subrange(end, end + 3) =~= "**:"@);
    assert(!occurs_between(line, 2, end, "**:"@)) by {
        if occurs_between(line, 2, end, "**:"@) {
            let p = choose|p: int| 2 <= p < end && spec_starts_at(line, p, "**:"@);
            assert(line.subrange(p, p + 3)[0] == '*');
            assert(line[p] == role[p - 2]);
        }
    }
    lemma_find_is(line, 2, "**:"@, end);
    assert(line.subrange(2, end) =~= role);
    let rest = line.skip(end + 3);
    assert(rest =~= seq![' '] + body);
    assert(rest[0] == ' ');
    assert(after_blank(rest) =~= body);
}

/// The message that the lines of an entry hold.
proof fn lemma_entry_parse(
    stamp: Seq<char>,
    role: Seq<char>,
    body: Seq<char>,
    session_id: Seq<char>,
    time: i64,
    count: nat,
)
    requires
        forall|i: int| 0 <= i < role.len() ==> role[i] != '*',
    ensures
        ({
            let lines = seq!["## "@ + stamp, "**"@ + role + "**: "@ + body, Seq::<char>::empty()];
            let read = parse_lines(lines, session_id, time, count);
            &&& read.len() == 1
            &&& read[0] == ConversationMessageView {
                id: message_number(count),
                session_id,
                role: line_role(role),
                content: body_content(body),
                tool_calls: None,
                tool_call_id: body_call(body),
                created_at: time,
            }
        }),
{
    let l1 = "## "@ + stamp;
    let l2 = "**"@ + role + "**: "@ + body;
    let l3 = Seq::<char>::empty();
    let lines = seq![l1, l2, l3];
    lemma_entry_message(role, body);
    assert(line_message(l1) is None) by {
        reveal(line_message);
        reveal_strlit("## ");
        assert(l1.subrange(0, 3) =~= "## "@);
    }
    assert(line_message(l3) is None) by {
        reveal(line_message);
    }
    let rest1 = lines.drop_first();
    assert(rest1 =~= seq![l2, l3]);
    let rest2 = rest1.drop_first();
    assert(rest2 =~= seq![l3]);
    assert(rest2.drop_first() =~= Seq::<Seq<char>>::empty());
    assert(parse_lines(rest2.drop_first(), session_id, time, count + 1) =~= Seq::<
        ConversationMessageView,
    >::empty());
    assert(parse_lines(rest2, session_id, time, count + 1) =~= Seq::<
        ConversationMessageView,
    >::empty());
    assert(parse_lines(lines, session_id, time, count) == parse_lines(
        rest1,
        session_id,
        time,
        count,
    ));
}

/// A message that is added to a conversation is read back as it was
/// written, whatever its content: when the entry of a message is written
/// after a file content that is empty or ends its last line, the file holds
/// the messages that it held, unchanged and in their order, and then the
/// one message that was added, with its role as it is read, its content
/// and the id of its tool call. The file again ends its last line. This is so
/// for a role that has no asterisk and can be written on one line.
pub proof fn law_added_message_is_read_back(
    existing: Seq<char>,
    session_id: Seq<char>,
    timestamp: Seq<char>,
    role: Seq<char>,
    content: Seq<char>,
    tool_call_id: Option<Seq<char>>,
    now: i64,
)
    requires
        existing.len() == 0 || existing.last() == '\n',
        one_line(role),
        forall|i: int| 0 <= i < role.len() ==> role[i] != '*',
    ensures
        ({
            let updated = existing + conversation_entry(timestamp, role, content, tool_call_id);
            let before = spec_parse_conversation(existing, session_id, now);
            let after = spec_parse_conversation(updated, session_id, now);
            &&& after.len() == before.len() + 1
            &&& after.take(before.len() as int) == before
            &&& after.last() == ConversationMessageView {
                id: message_number(before.len()),
                session_id,
                role: line_role(role),
                content,
                tool_calls: None,
                tool_call_id,
                created_at: now,
            }
            &&& updated.last() == '\n'
        }),
{
    reveal_strlit("\n\n");
    let entry = conversation_entry(timestamp, role, content, tool_call_id);
    let stamp = spec_escape(timestamp);
    let body = entry_body(content, tool_call_id);
    lemma_escaped_is_one_line(timestamp);
    lemma_body_read_back(content, tool_call_id);
    let l1 = "## "@ + stamp;
    let l2 = "**"@ + role + "**: "@ + body;
    lemma_entry_lines(stamp, role, body);
    lemma_lines_concat(existing, entry);
    let old_lines = spec_lines(existing);
    let new_lines = seq![l1, l2, Seq::<char>::empty()];
    lemma_parse_concat(old_lines, new_lines, session_id, now, 0);
    let count = count_after(old_lines, 0);
    let before = parse_lines(old_lines, session_id, now, 0);
    lemma_entry_parse(stamp, role, body, session_id, now, count);
    let added = parse_lines(new_lines, session_id, now, count);
    let after = spec_parse_conversation(existing + entry, session_id, now);
    assert(after == before + added);
    assert(after.take(before.len() as int) =~= before);
    assert(after.last() == added[0]);
    assert((existing + entry).last() == "\n\n"@[1]);
}

/// The first message of a conversation is read back from a new file: the
/// file then holds that message and no other, whatever the name of the
/// conversation and the content of the message.
pub proof fn law_first_message_is_read_back(
    session_id: Seq<char>,
    timestamp: Seq<char>,
    role: Seq<char>,
    content: Seq<char>,
    tool_call_id: Option<Seq<char>>,
    now: i64,
)
    requires
        one_line(role),
        forall|i: int| 0 <= i < role.len() ==> role[i] != '*',
    ensures
        ({
            let read = spec_parse_conversation(
                conversation_header(session_id) + conversation_entry(
                    timestamp,
                    role,
                    content,
                    tool_call_id,
                ),
                session_id,
                now,
            );
            &&& read.len() == 1
            &&& read[0] == ConversationMessageView {
                id: 0,
                session_id,
                role: line_role(role),
                content,
                tool_calls: None,
                tool_call_id,
                created_at: now,
            }
        }),
{
    reveal_strlit("# Conversation: ");
    reveal_strlit("\n\n");
    reveal_strlit("## ");
    reveal_strlit("**");
    let name = spec_escape(session_id);
    lemma_escaped_is_one_line(session_id);
    let heading = "# Conversation: "@ + name;
    let empty = Seq::<char>::empty();
    let header = conversation_header(session_id);
    assert(header =~= heading.push('\n') + empty.push('\n'));
    assert(heading.last() != '\r') by {
        if name.len() > 0 {
            assert(heading.last() == name.last());
        } else {
            assert(heading =~= "# Conversation: "@);
        }
    }
    lemma_lines_of_line(heading);
    lemma_lines_of_line(empty);
    lemma_lines_concat(heading.push('\n'), empty.push('\n'));
    let header_lines = seq![heading, empty];
    assert(spec_lines(header) =~= header_lines);
    assert(line_message(heading) is None) by {
        reveal(line_message);
        if spec_starts_at(heading, 0, "**"@) {
            assert(heading.subrange(0, 2)[0] == '*');
        }
    }
    assert(line_message(empty) is None) by {
        reveal(line_message);
    }
    let rest = header_lines.drop_first();
    assert(rest =~= seq![empty]);
    assert(rest.drop_first() =~= Seq::<Seq<char>>::empty());
    assert(parse_lines(rest.drop_first(), session_id, now, 0) =~= Seq::<
        ConversationMessageView,
    >::empty());
    assert(parse_lines(rest, session_id, now, 0) =~= Seq::<ConversationMessageView>::empty());
    assert(spec_parse_conversation(header, session_id, now) =~= Seq::<
        ConversationMessageView,
    >::empty());
    assert(header.last() == '\n');
    law_added_message_is_read_back(header, session_id, timestamp, role, content, tool_call_id, now);
}

/// Reading with a limit gives the end of what is stored, in its order, and
/// no more messages than the limit; with a limit of one or more, the
/// message that was stored last is the last that is read.
pub proof fn law_limit_keeps_the_latest(messages: Seq<ConversationMessageView>, limit: int)
    requires
        limit >= 0,
    ensures
        ({
            let read = last_messages(messages, limit);
            &&& read.len() <= limit
            &&& read.len() <= messages.len()
            &&& read == messages.skip(messages.len() - read.len())
            &&& limit >= 1 && messages.len() > 0 ==> read.len() > 0 && read.last()
                == messages.last()
        }),
{
    let read = last_messages(messages, limit);
    assert(read =~= messages.skip(messages.len() - read.len()));
}

/// Conversations are kept apart: two conversations with different names
/// have different files under the same directory, so that what is added to
/// one is never read as a part of the other.
pub proof fn law_conversations_have_files_of_their_own(
    dir: Seq<char>,
    first: Seq<char>,
    second: Seq<char>,
)
    requires
        first != second,
    ensures
        spec_join(dir, first + ".md"@) != spec_join(dir, second + ".md"@),
{
    let a = spec_join(dir, first + ".md"@);
    let b = spec_join(dir, second + ".md"@);
    if a == b {
        let lead = a.len() - (first + ".md"@).len();
        assert(a.len() == b.len());
        assert(first.len() == second.len());
        assert forall|i: int| 0 <= i < first.len() implies first[i] == second[i] by {
            assert(a[lead + i] == first[i]);
            assert(b[lead + i] == second[i]);
        }
        assert(first =~= second);
    }
}

/// A message that is added is the last that is read: when a message is
/// added to a conversation, whether it had a file or not, reading the
/// conversation without a limit gives what it held before and then the
/// message, with its role as it is read, its content and the id of its tool
/// call as they were given; and reading it with a limit of one or more
/// gives that message last. This is so for a file that is empty or ends
/// its last line, as every file does that was written by adding messages,
/// and for a role that has no asterisk and can be written on one line.
pub proof fn law_message_round_trip(
    existing: Option<Seq<char>>,
    session_id: Seq<char>,
    timestamp: Seq<char>,
    role: Seq<char>,
    content: Seq<char>,
    tool_call_id: Option<Seq<char>>,
    limit: i64,
    now: i64,
)
    requires
        existing matches Some(held) ==> held.len() == 0 || held.last() == '\n',
        one_line(role),
        forall|i: int| 0 <= i < role.len() ==> role[i] != '*',
    ensures
        ({
            let updated = conversation_content(
                existing,
                session_id,
                timestamp,
                role,
                content,
                tool_call_id,
            );
            let before = spec_conversation(existing, session_id, -1i64, now);
            let message = ConversationMessageView {
                id: message_number(before.len()),
                session_id,
                role: line_role(role),
                content,
                tool_calls: None,
                tool_call_id,
                created_at: now,
            };
            let read = spec_conversation(Some(updated), session_id, limit, now);
            &&& spec_conversation(Some(updated), session_id, -1i64, now) == before.push(message)
            &&& limit >= 0 ==> read.len() <= limit
            &&& limit != 0 ==> read.len() > 0 && read.last() == message
            &&& updated.last() == '\n'
        }),
{
    let updated = conversation_content(existing, session_id, timestamp, role, content, tool_call_id);
    let before = spec_conversation(existing, session_id, -1i64, now);
    let after = spec_parse_conversation(updated, session_id, now);
    match existing {
        Some(held) => {
            law_added_message_is_read_back(
                held,
                session_id,
                timestamp,
                role,
                content,
                tool_call_id,
                now,
            );
        },
        None => {
            law_first_message_is_read_back(
                session_id,
                timestamp,
                role,
                content,
                tool_call_id,
                now,
            );
            reveal_strlit("\n\n");
            let entry = conversation_entry(timestamp, role, content, tool_call_id);
            assert(updated.last() == entry.last());
            assert(entry.last() == "\n\n"@[1]);
        },
    }
    assert(after =~= before.push(after.last()));
}

/// A message of any role is read back as it was written: when a message
/// is added under the name of its role, to a conversation with or without
/// a file, the last message that is read, with any limit but 0, names that
/// role and holds the content and the id of the tool call that were given,
/// whatever they are. This is so for a file that is empty or ends its last
/// line, as every file does that was written by adding messages.
pub proof fn law_role_and_content_are_read_back(
    existing: Option<Seq<char>>,
    session_id: Seq<char>,
    timestamp: Seq<char>,
    role: Role,
    content: Seq<char>,
    tool_call_id: Option<Seq<char>>,
    limit: i64,
    now: i64,
)
    requires
        existing matches Some(held) ==> held.len() == 0 || held.last() == '\n',
        limit != 0,
    ensures
        ({
            let updated = conversation_content(
                existing,
                session_id,
                timestamp,
                role.spec_as_str(),
                content,
                tool_call_id,
            );
            let read = spec_conversation(Some(updated), session_id, limit, now);
            &&& read.len() > 0
            &&& read.last().role == role.spec_as_str()
            &&& Role::spec_from_stored(read.last().role) == role
            &&& read.last().content == content
            &&& read.last().tool_call_id == tool_call_id
            &&& read.last().tool_calls is None
            &&& read.last().session_id == session_id
        }),
{
    let name = role.spec_as_str();
    reveal_strlit("system");
    reveal_strlit("user");
    reveal_strlit("assistant");
    reveal_strlit("tool");
    assert(forall|i: int| 0 <= i < name.len() ==> name[i] != '*' && name[i] != '\n');
    assert(name.len() > 0 && name.last() != '\r');
    role_name_round_trip(role);
    law_message_round_trip(existing, session_id, timestamp, name, content, tool_call_id, limit, now);
}

} // verus!
