use nanobot::agent::Agent;
use nanobot::config::Config;
use nanobot::llm::Role;
use nanobot::memory::escape::{escape, tab_at, unescape};
use nanobot::memory::{parse_conversation_at, parse_conversation_markdown, MemoryStore};

#[test]
fn test_conversation() {
    let store = MemoryStore::new("/tmp/ws");
    let first = store.add_message(None, "test-session", "user", "Hello", None);
    let second = store.add_message(Some(&first), "test-session", "assistant", "Hi!", None);

    let messages = store.get_conversation(Some(&second), "test-session", 10);
    assert_eq!(messages.len(), 2);
    assert_eq!(messages[0].role, "user");
    assert_eq!(messages[0].content.trim(), "Hello");
    assert_eq!(messages[0].content, "Hello");
    assert_eq!(messages[1].role, "assistant");
    assert_eq!(messages[1].content, "Hi!");
    assert!(store.get_conversation(None, "test-session", 10).is_empty());

    // The entry is stamped with the local time, on a line of its own.
    let lines: Vec<&str> = first.lines().collect();
    assert_eq!(lines.len(), 5);
    assert_eq!(lines[0], "# Conversation: test-session");
    assert_eq!(lines[3], "**user**: Hello");
    let stamp = lines[2].strip_prefix("## ").unwrap();
    assert_eq!(stamp.len(), "2026-02-07 12:30:00".len());
    assert!(stamp.chars().all(|c| c.is_ascii_digit() || c == '-' || c == ':' || c == ' '));
}

#[test]
fn notes_of_today_are_appended() {
    let store = MemoryStore::new("/tmp/ws");
    let today_file = store.get_today_file();
    assert!(today_file.ends_with(".md"));
    assert!(today_file.starts_with("/tmp/ws/memory/"));

    let content = store.append_today(None, "Test content");
    assert!(content.contains("Test content"));
    assert!(content.starts_with("# "));
    assert_eq!(store.append_today(Some("old"), "new"), "old\nnew");
}

#[test]
fn store_paths() {
    let store = MemoryStore::new("/tmp/ws");
    assert_eq!(store.workspace(), "/tmp/ws");
    assert_eq!(store.memory_dir(), "/tmp/ws/memory");
    assert_eq!(store.memory_file(), "/tmp/ws/memory/MEMORY.md");
    assert_eq!(store.conversations_dir(), "/tmp/ws/memory/conversations");
    assert_eq!(store.get_conversation_file("s1"), "/tmp/ws/memory/conversations/s1.md");
    assert_eq!(store.day_file("2026-02-07"), "/tmp/ws/memory/2026-02-07.md");
    assert_eq!(MemoryStore::new("/tmp/ws/").memory_dir(), "/tmp/ws/memory");
    assert_eq!(MemoryStore::new("").memory_dir(), "memory");
}

#[test]
fn entry_format_is_exact() {
    let new = MemoryStore::add_message_at(None, "s1", "2026-02-07 12:30:00", "user", "Hello", None);
    assert_eq!(new, "# Conversation: s1\n\n## 2026-02-07 12:30:00\n**user**: Hello\n\n");
    let more = MemoryStore::add_message_at(Some(&new), "s1", "T", "tool", "x", Some("call_1"));
    assert_eq!(more, format!("{}## T\n**tool**: x\tcall_1\n\n", new));
    // Line feeds, carriage returns, tabs and backslashes are written with a backslash.
    let odd = MemoryStore::add_message_at(Some(""), "s", "T", "user", "a\nb\r\tc\\d", None);
    assert_eq!(odd, "## T\n**user**: a\\nb\\r\\tc\\\\d\n\n");
    let named = MemoryStore::add_message_at(None, "s\n2", "T\n", "user", "", Some(""));
    assert_eq!(named, "# Conversation: s\\n2\n\n## T\\n\n**user**: \t\n\n");
    assert_eq!(MemoryStore::append_day(None, "2026-02-07", "note"), "# 2026-02-07\n\n\nnote");
}

#[test]
fn added_message_is_read_back() {
    let mut content = String::new();
    let written = [
        ("user", "Hello", None),
        ("assistant", "Hi: **you**", None),
        ("tool", "", Some("call_1")),
        ("User", "x", None),
        ("user", " two blanks  ", None),
        ("user", "one\n\n## 2026-02-07 12:30:00\n**assistant**: forged\n\n", None),
        ("tool", "tab\there\r\nC:\\new\\table\\", Some("id\twith\ntab")),
        ("assistant", "\\n is not a line feed", Some("")),
        ("user", "ends in a carriage return\r", None),
    ];
    for (i, (role, text, call)) in written.iter().enumerate() {
        let existing = if i == 0 { None } else { Some(content.as_str()) };
        let earlier = parse_conversation_at(&content, "s", 77);
        content =
            MemoryStore::add_message_at(existing, "s", "2026-02-07 12:30:00", role, text, *call);
        let read = parse_conversation_at(&content, "s", 77);
        assert_eq!(read.len(), i + 1);
        for (before, after) in earlier.iter().zip(read.iter()) {
            assert_eq!(before.role, after.role);
            assert_eq!(before.content, after.content);
            assert_eq!(before.tool_call_id, after.tool_call_id);
            assert_eq!(before.id, after.id);
        }
        let last = read.last().unwrap();
        assert_eq!(last.role, role.to_lowercase());
        assert_eq!(last.content, *text);
        assert_eq!(last.id, i as i64);
        assert_eq!(last.session_id, "s");
        assert!(last.tool_calls.is_none());
        assert_eq!(last.tool_call_id.as_deref(), *call);
        // The time lines carry no zone, so they are not read as times.
        assert_eq!(last.created_at, 77);
    }
}

#[test]
fn parse_takes_lines_as_they_come() {
    let content = "# Conversation: s\r\n\r\n**Assistant**: one\r\nnoise\n**: none\n***: none\n**user** no colon\n**a**:b**:c\n**last**: end";
    let read = parse_conversation_at(content, "s", 5);
    let pairs: Vec<(&str, &str)> =
        read.iter().map(|m| (m.role.as_str(), m.content.as_str())).collect();
    assert_eq!(pairs, vec![("assistant", "one"), ("a", "b**:c"), ("last", "end")]);
    assert_eq!(read[2].id, 2);
    // Only one blank is the writer's, and a tab parts the content from the id of the call.
    let read = parse_conversation_at("**tool**:  x\\ny\\q\tcall\\t1\tz\n**user**:\n", "s", 5);
    assert_eq!(read.len(), 2);
    assert_eq!(read[0].content, " x\ny\\q");
    assert_eq!(read[0].tool_call_id.as_deref(), Some("call\t1\tz"));
    assert_eq!(read[1].content, "");
    assert_eq!(read[1].tool_call_id, None);
    assert!(parse_conversation_at("", "s", 5).is_empty());
    assert_eq!(parse_conversation_markdown("**user**: hi", "s").len(), 1);
}

#[test]
fn history_is_replayed_into_the_context() {
    let store = MemoryStore::new("/tmp/ws");
    let mut content = None;
    for (role, text) in [("user", "U1"), ("assistant", "A1"), ("tool", "T1"), ("user", "U2")] {
        content = Some(MemoryStore::add_message_at(content.as_deref(), "s", "t", role, text, None));
    }
    let history = store.get_conversation(content.as_deref(), "s", 10);
    assert_eq!(history.len(), 4);

    let mut config = Config::default();
    config.agent.system_prompt = "S".to_string();
    config.agent.max_context = 3;
    config.llm.openrouter.api_key = Some("key".to_string());
    config.memory.workspace_path = "/tmp/ws".to_string();
    let mut agent = Agent::new(config, Some("s".to_string()), Some(store)).unwrap();
    agent.restore_history(history);
    // The last three entries are taken; the tool message names no call and is left out.
    let seen: Vec<(Role, &str)> =
        agent.messages().iter().map(|m| (m.role, m.content.as_str())).collect();
    assert_eq!(seen, vec![(Role::System, "S"), (Role::Assistant, "A1"), (Role::User, "U2")]);

    let flushed = agent.flush();
    assert_eq!(flushed.len(), 3);
    assert_eq!(flushed[1].session_id, "s");
    assert_eq!(flushed[1].role, Role::Assistant);
    assert_eq!(flushed[1].content, "A1");

    let other = MemoryStore::new("/tmp/ws").get_conversation(Some("**user**: hi\n"), "t", 3);
    agent.set_session_id("t", other);
    assert_eq!(agent.session_id(), "t");
    let seen: Vec<&str> = agent.messages().iter().map(|m| m.content.as_str()).collect();
    assert_eq!(seen, vec!["S", "hi"]);
}

#[test]
fn agent_without_store_replays_and_flushes_nothing() {
    let mut config = Config::default();
    config.llm.openrouter.api_key = Some("key".to_string());
    let mut agent = Agent::new(config, Some("s".to_string()), None).unwrap();
    let history = parse_conversation_at("**user**: hi\n", "s", 0);
    agent.restore_history(history);
    assert_eq!(agent.context_length(), 1);
    assert!(agent.flush().is_empty());
    agent.set_session_id("t", parse_conversation_at("**user**: hi\n", "t", 0));
    assert_eq!(agent.context_length(), 1);
    assert_eq!(agent.session_id(), "t");
}

#[test]
fn long_term_memory_notes() {
    let first = MemoryStore::save_memory("", "name", "Ada", None);
    assert_eq!(first, "# Long-term Memory\n\n\n## General\n\n- **name**: Ada\n");
    let second = MemoryStore::save_memory(&first, "city", "Paris", None);
    assert_eq!(second, format!("{}- **city**: Paris\n", first));
    let third = MemoryStore::save_memory(&second, "cat", "Tom", Some("Pets"));
    assert_eq!(third, format!("{}\n## Pets\n\n- **cat**: Tom\n", second));

    let found = MemoryStore::get_memory_at(&third, "city", 3).unwrap();
    assert_eq!(found.key, "city");
    assert_eq!(found.value, "Paris");
    assert_eq!(found.created_at, 3);
    assert_eq!(found.updated_at, 3);
    assert_eq!(found.importance, 0);
    assert!(found.category.is_none());
    assert!(MemoryStore::get_memory_at(&third, "dog", 3).is_none());
    assert!(MemoryStore::get_memory(&third, "cat").is_some());
    // Only what stands between the first two colons is the value.
    let odd = MemoryStore::get_memory_at("- **k**:  a b : c\n", "k", 0).unwrap();
    assert_eq!(odd.value, "a b");

    let hits = MemoryStore::search_memories_at(&third, "PARIS", 9);
    assert_eq!(hits.len(), 1);
    assert_eq!(hits[0].key, "city");
    assert_eq!(hits[0].value, "Paris");
    assert_eq!(MemoryStore::search_memories_at(&third, "**", 9).len(), 3);
    assert_eq!(MemoryStore::search_memories(&third, "pets", 1).len(), 0);

    let without = MemoryStore::delete_memory(&third, "city");
    assert_eq!(
        without,
        "# Long-term Memory\n\n\n## General\n\n- **name**: Ada\n\n## Pets\n\n- **cat**: Tom\n"
    );
    assert_eq!(MemoryStore::delete_memory("a\r\nb", "x"), "a\nb\n");
}

#[test]
fn session_files() {
    assert_eq!(MemoryStore::session_of_file("s1.md").as_deref(), Some("s1"));
    assert_eq!(MemoryStore::session_of_file("a.b.md").as_deref(), Some("a.b"));
    assert_eq!(MemoryStore::session_of_file(".md"), None);
    assert_eq!(MemoryStore::session_of_file("notes.txt"), None);
    assert_eq!(MemoryStore::session_of_file("md"), None);
}

#[test]
fn reading_with_a_limit_gives_the_latest() {
    let store = MemoryStore::new("/tmp/ws");
    let mut content = None;
    for text in ["one", "two", "three", "four"] {
        content =
            Some(MemoryStore::add_message_at(content.as_deref(), "s", "t", "user", text, None));
    }
    let texts = |limit: i64| -> Vec<String> {
        MemoryStore::get_conversation_at(content.as_deref(), "s", limit, 9)
            .into_iter()
            .map(|m| m.content)
            .collect()
    };
    assert_eq!(texts(2), vec!["three", "four"]);
    assert_eq!(texts(1), vec!["four"]);
    assert_eq!(texts(0), Vec::<String>::new());
    assert_eq!(texts(4), vec!["one", "two", "three", "four"]);
    assert_eq!(texts(5), vec!["one", "two", "three", "four"]);
    assert_eq!(texts(i64::MAX), vec!["one", "two", "three", "four"]);
    // A negative limit is none.
    assert_eq!(texts(-1).len(), 4);
    assert_eq!(texts(i64::MIN).len(), 4);
    // The messages keep the numbers that they have in the conversation.
    let last = store.get_conversation(content.as_deref(), "s", 2);
    assert_eq!(last.len(), 2);
    assert_eq!(last[0].id, 2);
    assert_eq!(last[1].id, 3);
    assert!(MemoryStore::get_conversation_at(None, "s", 3, 9).is_empty());
    assert!(store.get_conversation(None, "s", -3).is_empty());
}

#[test]
fn stored_tool_messages_are_replayed_with_their_calls() {
    let mut content = None;
    let written =
        [("user", "U", None), ("assistant", "", Some("c1")), ("tool", "done\nfine", Some("c1"))];
    for (role, text, call) in written {
        content =
            Some(MemoryStore::add_message_at(content.as_deref(), "s", "t", role, text, call));
    }
    let history = MemoryStore::get_conversation_at(content.as_deref(), "s", 10, 0);
    let mut config = Config::default();
    config.agent.system_prompt = "S".to_string();
    config.llm.openrouter.api_key = Some("key".to_string());
    config.memory.workspace_path = "/tmp/ws".to_string();
    let mut agent =
        Agent::new(config, Some("s".to_string()), Some(MemoryStore::new("/tmp/ws"))).unwrap();
    agent.restore_history(history);
    let seen: Vec<(Role, &str, Option<&str>)> = agent
        .messages()
        .iter()
        .map(|m| (m.role, m.content.as_str(), m.tool_call_id.as_deref()))
        .collect();
    assert_eq!(
        seen,
        vec![
            (Role::System, "S", None),
            (Role::User, "U", None),
            (Role::Assistant, "", Some("c1")),
            (Role::Tool, "done\nfine", Some("c1")),
        ]
    );
    // A context that is written out whole names its tool calls, not the calls answered.
    let flushed = agent.flush();
    assert_eq!(flushed.len(), 4);
    assert_eq!(flushed[3].role, Role::Tool);
    assert_eq!(flushed[3].content, "done\nfine");
    assert_eq!(flushed[3].tool_call_id, None);
}

#[test]
fn texts_are_kept_on_one_line() {
    assert_eq!(escape("plain **text**: x"), "plain **text**: x");
    assert_eq!(escape("a\nb"), "a\\nb");
    assert_eq!(escape("\r\t\\"), "\\r\\t\\\\");
    assert_eq!(escape(""), "");
    let read = |text: &str| {
        let chars: Vec<char> = text.chars().collect();
        unescape(&chars, 0, chars.len())
    };
    assert_eq!(read("a\\nb"), "a\nb");
    assert_eq!(read("\\\\n"), "\\n");
    // A backslash that begins no pair stands for itself.
    assert_eq!(read("C:\\dir\\x"), "C:\\dir\\x");
    assert_eq!(read("end\\"), "end\\");
    for text in ["", "\\", "\\n", "\n\\n\\\\n", "a\tb\rc", "\\\\\\", "x\\"] {
        assert_eq!(read(&escape(text)), text);
    }
    let chars: Vec<char> = "ab\tcd\te".chars().collect();
    assert_eq!(tab_at(&chars, 0, chars.len()), 2);
    assert_eq!(tab_at(&chars, 3, chars.len()), 5);
    assert_eq!(tab_at(&chars, 6, chars.len()), chars.len());
    assert_eq!(tab_at(&chars, 0, 2), 2);
}
