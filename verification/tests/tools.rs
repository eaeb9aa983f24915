use nanobot::config::{Config, ToolsConfig};
use nanobot::tools::file::{path_decision, validate_path, DirEntry, EntryKind, ListDirTool};
use nanobot::tools::file::ReadFileTool;
use nanobot::tools::file::{path_argument, WriteFileTool};
use nanobot::tools::message::{MessagePlan, MessageTool, MessageToolConfig};
use nanobot::tools::shell::{ShellOutcome, ShellPlan, ShellTool};
use nanobot::tools::web::{SearchResult, WebSearchTool};
use nanobot::tools::{tool_failure, unknown_tool, Tool, ToolContext, ToolDef, ToolRegistry};
use nanobot::tools::ToolResult;

fn args(text: &str) -> serde_json::Value {
    serde_json::from_str(text).unwrap()
}

#[test]
fn test_tool_registry_creation() {
    let config = Config::default();
    let registry = ToolRegistry::default_with_config(&config);

    assert!(registry.get("shell").is_some());
    assert!(registry.get("read_file").is_some());
    assert!(registry.get("write_file").is_some());
    assert!(registry.get("list_dir").is_some());
}

#[test]
fn default_registry_offers_web_search_only_with_a_key() {
    let mut config = Config::default();
    let registry = ToolRegistry::default_with_config(&config);
    assert_eq!(registry.len(), 4);
    assert!(!registry.contains("web_search"));
    assert!(registry.get("nothing").is_none());
    config.tools.search_api_key = Some("k".to_string());
    let registry = ToolRegistry::default_with_config(&config);
    let names: Vec<&str> = registry.list_tools().iter().map(|d| d.name.as_str()).collect();
    assert_eq!(names, vec!["shell", "read_file", "write_file", "list_dir", "web_search"]);
    for tool in registry.to_llm_tools() {
        let schema: serde_json::Value = serde_json::from_str(&tool.parameters).unwrap();
        assert_eq!(schema["type"], "object");
        assert!(!tool.description.is_empty());
    }
    let shell = registry.get("shell").unwrap();
    let schema: serde_json::Value = serde_json::from_str(&shell.parameters).unwrap();
    assert_eq!(schema["required"][0], "command");
    assert_eq!(schema["properties"]["timeout"]["default"], 30);
}

#[test]
fn registry_keeps_one_tool_per_name() {
    let mut registry = ToolRegistry::new();
    assert!(registry.is_empty());
    let def = |name: &str, description: &str| ToolDef {
        name: name.to_string(),
        description: description.to_string(),
        parameters: "{}".to_string(),
    };
    registry.register(def("a", "first"));
    registry.register(def("b", "other"));
    registry.register(def("a", "second"));
    assert_eq!(registry.len(), 2);
    assert_eq!(registry.get("a").unwrap().description, "second");
    registry.register_tool(&ShellTool);
    registry.register_tool(&WebSearchTool::new("k".to_string()));
    assert_eq!(registry.len(), 4);
    assert_eq!(registry.get("shell").unwrap().name, ShellTool.definition().name);
    assert!(registry.contains("web_search"));
    registry.register_tool(&ShellTool);
    assert_eq!(registry.len(), 4);
    assert_eq!(registry.list_tools()[0].name, "a");
    let tool = registry.get("b").unwrap().to_llm_tool();
    assert_eq!((tool.name.as_str(), tool.description.as_str()), ("b", "other"));
}

#[test]
fn tool_result_text() {
    let ok = ToolResult::success("out");
    assert!(ok.success);
    assert_eq!(ok.error, None);
    assert_eq!(ok.to_string(), "out");
    let failed = ToolResult::error("bad");
    assert!(!failed.success);
    assert_eq!(failed.output, "");
    assert_eq!(failed.to_string(), "错误: bad");
    let silent = ToolResult { success: false, output: "ignored".to_string(), error: None };
    assert_eq!(silent.to_string(), "错误: 未知错误");
    assert_eq!(unknown_tool("x"), "未知工具: x");
    assert_eq!(tool_failure("y"), "工具执行错误: y");
}

#[test]
fn tool_context_falls_back_to_tmp() {
    let ctx = ToolContext::new(ToolsConfig::default(), None);
    assert_eq!(ctx.working_dir, "/tmp");
    let ctx = ToolContext::new(ToolsConfig::default(), Some("/work".to_string()));
    assert_eq!(ctx.working_dir, "/work");
    assert_eq!(ctx.config.shell_whitelist, vec!["echo", "cat", "ls"]);
}

#[test]
fn listed_command_is_planned_and_its_output_reported() {
    let config = Config::default();
    let ctx = ToolContext::new(config.tools.duplicate(), None);
    let shell_tool = ShellTool;
    let plan = shell_tool.plan(&args("{\"command\": \"echo hello\", \"timeout\": 5}"), &ctx);
    match plan {
        Ok(ShellPlan::Run { command, timeout }) => {
            assert_eq!(command, "echo hello");
            assert_eq!(timeout, 5);
        },
        other => panic!("unexpected {:?}", other),
    }
    let done = ShellOutcome::Finished {
        success: true,
        code: Some(0),
        stdout: "hello\n".to_string(),
        stderr: String::new(),
    };
    let tool_result = ShellTool::result_of(&done, 5);
    assert!(tool_result.success);
    assert!(tool_result.output.contains("hello"));
}

#[test]
fn shell_commands_are_held_to_the_whitelist() {
    let tool = ShellTool;
    let listed = ToolsConfig::default();
    assert!(tool.validate_command("echo hi", &listed).is_ok());
    assert!(tool.validate_command("  \t/bin/ls -l", &listed).is_ok());
    assert!(tool.validate_command("cat", &listed).is_ok());
    assert_eq!(
        tool.validate_command("rm -rf /", &listed).unwrap_err(),
        "命令 'rm' 不在白名单中。允许的命令: [\"echo\", \"cat\", \"ls\"]"
    );
    assert_eq!(
        tool.validate_command("/usr/bin/env ls", &listed).unwrap_err(),
        "命令 'env' 不在白名单中。允许的命令: [\"echo\", \"cat\", \"ls\"]"
    );
    assert_eq!(tool.validate_command("   ", &listed).unwrap_err(), "空命令");
    assert_eq!(tool.validate_command("", &listed).unwrap_err(), "空命令");
    let open = ToolsConfig { shell_whitelist: Vec::new(), ..ToolsConfig::default() };
    assert!(tool.validate_command("rm -rf /", &open).is_ok());
    assert!(tool.validate_command("", &open).is_ok());
    assert!(ShellTool::check_base("ls", &listed.shell_whitelist).is_ok());
    assert!(ShellTool::check_base("l", &listed.shell_whitelist).is_err());

    let ctx = ToolContext::new(listed, None);
    assert_eq!(tool.plan_for(None, Some(3), &ctx).unwrap_err(), "缺少 command 参数");
    match tool.plan_for(Some("cat x".to_string()), None, &ctx) {
        Ok(ShellPlan::Run { command, timeout }) => {
            assert_eq!((command.as_str(), timeout), ("cat x", 30))
        },
        other => panic!("unexpected {:?}", other),
    }
    assert!(matches!(
        tool.plan_for(Some("dd".to_string()), Some(1), &ctx),
        Ok(ShellPlan::Refuse(_))
    ));
    assert_eq!(tool.plan(&args("{}"), &ctx).unwrap_err(), "缺少 command 参数");
    assert_eq!(tool.plan(&args("{\"command\": 5}"), &ctx).unwrap_err(), "缺少 command 参数");
    match tool.plan(&args("{\"command\": \"ls\"}"), &ctx) {
        Ok(ShellPlan::Run { timeout, .. }) => assert_eq!(timeout, 30),
        other => panic!("unexpected {:?}", other),
    }
    // Only a whole number from 0 on counts as a timeout.
    for odd in ["-5", "2.5", "\"7\"", "null"] {
        let call = format!("{{\"command\": \"ls -l\", \"timeout\": {}}}", odd);
        match tool.plan(&args(&call), &ctx) {
            Ok(ShellPlan::Run { command, timeout }) => {
                assert_eq!((command.as_str(), timeout), ("ls -l", 30))
            },
            other => panic!("unexpected {:?}", other),
        }
    }
    match tool.plan(&args("{\"command\": \"ls\", \"timeout\": 0}"), &ctx) {
        Ok(ShellPlan::Run { timeout, .. }) => assert_eq!(timeout, 0),
        other => panic!("unexpected {:?}", other),
    }
    match tool.plan(&args("{\"command\": \"sudo ls\"}"), &ctx) {
        Ok(ShellPlan::Refuse(result)) => {
            assert!(!result.success);
            assert!(result.error.unwrap().starts_with("命令 'sudo' 不在白名单中"));
        },
        other => panic!("unexpected {:?}", other),
    }
}

#[test]
fn shell_results() {
    let finished = |success, code, stdout: &str, stderr: &str| ShellOutcome::Finished {
        success,
        code,
        stdout: stdout.to_string(),
        stderr: stderr.to_string(),
    };
    assert_eq!(ShellTool::result_of(&finished(true, Some(0), "out", "err"), 1).output, "out");
    assert_eq!(ShellTool::result_of(&finished(true, Some(0), "", "err"), 1).output, "err");
    assert_eq!(
        ShellTool::result_of(&finished(true, Some(0), "", ""), 1).output,
        "命令执行成功（无输出）"
    );
    let failed = ShellTool::result_of(&finished(false, Some(2), "o", "e"), 1);
    assert!(!failed.success);
    assert_eq!(failed.error.as_deref(), Some("退出码: 2\n标准输出: o\n标准错误: e"));
    let killed = ShellTool::result_of(&finished(false, None, "", ""), 1);
    assert_eq!(killed.error.as_deref(), Some("退出码: -1\n标准输出: \n标准错误: "));
    let broken = ShellTool::result_of(&ShellOutcome::Failed("no sh".to_string()), 1);
    assert_eq!(broken.error.as_deref(), Some("执行失败: no sh"));
    let late = ShellTool::result_of(&ShellOutcome::TimedOut, 30);
    assert_eq!(late.error.as_deref(), Some("命令执行超时（30秒）"));
}

#[test]
fn file_tools_report_what_was_done() {
    let allowed = vec!["/tmp/work".to_string()];
    assert!(validate_path("/tmp/work/test.txt", "/tmp/work/test.txt", &allowed, &allowed).is_ok());
    let result = WriteFileTool::result_of("/tmp/work/test.txt", Ok(()), false);
    assert!(result.success);
    let result = ReadFileTool::result_of(Ok("Hello, World!".to_string()), false);
    assert!(result.success);
    assert_eq!(result.output, "Hello, World!");
    let entry = DirEntry { name: "test.txt".to_string(), kind: EntryKind::File, size: 13 };
    let result = ListDirTool::result_of(Ok(vec![entry]));
    assert!(result.success);
    assert!(result.output.contains("test.txt"));
}

#[test]
fn paths_are_held_to_the_allowed_ones() {
    let allowed = vec!["/home".to_string(), "/tmp".to_string()];
    assert!(validate_path("/tmp/x", "/tmp/x", &allowed, &allowed).is_ok());
    assert!(validate_path("/home", "/home", &allowed, &allowed).is_ok());
    // Whole components count, not characters.
    assert_eq!(
        validate_path("/tmpx/y", "/tmpx/y", &allowed, &allowed).unwrap_err(),
        "路径 '/tmpx/y' 不在允许范围内。允许的路径: [\"/home\", \"/tmp\"]"
    );
    // The resolved path decides, the given one is shown.
    assert!(validate_path("/tmp/../etc", "/etc", &allowed, &allowed).is_err());
    assert!(validate_path("link", "/tmp/real", &allowed, &allowed).is_ok());
    assert!(validate_path("/etc/passwd", "/etc/passwd", &Vec::new(), &Vec::new()).is_ok());
    assert!(path_decision("/x", &allowed, &vec![false, true]).is_ok());
    assert!(path_decision("/x", &Vec::new(), &Vec::new()).is_ok());
    assert_eq!(
        path_decision("/x", &allowed, &vec![false, false]).unwrap_err(),
        "路径 '/x' 不在允许范围内。允许的路径: [\"/home\", \"/tmp\"]"
    );
    assert!(path_decision("/x", &allowed, &Vec::new()).is_err());
    assert_eq!(path_argument(&args("{\"path\": \"/x\"}")).unwrap(), "/x");
    assert_eq!(path_argument(&args("{\"p\": \"/x\"}")).unwrap_err(), "缺少 path 参数");
    // Only a text member of an object counts.
    assert_eq!(path_argument(&args("{\"path\": 5}")).unwrap_err(), "缺少 path 参数");
    assert_eq!(path_argument(&args("[\"path\"]")).unwrap_err(), "缺少 path 参数");
    assert_eq!(path_argument(&args("\"path\"")).unwrap_err(), "缺少 path 参数");
    assert_eq!(path_argument(&args("{\"path\": \"\"}")).unwrap(), "");
    assert_eq!(WriteFileTool::content_argument(&args("{}")).unwrap_err(), "缺少 content 参数");
    assert_eq!(WriteFileTool::content_argument(&args("{\"content\": \"c\"}")).unwrap(), "c");
}

#[test]
fn file_results() {
    assert!(ReadFileTool::check_size(1024 * 1024).is_none());
    let too_large = ReadFileTool::check_size(1024 * 1024 + 1).unwrap();
    assert_eq!(too_large.error.as_deref(), Some("文件超过 1MB 限制"));
    let gone = ReadFileTool::result_of(Err("gone".to_string()), true);
    assert_eq!(gone.error.as_deref(), Some("无法读取文件: gone"));
    let garbled = ReadFileTool::result_of(Err("utf8".to_string()), false);
    assert_eq!(garbled.error.as_deref(), Some("读取失败: utf8"));
    assert_eq!(WriteFileTool::result_of("/p", Ok(()), false).output, "文件已写入: /p");
    let no_dir = WriteFileTool::result_of("/p", Err("denied".to_string()), true);
    assert_eq!(no_dir.error.as_deref(), Some("创建目录失败: denied"));
    let no_file = WriteFileTool::result_of("/p", Err("full".to_string()), false);
    assert_eq!(no_file.error.as_deref(), Some("写入失败: full"));

    let entry = |name: &str, kind, size| DirEntry { name: name.to_string(), kind, size };
    assert_eq!(ListDirTool::line_of(&entry("a.txt", EntryKind::File, 13)), "[FILE] 13 bytes   a.txt");
    assert_eq!(ListDirTool::line_of(&entry("d", EntryKind::Dir, 4096)), "[DIR] -          d");
    assert_eq!(ListDirTool::line_of(&entry("s", EntryKind::Other, 1)), "[OTHER] -          s");
    assert_eq!(ListDirTool::line_of(&entry("u", EntryKind::Unknown, 1)), "[UNKNOWN] -          u");
    assert_eq!(
        ListDirTool::line_of(&entry("big", EntryKind::File, 12345678901)),
        "[FILE] 12345678901 bytes big"
    );
    assert_eq!(ListDirTool::result_of(Ok(Vec::new())).output, "目录为空");
    let listing = vec![entry("d", EntryKind::Dir, 0), entry("f", EntryKind::File, 0)];
    assert_eq!(
        ListDirTool::result_of(Ok(listing)).output,
        "[DIR] -          d\n[FILE] 0 bytes    f"
    );
    let failed = ListDirTool::result_of(Err("nope".to_string()));
    assert_eq!(failed.error.as_deref(), Some("无法读取目录: nope"));
}

#[test]
fn web_search_plans_and_results() {
    assert_eq!(WebSearchTool::new("k".to_string()).api_key, "k");
    assert_eq!(WebSearchTool::count_for(None), 5);
    assert_eq!(WebSearchTool::count_for(Some(0)), 1);
    assert_eq!(WebSearchTool::count_for(Some(3)), 3);
    assert_eq!(WebSearchTool::count_for(Some(10)), 10);
    assert_eq!(WebSearchTool::count_for(Some(u64::MAX)), 10);
    assert_eq!(WebSearchTool::plan(&args("{\"query\": \"q\"}")).unwrap(), ("q".to_string(), 5));
    assert_eq!(
        WebSearchTool::plan(&args("{\"query\": \"q\", \"count\": 99}")).unwrap(),
        ("q".to_string(), 10)
    );
    assert_eq!(WebSearchTool::plan(&args("{\"count\": 2}")).unwrap_err(), "缺少 query 参数");
    assert_eq!(WebSearchTool::plan_for(None, Some(2)).unwrap_err(), "缺少 query 参数");
    assert_eq!(WebSearchTool::plan_for(Some("q".to_string()), Some(0)).unwrap(), ("q".to_string(), 1));
    let hit = |t: &str, u: &str, d: &str| SearchResult {
        title: t.to_string(),
        url: u.to_string(),
        description: d.to_string(),
    };
    assert_eq!(WebSearchTool::result_of(Ok(Vec::new())).output, "未找到相关结果");
    let found = WebSearchTool::result_of(Ok(vec![hit("T1", "U1", "D1"), hit("T2", "U2", "D2")]));
    assert_eq!(found.output, "1. T1\n   URL: U1\n   D1\n\n2. T2\n   URL: U2\n   D2\n");
    let failed = WebSearchTool::result_of(Err("offline".to_string()));
    assert_eq!(failed.error.as_deref(), Some("搜索失败: offline"));
}

#[test]
fn message_tool_routes_to_a_known_channel() {
    let defaults = MessageToolConfig::default();
    assert!(defaults.default_channel.is_empty() && defaults.default_chat_id.is_empty());
    let mut tool = MessageTool::new(vec!["telegram".to_string(), "discord".to_string()]);
    let refused = |plan: MessagePlan| match plan {
        MessagePlan::Refuse(result) => result.error.unwrap(),
        other => panic!("unexpected {:?}", other),
    };
    assert_eq!(
        refused(tool.route("hi".to_string(), None, None)),
        "No target channel/chat specified"
    );
    assert_eq!(
        refused(tool.route("hi".to_string(), Some("telegram".to_string()), None)),
        "No target channel/chat specified"
    );
    tool.set_context("telegram", "42");
    match tool.route("hi".to_string(), None, None) {
        MessagePlan::Send { channel, chat_id, content } => {
            assert_eq!((channel.as_str(), chat_id.as_str(), content.as_str()), ("telegram", "42", "hi"));
        },
        other => panic!("unexpected {:?}", other),
    }
    match tool.plan(&args("{\"content\": \"c\", \"channel\": \"discord\", \"chat_id\": \"7\"}")) {
        Ok(MessagePlan::Send { channel, chat_id, content }) => {
            assert_eq!((channel.as_str(), chat_id.as_str(), content.as_str()), ("discord", "7", "c"));
        },
        other => panic!("unexpected {:?}", other),
    }
    assert_eq!(
        refused(tool.route("hi".to_string(), Some("irc".to_string()), None)),
        "Channel 'irc' not found"
    );
    assert_eq!(tool.plan(&args("{\"channel\": \"x\"}")).unwrap_err(), "Missing 'content' parameter");
    assert_eq!(MessageTool::result_of("telegram", "42", Ok(())).output, "Message sent to telegram:42");
    assert_eq!(
        MessageTool::result_of("telegram", "42", Err("down".to_string())).error.as_deref(),
        Some("Failed to send message: down")
    );
    assert_eq!(tool.definition().name, "message");
}
