use nanobot::agent::{Agent, Next, Outcome};
use nanobot::config::Config;
use nanobot::error::NanobotError;
use nanobot::llm::{ChatResponse, FunctionCall, Message, Role, ToolCall};
use nanobot::memory::MemoryStore;
use nanobot::tools::{ToolDef, ToolRegistry, ToolResult};

fn config(max_context: usize, prompt: &str) -> Config {
    let mut config = Config::default();
    config.agent.system_prompt = prompt.to_string();
    config.agent.max_context = max_context;
    config.llm.openrouter.api_key = Some("key".to_string());
    config.memory.workspace_path = "/tmp/nanobot-test".to_string();
    config
}

fn agent(max_context: usize, prompt: &str) -> Agent {
    Agent::new(config(max_context, prompt), Some("s1".to_string()), None).unwrap()
}

fn agent_with(registry: ToolRegistry) -> Agent {
    agent(20, "S").with_tools(registry)
}

fn persisting_agent(max_context: usize) -> Agent {
    let store = MemoryStore::new("/tmp/nanobot-test");
    Agent::new(config(max_context, "S"), Some("s1".to_string()), Some(store)).unwrap()
}

fn answer(text: &str) -> Result<ChatResponse, String> {
    Ok(ChatResponse { message: Message::assistant(text), usage: None, model: "m".to_string() })
}

fn call(id: &str, name: &str, arguments: &str) -> ToolCall {
    ToolCall {
        id: id.to_string(),
        call_type: "function".to_string(),
        function: FunctionCall { name: name.to_string(), arguments: arguments.to_string() },
    }
}

fn asks(calls: Vec<ToolCall>) -> Result<ChatResponse, String> {
    Ok(ChatResponse {
        message: Message::assistant("").with_tool_calls(calls),
        usage: None,
        model: "m".to_string(),
    })
}

fn final_turn(agent: &mut Agent, user: &str, reply: &str) -> Outcome {
    let outcome = agent.chat(user);
    match outcome.next {
        Next::CallProvider(pending) => agent.provider_replied(pending, answer(reply)),
        other => panic!("the provider should be asked, not {:?}", other),
    }
}

fn contents(agent: &Agent) -> Vec<String> {
    agent.messages().iter().map(|m| m.content.clone()).collect()
}

#[test]
fn three_final_turns_keep_the_two_most_recent_messages() {
    let mut agent = agent(2, "S");
    final_turn(&mut agent, "U1", "A1");
    assert_eq!(contents(&agent), vec!["S", "U1", "A1"]);
    final_turn(&mut agent, "U2", "A2");
    assert_eq!(contents(&agent), vec!["S", "U2", "A2"]);
    let outcome = final_turn(&mut agent, "U3", "A3");
    assert_eq!(agent.context_length(), 3);
    assert_eq!(contents(&agent), vec!["S", "U3", "A3"]);
    assert_eq!(agent.messages()[0].role, Role::System);
    assert!(!contents(&agent).contains(&"U1".to_string()));
    match outcome.next {
        Next::Done(response) => {
            assert_eq!(response.content, "A3");
            assert_eq!(response.model, "m");
        },
        other => panic!("the turn should be over, not {:?}", other),
    }
}

#[test]
fn context_never_exceeds_budget_after_final_turns() {
    for max_context in 0..5usize {
        let mut agent = agent(max_context, "S");
        for turn in 0..7 {
            final_turn(&mut agent, &format!("U{}", turn), &format!("A{}", turn));
            assert!(agent.context_length() <= max_context + 1);
            assert_eq!(agent.messages()[0].role, Role::System);
            assert_eq!(agent.messages()[0].content, "S");
        }
        assert_eq!(agent.context_length(), max_context + 1);
    }
}

#[test]
fn request_offers_the_registered_tools() {
    let mut agent = agent(20, "S");
    let outcome = agent.chat("hello");
    assert!(outcome.persist.is_empty());
    match outcome.next {
        Next::CallProvider(pending) => {
            assert_eq!(pending.provider, "openrouter");
            assert_eq!(pending.request.model, "openrouter/optimus-alpha");
            assert_eq!(pending.request.temperature_milli, Some(700));
            assert_eq!(pending.request.max_tokens, None);
            assert_eq!(pending.request.messages.len(), 2);
            assert_eq!(pending.request.messages[1].content, "hello");
            assert_eq!(pending.request.messages[1].role, Role::User);
            let tools = pending.request.tools.expect("the tools are offered");
            let names: Vec<&str> = tools.iter().map(|t| t.name.as_str()).collect();
            assert_eq!(names, vec!["shell", "read_file", "write_file", "list_dir"]);
            assert_eq!(pending.turn.iterations, 1);
            assert_eq!(pending.turn.session_id, "s1");
        },
        other => panic!("the provider should be asked, not {:?}", other),
    }
}

#[test]
fn request_names_no_tools_where_none_is_registered() {
    let mut agent = agent(20, "S").with_tools(ToolRegistry::new());
    match agent.chat("hello").next {
        Next::CallProvider(pending) => assert!(pending.request.tools.is_none()),
        other => panic!("the provider should be asked, not {:?}", other),
    }
    let mut registry = ToolRegistry::new();
    registry.register(ToolDef {
        name: "only".to_string(),
        description: "d".to_string(),
        parameters: "{}".to_string(),
    });
    let mut agent = agent_with(registry);
    match agent.chat("hello").next {
        Next::CallProvider(pending) => {
            let tools = pending.request.tools.expect("the tool is offered");
            assert_eq!(tools.len(), 1);
            assert_eq!(tools[0].name, "only");
        },
        other => panic!("the provider should be asked, not {:?}", other),
    }
}

#[test]
fn tool_round_appends_one_tool_message_per_call_in_order() {
    let mut agent = agent(20, "S");
    let outcome = agent.chat("do it");
    let pending = match outcome.next {
        Next::CallProvider(p) => p,
        other => panic!("unexpected {:?}", other),
    };
    let calls = vec![
        call("c1", "shell", "{\"command\":\"ls\"}"),
        call("c2", "read_file", "{\"path\":\"/tmp/x\"}"),
        call("c3", "list_dir", "{}"),
    ];
    let outcome = agent.provider_replied(pending, asks(calls));
    let first = match outcome.next {
        Next::ExecuteTool(t) => t,
        other => panic!("unexpected {:?}", other),
    };
    assert_eq!(first.index, 0);
    assert_eq!(first.call().id, "c1");
    assert_eq!(first.arguments["command"], "ls");
    let outcome = agent.tool_finished(first, Ok(ToolResult::success("listing")));
    let second = match outcome.next {
        Next::ExecuteTool(t) => t,
        other => panic!("unexpected {:?}", other),
    };
    assert_eq!(second.call().id, "c2");
    let outcome = agent.tool_finished(second, Ok(ToolResult::error("no such file")));
    let third = match outcome.next {
        Next::ExecuteTool(t) => t,
        other => panic!("unexpected {:?}", other),
    };
    assert_eq!(third.call().id, "c3");
    let outcome = agent.tool_finished(third, Err("boom".to_string()));
    let pending = match outcome.next {
        Next::CallProvider(p) => p,
        other => panic!("unexpected {:?}", other),
    };
    assert_eq!(pending.turn.iterations, 2);
    assert_eq!(pending.request.messages.len(), 6);

    let tool_messages: Vec<&Message> =
        agent.messages().iter().filter(|m| m.role == Role::Tool).collect();
    assert_eq!(tool_messages.len(), 3);
    assert_eq!(tool_messages[0].tool_call_id.as_deref(), Some("c1"));
    assert_eq!(tool_messages[1].tool_call_id.as_deref(), Some("c2"));
    assert_eq!(tool_messages[2].tool_call_id.as_deref(), Some("c3"));
    assert_eq!(tool_messages[0].content, "listing");
    assert_eq!(tool_messages[1].content, "错误: no such file");
    assert_eq!(tool_messages[2].content, "工具执行错误: boom");
    assert_eq!(agent.messages()[2].role, Role::Assistant);
    assert_eq!(agent.messages()[2].tool_calls.as_ref().unwrap().len(), 3);

    let outcome = agent.provider_replied(pending, answer("done"));
    match outcome.next {
        Next::Done(response) => assert_eq!(response.content, "done"),
        other => panic!("unexpected {:?}", other),
    }
    assert_eq!(agent.context_length(), 7);
}

#[test]
fn unregistered_tool_is_answered_with_an_error_and_the_loop_goes_on() {
    let mut agent = agent(20, "S");
    let pending = match agent.chat("go").next {
        Next::CallProvider(p) => p,
        other => panic!("unexpected {:?}", other),
    };
    let outcome = agent.provider_replied(pending, asks(vec![call("c9", "teleport", "{}")]));
    let pending = match outcome.next {
        Next::CallProvider(p) => p,
        other => panic!("the loop should go on, not {:?}", other),
    };
    assert_eq!(pending.turn.iterations, 2);
    let last = agent.messages().last().unwrap();
    assert_eq!(last.role, Role::Tool);
    assert_eq!(last.tool_call_id.as_deref(), Some("c9"));
    assert_eq!(last.content, "工具执行错误: 未知工具: teleport");
}

#[test]
fn malformed_arguments_abort_the_turn() {
    let mut agent = agent(20, "S");
    let pending = match agent.chat("go").next {
        Next::CallProvider(p) => p,
        other => panic!("unexpected {:?}", other),
    };
    let outcome = agent.provider_replied(pending, asks(vec![call("c1", "shell", "{not json")]));
    match outcome.next {
        Next::Failed(error) => {
            assert!(matches!(error, NanobotError::Json(_)));
            let reported = serde_json::from_str::<serde_json::Value>("{not json").unwrap_err();
            assert_eq!(error.message(), format!("JSON 解析错误: {}", reported));
        },
        other => panic!("unexpected {:?}", other),
    }
    // The provider's message has joined the context; no tool message has.
    assert_eq!(agent.context_length(), 3);
}

#[test]
fn provider_failure_aborts_the_turn() {
    let mut agent = agent(20, "S");
    let pending = match agent.chat("go").next {
        Next::CallProvider(p) => p,
        other => panic!("unexpected {:?}", other),
    };
    let outcome = agent.provider_replied(pending, Err("timeout".to_string()));
    match outcome.next {
        Next::Failed(NanobotError::Llm(reason)) => assert_eq!(reason, "timeout"),
        other => panic!("unexpected {:?}", other),
    }
    assert_eq!(agent.context_length(), 2);
}

fn provider_calls_until_failure(limit: usize) -> usize {
    let mut agent = agent(20, "S").with_iteration_limit(limit);
    let mut next = agent.chat("loop").next;
    let mut provider_calls = 0;
    loop {
        next = match next {
            Next::CallProvider(pending) => {
                provider_calls += 1;
                agent.provider_replied(pending, asks(vec![call("c", "shell", "{}")])).next
            },
            Next::ExecuteTool(pending) => {
                agent.tool_finished(pending, Ok(ToolResult::success("ok"))).next
            },
            Next::Failed(NanobotError::IterationLimit) => return provider_calls,
            other => panic!("unexpected {:?}", other),
        };
    }
}

#[test]
fn iteration_ceiling_is_hit_after_exactly_that_many_provider_calls() {
    assert_eq!(provider_calls_until_failure(10), 10);
    assert_eq!(provider_calls_until_failure(3), 3);
    assert_eq!(provider_calls_until_failure(1), 1);
    assert_eq!(provider_calls_until_failure(0), 0);
}

#[test]
fn default_ceiling_is_ten() {
    let mut agent = agent(20, "S");
    let mut next = agent.chat("loop").next;
    let mut provider_calls = 0;
    loop {
        next = match next {
            Next::CallProvider(pending) => {
                provider_calls += 1;
                agent.provider_replied(pending, asks(vec![call("c", "nothing", "{}")])).next
            },
            Next::Failed(NanobotError::IterationLimit) => break,
            other => panic!("unexpected {:?}", other),
        };
    }
    assert_eq!(provider_calls, 10);
    assert_eq!(NanobotError::IterationLimit.message(), "超过最大迭代次数");
}

#[test]
fn unavailable_default_provider_fails_after_the_user_message_is_kept() {
    let mut config = config(20, "S");
    config.agent.default_provider = "deepseek".to_string();
    let mut agent = Agent::new(config, None, None).unwrap();
    assert!(!agent.session_id().is_empty());
    assert_eq!(agent.session_id().len(), 36);
    let outcome = agent.chat("hello");
    match outcome.next {
        Next::Failed(NanobotError::Llm(reason)) => {
            assert_eq!(reason, "提供商 'deepseek' 不可用")
        },
        other => panic!("unexpected {:?}", other),
    }
    assert_eq!(agent.context_length(), 2);
}

#[test]
fn no_provider_no_agent() {
    let mut config = Config::default();
    config.llm.openrouter.api_key = None;
    match Agent::new(config, None, None) {
        Err(NanobotError::Llm(reason)) => {
            assert_eq!(reason, "没有可用的 LLM 提供商，请配置 API Key")
        },
        other => panic!("unexpected {:?}", other.map(|_| ())),
    }
}

#[test]
fn messages_are_handed_to_the_store_in_order() {
    let mut agent = persisting_agent(20);
    let outcome = agent.chat("hi");
    assert_eq!(outcome.persist.len(), 1);
    assert_eq!(outcome.persist[0].role, Role::User);
    assert_eq!(outcome.persist[0].content, "hi");
    assert_eq!(outcome.persist[0].session_id, "s1");
    assert_eq!(outcome.persist[0].tool_call_id, None);
    let pending = match outcome.next {
        Next::CallProvider(p) => p,
        other => panic!("unexpected {:?}", other),
    };
    let calls = vec![call("c1", "ghost", "{}"), call("c2", "shell", "{}")];
    let outcome = agent.provider_replied(pending, asks(calls));
    assert_eq!(outcome.persist.len(), 2);
    assert_eq!(outcome.persist[0].role, Role::Assistant);
    assert_eq!(outcome.persist[0].tool_call_id.as_deref(), Some("c1"));
    assert_eq!(outcome.persist[1].role, Role::Tool);
    assert_eq!(outcome.persist[1].tool_call_id.as_deref(), Some("c1"));
    let pending = match outcome.next {
        Next::ExecuteTool(t) => t,
        other => panic!("unexpected {:?}", other),
    };
    assert_eq!(pending.index, 1);
    let outcome = agent.tool_finished(pending, Ok(ToolResult::success("out")));
    assert_eq!(outcome.persist.len(), 1);
    assert_eq!(outcome.persist[0].content, "out");
    assert_eq!(outcome.persist[0].tool_call_id.as_deref(), Some("c2"));
    let pending = match outcome.next {
        Next::CallProvider(p) => p,
        other => panic!("unexpected {:?}", other),
    };
    let outcome = agent.provider_replied(pending, answer("bye"));
    assert_eq!(outcome.persist.len(), 1);
    assert_eq!(outcome.persist[0].role, Role::Assistant);
    assert_eq!(outcome.persist[0].content, "bye");
    assert_eq!(outcome.persist[0].tool_call_id, None);
}

#[test]
fn clear_context_leaves_the_system_prompt() {
    let mut agent = agent(20, "S");
    final_turn(&mut agent, "U1", "A1");
    agent.clear_context();
    assert_eq!(contents(&agent), vec!["S"]);
    assert_eq!(agent.messages()[0].role, Role::System);
}
