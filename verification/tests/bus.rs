use nanobot::bus::{AgentMessageEvent, BusEvent, Event, EventBus, EventKind, SessionCreatedEvent};
use nanobot::bus::{SessionEndedEvent, SystemEvent, ToolCallEvent};
use nanobot::error::NanobotError;

fn system(event_type: &str) -> BusEvent {
    BusEvent::System(SystemEvent {
        event_type: event_type.to_string(),
        data: serde_json::Value::Bool(true),
        timestamp: 0,
    })
}

fn message(content: &str) -> BusEvent {
    BusEvent::AgentMessage(AgentMessageEvent {
        session_id: "s".to_string(),
        role: "user".to_string(),
        content: content.to_string(),
        timestamp: 0,
    })
}

#[test]
fn test_event_bus() {
    let mut bus = EventBus::new();
    let sub_id = bus.subscribe(EventKind::AgentMessage);
    bus.start().unwrap();
    bus.publish(message("Hello"));
    let mut received = Vec::new();
    while let Some((event, ids)) = bus.next() {
        assert_eq!(ids, vec![sub_id.clone()]);
        if let BusEvent::AgentMessage(e) = event {
            received.push(e.content);
        }
    }
    assert_eq!(received.len(), 1);
    assert_eq!(received[0], "Hello");
}

#[test]
fn test_bus_module() {
    let mut bus = EventBus::new();
    bus.subscribe(EventKind::System);
    bus.publish(system("test"));
    let (event, ids) = bus.next().unwrap();
    assert_eq!(event.event_name(), "system");
    assert_eq!(ids.len(), 1);
}

#[test]
fn events_go_to_those_who_listen_for_their_kind_in_order() {
    let mut bus = EventBus::default();
    bus.subscribe_as(EventKind::System, "a".to_string());
    bus.subscribe_as(EventKind::AgentMessage, "b".to_string());
    bus.subscribe_as(EventKind::System, "c".to_string());
    bus.subscribe_as(EventKind::System, "d".to_string());
    let fresh = bus.subscribe(EventKind::ToolCall);
    assert_eq!(fresh.len(), 36);
    bus.publish(system("one"));
    bus.publish(message("two"));
    bus.unsubscribe(EventKind::System, "c");
    // An id counts only for the kind it subscribed to.
    bus.unsubscribe(EventKind::AgentMessage, "a");
    bus.unsubscribe(EventKind::System, "nobody");
    bus.publish(system("three"));
    let (first, ids) = bus.next().unwrap();
    assert!(matches!(first, BusEvent::System(e) if e.event_type == "one"));
    assert_eq!(ids, vec!["a", "d"]);
    let (second, ids) = bus.next().unwrap();
    assert!(matches!(second, BusEvent::AgentMessage(e) if e.content == "two"));
    assert_eq!(ids, vec!["b"]);
    let (_, ids) = bus.next().unwrap();
    assert_eq!(ids, vec!["a", "d"]);
    assert!(bus.next().is_none());
    bus.publish(BusEvent::SessionEnded(SessionEndedEvent {
        session_id: "s".to_string(),
        reason: "r".to_string(),
        timestamp: 1,
    }));
    let (event, ids) = bus.next().unwrap();
    assert_eq!(event.kind(), EventKind::SessionEnded);
    assert!(ids.is_empty());
}

#[test]
fn bus_starts_once_and_events_have_names() {
    let mut bus = EventBus::new();
    assert!(bus.start().is_ok());
    assert!(matches!(bus.start(), Err(NanobotError::Unknown(text)) if text == "事件总线已启动"));
    let created = SessionCreatedEvent {
        session_id: "s".to_string(),
        channel: "c".to_string(),
        user_id: None,
        timestamp: 0,
    };
    assert_eq!(created.event_name(), "session.created");
    let call = ToolCallEvent {
        session_id: "s".to_string(),
        tool_name: "t".to_string(),
        args: serde_json::Value::Null,
        result: None,
        success: true,
        timestamp: 0,
    };
    assert_eq!(call.event_name(), "tool.call");
    assert_eq!(message("x").event_name(), "agent.message");
    assert_eq!(BusEvent::SessionCreated(created).event_name(), "session.created");
    assert_eq!(BusEvent::ToolCall(call).kind(), EventKind::ToolCall);
    let ended =
        SessionEndedEvent { session_id: "s".to_string(), reason: "r".to_string(), timestamp: 0 };
    assert_eq!(ended.event_name(), "session.ended");
}
