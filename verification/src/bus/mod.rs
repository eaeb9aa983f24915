//! The event bus: who listens for which kind of event, and to whom an
//! event that was published goes. Events are a closed set; running the
//! handlers is left to the program around the library.

use vstd::prelude::*;
use vstd::string::*;
use crate::clock::fresh_id;
use crate::error::{ErrorView, NanobotError};
use crate::text::str_eq;

verus! {

/// Something that happened.
pub trait Event {
    /// The name of the kind of event.
    fn event_name(&self) -> &'static str;
}

/// Someone who takes note of events of one kind.
pub trait EventHandler<E: Event> {
    /// Takes note of `event`.
    fn handle(&self, event: &E);
}

/// A message went through the agent.
#[derive(Debug)]
pub struct AgentMessageEvent {
    pub session_id: String,
    pub role: String,
    pub content: String,
    /// In milliseconds since the Unix epoch.
    pub timestamp: i64,
}

impl Event for AgentMessageEvent {
    fn event_name(&self) -> (name: &'static str)
        ensures
            name@ == "agent.message"@,
    {
        "agent.message"
    }
}

/// A tool was called.
#[derive(Debug)]
pub struct ToolCallEvent {
    pub session_id: String,
    pub tool_name: String,
    pub args: serde_json::Value,
    pub result: Option<String>,
    pub success: bool,
    /// In milliseconds since the Unix epoch.
    pub timestamp: i64,
}

impl Event for ToolCallEvent {
    fn event_name(&self) -> (name: &'static str)
        ensures
            name@ == "tool.call"@,
    {
        "tool.call"
    }
}

/// A session was opened.
#[derive(Debug)]
pub struct SessionCreatedEvent {
    pub session_id: String,
    pub channel: String,
    pub user_id: Option<String>,
    /// In milliseconds since the Unix epoch.
    pub timestamp: i64,
}

impl Event for SessionCreatedEvent {
    fn event_name(&self) -> (name: &'static str)
        ensures
            name@ == "session.created"@,
    {
        "session.created"
    }
}

/// A session ended.
#[derive(Debug)]
pub struct SessionEndedEvent {
    pub session_id: String,
    pub reason: String,
    /// In milliseconds since the Unix epoch.
    pub timestamp: i64,
}

impl Event for SessionEndedEvent {
    fn event_name(&self) -> (name: &'static str)
        ensures
            name@ == "session.ended"@,
    {
        "session.ended"
    }
}

/// Something happened in the system.
#[derive(Debug)]
pub struct SystemEvent {
    pub event_type: String,
    pub data: serde_json::Value,
    /// In milliseconds since the Unix epoch.
    pub timestamp: i64,
}

impl Event for SystemEvent {
    fn event_name(&self) -> (name: &'static str)
        ensures
            name@ == "system"@,
    {
        "system"
    }
}

/// The kinds of event.
#[derive(Debug, Clone, Copy, PartialEq, Eq, Structural)]
pub enum EventKind {
    AgentMessage,
    ToolCall,
    SessionCreated,
    SessionEnded,
    System,
}

/// An event of any kind.
#[derive(Debug)]
pub enum BusEvent {
    AgentMessage(AgentMessageEvent),
    ToolCall(ToolCallEvent),
    SessionCreated(SessionCreatedEvent),
    SessionEnded(SessionEndedEvent),
    System(SystemEvent),
}

impl BusEvent {
    /// The kind of the event.
    pub open spec fn spec_kind(&self) -> EventKind {
        match self {
            BusEvent::AgentMessage(_) => EventKind::AgentMessage,
            BusEvent::ToolCall(_) => EventKind::ToolCall,
            BusEvent::SessionCreated(_) => EventKind::SessionCreated,
            BusEvent::SessionEnded(_) => EventKind::SessionEnded,
            BusEvent::System(_) => EventKind::System,
        }
    }

    /// The kind of the event.
    pub fn kind(&self) -> (kind: EventKind)
        ensures
            kind == self.spec_kind(),
    {
        match self {
            BusEvent::AgentMessage(_) => EventKind::AgentMessage,
            BusEvent::ToolCall(_) => EventKind::ToolCall,
            BusEvent::SessionCreated(_) => EventKind::SessionCreated,
            BusEvent::SessionEnded(_) => EventKind::SessionEnded,
            BusEvent::System(_) => EventKind::System,
        }
    }
}

impl Event for BusEvent {
    fn event_name(&self) -> (name: &'static str)
        ensures
            name@ == (match self.spec_kind() {
                EventKind::AgentMessage => "agent.message"@,
                EventKind::ToolCall => "tool.call"@,
                EventKind::SessionCreated => "session.created"@,
                EventKind::SessionEnded => "session.ended"@,
                EventKind::System => "system"@,
            }),
    {
        match self {
            BusEvent::AgentMessage(e) => e.event_name(),
            BusEvent::ToolCall(e) => e.event_name(),
            BusEvent::SessionCreated(e) => e.event_name(),
            BusEvent::SessionEnded(e) => e.event_name(),
            BusEvent::System(e) => e.event_name(),
        }
    }
}

/// Someone who listens for events of one kind.
#[derive(Debug)]
pub struct Subscriber {
    pub id: String,
    pub kind: EventKind,
}

/// `Subscriber` as contracts see it.
pub struct SubscriberView {
    pub id: Seq<char>,
    pub kind: EventKind,
}

impl DeepView for Subscriber {
    type V = SubscriberView;

    open spec fn deep_view(&self) -> SubscriberView {
        SubscriberView { id: self.id@, kind: self.kind }
    }
}

/// The ids of those of `subscribers` who listen for events of `kind`,
/// in order.
pub open spec fn listeners(subscribers: Seq<SubscriberView>, kind: EventKind) -> Seq<Seq<char>> {
    subscribers.filter(|s: SubscriberView| s.kind == kind).map_values(|s: SubscriberView| s.id)
}

/// `subscribers` without the one who listens for `kind` under `id`.
pub open spec fn without_subscriber(
    subscribers: Seq<SubscriberView>,
    kind: EventKind,
    id: Seq<char>,
) -> Seq<SubscriberView> {
    subscribers.filter(|s: SubscriberView| !(s.kind == kind && s.id == id))
}

/// The subscribers, and the events that wait to be handed out.
#[derive(Debug)]
pub struct EventBus {
    subscribers: Vec<Subscriber>,
    pending: Vec<BusEvent>,
    started: bool,
}

impl EventBus {
    /// The subscribers, in the order in which they subscribed.
    pub closed spec fn subscribers(&self) -> Seq<SubscriberView> {
        self.subscribers.deep_view()
    }

    /// The events that wait to be handed out, oldest first.
    pub closed spec fn pending(&self) -> Seq<BusEvent> {
        self.pending@
    }

    /// Whether events are handed out.
    pub closed spec fn started(&self) -> bool {
        self.started
    }

    /// A bus without subscribers or events, which does not hand out yet.
    pub fn new() -> (bus: EventBus)
        ensures
            bus.subscribers().len() == 0,
            bus.pending().len() == 0,
            !bus.started(),
    {
        EventBus { subscribers: Vec::new(), pending: Vec::new(), started: false }
    }

    /// Subscribes to the events of `kind` under the id `id`.
    pub fn subscribe_as(&mut self, kind: EventKind, id: String)
        ensures
            final(self).subscribers() == old(self).subscribers().push(
                SubscriberView { id: id@, kind },
            ),
            final(self).pending() == old(self).pending(),
            final(self).started() == old(self).started(),
    {
        let ghost before = self.subscribers.deep_view();
        self.subscribers.push(Subscriber { id, kind });
        assert(self.subscribers.deep_view() =~= before.push(SubscriberView { id: id@, kind }));
    }

    /// Subscribes to the events of `kind`, under a fresh id, which is
    /// given back.
    pub fn subscribe(&mut self, kind: EventKind) -> (id: String)
        ensures
            final(self).subscribers() == old(self).subscribers().push(
                SubscriberView { id: id@, kind },
            ),
            final(self).pending() == old(self).pending(),
            final(self).started() == old(self).started(),
            id@.len() == 36,
    {
        let id = fresh_id();
        self.subscribe_as(kind, id.clone());
        id
    }

    /// Ends the subscription to the events of `kind` under `subscriber_id`.
    pub fn unsubscribe(&mut self, kind: EventKind, subscriber_id: &str)
        ensures
            final(self).subscribers() == without_subscriber(
                old(self).subscribers(),
                kind,
                subscriber_id@,
            ),
            final(self).pending() == old(self).pending(),
            final(self).started() == old(self).started(),
    {
        let ghost all = self.subscribers.deep_view();
        let ghost keep = |s: SubscriberView| !(s.kind == kind && s.id == subscriber_id@);
        let mut kept: Vec<Subscriber> = Vec::new();
        let mut rest: Vec<Subscriber> = Vec::new();
        core::mem::swap(&mut rest, &mut self.subscribers);
        // The subscribers are taken from the back and put in order after.
        let mut i: usize = rest.len();
        assert(all.skip(all.len() as int) =~= Seq::<SubscriberView>::empty());
        assert(kept.deep_view() =~= Seq::<SubscriberView>::empty());
        while i > 0
            invariant
                i == rest.len(),
                i <= all.len(),
                rest.deep_view() =~= all.take(i as int),
                kept.deep_view().reverse() =~= all.skip(i as int).filter(keep),
                keep == (|s: SubscriberView| !(s.kind == kind && s.id == subscriber_id@)),
                self.pending() == old(self).pending(),
                self.started() == old(self).started(),
            decreases i,
        {
            let ghost before = kept.deep_view();
            let ghost view = rest.deep_view();
            let s = rest.pop().unwrap();
            i -= 1;
            proof {
                assert(view[i as int] == s.deep_view());
                assert(s.deep_view() == all[i as int]);
                let tail = all.skip(i + 1);
                assert(all.skip(i as int) =~= seq![all[i as int]] + tail);
                lemma_filter_first(all[i as int], tail, keep);
                assert(rest.deep_view() =~= all.take(i as int));
            }
            let same_kind = match (s.kind, kind) {
                (EventKind::AgentMessage, EventKind::AgentMessage) => true,
                (EventKind::ToolCall, EventKind::ToolCall) => true,
                (EventKind::SessionCreated, EventKind::SessionCreated) => true,
                (EventKind::SessionEnded, EventKind::SessionEnded) => true,
                (EventKind::System, EventKind::System) => true,
                _ => false,
            };
            if !(same_kind && str_eq(s.id.as_str(), subscriber_id)) {
                let ghost v = s.deep_view();
                kept.push(s);
                assert(kept.deep_view() =~= before.push(v));
                assert(kept.deep_view().reverse() =~= seq![v] + before.reverse());
            }
        }
        assert(all.skip(0) =~= all);
        let ghost wanted = all.filter(keep);
        let mut j: usize = kept.len();
        assert(self.subscribers.deep_view() =~= wanted.take(0));
        while j > 0
            invariant
                j == kept.len(),
                j <= wanted.len(),
                kept.deep_view() =~= wanted.reverse().take(j as int),
                self.subscribers.deep_view() =~= wanted.take(wanted.len() - j),
                self.pending() == old(self).pending(),
                self.started() == old(self).started(),
            decreases j,
        {
            let ghost view = kept.deep_view();
            let ghost before = self.subscribers.deep_view();
            let s = kept.pop().unwrap();
            j -= 1;
            proof {
                assert(view[j as int] == s.deep_view());
                assert(s.deep_view() == wanted[wanted.len() - 1 - j]);
            }
            let ghost v = s.deep_view();
            self.subscribers.push(s);
            assert(self.subscribers.deep_view() =~= before.push(v));
        }
        assert(wanted.take(wanted.len() as int) =~= wanted);
    }

    /// Puts `event` behind the events that wait.
    pub fn publish(&mut self, event: BusEvent)
        ensures
            final(self).pending() == old(self).pending().push(event),
            final(self).subscribers() == old(self).subscribers(),
            final(self).started() == old(self).started(),
    {
        self.pending.push(event);
    }

    /// Starts handing out events. A bus can be started once.
    pub fn start(&mut self) -> (r: Result<(), NanobotError>)
        ensures
            final(self).pending() == old(self).pending(),
            final(self).subscribers() == old(self).subscribers(),
            final(self).started(),
            match r {
                Ok(()) => !old(self).started(),
                Err(e) => old(self).started() && e@ == ErrorView::Unknown("事件总线已启动"@),
            },
    {
        if self.started {
            return Err(NanobotError::Unknown("事件总线已启动".to_owned()));
        }
        self.started = true;
        Ok(())
    }

    /// Hands out the oldest event that waits, with the ids of those who
    /// listen for its kind, in the order in which they subscribed.
    pub fn next(&mut self) -> (r: Option<(BusEvent, Vec<String>)>)
        ensures
            final(self).subscribers() == old(self).subscribers(),
            final(self).started() == old(self).started(),
            match r {
                Some((event, ids)) => {
                    &&& old(self).pending().len() > 0
                    &&& event == old(self).pending()[0]
                    &&& final(self).pending() == old(self).pending().drop_first()
                    &&& ids.deep_view() == listeners(old(self).subscribers(), event.spec_kind())
                },
                None => old(self).pending().len() == 0 && final(self).pending().len() == 0,
            },
    {
        if self.pending.len() == 0 {
            return None;
        }
        let ghost before = self.pending@;
        let event = self.pending.remove(0);
        assert(self.pending@ =~= before.drop_first());
        let kind = event.kind();
        let ghost all = self.subscribers.deep_view();
        let ghost wants = |s: SubscriberView| s.kind == kind;
        let ghost id_of = |s: SubscriberView| s.id;
        let mut ids: Vec<String> = Vec::new();
        let mut i: usize = 0;
        assert(all.take(0) =~= Seq::<SubscriberView>::empty());
        assert(ids.deep_view() =~= all.take(0).filter(wants).map_values(id_of));
        while i < self.subscribers.len()
            invariant
                i <= self.subscribers.len(),
                all == self.subscribers.deep_view(),
                wants == (|s: SubscriberView| s.kind == kind),
                id_of == (|s: SubscriberView| s.id),
                ids.deep_view() == all.take(i as int).filter(wants).map_values(id_of),
            decreases self.subscribers.len() - i,
        {
            proof {
                let done = all.take(i as int);
                let next = all.take(i + 1);
                assert(all[i as int] == self.subscribers@[i as int].deep_view());
                assert(next =~= done.push(all[i as int]));
                assert(next.drop_last() =~= done);
                reveal(Seq::filter);
                assert(next.filter(wants) == if wants(all[i as int]) {
                    done.filter(wants).push(all[i as int])
                } else {
                    done.filter(wants)
                });
            }
            let s = &self.subscribers[i];
            let same_kind = match (s.kind, kind) {
                (EventKind::AgentMessage, EventKind::AgentMessage) => true,
                (EventKind::ToolCall, EventKind::ToolCall) => true,
                (EventKind::SessionCreated, EventKind::SessionCreated) => true,
                (EventKind::SessionEnded, EventKind::SessionEnded) => true,
                (EventKind::System, EventKind::System) => true,
                _ => false,
            };
            if same_kind {
                let ghost was = ids.deep_view();
                ids.push(s.id.clone());
                assert(ids.deep_view() =~= was.push(all[i as int].id));
                assert(all.take(i as int).filter(wants).push(all[i as int]).map_values(id_of)
                    =~= was.push(all[i as int].id));
            }
            i += 1;
        }
        assert(all.take(all.len() as int) =~= all);
        Some((event, ids))
    }
}

impl Default for EventBus {
    fn default() -> (bus: EventBus)
        ensures
            bus.subscribers().len() == 0,
            bus.pending().len() == 0,
            !bus.started(),
    {
        EventBus::new()
    }
}

/// Filtering a sequence with one more element in front keeps that element
/// in front, if it is kept at all.
proof fn lemma_filter_first<A>(first: A, rest: Seq<A>, keep: spec_fn(A) -> bool)
    ensures
        (seq![first] + rest).filter(keep) == if keep(first) {
            seq![first] + rest.filter(keep)
        } else {
            rest.filter(keep)
        },
{
    let one = seq![first];
    assert(one.filter(keep) =~= if keep(first) {
        one
    } else {
        Seq::<A>::empty()
    }) by {
        reveal(Seq::filter);
        assert(one.drop_last() =~= Seq::<A>::empty());
        assert(one.drop_last().filter(keep) =~= Seq::<A>::empty());
    }
    Seq::filter_distributes_over_add(one, rest, keep);
    assert(Seq::<A>::empty() + rest.filter(keep) =~= rest.filter(keep));
}

} // verus!
