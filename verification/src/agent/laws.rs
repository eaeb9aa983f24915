//! What holds of every turn, stated over the steps that `Agent` takes.

use vstd::prelude::*;
use crate::agent::{chat_step, loop_top, reply_step, result_text, tool_step, tools_from, trimmed};
use crate::agent::{history_message, Env, NextView, StoredMessageView, TurnView};
use crate::memory::{conversation_content, spec_conversation};
use crate::memory::laws::law_role_and_content_are_read_back;
use crate::error::ErrorView;
use crate::json::json_well_formed;
use crate::llm::{tool_message, ChatResponseView, MessageView, Role, ToolCallView};
use crate::tools::{has_tool, tool_failure_text, unknown_tool_text, ToolResultView};

verus! {

/// What a tool gave, or why it could not be run.
pub type ToolReply = Result<ToolResultView, Seq<char>>;

/// Where a turn stands: the context, and what it waits for.
pub struct Run {
    pub messages: Seq<MessageView>,
    pub next: NextView,
    /// How often the provider has replied on the way.
    pub provider_calls: nat,
}

/// A turn that waits for tools, taken on for as long as `results` lasts:
/// each result is handed to the tool call that waits for it.
pub open spec fn run_tools(
    env: Env,
    messages: Seq<MessageView>,
    next: NextView,
    results: Seq<ToolReply>,
) -> (Seq<MessageView>, NextView)
    decreases results.len(),
{
    match next {
        NextView::ExecuteTool(pending) if results.len() > 0 => {
            let step = tool_step(env, messages, pending, results[0]);
            run_tools(env, step.messages, step.next, results.drop_first())
        },
        _ => (messages, next),
    }
}

/// A reply of the provider that asks for tools, and what the tools of the
/// round give, in the order in which they are run.
pub struct Round {
    pub reply: ChatResponseView,
    pub results: Seq<ToolReply>,
}

/// A turn taken on for as long as `rounds` lasts: each round answers the
/// request that waits and then runs its tools.
pub open spec fn drive(env: Env, messages: Seq<MessageView>, next: NextView, rounds: Seq<Round>) -> Run
    decreases rounds.len(),
{
    match next {
        NextView::CallProvider(call) if rounds.len() > 0 => {
            let step = reply_step(env, messages, call.turn, Ok(rounds[0].reply));
            let after = run_tools(env, step.messages, step.next, rounds[0].results);
            let rest = drive(env, after.0, after.1, rounds.drop_first());
            Run { provider_calls: rest.provider_calls + 1, ..rest }
        },
        _ => Run { messages, next, provider_calls: 0 },
    }
}

/// How many of `calls`, from `index` on, name a registered tool.
pub open spec fn registered_calls(env: Env, calls: Seq<ToolCallView>, index: nat) -> nat
    decreases calls.len() - index,
{
    if index >= calls.len() {
        0
    } else if has_tool(env.tools, calls[index as int].function.name) {
        1 + registered_calls(env, calls, index + 1)
    } else {
        registered_calls(env, calls, index + 1)
    }
}

/// Whether the arguments of every one of `calls` are JSON.
pub open spec fn all_well_formed(calls: Seq<ToolCallView>) -> bool {
    forall|i: int| 0 <= i < calls.len() ==> json_well_formed(#[trigger] calls[i].function.arguments)
}

/// Whether a round asks for tools with JSON arguments and brings one
/// result for each call to a registered tool.
pub open spec fn round_completes(env: Env, round: Round) -> bool {
    &&& round.reply.message.has_tool_calls()
    &&& all_well_formed(round.reply.message.tool_calls->Some_0)
    &&& round.results.len() == registered_calls(env, round.reply.message.tool_calls->Some_0, 0)
}

/// The tool message that answers the call at `index` of a round: the text
/// of its result, taken from `results` in order, or the report that the
/// tool is not registered.
pub open spec fn answer(env: Env, calls: Seq<ToolCallView>, results: Seq<ToolReply>, index: int) -> MessageView {
    let call = calls[index];
    if has_tool(env.tools, call.function.name) {
        tool_message(
            call.id,
            result_text(results[registered_calls(env, calls, 0) - registered_calls(env, calls, index as nat)]),
        )
    } else {
        tool_message(call.id, tool_failure_text(unknown_tool_text(call.function.name)))
    }
}

proof fn lemma_registered_bounds(env: Env, calls: Seq<ToolCallView>, index: nat)
    requires
        index <= calls.len(),
    ensures
        registered_calls(env, calls, index) <= calls.len() - index,
        index < calls.len() ==> registered_calls(env, calls, index + 1) <= registered_calls(
            env,
            calls,
            index,
        ),
    decreases calls.len() - index,
{
    if index < calls.len() {
        lemma_registered_bounds(env, calls, index + 1);
    }
}

proof fn lemma_registered_monotone(env: Env, calls: Seq<ToolCallView>, from: nat, to: nat)
    requires
        from <= to <= calls.len(),
    ensures
        registered_calls(env, calls, to) <= registered_calls(env, calls, from),
    decreases to - from,
{
    if from < to {
        lemma_registered_bounds(env, calls, from);
        lemma_registered_monotone(env, calls, from + 1, to);
    }
}

/// A tool round taken from the call at `index` to its end.
proof fn lemma_round_from(
    env: Env,
    messages: Seq<MessageView>,
    turn: TurnView,
    calls: Seq<ToolCallView>,
    index: nat,
    all: Seq<ToolReply>,
    results: Seq<ToolReply>,
)
    requires
        index <= calls.len(),
        all_well_formed(calls),
        all.len() == registered_calls(env, calls, 0),
        results.len() == registered_calls(env, calls, index),
        results == all.skip(all.len() - results.len()),
    ensures
        ({
            let start = tools_from(env, messages, turn, calls, index);
            let end = run_tools(env, start.messages, start.next, results);
            &&& end.0.len() == messages.len() + calls.len() - index
            &&& end.0.subrange(0, messages.len() as int) == messages
            &&& forall|k: int|
                index <= k < calls.len() ==> end.0[messages.len() + k - index] == answer(
                    env,
                    calls,
                    all,
                    k,
                )
            &&& end.1 == loop_top(env, end.0, turn)
        }),
    decreases calls.len() - index,
{
    let start = tools_from(env, messages, turn, calls, index);
    let end = run_tools(env, start.messages, start.next, results);
    if index >= calls.len() {
        assert(end.0 == messages);
        assert(end.0.subrange(0, messages.len() as int) =~= messages);
    } else {
        let call = calls[index as int];
        assert(json_well_formed(call.function.arguments));
        lemma_registered_bounds(env, calls, index);
        lemma_registered_monotone(env, calls, 0, index);
        if has_tool(env.tools, call.function.name) {
            let pending = crate::agent::ToolExecutionView {
                calls,
                index,
                arguments: crate::json::json_value(call.function.arguments),
                turn,
            };
            assert(start.next == NextView::ExecuteTool(pending));
            assert(results.len() > 0);
            let text = result_text(results[0]);
            let pushed = messages.push(tool_message(call.id, text));
            let step = tool_step(env, messages, pending, results[0]);
            let rest = tools_from(env, pushed, turn, calls, index + 1);
            assert(step.messages == rest.messages && step.next == rest.next);
            assert(results.drop_first() =~= all.skip(all.len() - results.drop_first().len()));
            lemma_round_from(env, pushed, turn, calls, index + 1, all, results.drop_first());
            let end2 = run_tools(env, rest.messages, rest.next, results.drop_first());
            assert(end == end2);
            assert(results[0] == all[all.len() - results.len()]);
            assert(pushed[messages.len() as int] == answer(env, calls, all, index as int));
            assert(end.0.subrange(0, pushed.len() as int) == pushed);
            assert(end.0.subrange(0, messages.len() as int) =~= messages) by {
                assert forall|j: int| 0 <= j < messages.len() implies end.0[j] == messages[j] by {
                    assert(end.0.subrange(0, pushed.len() as int)[j] == pushed[j]);
                }
            }
            assert(end.0[messages.len() as int] == answer(env, calls, all, index as int)) by {
                assert(end.0.subrange(0, pushed.len() as int)[messages.len() as int]
                    == pushed[messages.len() as int]);
            }
            assert forall|k: int| index <= k < calls.len() implies end.0[messages.len() + k
                - index] == answer(env, calls, all, k) by {
                if k > index {
                    assert(end.0[pushed.len() + k - (index + 1)] == answer(env, calls, all, k));
                }
            }
        } else {
            let text = tool_failure_text(unknown_tool_text(call.function.name));
            let pushed = messages.push(tool_message(call.id, text));
            let rest = tools_from(env, pushed, turn, calls, index + 1);
            assert(start.messages == rest.messages && start.next == rest.next);
            lemma_round_from(env, pushed, turn, calls, index + 1, all, results);
            assert(end.0.subrange(0, pushed.len() as int) == pushed);
            assert(end.0.subrange(0, messages.len() as int) =~= messages) by {
                assert forall|j: int| 0 <= j < messages.len() implies end.0[j] == messages[j] by {
                    assert(end.0.subrange(0, pushed.len() as int)[j] == pushed[j]);
                }
            }
            assert(end.0[messages.len() as int] == answer(env, calls, all, index as int)) by {
                assert(end.0.subrange(0, pushed.len() as int)[messages.len() as int]
                    == pushed[messages.len() as int]);
            }
            assert forall|k: int| index <= k < calls.len() implies end.0[messages.len() + k
                - index] == answer(env, calls, all, k) by {
                if k > index {
                    assert(end.0[pushed.len() + k - (index + 1)] == answer(env, calls, all, k));
                }
            }
        }
    }
}

/// A tool round appends one tool message for each call, in the order of the
/// calls, each with the id of its call. When the provider asks for the
/// calls `calls` and every tool that is run gives its result, the context
/// afterwards is the old context, then the provider's message, then for each
/// call the tool message that answers it; and the loop starts over.
pub proof fn law_tool_round(env: Env, messages: Seq<MessageView>, turn: TurnView, round: Round)
    requires
        round_completes(env, round),
    ensures
        ({
            let calls = round.reply.message.tool_calls->Some_0;
            let step = reply_step(env, messages, turn, Ok(round.reply));
            let end = run_tools(env, step.messages, step.next, round.results);
            &&& end.0.len() == messages.len() + 1 + calls.len()
            &&& end.0.subrange(0, messages.len() as int) == messages
            &&& end.0[messages.len() as int] == round.reply.message
            &&& forall|i: int|
                0 <= i < calls.len() ==> {
                    let m = #[trigger] end.0[messages.len() + 1 + i];
                    &&& m == answer(env, calls, round.results, i)
                    &&& m.role == Role::Tool
                    &&& m.tool_call_id == Some(calls[i].id)
                }
            &&& end.1 == loop_top(env, end.0, turn)
        }),
{
    let calls = round.reply.message.tool_calls->Some_0;
    let pushed = messages.push(round.reply.message);
    let step = reply_step(env, messages, turn, Ok(round.reply));
    let start = tools_from(env, pushed, turn, calls, 0);
    assert(step.messages == start.messages && step.next == start.next);
    assert(round.results =~= round.results.skip(0));
    lemma_round_from(env, pushed, turn, calls, 0, round.results, round.results);
    let end = run_tools(env, step.messages, step.next, round.results);
    assert(end.0.subrange(0, pushed.len() as int) == pushed);
    assert(end.0.subrange(0, messages.len() as int) =~= messages) by {
        assert forall|j: int| 0 <= j < messages.len() implies end.0[j] == messages[j] by {
            assert(end.0.subrange(0, pushed.len() as int)[j] == pushed[j]);
        }
    }
    assert(end.0[messages.len() as int] == round.reply.message) by {
        assert(end.0.subrange(0, pushed.len() as int)[messages.len() as int]
            == pushed[messages.len() as int]);
    }
    assert forall|i: int| 0 <= i < calls.len() implies {
        let m = #[trigger] end.0[messages.len() + 1 + i];
        &&& m == answer(env, calls, round.results, i)
        &&& m.role == Role::Tool
        &&& m.tool_call_id == Some(calls[i].id)
    } by {
        assert(end.0[pushed.len() + i - 0] == answer(env, calls, round.results, i));
    }
}

/// A turn whose provider never stops asking for tools fails for the
/// iteration ceiling when the provider has replied as often as the ceiling
/// says, not once more and not once less.
pub proof fn law_iteration_ceiling(
    env: Env,
    session_id: Seq<char>,
    messages: Seq<MessageView>,
    content: Seq<char>,
    rounds: Seq<Round>,
)
    requires
        env.provider_available,
        rounds.len() >= env.limit,
        forall|i: int| 0 <= i < rounds.len() ==> round_completes(env, #[trigger] rounds[i]),
    ensures
        ({
            let start = chat_step(env, session_id, messages, content);
            let run = drive(env, start.messages, start.next, rounds);
            &&& run.next == NextView::Failed(ErrorView::IterationLimit)
            &&& run.provider_calls == env.limit
        }),
{
    let start = chat_step(env, session_id, messages, content);
    if env.limit == 0 {
        assert(start.next == NextView::Failed(ErrorView::IterationLimit));
    } else {
        lemma_drive_to_ceiling(
            env,
            start.messages,
            TurnView { session_id, iterations: 0 },
            rounds,
        );
    }
}

proof fn lemma_drive_to_ceiling(env: Env, messages: Seq<MessageView>, turn: TurnView, rounds: Seq<Round>)
    requires
        env.provider_available,
        turn.iterations <= env.limit,
        rounds.len() >= env.limit - turn.iterations,
        forall|i: int| 0 <= i < rounds.len() ==> round_completes(env, #[trigger] rounds[i]),
    ensures
        ({
            let run = drive(env, messages, loop_top(env, messages, turn), rounds);
            &&& run.next == NextView::Failed(ErrorView::IterationLimit)
            &&& run.provider_calls == env.limit - turn.iterations
        }),
    decreases env.limit - turn.iterations,
{
    if turn.iterations < env.limit {
        let asked = TurnView { iterations: turn.iterations + 1, ..turn };
        let round = rounds[0];
        assert(round_completes(env, round));
        law_tool_round(env, messages, asked, round);
        let step = reply_step(env, messages, asked, Ok(round.reply));
        let after = run_tools(env, step.messages, step.next, round.results);
        assert forall|i: int| 0 <= i < rounds.drop_first().len() implies round_completes(
            env,
            #[trigger] rounds.drop_first()[i],
        ) by {
            assert(rounds.drop_first()[i] == rounds[i + 1]);
        }
        lemma_drive_to_ceiling(env, after.0, asked, rounds.drop_first());
    }
}

/// A reply without tool calls ends the turn with a context of at most
/// `max_context + 1` messages: the first message and the last
/// `max_context` of the others.
pub proof fn law_final_reply_bounds_context(
    env: Env,
    messages: Seq<MessageView>,
    turn: TurnView,
    response: ChatResponseView,
)
    requires
        !response.message.has_tool_calls(),
        messages.len() >= 1,
    ensures
        ({
            let step = reply_step(env, messages, turn, Ok(response));
            &&& step.messages.len() <= env.max_context + 1
            &&& step.messages.len() >= 1
            &&& step.messages[0] == messages[0]
            &&& step.messages == trimmed(messages.push(response.message), env.max_context)
        }),
{
}

/// The context after a run of turns that each get a final answer at once:
/// every turn adds the user's message and the answer, and trims.
pub open spec fn after_chats(
    env: Env,
    session_id: Seq<char>,
    messages: Seq<MessageView>,
    chats: Seq<(Seq<char>, ChatResponseView)>,
) -> Seq<MessageView>
    decreases chats.len(),
{
    if chats.len() == 0 {
        messages
    } else {
        let asked = chat_step(env, session_id, messages, chats[0].0);
        let answered = reply_step(
            env,
            asked.messages,
            TurnView { session_id, iterations: 1 },
            Ok(chats[0].1),
        );
        after_chats(env, session_id, answered.messages, chats.drop_first())
    }
}

/// However many turns get a final answer at once, the context afterwards
/// holds at most `max_context + 1` messages, and still opens with the
/// message that it opened with.
pub proof fn law_context_bounded(
    env: Env,
    session_id: Seq<char>,
    messages: Seq<MessageView>,
    chats: Seq<(Seq<char>, ChatResponseView)>,
)
    requires
        messages.len() >= 1,
        chats.len() >= 1,
        forall|i: int| 0 <= i < chats.len() ==> !(#[trigger] chats[i]).1.message.has_tool_calls(),
    ensures
        after_chats(env, session_id, messages, chats).len() <= env.max_context + 1,
        after_chats(env, session_id, messages, chats).len() >= 1,
        after_chats(env, session_id, messages, chats)[0] == messages[0],
    decreases chats.len(),
{
    let asked = chat_step(env, session_id, messages, chats[0].0);
    let turn = TurnView { session_id, iterations: 1 };
    law_final_reply_bounds_context(env, asked.messages, turn, chats[0].1);
    let answered = reply_step(env, asked.messages, turn, Ok(chats[0].1));
    if chats.len() > 1 {
        assert forall|i: int| 0 <= i < chats.drop_first().len() implies !(
        #[trigger] chats.drop_first()[i]).1.message.has_tool_calls() by {
            assert(chats.drop_first()[i] == chats[i + 1]);
        }
        law_context_bounded(env, session_id, answered.messages, chats.drop_first());
    } else {
        assert(chats.drop_first().len() == 0);
        assert(after_chats(env, session_id, answered.messages, chats.drop_first())
            == answered.messages);
    }
    assert(after_chats(env, session_id, messages, chats) == after_chats(
        env,
        session_id,
        answered.messages,
        chats.drop_first(),
    ));
}

/// No step of a turn touches the first message of the context: a context
/// that opens with the system prompt keeps doing so.
pub proof fn law_first_message_stays(
    env: Env,
    session_id: Seq<char>,
    messages: Seq<MessageView>,
    turn: TurnView,
    content: Seq<char>,
    reply: Result<ChatResponseView, Seq<char>>,
    pending: crate::agent::ToolExecutionView,
    result: ToolReply,
)
    requires
        messages.len() >= 1,
    ensures
        chat_step(env, session_id, messages, content).messages.len() >= 1,
        chat_step(env, session_id, messages, content).messages[0] == messages[0],
        reply_step(env, messages, turn, reply).messages.len() >= 1,
        reply_step(env, messages, turn, reply).messages[0] == messages[0],
        tool_step(env, messages, pending, result).messages.len() >= 1,
        tool_step(env, messages, pending, result).messages[0] == messages[0],
{
    match reply {
        Ok(response) => {
            if response.message.has_tool_calls() {
                lemma_tools_keep_first(
                    env,
                    messages.push(response.message),
                    turn,
                    response.message.tool_calls->Some_0,
                    0,
                );
            }
        },
        Err(_) => {},
    }
    let call = pending.calls[pending.index as int];
    lemma_tools_keep_first(
        env,
        messages.push(tool_message(call.id, result_text(result))),
        pending.turn,
        pending.calls,
        pending.index + 1,
    );
}

proof fn lemma_tools_keep_first(
    env: Env,
    messages: Seq<MessageView>,
    turn: TurnView,
    calls: Seq<ToolCallView>,
    index: nat,
)
    requires
        messages.len() >= 1,
    ensures
        tools_from(env, messages, turn, calls, index).messages.len() >= messages.len(),
        tools_from(env, messages, turn, calls, index).messages[0] == messages[0],
    decreases calls.len() - index,
{
    if index < calls.len() {
        let call = calls[index as int];
        if json_well_formed(call.function.arguments) && !has_tool(env.tools, call.function.name) {
            let text = tool_failure_text(unknown_tool_text(call.function.name));
            lemma_tools_keep_first(
                env,
                messages.push(tool_message(call.id, text)),
                turn,
                calls,
                index + 1,
            );
        }
    }
}

/// Whether the request that `next` sends, if it sends one, names the tools
/// of `env`, and has no list of tools at all where there are none.
pub open spec fn names_tools_of(env: Env, next: NextView) -> bool {
    next matches NextView::CallProvider(call) ==> call.request.tools == (if env.tools.len() > 0 {
        Some(env.tools)
    } else {
        None
    })
}

proof fn lemma_tools_name_tools(
    env: Env,
    messages: Seq<MessageView>,
    turn: TurnView,
    calls: Seq<ToolCallView>,
    index: nat,
)
    ensures
        names_tools_of(env, tools_from(env, messages, turn, calls, index).next),
    decreases calls.len() - index,
{
    if index < calls.len() {
        let call = calls[index as int];
        if json_well_formed(call.function.arguments) && !has_tool(env.tools, call.function.name) {
            let text = tool_failure_text(unknown_tool_text(call.function.name));
            lemma_tools_name_tools(
                env,
                messages.push(tool_message(call.id, text)),
                turn,
                calls,
                index + 1,
            );
        }
    }
}

/// Every request of a turn names the registered tools, and a turn of an
/// agent without tools sends requests without a list of tools: this holds
/// of the request that any step asks for, at the start of a turn, after a
/// reply of the provider and after a result of a tool.
pub proof fn law_requests_name_registered_tools(
    env: Env,
    session_id: Seq<char>,
    messages: Seq<MessageView>,
    turn: TurnView,
    content: Seq<char>,
    reply: Result<ChatResponseView, Seq<char>>,
    pending: crate::agent::ToolExecutionView,
    result: ToolReply,
)
    ensures
        names_tools_of(env, chat_step(env, session_id, messages, content).next),
        names_tools_of(env, reply_step(env, messages, turn, reply).next),
        names_tools_of(env, tool_step(env, messages, pending, result).next),
        env.tools.len() == 0 ==> {
            &&& chat_step(env, session_id, messages, content).next matches NextView::CallProvider(
                call,
            ) ==> call.request.tools is None
            &&& reply_step(env, messages, turn, reply).next matches NextView::CallProvider(call)
                ==> call.request.tools is None
            &&& tool_step(env, messages, pending, result).next matches NextView::CallProvider(
                call,
            ) ==> call.request.tools is None
        },
{
    match reply {
        Ok(response) => {
            if response.message.has_tool_calls() {
                lemma_tools_name_tools(
                    env,
                    messages.push(response.message),
                    turn,
                    response.message.tool_calls->Some_0,
                    0,
                );
            }
        },
        Err(_) => {},
    }
    let call = pending.calls[pending.index as int];
    lemma_tools_name_tools(
        env,
        messages.push(tool_message(call.id, result_text(result))),
        pending.turn,
        pending.calls,
        pending.index + 1,
    );
}

/// What is handed to the store comes back on replay: when a message of a
/// turn is added to the file of its conversation under the name of its
/// role, the last entry that is read from the file stands for the same
/// message, with its role, its content and the id of the call that it
/// answers, and without tool calls. A tool message that names its call is
/// therefore replayed, and only one that names none is left out. This is so
/// for a file that is empty or ends its last line, and for any limit but 0.
pub proof fn law_stored_message_is_replayed(
    existing: Option<Seq<char>>,
    timestamp: Seq<char>,
    message: StoredMessageView,
    limit: i64,
    now: i64,
)
    requires
        existing matches Some(held) ==> held.len() == 0 || held.last() == '\n',
        limit != 0,
    ensures
        ({
            let updated = conversation_content(
                existing,
                message.session_id,
                timestamp,
                message.role.spec_as_str(),
                message.content,
                message.tool_call_id,
            );
            let read = spec_conversation(Some(updated), message.session_id, limit, now);
            let replayed = MessageView {
                role: message.role,
                content: message.content,
                tool_calls: None,
                tool_call_id: message.tool_call_id,
            };
            &&& read.len() > 0
            &&& history_message(read.last()) == replayed
            &&& replayed.linked() == (message.role == Role::Tool ==> message.tool_call_id is Some)
        }),
{
    law_role_and_content_are_read_back(
        existing,
        message.session_id,
        timestamp,
        message.role,
        message.content,
        message.tool_call_id,
        limit,
        now,
    );
}

} // verus!
