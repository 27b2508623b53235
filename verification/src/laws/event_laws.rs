//! Laws of the single steps of a turn, in whatever state the turn is.

use vstd::prelude::*;
use crate::protocol::{ApprovalStatus, InputView, OutputView};
use crate::turn::{
    abort_message, approval_id_of, decision_of, stream_error_message, ApprovalStepView,
    ElicitationAction, IgnoredReply, ReplyView, TokenUsage, TurnAbortReason, TurnEventView,
    TurnPhaseView, TurnView,
};

verus! {

/// A new turn has nothing yet and reads the agent's events.
pub proof fn law_new_turns_are_empty()
    ensures
        ({
            let turn = TurnView::initial();
            &&& turn.content.len() == 0
            &&& turn.thinking.len() == 0
            &&& !turn.saw_final
            &&& !turn.saw_thinking_final
            &&& turn.last_usage is None
            &&& turn.error_message is None
            &&& turn.last_agent_message is None
            &&& turn.phase is Streaming
        }),
{
}

/// A delta of the answer is sent as it is and put at the end of the answer.
/// Nothing else changes.
pub proof fn law_answer_deltas(turn: TurnView, delta: Seq<char>)
    ensures
        ({
            let event = TurnEventView::AgentMessageContentDelta { delta };
            &&& turn.event_outputs(event) == seq![OutputView::AssistantDelta { delta }]
            &&& turn.after_event(event) == (TurnView { content: turn.content + delta, ..turn })
        }),
{
}

/// A delta of the reasoning, raw or not, is sent as it is and put at the end of
/// the reasoning. Nothing else changes.
pub proof fn law_thinking_deltas(turn: TurnView, delta: Seq<char>)
    ensures
        ({
            let event = TurnEventView::ReasoningContentDelta { delta };
            let raw = TurnEventView::ReasoningRawContentDelta { delta };
            &&& turn.event_outputs(event) == seq![OutputView::ThinkingDelta { delta }]
            &&& turn.after_event(event) == (TurnView { thinking: turn.thinking + delta, ..turn })
            &&& turn.event_outputs(raw) == turn.event_outputs(event)
            &&& turn.after_event(raw) == turn.after_event(event)
        }),
{
}

/// A message that the agent declares final takes the place of the answer. It is
/// sent in full the first time, and not again.
pub proof fn law_final_messages(turn: TurnView, message: Seq<char>)
    ensures
        ({
            let event = TurnEventView::AgentMessage { message };
            let next = turn.after_event(event);
            &&& !turn.saw_final ==> turn.event_outputs(event) == seq![
                OutputView::AssistantFinal { content: message },
            ]
            &&& turn.saw_final ==> turn.event_outputs(event).len() == 0
            &&& next.saw_final
            &&& next.content == message
            &&& next == (TurnView { content: next.content, saw_final: next.saw_final, ..turn })
        }),
{
}

/// Reasoning that the agent declares final, raw or not, takes the place of the
/// reasoning. It is sent in full the first time, and not again.
pub proof fn law_final_reasoning(turn: TurnView, text: Seq<char>)
    ensures
        ({
            let event = TurnEventView::AgentReasoning { text };
            let raw = TurnEventView::AgentReasoningRawContent { text };
            let next = turn.after_event(event);
            &&& !turn.saw_thinking_final ==> turn.event_outputs(event) == seq![
                OutputView::ThinkingFinal { content: text },
            ]
            &&& turn.saw_thinking_final ==> turn.event_outputs(event).len() == 0
            &&& next.saw_thinking_final
            &&& next.thinking == text
            &&& next == (TurnView {
                thinking: next.thinking,
                saw_thinking_final: next.saw_thinking_final,
                ..turn
            })
            &&& turn.event_outputs(raw) == turn.event_outputs(event)
            &&& turn.after_event(raw) == next
        }),
{
}

/// Token counts are noted, silently; an event without counts changes nothing.
pub proof fn law_token_counts(turn: TurnView, counts: TokenUsage)
    ensures
        ({
            let event = TurnEventView::TokenCount { last_token_usage: Some(counts) };
            let none = TurnEventView::TokenCount { last_token_usage: None };
            &&& turn.event_outputs(event).len() == 0
            &&& turn.after_event(event) == (TurnView { last_usage: Some(counts), ..turn })
            &&& turn.event_outputs(none).len() == 0
            &&& turn.after_event(none) == turn
        }),
{
}

/// When the agent completes a turn, the message that it ends with is noted, and
/// the answer is to be closed.
pub proof fn law_completion(turn: TurnView, last: Option<Seq<char>>)
    ensures
        ({
            let event = TurnEventView::TurnComplete { last_agent_message: last };
            &&& turn.event_outputs(event).len() == 0
            &&& turn.after_event(event) == (TurnView {
                last_agent_message: last,
                phase: TurnPhaseView::Closing,
                ..turn
            })
        }),
{
}

/// When the agent gives a turn up, the reason is noted as the error, and the
/// answer is to be closed.
pub proof fn law_giving_up(turn: TurnView, reason: TurnAbortReason)
    ensures
        abort_message(TurnAbortReason::Interrupted) == "turn interrupted"@,
        abort_message(TurnAbortReason::Replaced) == "turn replaced"@,
        abort_message(TurnAbortReason::ReviewEnded) == "review ended"@,
        ({
            let event = TurnEventView::TurnAborted { reason };
            &&& turn.event_outputs(event).len() == 0
            &&& turn.after_event(event) == (TurnView {
                error_message: Some(abort_message(reason)),
                phase: TurnPhaseView::Closing,
                ..turn
            })
        }),
{
}

/// An error is noted in place of an earlier one, and the turn goes on.
pub proof fn law_errors(turn: TurnView, message: Seq<char>)
    ensures
        ({
            let event = TurnEventView::Error { message };
            &&& turn.event_outputs(event).len() == 0
            &&& turn.after_event(event) == (TurnView { error_message: Some(message), ..turn })
        }),
{
}

/// A stream error is noted like an error. Its details, if they are not empty,
/// stand in round brackets behind its message; both are kept in full.
pub proof fn law_stream_errors(turn: TurnView, message: Seq<char>, details: Seq<char>)
    ensures
        ({
            let text = stream_error_message(message, Some(details));
            let n = message.len() as int;
            &&& details.len() == 0 ==> text == message
            &&& details.len() > 0 ==> {
                &&& text.len() == message.len() + details.len() + 3
                &&& text.take(n) == message
                &&& text[n] == ' ' && text[n + 1] == '('
                &&& text.subrange(n + 2, n + 2 + details.len()) == details
                &&& text.last() == ')'
            }
        }),
        stream_error_message(message, None) == message,
        forall|additional_details: Option<Seq<char>>|
            {
                let event = #[trigger] stream_error(message, additional_details);
                let text = stream_error_message(message, additional_details);
                &&& turn.event_outputs(event).len() == 0
                &&& turn.after_event(event) == turn.after_event(
                    TurnEventView::Error { message: text },
                )
            },
{
    let text = stream_error_message(message, Some(details));
    let n = message.len() as int;
    reveal_strlit(" (");
    reveal_strlit(")");
    if details.len() > 0 {
        assert(text.take(n) =~= message);
        assert(text.subrange(n + 2, n + 2 + details.len()) =~= details);
    }
}

/// The event of a stream error.
pub open spec fn stream_error(
    message: Seq<char>,
    additional_details: Option<Seq<char>>,
) -> TurnEventView {
    TurnEventView::StreamError { message, additional_details }
}

/// A request for approval is put to the client as a tool call: it is proposed, and
/// then its approval is asked for. The tool call bears the server's name and the
/// request's message, and its id is the server's name, a colon and the request's
/// id. From then on the turn awaits the client's answer to just this request.
pub proof fn law_requests(
    turn: TurnView,
    server_name: Seq<char>,
    request_id: Seq<char>,
    message: Seq<char>,
)
    ensures
        approval_id_of(server_name, request_id) == server_name.push(':') + request_id,
        ({
            let event = TurnEventView::ElicitationRequest { server_name, request_id, message };
            let outputs = turn.event_outputs(event);
            &&& outputs.len() == 2
            &&& outputs[0] is ToolProposed
            &&& outputs[1] is ApprovalRequested
            &&& outputs[1]->ApprovalRequested_tool == outputs[0]->ToolProposed_tool
            &&& outputs[0]->ToolProposed_tool.id == server_name.push(':') + request_id
            &&& outputs[0]->ToolProposed_tool.name == server_name
            &&& outputs[0]->ToolProposed_tool.args is Some
            &&& outputs[0]->ToolProposed_tool.args->0.message == message
            &&& outputs[1]->approval_id == server_name.push(':') + request_id
            &&& turn.after_event(event) == (TurnView {
                phase: TurnPhaseView::AwaitingApproval { server_name, request_id },
                ..turn
            })
        }),
{
    reveal_strlit(":");
    assert(approval_id_of(server_name, request_id) =~= server_name.push(':') + request_id);
}

/// That the agent has shut down ends the turn, silently; any event that a turn
/// does not look at changes nothing.
pub proof fn law_other_events(turn: TurnView)
    ensures
        turn.event_outputs(TurnEventView::ShutdownComplete).len() == 0,
        turn.after_event(TurnEventView::ShutdownComplete) == (TurnView {
            phase: TurnPhaseView::ShutDown,
            ..turn
        }),
        turn.event_outputs(TurnEventView::Other).len() == 0,
        turn.after_event(TurnEventView::Other) == turn,
{
}

/// Only a denial declines a request; approval and modification accept it.
pub proof fn law_decisions(status: ApprovalStatus)
    ensures
        decision_of(status) == ElicitationAction::Decline <==> status == ApprovalStatus::Denied,
        decision_of(status) == ElicitationAction::Accept <==> status == ApprovalStatus::Approved
            || status == ApprovalStatus::Modified,
{
}

/// Whether a reply is an answer to the request of this server with this id.
pub open spec fn answers(reply: ReplyView, server_name: Seq<char>, request_id: Seq<char>) -> bool {
    reply matches ReplyView::Input { input: InputView::ApprovalResolved { approval_id, .. } }
        && approval_id == server_name.push(':') + request_id
}

/// Whether a reply calls the open request off.
pub open spec fn calls_off(reply: ReplyView) -> bool {
    reply is EndOfInput || reply matches ReplyView::Input { input: InputView::SessionEnd }
}

/// Whatever a turn has streamed, sent or counted before: the client's answer under
/// the open request's own id accepts the request if the request was approved or
/// modified, and declines it if it was denied. The end of the input or of the
/// session cancels it. No other reply settles it. What is handed to the agent
/// names the open request.
pub proof fn law_replies_settle_requests(
    turn: TurnView,
    server_name: Seq<char>,
    request_id: Seq<char>,
    reply: ReplyView,
)
    requires
        turn.phase == (TurnPhaseView::AwaitingApproval { server_name, request_id }),
    ensures
        ({
            let step = turn.after_reply(reply).1;
            &&& step is Resolve <==> answers(reply, server_name, request_id) || calls_off(reply)
            &&& step is Resolve ==> step->server_name == server_name && step->request_id
                == request_id
            &&& calls_off(reply) ==> step->decision == ElicitationAction::Cancel
            &&& answers(reply, server_name, request_id) ==> step->decision == (
            match reply->input->resolution.status {
                ApprovalStatus::Approved | ApprovalStatus::Modified => ElicitationAction::Accept,
                ApprovalStatus::Denied => ElicitationAction::Decline,
            })
        }),
{
    law_requests(turn, server_name, request_id, Seq::empty());
}

/// Why a reply is ignored: it is blank, or no message, or a message of the user, or
/// an answer to another request.
pub proof fn law_ignored_replies(turn: TurnView, reply: ReplyView)
    requires
        turn.phase is AwaitingApproval,
        turn.after_reply(reply).1 is KeepWaiting,
    ensures
        ({
            let why = turn.after_reply(reply).1->why;
            &&& why == IgnoredReply::Blank <==> reply is Blank
            &&& why == IgnoredReply::Invalid <==> reply is Invalid
            &&& why == IgnoredReply::UserMessage <==> reply is Input && reply->input is User
            &&& why == IgnoredReply::OtherApproval <==> reply is Input && reply->input
                is ApprovalResolved
        }),
{
}

/// A settled request changes nothing in the turn but that it reads the agent's
/// events again; an ignored reply changes nothing at all.
pub proof fn law_replies_leave_the_answer(turn: TurnView, reply: ReplyView)
    requires
        turn.phase is AwaitingApproval,
    ensures
        ({
            let (next, step) = turn.after_reply(reply);
            &&& step is Resolve ==> next == (TurnView { phase: TurnPhaseView::Streaming, ..turn })
            &&& step is KeepWaiting ==> next == turn
        }),
{
}

/// Two turns that await the answer to the same request take every reply alike,
/// however much they differ otherwise.
pub proof fn law_replies_are_taken_alike(a: TurnView, b: TurnView, reply: ReplyView)
    requires
        a.phase is AwaitingApproval,
        a.phase == b.phase,
    ensures
        a.after_reply(reply).1 == b.after_reply(reply).1,
{
}

/// The answer that closes a turn, whatever else the turn holds. An error comes
/// first; else the message that the agent ended with, in full, whatever was
/// streamed; else what was streamed, in full; and else a stand-in.
pub proof fn law_closing_answer(turn: TurnView)
    ensures
        turn.error_message matches Some(error) ==> turn.closing_content() == "Error: "@ + error,
        turn.error_message is None ==> (turn.last_agent_message matches Some(last)
            ==> turn.closing_content() == last),
        turn.error_message is None && turn.last_agent_message is None && turn.content.len() > 0
            ==> turn.closing_content() == turn.content,
        turn.error_message is None && turn.last_agent_message is None && turn.content.len() == 0
            ==> turn.closing_content() == "No response from Codex."@,
{
}

/// What is sent when an answer is closed: first the reasoning, unless it was sent
/// as final or is empty, and then the closing answer, unless a final one was sent.
pub proof fn law_closing_outputs(turn: TurnView)
    ensures
        ({
            let outputs = turn.close_outputs();
            let thinks = !turn.saw_thinking_final && turn.thinking.len() > 0;
            let thinking = OutputView::ThinkingFinal { content: turn.thinking };
            let answer = OutputView::AssistantFinal { content: turn.closing_content() };
            &&& thinks && !turn.saw_final ==> outputs == seq![thinking, answer]
            &&& thinks && turn.saw_final ==> outputs == seq![thinking]
            &&& !thinks && !turn.saw_final ==> outputs == seq![answer]
            &&& !thinks && turn.saw_final ==> outputs.len() == 0
        }),
{
    let thinking = OutputView::ThinkingFinal { content: turn.thinking };
    let answer = OutputView::AssistantFinal { content: turn.closing_content() };
    assert(seq![thinking] + seq![answer] =~= seq![thinking, answer]);
    assert(seq![thinking] + Seq::empty() =~= seq![thinking]);
    assert(Seq::empty() + seq![answer] =~= seq![answer]);
}

/// Closing an answer leaves what the turn holds, and completes it. Nothing is
/// left to send: closed again, it would send nothing.
pub proof fn law_closed_turns(turn: TurnView)
    ensures
        ({
            let next = turn.after_close();
            &&& next.phase is Completed
            &&& next.saw_final
            &&& next.saw_thinking_final <==> turn.saw_thinking_final || turn.thinking.len() > 0
            &&& next == (TurnView {
                saw_final: next.saw_final,
                saw_thinking_final: next.saw_thinking_final,
                phase: next.phase,
                ..turn
            })
            &&& next.close_outputs().len() == 0
        }),
{
}

/// The tokens can be sent exactly if the visible and the reasoning output tokens
/// add up to a number of 64 bits with a sign; without counts there is nothing to
/// add up.
pub proof fn law_sendable_usage(turn: TurnView)
    ensures
        turn.last_usage is None ==> turn.usage_fits(),
        turn.last_usage matches Some(counts) ==> (turn.usage_fits() <==> -0x8000_0000_0000_0000
            <= counts.output_tokens + counts.reasoning_output_tokens <= 0x7fff_ffff_ffff_ffff),
{
}

/// What is told of the tokens: for the model that was given, the counts that were
/// noted, the reasoning tokens among the output. A finished turn tells of them
/// after it has closed the answer.
pub proof fn law_usage_reports(turn: TurnView, model: Seq<char>)
    requires
        turn.usage_fits(),
    ensures
        turn.last_usage is None ==> turn.usage_output(model) is None && turn.finish_outputs(model)
            == turn.close_outputs(),
        turn.last_usage matches Some(counts) ==> {
            &&& turn.usage_output(model) matches Some(
                OutputView::TelemetryUsage { provider, model: m, usage },
            )
            &&& provider == "codex"@
            &&& m == model
            &&& usage.input_tokens == counts.input_tokens
            &&& usage.output_tokens == counts.output_tokens + counts.reasoning_output_tokens
            &&& usage.total_tokens == counts.total_tokens
            &&& turn.finish_outputs(model) == turn.close_outputs().push(
                turn.usage_output(model)->0,
            )
        },
{
    assert(turn.close_outputs() + Seq::empty() =~= turn.close_outputs());
    if turn.last_usage is Some {
        let report = turn.usage_output(model)->0;
        assert(turn.close_outputs() + seq![report] =~= turn.close_outputs().push(report));
    }
}

} // verus!
