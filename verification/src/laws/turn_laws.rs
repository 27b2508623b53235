//! Laws of a turn, over every sequence of events and replies that it can read.

use vstd::prelude::*;
use crate::protocol::{ApprovalStatus, InputView, OutputView, ResolutionView};
use crate::session::{session_step, SessionEventView, SessionPhase};
use crate::turn::{
    abort_message, approval_id_of, stream_error_message, ApprovalStepView, ElicitationAction,
    IgnoredReply, ReplyView, TokenUsage, TurnAbortReason, TurnEventView, TurnOutcome, TurnPhaseView, TurnView,
};

verus! {

/// Something that a turn reads.
pub enum TurnInputView {
    Event { event: TurnEventView },
    Reply { reply: ReplyView },
}

/// A request for approval that was answered.
pub struct SettledView {
    pub server_name: Seq<char>,
    pub request_id: Seq<char>,
    pub decision: ElicitationAction,
}

/// What a turn has come to: where it stands, all it sent to the client, and all
/// the requests for approval that it answered.
pub struct TurnTrace {
    pub turn: TurnView,
    pub outputs: Seq<OutputView>,
    pub settled: Seq<SettledView>,
}

/// Whether a turn in this state can read this input.
pub open spec fn can_read(turn: TurnView, input: TurnInputView) -> bool {
    match input {
        TurnInputView::Event { .. } => turn.phase is Streaming,
        TurnInputView::Reply { .. } => turn.phase is AwaitingApproval,
    }
}

/// The answers to requests for approval that a step gives.
pub open spec fn settled_by(step: ApprovalStepView) -> Seq<SettledView> {
    match step {
        ApprovalStepView::Resolve { server_name, request_id, decision } => {
            seq![SettledView { server_name, request_id, decision }]
        },
        ApprovalStepView::KeepWaiting { .. } => Seq::empty(),
    }
}

impl TurnTrace {
    /// The trace once one more input is read.
    pub open spec fn then_reads(self, input: TurnInputView) -> TurnTrace {
        match input {
            TurnInputView::Event { event } => TurnTrace {
                turn: self.turn.after_event(event),
                outputs: self.outputs + self.turn.event_outputs(event),
                settled: self.settled,
            },
            TurnInputView::Reply { reply } => TurnTrace {
                turn: self.turn.after_reply(reply).0,
                outputs: self.outputs,
                settled: self.settled + settled_by(self.turn.after_reply(reply).1),
            },
        }
    }
}

/// What a new turn comes to once it has read these inputs.
pub open spec fn run_turn(inputs: Seq<TurnInputView>) -> TurnTrace
    decreases inputs.len(),
{
    if inputs.len() == 0 {
        TurnTrace { turn: TurnView::initial(), outputs: Seq::empty(), settled: Seq::empty() }
    } else {
        run_turn(inputs.drop_last()).then_reads(inputs.last())
    }
}

/// Whether a new turn can read these inputs, one after the other.
pub open spec fn readable(inputs: Seq<TurnInputView>) -> bool
    decreases inputs.len(),
{
    inputs.len() == 0 || (readable(inputs.drop_last()) && can_read(
        run_turn(inputs.drop_last()).turn,
        inputs.last(),
    ))
}

/// All that a turn sends if it completes after these inputs.
pub open spec fn completed_outputs(inputs: Seq<TurnInputView>, model: Seq<char>) -> Seq<OutputView> {
    run_turn(inputs).outputs + run_turn(inputs).turn.finish_outputs(model)
}

/// The final answers among some outputs.
pub open spec fn finals(outputs: Seq<OutputView>) -> Seq<Seq<char>>
    decreases outputs.len(),
{
    if outputs.len() == 0 {
        Seq::empty()
    } else {
        let before = finals(outputs.drop_last());
        match outputs.last() {
            OutputView::AssistantFinal { content } => before.push(content),
            _ => before,
        }
    }
}

/// The final pieces of reasoning among some outputs.
pub open spec fn thinking_finals(outputs: Seq<OutputView>) -> Seq<Seq<char>>
    decreases outputs.len(),
{
    if outputs.len() == 0 {
        Seq::empty()
    } else {
        let before = thinking_finals(outputs.drop_last());
        match outputs.last() {
            OutputView::ThinkingFinal { content } => before.push(content),
            _ => before,
        }
    }
}

/// The answer as it was streamed: all its deltas, joined.
pub open spec fn streamed_answer(outputs: Seq<OutputView>) -> Seq<char>
    decreases outputs.len(),
{
    if outputs.len() == 0 {
        Seq::empty()
    } else {
        let before = streamed_answer(outputs.drop_last());
        match outputs.last() {
            OutputView::AssistantDelta { delta } => before + delta,
            _ => before,
        }
    }
}

/// The reasoning as it was streamed: all its deltas, joined.
pub open spec fn streamed_thinking(outputs: Seq<OutputView>) -> Seq<char>
    decreases outputs.len(),
{
    if outputs.len() == 0 {
        Seq::empty()
    } else {
        let before = streamed_thinking(outputs.drop_last());
        match outputs.last() {
            OutputView::ThinkingDelta { delta } => before + delta,
            _ => before,
        }
    }
}

/// The ids under which approval was asked for, in order.
pub open spec fn requested_ids(outputs: Seq<OutputView>) -> Seq<Seq<char>>
    decreases outputs.len(),
{
    if outputs.len() == 0 {
        Seq::empty()
    } else {
        let before = requested_ids(outputs.drop_last());
        match outputs.last() {
            OutputView::ApprovalRequested { approval_id, tool } => before.push(approval_id),
            _ => before,
        }
    }
}

/// The stop messages among some outputs.
pub open spec fn stops(outputs: Seq<OutputView>) -> nat
    decreases outputs.len(),
{
    if outputs.len() == 0 {
        0
    } else {
        stops(outputs.drop_last()) + if outputs.last() is MessageStop {
            1nat
        } else {
            0
        }
    }
}

/// The ids of the requests that were answered, in order.
pub open spec fn settled_ids(settled: Seq<SettledView>) -> Seq<Seq<char>> {
    settled.map_values(|s: SettledView| approval_id_of(s.server_name, s.request_id))
}

/// The id of the request that is still open, if one is.
pub open spec fn open_ids(turn: TurnView) -> Seq<Seq<char>> {
    match turn.phase {
        TurnPhaseView::AwaitingApproval { server_name, request_id } => {
            seq![approval_id_of(server_name, request_id)]
        },
        _ => Seq::empty(),
    }
}

/// The first message that the agent declared final.
pub open spec fn first_message(inputs: Seq<TurnInputView>) -> Option<Seq<char>>
    decreases inputs.len(),
{
    if inputs.len() == 0 {
        None
    } else {
        match (first_message(inputs.drop_last()), inputs.last()) {
            (
                None,
                TurnInputView::Event { event: TurnEventView::AgentMessage { message } },
            ) => Some(message),
            (earlier, _) => earlier,
        }
    }
}

/// The first piece of reasoning that the agent declared final.
pub open spec fn first_reasoning(inputs: Seq<TurnInputView>) -> Option<Seq<char>>
    decreases inputs.len(),
{
    if inputs.len() == 0 {
        None
    } else {
        match (first_reasoning(inputs.drop_last()), inputs.last()) {
            (None, TurnInputView::Event { event: TurnEventView::AgentReasoning { text } }) => {
                Some(text)
            },
            (
                None,
                TurnInputView::Event { event: TurnEventView::AgentReasoningRawContent { text } },
            ) => Some(text),
            (earlier, _) => earlier,
        }
    }
}

/// The last error that the agent reported.
pub open spec fn last_error(inputs: Seq<TurnInputView>) -> Option<Seq<char>>
    decreases inputs.len(),
{
    if inputs.len() == 0 {
        None
    } else {
        match inputs.last() {
            TurnInputView::Event { event: TurnEventView::Error { message } } => Some(message),
            TurnInputView::Event {
                event: TurnEventView::StreamError { message, additional_details },
            } => Some(stream_error_message(message, additional_details)),
            TurnInputView::Event { event: TurnEventView::TurnAborted { reason } } => {
                Some(abort_message(reason))
            },
            _ => last_error(inputs.drop_last()),
        }
    }
}

/// The last token counts that the agent reported.
pub open spec fn last_counts(inputs: Seq<TurnInputView>) -> Option<TokenUsage>
    decreases inputs.len(),
{
    if inputs.len() == 0 {
        None
    } else {
        match inputs.last() {
            TurnInputView::Event {
                event: TurnEventView::TokenCount { last_token_usage: Some(usage) },
            } => Some(usage),
            _ => last_counts(inputs.drop_last()),
        }
    }
}

/// Sending outputs one batch after the other is sending them all.
pub(crate) proof fn lemma_outputs_add(a: Seq<OutputView>, b: Seq<OutputView>)
    ensures
        finals(a + b) == finals(a) + finals(b),
        thinking_finals(a + b) == thinking_finals(a) + thinking_finals(b),
        streamed_answer(a + b) == streamed_answer(a) + streamed_answer(b),
        streamed_thinking(a + b) == streamed_thinking(a) + streamed_thinking(b),
        requested_ids(a + b) == requested_ids(a) + requested_ids(b),
        stops(a + b) == stops(a) + stops(b),
    decreases b.len(),
{
    if b.len() == 0 {
        assert(a + b =~= a);
    } else {
        assert((a + b).drop_last() =~= a + b.drop_last());
        assert((a + b).last() == b.last());
        lemma_outputs_add(a, b.drop_last());
    }
    assert(finals(a + b) =~= finals(a) + finals(b));
    assert(thinking_finals(a + b) =~= thinking_finals(a) + thinking_finals(b));
    assert(streamed_answer(a + b) =~= streamed_answer(a) + streamed_answer(b));
    assert(streamed_thinking(a + b) =~= streamed_thinking(a) + streamed_thinking(b));
    assert(requested_ids(a + b) =~= requested_ids(a) + requested_ids(b));
}

/// What at most two outputs hold.
pub(crate) proof fn lemma_few_outputs(outputs: Seq<OutputView>)
    requires
        outputs.len() <= 2,
    ensures
        outputs.len() == 0 ==> {
            &&& finals(outputs) == Seq::<Seq<char>>::empty()
            &&& thinking_finals(outputs) == Seq::<Seq<char>>::empty()
            &&& streamed_answer(outputs) == Seq::<char>::empty()
            &&& streamed_thinking(outputs) == Seq::<char>::empty()
            &&& requested_ids(outputs) == Seq::<Seq<char>>::empty()
            &&& stops(outputs) == 0
        },
        outputs.len() == 1 ==> {
            &&& finals(outputs) == match outputs[0] {
                OutputView::AssistantFinal { content } => seq![content],
                _ => Seq::empty(),
            }
            &&& thinking_finals(outputs) == match outputs[0] {
                OutputView::ThinkingFinal { content } => seq![content],
                _ => Seq::empty(),
            }
            &&& streamed_answer(outputs) == match outputs[0] {
                OutputView::AssistantDelta { delta } => delta,
                _ => Seq::empty(),
            }
            &&& streamed_thinking(outputs) == match outputs[0] {
                OutputView::ThinkingDelta { delta } => delta,
                _ => Seq::empty(),
            }
            &&& requested_ids(outputs) == match outputs[0] {
                OutputView::ApprovalRequested { approval_id, tool } => seq![approval_id],
                _ => Seq::empty(),
            }
            &&& stops(outputs) == if outputs[0] is MessageStop {
                1nat
            } else {
                0
            }
        },
        outputs.len() == 2 ==> {
            let a = seq![outputs[0]];
            let b = seq![outputs[1]];
            &&& finals(outputs) == finals(a) + finals(b)
            &&& thinking_finals(outputs) == thinking_finals(a) + thinking_finals(b)
            &&& streamed_answer(outputs) == streamed_answer(a) + streamed_answer(b)
            &&& streamed_thinking(outputs) == streamed_thinking(a) + streamed_thinking(b)
            &&& requested_ids(outputs) == requested_ids(a) + requested_ids(b)
            &&& stops(outputs) == stops(a) + stops(b)
        },
{
    if outputs.len() == 1 {
        let none = outputs.drop_last();
        assert(none =~= Seq::empty());
        assert(finals(none) =~= Seq::empty());
        assert(thinking_finals(none) =~= Seq::empty());
        assert(streamed_answer(none) =~= Seq::empty());
        assert(streamed_thinking(none) =~= Seq::empty());
        assert(requested_ids(none) =~= Seq::empty());
        assert(stops(none) == 0);
        assert(outputs.last() == outputs[0]);
        if let OutputView::AssistantDelta { delta } = outputs[0] {
            assert(Seq::<char>::empty() + delta =~= delta);
        }
        if let OutputView::ThinkingDelta { delta } = outputs[0] {
            assert(Seq::<char>::empty() + delta =~= delta);
        }
    } else if outputs.len() == 2 {
        assert(outputs =~= seq![outputs[0]] + seq![outputs[1]]);
        lemma_outputs_add(seq![outputs[0]], seq![outputs[1]]);
    }
}

/// What the outputs of one event hold.
proof fn lemma_event_outputs(turn: TurnView, event: TurnEventView)
    ensures
        ({
            let outputs = turn.event_outputs(event);
            &&& finals(outputs) == match event {
                TurnEventView::AgentMessage { message } if !turn.saw_final => seq![message],
                _ => Seq::empty(),
            }
            &&& thinking_finals(outputs) == match event {
                TurnEventView::AgentReasoning { text } if !turn.saw_thinking_final => seq![text],
                TurnEventView::AgentReasoningRawContent { text } if !turn.saw_thinking_final => {
                    seq![text]
                },
                _ => Seq::empty(),
            }
            &&& streamed_answer(outputs) == match event {
                TurnEventView::AgentMessageContentDelta { delta } => delta,
                _ => Seq::empty(),
            }
            &&& streamed_thinking(outputs) == match event {
                TurnEventView::ReasoningContentDelta { delta } => delta,
                TurnEventView::ReasoningRawContentDelta { delta } => delta,
                _ => Seq::empty(),
            }
            &&& requested_ids(outputs) == match event {
                TurnEventView::ElicitationRequest { server_name, request_id, message } => {
                    seq![approval_id_of(server_name, request_id)]
                },
                _ => Seq::empty(),
            }
            &&& stops(outputs) == 0
        }),
{
    let outputs = turn.event_outputs(event);
    lemma_few_outputs(outputs);
    if outputs.len() == 2 {
        lemma_few_outputs(seq![outputs[0]]);
        lemma_few_outputs(seq![outputs[1]]);
        assert(finals(outputs) =~= Seq::empty());
        assert(thinking_finals(outputs) =~= Seq::empty());
        assert(streamed_answer(outputs) =~= Seq::empty());
        assert(streamed_thinking(outputs) =~= Seq::empty());
        assert(requested_ids(outputs) =~= seq![outputs[1]->approval_id]);
    }
}

/// What the outputs that close an answer hold.
proof fn lemma_close_outputs(turn: TurnView)
    ensures
        ({
            let outputs = turn.close_outputs();
            &&& finals(outputs) == if turn.saw_final {
                Seq::empty()
            } else {
                seq![turn.closing_content()]
            }
            &&& thinking_finals(outputs) == if turn.saw_thinking_final || turn.thinking.len() == 0 {
                Seq::empty()
            } else {
                seq![turn.thinking]
            }
            &&& stops(outputs) == 0
        }),
{
    let outputs = turn.close_outputs();
    lemma_few_outputs(outputs);
    if outputs.len() == 2 {
        lemma_few_outputs(seq![outputs[0]]);
        lemma_few_outputs(seq![outputs[1]]);
        assert(finals(outputs) =~= seq![turn.closing_content()]);
        assert(thinking_finals(outputs) =~= seq![turn.thinking]);
    }
}

/// While a turn runs, the client gets one final answer if the agent declared a
/// message final, and none otherwise. It is the first such message: later ones
/// are not sent.
pub proof fn law_first_final_is_sent(inputs: Seq<TurnInputView>)
    requires
        readable(inputs),
    ensures
        finals(run_turn(inputs).outputs) == match first_message(inputs) {
            Some(message) => seq![message],
            None => Seq::empty(),
        },
        run_turn(inputs).turn.saw_final <==> first_message(inputs) is Some,
    decreases inputs.len(),
{
    if inputs.len() > 0 {
        law_first_final_is_sent(inputs.drop_last());
        let before = run_turn(inputs.drop_last());
        if let TurnInputView::Event { event } = inputs.last() {
            lemma_outputs_add(before.outputs, before.turn.event_outputs(event));
            lemma_event_outputs(before.turn, event);
        }
        assert(finals(run_turn(inputs).outputs) =~= match first_message(inputs) {
            Some(message) => seq![message],
            None => Seq::empty(),
        });
    }
}

/// While a turn runs, the client gets one final piece of reasoning if the agent
/// declared one final, and none otherwise. It is the first such piece.
pub proof fn law_first_thinking_final_is_sent(inputs: Seq<TurnInputView>)
    requires
        readable(inputs),
    ensures
        thinking_finals(run_turn(inputs).outputs) == match first_reasoning(inputs) {
            Some(text) => seq![text],
            None => Seq::empty(),
        },
        run_turn(inputs).turn.saw_thinking_final <==> first_reasoning(inputs) is Some,
    decreases inputs.len(),
{
    if inputs.len() > 0 {
        law_first_thinking_final_is_sent(inputs.drop_last());
        let before = run_turn(inputs.drop_last());
        if let TurnInputView::Event { event } = inputs.last() {
            lemma_outputs_add(before.outputs, before.turn.event_outputs(event));
            lemma_event_outputs(before.turn, event);
        }
        assert(thinking_finals(run_turn(inputs).outputs) =~= match first_reasoning(inputs) {
            Some(text) => seq![text],
            None => Seq::empty(),
        });
    }
}

/// A turn that completes sends exactly one final answer: the first message that
/// the agent declared final, or else what closes the turn. It sends at most one
/// final piece of reasoning.
pub proof fn law_completed_turn_has_one_final(inputs: Seq<TurnInputView>, model: Seq<char>)
    requires
        readable(inputs),
        run_turn(inputs).turn.phase is Closing,
    ensures
        finals(completed_outputs(inputs, model)) == seq![
            match first_message(inputs) {
                Some(message) => message,
                None => run_turn(inputs).turn.closing_content(),
            },
        ],
        thinking_finals(completed_outputs(inputs, model)) == match first_reasoning(inputs) {
            Some(text) => seq![text],
            None => if run_turn(inputs).turn.thinking.len() > 0 {
                seq![run_turn(inputs).turn.thinking]
            } else {
                Seq::empty()
            },
        },
{
    let trace = run_turn(inputs);
    let usage = match trace.turn.usage_output(model) {
        Some(output) => seq![output],
        None => Seq::empty(),
    };
    law_first_final_is_sent(inputs);
    law_first_thinking_final_is_sent(inputs);
    lemma_close_outputs(trace.turn);
    lemma_few_outputs(usage);
    lemma_outputs_add(trace.turn.close_outputs(), usage);
    lemma_outputs_add(trace.outputs, trace.turn.finish_outputs(model));
    let outputs = completed_outputs(inputs, model);
    assert(finals(outputs) =~= seq![
        match first_message(inputs) {
            Some(message) => message,
            None => trace.turn.closing_content(),
        },
    ]);
    assert(thinking_finals(outputs) =~= match first_reasoning(inputs) {
        Some(text) => seq![text],
        None => if trace.turn.thinking.len() > 0 {
            seq![trace.turn.thinking]
        } else {
            Seq::empty()
        },
    });
}

/// The deltas among some outputs, of the answer and of the reasoning.
pub open spec fn deltas(outputs: Seq<OutputView>) -> Seq<OutputView>
    decreases outputs.len(),
{
    if outputs.len() == 0 {
        Seq::empty()
    } else {
        let before = deltas(outputs.drop_last());
        if outputs.last() is AssistantDelta || outputs.last() is ThinkingDelta {
            before.push(outputs.last())
        } else {
            before
        }
    }
}

/// The deltas that the agent reported, as the client is to get them.
pub open spec fn reported_deltas(inputs: Seq<TurnInputView>) -> Seq<OutputView>
    decreases inputs.len(),
{
    if inputs.len() == 0 {
        Seq::empty()
    } else {
        let before = reported_deltas(inputs.drop_last());
        match inputs.last() {
            TurnInputView::Event {
                event: TurnEventView::AgentMessageContentDelta { delta },
            } => before.push(OutputView::AssistantDelta { delta }),
            TurnInputView::Event { event: TurnEventView::ReasoningContentDelta { delta } } => {
                before.push(OutputView::ThinkingDelta { delta })
            },
            TurnInputView::Event { event: TurnEventView::ReasoningRawContentDelta { delta } } => {
                before.push(OutputView::ThinkingDelta { delta })
            },
            _ => before,
        }
    }
}

proof fn lemma_deltas_add(a: Seq<OutputView>, b: Seq<OutputView>)
    ensures
        deltas(a + b) == deltas(a) + deltas(b),
    decreases b.len(),
{
    if b.len() == 0 {
        assert(a + b =~= a);
    } else {
        assert((a + b).drop_last() =~= a + b.drop_last());
        assert((a + b).last() == b.last());
        lemma_deltas_add(a, b.drop_last());
    }
    assert(deltas(a + b) =~= deltas(a) + deltas(b));
}

proof fn lemma_no_deltas(outputs: Seq<OutputView>)
    requires
        forall|i: int|
            0 <= i < outputs.len() ==> !((#[trigger] outputs[i]) is AssistantDelta)
                && !(outputs[i] is ThinkingDelta),
    ensures
        deltas(outputs) == Seq::<OutputView>::empty(),
    decreases outputs.len(),
{
    if outputs.len() > 0 {
        let before = outputs.drop_last();
        assert forall|i: int| 0 <= i < before.len() implies !((#[trigger] before[i])
            is AssistantDelta) && !(before[i] is ThinkingDelta) by {
            assert(before[i] == outputs[i]);
        }
        lemma_no_deltas(before);
        assert(outputs.last() == outputs[outputs.len() - 1]);
    }
}

/// Every delta that the agent reports reaches the client: one for one, unchanged
/// and in order. Finishing the turn sends no more of them.
pub proof fn law_deltas_are_passed_on(inputs: Seq<TurnInputView>, model: Seq<char>)
    requires
        readable(inputs),
    ensures
        deltas(run_turn(inputs).outputs) == reported_deltas(inputs),
        deltas(completed_outputs(inputs, model)) == reported_deltas(inputs),
    decreases inputs.len(),
{
    let trace = run_turn(inputs);
    if inputs.len() > 0 {
        law_deltas_are_passed_on(inputs.drop_last(), model);
        let before = run_turn(inputs.drop_last());
        if let TurnInputView::Event { event } = inputs.last() {
            let sent = before.turn.event_outputs(event);
            lemma_deltas_add(before.outputs, sent);
            if sent.len() == 1 && (sent[0] is AssistantDelta || sent[0] is ThinkingDelta) {
                assert(deltas(sent.drop_last()) =~= Seq::empty());
                assert(sent.last() == sent[0]);
                assert(deltas(sent) =~= seq![sent[0]]);
            } else {
                lemma_no_deltas(sent);
            }
        }
    }
    assert(deltas(trace.outputs) =~= reported_deltas(inputs));
    lemma_deltas_add(trace.outputs, trace.turn.finish_outputs(model));
    lemma_no_deltas(trace.turn.finish_outputs(model));
    assert(deltas(completed_outputs(inputs, model)) =~= reported_deltas(inputs));
}

/// As long as the agent declares no message final, the answer is what was
/// streamed to the client.
pub proof fn law_answer_is_what_was_streamed(inputs: Seq<TurnInputView>)
    requires
        readable(inputs),
        first_message(inputs) is None,
    ensures
        run_turn(inputs).turn.content == streamed_answer(run_turn(inputs).outputs),
    decreases inputs.len(),
{
    if inputs.len() > 0 {
        law_answer_is_what_was_streamed(inputs.drop_last());
        let before = run_turn(inputs.drop_last());
        if let TurnInputView::Event { event } = inputs.last() {
            lemma_outputs_add(before.outputs, before.turn.event_outputs(event));
            lemma_event_outputs(before.turn, event);
            assert(run_turn(inputs).turn.content =~= streamed_answer(run_turn(inputs).outputs));
        }
    }
}

/// As long as the agent declares no reasoning final, the reasoning is what was
/// streamed to the client.
pub proof fn law_thinking_is_what_was_streamed(inputs: Seq<TurnInputView>)
    requires
        readable(inputs),
        first_reasoning(inputs) is None,
    ensures
        run_turn(inputs).turn.thinking == streamed_thinking(run_turn(inputs).outputs),
    decreases inputs.len(),
{
    if inputs.len() > 0 {
        law_thinking_is_what_was_streamed(inputs.drop_last());
        let before = run_turn(inputs.drop_last());
        if let TurnInputView::Event { event } = inputs.last() {
            lemma_outputs_add(before.outputs, before.turn.event_outputs(event));
            lemma_event_outputs(before.turn, event);
            assert(run_turn(inputs).turn.thinking =~= streamed_thinking(run_turn(inputs).outputs));
        }
    }
}

/// If the agent neither declared a message final, nor reported an error, nor
/// ended the turn with a message, then the final answer is what was streamed,
/// as far as anything was.
pub proof fn law_final_repeats_the_stream(inputs: Seq<TurnInputView>, model: Seq<char>)
    requires
        readable(inputs),
        run_turn(inputs).turn.phase is Closing,
        first_message(inputs) is None,
        last_error(inputs) is None,
        run_turn(inputs).turn.last_agent_message is None,
        streamed_answer(run_turn(inputs).outputs).len() > 0,
    ensures
        finals(completed_outputs(inputs, model)) == seq![
            streamed_answer(run_turn(inputs).outputs),
        ],
{
    law_completed_turn_has_one_final(inputs, model);
    law_answer_is_what_was_streamed(inputs);
    law_last_error_is_kept(inputs);
}

/// A turn is to be closed exactly if the last thing that it read is that the agent
/// completed it or gave it up, and it has shut down exactly if that is the last
/// thing that it read.
pub proof fn law_how_turns_end(inputs: Seq<TurnInputView>)
    requires
        readable(inputs),
    ensures
        run_turn(inputs).turn.phase is Closing <==> inputs.len() > 0 && (inputs.last() matches TurnInputView::Event {
            event,
        } && (event is TurnComplete || event is TurnAborted)),
        run_turn(inputs).turn.phase is ShutDown <==> inputs.len() > 0 && (inputs.last() matches TurnInputView::Event {
            event,
        } && event is ShutdownComplete),
        !(run_turn(inputs).turn.phase is Completed),
{
    if inputs.len() > 0 {
        assert(can_read(run_turn(inputs.drop_last()).turn, inputs.last()));
    }
}

/// The message that the agent completes a turn with is the final answer, whatever
/// was streamed before, unless a message was declared final or an error was
/// reported.
pub proof fn law_last_message_is_the_answer(
    inputs: Seq<TurnInputView>,
    last: Seq<char>,
    model: Seq<char>,
)
    requires
        readable(inputs),
        inputs.len() > 0,
        inputs.last() == (TurnInputView::Event {
            event: TurnEventView::TurnComplete { last_agent_message: Some(last) },
        }),
        first_message(inputs) is None,
        last_error(inputs) is None,
    ensures
        finals(completed_outputs(inputs, model)) == seq![last],
{
    law_how_turns_end(inputs);
    law_last_error_is_kept(inputs);
    law_completed_turn_has_one_final(inputs, model);
}

/// A turn that the agent completes without a message, an error or any streamed
/// text still has a final answer: a stand-in. With streamed text, the answer is
/// that text.
pub proof fn law_turns_without_a_message(inputs: Seq<TurnInputView>, model: Seq<char>)
    requires
        readable(inputs),
        inputs.len() > 0,
        inputs.last() == (TurnInputView::Event {
            event: TurnEventView::TurnComplete { last_agent_message: None },
        }),
        first_message(inputs) is None,
        last_error(inputs) is None,
    ensures
        finals(completed_outputs(inputs, model)) == seq![
            if streamed_answer(run_turn(inputs).outputs).len() > 0 {
                streamed_answer(run_turn(inputs).outputs)
            } else {
                "No response from Codex."@
            },
        ],
{
    law_how_turns_end(inputs);
    law_last_error_is_kept(inputs);
    law_answer_is_what_was_streamed(inputs);
    law_completed_turn_has_one_final(inputs, model);
}

/// A turn that the agent gives up answers with the reason, unless a message was
/// declared final.
pub proof fn law_given_up_turns_say_why(
    inputs: Seq<TurnInputView>,
    reason: TurnAbortReason,
    model: Seq<char>,
)
    requires
        readable(inputs),
        inputs.len() > 0,
        inputs.last() == (TurnInputView::Event { event: TurnEventView::TurnAborted { reason } }),
        first_message(inputs) is None,
    ensures
        finals(completed_outputs(inputs, model)) == seq![
            "Error: "@ + match reason {
                TurnAbortReason::Interrupted => "turn interrupted"@,
                TurnAbortReason::Replaced => "turn replaced"@,
                TurnAbortReason::ReviewEnded => "review ended"@,
            },
        ],
{
    law_how_turns_end(inputs);
    law_errors_reach_the_client(inputs, model);
}

/// The error that a turn may close with is the last one that was reported.
pub proof fn law_last_error_is_kept(inputs: Seq<TurnInputView>)
    requires
        readable(inputs),
    ensures
        run_turn(inputs).turn.error_message == last_error(inputs),
    decreases inputs.len(),
{
    if inputs.len() > 0 {
        law_last_error_is_kept(inputs.drop_last());
    }
}

/// An error that was reported before any message was declared final is what the
/// turn closes with.
pub proof fn law_errors_reach_the_client(inputs: Seq<TurnInputView>, model: Seq<char>)
    requires
        readable(inputs),
        run_turn(inputs).turn.phase is Closing,
        first_message(inputs) is None,
        last_error(inputs) is Some,
    ensures
        finals(completed_outputs(inputs, model)) == seq!["Error: "@ + last_error(inputs)->0],
{
    law_completed_turn_has_one_final(inputs, model);
    law_last_error_is_kept(inputs);
}

/// The token counts that a turn reports are the last ones that came in.
pub proof fn law_last_counts_are_kept(inputs: Seq<TurnInputView>)
    requires
        readable(inputs),
    ensures
        run_turn(inputs).turn.last_usage == last_counts(inputs),
    decreases inputs.len(),
{
    if inputs.len() > 0 {
        law_last_counts_are_kept(inputs.drop_last());
    }
}

proof fn lemma_running_turns_report_no_usage(inputs: Seq<TurnInputView>)
    requires
        readable(inputs),
    ensures
        forall|i: int|
            0 <= i < run_turn(inputs).outputs.len() ==> !((#[trigger] run_turn(inputs).outputs[i])
                is TelemetryUsage),
    decreases inputs.len(),
{
    if inputs.len() > 0 {
        lemma_running_turns_report_no_usage(inputs.drop_last());
        let before = run_turn(inputs.drop_last()).outputs;
        let after = run_turn(inputs).outputs;
        assert forall|i: int| 0 <= i < after.len() implies !((#[trigger] after[i])
            is TelemetryUsage) by {
            if i < before.len() {
                assert(after[i] == before[i]);
            }
        }
    }
}

/// While a turn runs, the client is told nothing of the tokens. A turn that
/// completes tells of them once, in the last place, if the agent reported any
/// counts, and not at all otherwise. What it tells are the last counts that came
/// in, with the reasoning tokens counted as output.
pub proof fn law_last_counts_are_sent_last(inputs: Seq<TurnInputView>, model: Seq<char>)
    requires
        readable(inputs),
        run_turn(inputs).turn.usage_fits(),
    ensures
        forall|i: int|
            0 <= i < run_turn(inputs).outputs.len() ==> !((#[trigger] run_turn(inputs).outputs[i])
                is TelemetryUsage),
        ({
            let outputs = completed_outputs(inputs, model);
            &&& forall|i: int|
                0 <= i < outputs.len() ==> ((#[trigger] outputs[i]) is TelemetryUsage <==> i
                    == outputs.len() - 1 && last_counts(inputs) is Some)
            &&& last_counts(inputs) matches Some(counts) ==> {
                &&& outputs.len() > 0
                &&& outputs.last() matches OutputView::TelemetryUsage { provider, model: m, usage }
                &&& provider == "codex"@
                &&& m == model
                &&& usage.input_tokens == counts.input_tokens
                &&& usage.output_tokens == counts.output_tokens + counts.reasoning_output_tokens
                &&& usage.total_tokens == counts.total_tokens
            }
        }),
{
    lemma_running_turns_report_no_usage(inputs);
    law_last_counts_are_kept(inputs);
    let trace = run_turn(inputs);
    let outputs = completed_outputs(inputs, model);
    let closing = trace.outputs + trace.turn.close_outputs();
    assert forall|i: int| 0 <= i < outputs.len() implies ((#[trigger] outputs[i])
        is TelemetryUsage <==> i == outputs.len() - 1 && last_counts(inputs) is Some) by {
        if i < trace.outputs.len() {
            assert(outputs[i] == trace.outputs[i]);
        } else if i < closing.len() {
            assert(outputs[i] == trace.turn.close_outputs()[i - trace.outputs.len()]);
        }
    }
}

/// Every request for approval that the client saw was answered, once and in
/// order, except that the last one may still be open.
pub proof fn law_requests_are_settled_in_order(inputs: Seq<TurnInputView>)
    requires
        readable(inputs),
    ensures
        requested_ids(run_turn(inputs).outputs) == settled_ids(run_turn(inputs).settled)
            + open_ids(run_turn(inputs).turn),
    decreases inputs.len(),
{
    let trace = run_turn(inputs);
    if inputs.len() > 0 {
        law_requests_are_settled_in_order(inputs.drop_last());
        let before = run_turn(inputs.drop_last());
        match inputs.last() {
            TurnInputView::Event { event } => {
                lemma_outputs_add(before.outputs, before.turn.event_outputs(event));
                lemma_event_outputs(before.turn, event);
            },
            TurnInputView::Reply { reply } => {},
        }
    }
    assert(requested_ids(trace.outputs) =~= settled_ids(trace.settled) + open_ids(trace.turn));
}

/// A turn leaves no request for approval open when it ends.
pub proof fn law_ended_turns_have_settled_all_requests(inputs: Seq<TurnInputView>)
    requires
        readable(inputs),
        run_turn(inputs).turn.phase is Closing || run_turn(inputs).turn.phase is ShutDown,
    ensures
        requested_ids(run_turn(inputs).outputs) == settled_ids(run_turn(inputs).settled),
{
    law_requests_are_settled_in_order(inputs);
    let trace = run_turn(inputs);
    assert(settled_ids(trace.settled) + open_ids(trace.turn) =~= settled_ids(trace.settled));
}

/// Whether every request for approval among some outputs comes right after the
/// proposal of the same tool call, and under that tool call's id.
pub open spec fn requests_follow_proposals(outputs: Seq<OutputView>) -> bool {
    forall|i: int|
        0 <= i < outputs.len() ==> ((#[trigger] outputs[i]) matches OutputView::ApprovalRequested {
            approval_id,
            tool,
        } ==> {
            &&& i > 0
            &&& outputs[i - 1] == OutputView::ToolProposed { tool }
            &&& tool.id == approval_id
        })
}

/// A tool call is proposed right before its approval is asked for, and both
/// speak of the same tool call.
pub proof fn law_requests_follow_proposals(inputs: Seq<TurnInputView>)
    requires
        readable(inputs),
    ensures
        requests_follow_proposals(run_turn(inputs).outputs),
    decreases inputs.len(),
{
    if inputs.len() > 0 {
        law_requests_follow_proposals(inputs.drop_last());
        let before = run_turn(inputs.drop_last()).outputs;
        let after = run_turn(inputs).outputs;
        assert forall|i: int| 0 <= i < after.len() implies ((#[trigger] after[i]) matches OutputView::ApprovalRequested {
            approval_id,
            tool,
        } ==> {
            &&& i > 0
            &&& after[i - 1] == OutputView::ToolProposed { tool }
            &&& tool.id == approval_id
        }) by {
            if i < before.len() {
                assert(after[i] == before[i]);
                if i > 0 {
                    assert(after[i - 1] == before[i - 1]);
                }
            }
        }
    }
}

/// A blank line that comes in while a request is open is passed over: the turn
/// stays as it was and the next line is read.
pub proof fn law_blank_replies_are_passed_over(turn: TurnView)
    requires
        turn.phase is AwaitingApproval,
    ensures
        turn.after_reply(ReplyView::Blank) == (
            turn,
            ApprovalStepView::KeepWaiting { why: IgnoredReply::Blank },
        ),
{
}

/// A reply that does not settle the open request leaves the turn as it was.
pub proof fn law_ignored_replies_change_nothing(turn: TurnView, reply: ReplyView)
    requires
        turn.phase is AwaitingApproval,
        turn.after_reply(reply).1 is KeepWaiting,
    ensures
        turn.after_reply(reply).0 == turn,
{
}

/// An answer settles a request only under the request's own id; nothing else
/// that the client sends accepts or declines it.
pub proof fn law_only_the_own_id_decides(turn: TurnView, reply: ReplyView)
    requires
        turn.phase is AwaitingApproval,
        turn.after_reply(reply).1 is Resolve,
        turn.after_reply(reply).1->decision != ElicitationAction::Cancel,
    ensures
        reply matches ReplyView::Input { input: InputView::ApprovalResolved { approval_id, .. } }
            && approval_id == approval_id_of(turn.phase->server_name, turn.phase->request_id),
        turn.after_reply(reply).1->server_name == turn.phase->server_name,
        turn.after_reply(reply).1->request_id == turn.phase->request_id,
{
}

/// Arguments that the client modified make no difference.
pub proof fn law_modified_args_are_ignored(
    turn: TurnView,
    approval_id: Seq<char>,
    status: ApprovalStatus,
    a: Option<Seq<char>>,
    b: Option<Seq<char>>,
)
    requires
        turn.phase is AwaitingApproval,
    ensures
        turn.after_reply(
            ReplyView::Input {
                input: InputView::ApprovalResolved {
                    approval_id,
                    resolution: ResolutionView { status, modified_args: a },
                },
            },
        ) == turn.after_reply(
            ReplyView::Input {
                input: InputView::ApprovalResolved {
                    approval_id,
                    resolution: ResolutionView { status, modified_args: b },
                },
            },
        ),
{
}

/// A turn sends no stop message itself, whether it completes or not.
pub proof fn law_turns_send_no_stop(inputs: Seq<TurnInputView>, model: Seq<char>)
    requires
        readable(inputs),
    ensures
        stops(run_turn(inputs).outputs) == 0,
        stops(completed_outputs(inputs, model)) == 0,
    decreases inputs.len(),
{
    let trace = run_turn(inputs);
    if inputs.len() > 0 {
        law_turns_send_no_stop(inputs.drop_last(), model);
        let before = run_turn(inputs.drop_last());
        if let TurnInputView::Event { event } = inputs.last() {
            lemma_outputs_add(before.outputs, before.turn.event_outputs(event));
            lemma_event_outputs(before.turn, event);
        }
    }
    let usage = match trace.turn.usage_output(model) {
        Some(output) => seq![output],
        None => Seq::empty(),
    };
    lemma_close_outputs(trace.turn);
    lemma_few_outputs(usage);
    lemma_outputs_add(trace.turn.close_outputs(), usage);
    lemma_outputs_add(trace.outputs, trace.turn.finish_outputs(model));
}

/// The answer to a prompt whose turn completes holds exactly one final message
/// and exactly one stop message, and the stop message comes last.
pub proof fn law_completed_answer<A>(inputs: Seq<TurnInputView>, model: Seq<char>)
    requires
        readable(inputs),
        run_turn(inputs).turn.phase is Closing,
    ensures
        ({
            let answer = completed_outputs(inputs, model) + session_step(
                SessionPhase::InTurn,
                SessionEventView::<A>::TurnEnded { outcome: TurnOutcome::Completed },
            ).outputs;
            &&& finals(answer).len() == 1
            &&& stops(answer) == 1
            &&& answer.last() is MessageStop
        }),
{
    let stop = session_step(
        SessionPhase::InTurn,
        SessionEventView::<A>::TurnEnded { outcome: TurnOutcome::Completed },
    ).outputs;
    law_completed_turn_has_one_final(inputs, model);
    law_turns_send_no_stop(inputs, model);
    lemma_few_outputs(stop);
    lemma_outputs_add(completed_outputs(inputs, model), stop);
}

/// The answer to a prompt whose turn breaks off, or during which the agent shuts
/// down, holds exactly one stop message as well, and it comes last. If the turn
/// broke off, the message before it tells why.
pub proof fn law_cut_off_answer<A>(inputs: Seq<TurnInputView>, error: Seq<char>)
    requires
        readable(inputs),
    ensures
        ({
            let answer = run_turn(inputs).outputs + session_step(
                SessionPhase::InTurn,
                SessionEventView::<A>::TurnFailed { error },
            ).outputs;
            &&& stops(answer) == 1
            &&& answer.last() is MessageStop
            &&& answer[answer.len() - 2] == OutputView::AssistantFinal {
                content: "Error: "@ + error,
            }
        }),
        ({
            let answer = run_turn(inputs).outputs + session_step(
                SessionPhase::InTurn,
                SessionEventView::<A>::TurnEnded { outcome: TurnOutcome::Shutdown },
            ).outputs;
            &&& stops(answer) == 1
            &&& answer.last() is MessageStop
        }),
{
    let failed = session_step(
        SessionPhase::InTurn,
        SessionEventView::<A>::TurnFailed { error },
    ).outputs;
    let shut_down = session_step(
        SessionPhase::InTurn,
        SessionEventView::<A>::TurnEnded { outcome: TurnOutcome::Shutdown },
    ).outputs;
    law_turns_send_no_stop(inputs, Seq::empty());
    lemma_few_outputs(failed);
    lemma_few_outputs(seq![failed[0]]);
    lemma_few_outputs(seq![failed[1]]);
    lemma_few_outputs(shut_down);
    lemma_outputs_add(run_turn(inputs).outputs, failed);
    lemma_outputs_add(run_turn(inputs).outputs, shut_down);
}

} // verus!
