//! Laws of a session, over every sequence of events that can happen to it.

use vstd::prelude::*;
use crate::input::{line_kind, prompt_of};
use crate::laws::input_laws::{
    handed_on, has_clean_ends, is_blank, law_blank_lines_are_skipped, law_lines_are_read_in_full,
    law_prompts_have_full_length, text_length,
};
use crate::laws::turn_laws::{
    completed_outputs, law_turns_send_no_stop, lemma_few_outputs, lemma_outputs_add, readable,
    run_turn, stops, TurnInputView,
};
use crate::protocol::{InputView, MessageView, OutputView, ResolutionView};
use crate::session::{
    agent_after, awaits, session_step, SessionCommandView, SessionEventView, SessionPhase,
};
use crate::turn::TurnOutcome;

verus! {

/// An event, and what the client was sent while the session waited for it: the
/// turn's outputs if the event ends a turn, and nothing otherwise.
pub struct SessionInputView<A> {
    pub event: SessionEventView<A>,
    pub sent: Seq<OutputView>,
}

/// What a session has come to: where it stands, the conversation that turns go
/// to, what is to be done next, and all that the client was sent.
pub struct SessionTrace<A> {
    pub agent: A,
    pub command: SessionCommandView,
    pub phase: SessionPhase,
    pub outputs: Seq<OutputView>,
}

/// What a session that begins with the conversation `first` comes to after
/// these inputs.
pub open spec fn run_session<A>(first: A, inputs: Seq<SessionInputView<A>>) -> SessionTrace<A>
    decreases inputs.len(),
{
    if inputs.len() == 0 {
        SessionTrace {
            agent: first,
            command: SessionCommandView::ReadLine,
            phase: SessionPhase::Reading,
            outputs: Seq::empty(),
        }
    } else {
        let before = run_session(first, inputs.drop_last());
        let step = session_step(before.phase, inputs.last().event);
        SessionTrace {
            agent: agent_after(before.agent, inputs.last().event),
            command: step.command,
            phase: step.phase,
            outputs: before.outputs + inputs.last().sent + step.outputs,
        }
    }
}

/// Whether a turn that read `turn_inputs` sends just this before the event that
/// ends it.
pub open spec fn sent_by_turn<A>(
    input: SessionInputView<A>,
    turn_inputs: Seq<TurnInputView>,
    model: Seq<char>,
) -> bool {
    &&& readable(turn_inputs)
    &&& match input.event {
        SessionEventView::TurnEnded { outcome: TurnOutcome::Completed } => {
            &&& run_turn(turn_inputs).turn.phase is Closing
            &&& input.sent == completed_outputs(turn_inputs, model)
        },
        SessionEventView::TurnEnded { outcome: TurnOutcome::Shutdown } => {
            &&& run_turn(turn_inputs).turn.phase is ShutDown
            &&& input.sent == run_turn(turn_inputs).outputs
        },
        _ => input.sent == run_turn(turn_inputs).outputs,
    }
}

/// Whether an input can happen to a session in this phase.
pub open spec fn can_happen<A>(phase: SessionPhase, input: SessionInputView<A>) -> bool {
    &&& awaits(phase, input.event)
    &&& if phase == SessionPhase::InTurn {
        exists|turn_inputs: Seq<TurnInputView>, model: Seq<char>| #[trigger]
            sent_by_turn(input, turn_inputs, model)
    } else {
        input.sent == Seq::<OutputView>::empty()
    }
}

/// Whether these inputs can happen to a new session, one after the other.
pub open spec fn possible<A>(first: A, inputs: Seq<SessionInputView<A>>) -> bool
    decreases inputs.len(),
{
    inputs.len() == 0 || (possible(first, inputs.drop_last()) && can_happen(
        run_session(first, inputs.drop_last()).phase,
        inputs.last(),
    ))
}

/// Whether an event brings something that the client gets an answer to: a user
/// message, or a line that is no message.
pub open spec fn calls_for_answer<A>(event: SessionEventView<A>) -> bool {
    match event {
        SessionEventView::Parsed { input } => input is User,
        SessionEventView::ParseFailed { .. } => true,
        _ => false,
    }
}

/// How many answers the client is owed.
pub open spec fn owed<A>(inputs: Seq<SessionInputView<A>>) -> nat
    decreases inputs.len(),
{
    if inputs.len() == 0 {
        0
    } else {
        owed(inputs.drop_last()) + if calls_for_answer(inputs.last().event) {
            1nat
        } else {
            0
        }
    }
}

/// An event sends either nothing or the end of an answer, which is one stop
/// message in the last place.
pub proof fn law_steps_end_answers<A>(phase: SessionPhase, event: SessionEventView<A>)
    ensures
        ({
            let outputs = session_step(phase, event).outputs;
            outputs.len() > 0 ==> outputs.last() is MessageStop && stops(outputs) == 1
        }),
{
    let outputs = session_step(phase, event).outputs;
    lemma_few_outputs(outputs);
    if outputs.len() == 2 {
        lemma_few_outputs(seq![outputs[0]]);
        lemma_few_outputs(seq![outputs[1]]);
    }
}

/// Over a whole session, each user message and each line that is no message is
/// answered with exactly one stop message; only a turn that is under way still
/// owes one. Nothing else is answered.
pub proof fn law_one_stop_per_message<A>(first: A, inputs: Seq<SessionInputView<A>>)
    requires
        possible(first, inputs),
    ensures
        owed(inputs) == stops(run_session(first, inputs).outputs) + if run_session(
            first,
            inputs,
        ).phase == SessionPhase::InTurn {
            1nat
        } else {
            0
        },
    decreases inputs.len(),
{
    if inputs.len() > 0 {
        law_one_stop_per_message(first, inputs.drop_last());
        let before = run_session(first, inputs.drop_last());
        let input = inputs.last();
        let step = session_step(before.phase, input.event);
        law_steps_end_answers(before.phase, input.event);
        lemma_few_outputs(Seq::empty());
        if before.phase == SessionPhase::InTurn {
            let (turn_inputs, model) = choose|
                turn_inputs: Seq<TurnInputView>,
                model: Seq<char>,
            | #[trigger] sent_by_turn(input, turn_inputs, model);
            law_turns_send_no_stop(turn_inputs, model);
        }
        lemma_outputs_add(before.outputs, input.sent);
        lemma_outputs_add(before.outputs + input.sent, step.outputs);
    }
}

/// Between answers the last thing that the client was sent is a stop message,
/// if it was sent anything.
pub proof fn law_answers_are_closed<A>(first: A, inputs: Seq<SessionInputView<A>>)
    requires
        possible(first, inputs),
    ensures
        run_session(first, inputs).outputs.len() > 0 ==> run_session(first, inputs).outputs.last()
            is MessageStop,
    decreases inputs.len(),
{
    if inputs.len() > 0 {
        law_answers_are_closed(first, inputs.drop_last());
        let before = run_session(first, inputs.drop_last());
        let input = inputs.last();
        law_steps_end_answers(before.phase, input.event);
        if session_step(before.phase, input.event).outputs.len() == 0 {
            assert(before.phase != SessionPhase::InTurn);
            assert(run_session(first, inputs).outputs =~= before.outputs);
        }
    }
}

/// What has no effect between turns: a blank line, or a line that holds an
/// approval.
pub open spec fn is_ignored<A>(inputs: Seq<SessionInputView<A>>) -> bool {
    &&& forall|i: int|
        0 <= i < inputs.len() ==> (#[trigger] inputs[i]).sent == Seq::<OutputView>::empty()
    &&& {
        ||| inputs.len() == 1 && inputs[0].event is Line && is_blank(inputs[0].event->line)
        ||| inputs.len() == 2 && inputs[0].event is Line && line_kind(inputs[0].event->line)
            is Message && inputs[1].event is Parsed && inputs[1].event->input is ApprovalResolved
    }
}

/// Runs that have come to the same go on in the same way.
proof fn lemma_runs_go_on_alike<A>(
    first: A,
    a: Seq<SessionInputView<A>>,
    b: Seq<SessionInputView<A>>,
    rest: Seq<SessionInputView<A>>,
)
    requires
        run_session(first, a) == run_session(first, b),
        possible(first, a) == possible(first, b),
    ensures
        run_session(first, a + rest) == run_session(first, b + rest),
        possible(first, a + rest) == possible(first, b + rest),
    decreases rest.len(),
{
    if rest.len() == 0 {
        assert(a + rest =~= a);
        assert(b + rest =~= b);
    } else {
        lemma_runs_go_on_alike(first, a, b, rest.drop_last());
        assert((a + rest).drop_last() =~= a + rest.drop_last());
        assert((b + rest).drop_last() =~= b + rest.drop_last());
        assert((a + rest).last() == rest.last());
        assert((b + rest).last() == rest.last());
    }
}

proof fn lemma_reading_sessions_read_lines<A>(first: A, inputs: Seq<SessionInputView<A>>)
    ensures
        run_session(first, inputs).phase == SessionPhase::Reading ==> run_session(
            first,
            inputs,
        ).command is ReadLine,
{
}

/// Blank lines, and approvals that come in between turns, change nothing over a
/// whole run: with one of them put in where a line is awaited, the same can happen
/// afterwards, and the session comes to the same.
pub proof fn law_ignored_lines_change_nothing<A>(
    first: A,
    before: Seq<SessionInputView<A>>,
    ignored: Seq<SessionInputView<A>>,
    rest: Seq<SessionInputView<A>>,
)
    requires
        possible(first, before),
        run_session(first, before).phase == SessionPhase::Reading,
        is_ignored(ignored),
    ensures
        run_session(first, before + ignored + rest) == run_session(first, before + rest),
        possible(first, before + ignored + rest) <==> possible(first, before + rest),
{
    let with = before + ignored;
    let old = run_session(first, before);
    lemma_reading_sessions_read_lines(first, before);
    law_blank_lines_are_skipped(ignored[0].event->line);
    if ignored.len() == 1 {
        assert(with.drop_last() =~= before);
        assert(with.last() == ignored[0]);
    } else {
        let line = before + ignored.take(1);
        assert(line.drop_last() =~= before);
        assert(line.last() == ignored[0]);
        assert(run_session(first, line).outputs =~= old.outputs);
        assert(possible(first, line));
        assert(with.drop_last() =~= line);
        assert(with.last() == ignored[1]);
    }
    assert(run_session(first, with).outputs =~= old.outputs);
    assert(run_session(first, with) == old);
    assert(possible(first, with));
    lemma_runs_go_on_alike(first, with, before, rest);
}

/// A session ends in order only after the conversation with the agent was ended
/// or the agent shut down in a turn. It fails only after a turn broke off, a
/// line could not be read, or no new conversation could be begun.
pub proof fn law_how_sessions_end<A>(first: A, inputs: Seq<SessionInputView<A>>)
    requires
        possible(first, inputs),
        run_session(first, inputs).phase == SessionPhase::Ended,
    ensures
        inputs.len() > 0,
        ({
            let event = inputs.last().event;
            let command = run_session(first, inputs).command;
            if command == (SessionCommandView::Exit { failed: false }) {
                event is Stopped || event == (SessionEventView::<A>::TurnEnded {
                    outcome: TurnOutcome::Shutdown,
                })
            } else {
                &&& command == (SessionCommandView::Exit { failed: true })
                &&& event is TurnFailed || event is ReadFailed || event is StartFailed
            }
        }),
{
}

/// Nothing can happen to a session that has ended.
pub proof fn law_ended_sessions_stay_ended<A>(
    first: A,
    inputs: Seq<SessionInputView<A>>,
    next: SessionInputView<A>,
)
    requires
        possible(first, inputs),
        run_session(first, inputs).phase == SessionPhase::Ended,
    ensures
        !possible(first, inputs.push(next)),
{
    assert(inputs.push(next).drop_last() =~= inputs);
}

/// The agent is handed a prompt only for a user message with text, and the
/// prompt is that text.
pub proof fn law_prompts_come_from_user_messages<A>(phase: SessionPhase, event: SessionEventView<A>)
    ensures
        session_step(phase, event).command is RunTurn <==> (event matches SessionEventView::Parsed {
            input: InputView::User { message },
        } && prompt_of(message) is Some),
        session_step(phase, event).command matches SessionCommandView::RunTurn { prompt } ==> prompt_of(
            event->input->message,
        ) == Some(prompt),
{
}

/// Which events can happen when.
pub proof fn law_what_sessions_await<A>(phase: SessionPhase, event: SessionEventView<A>)
    ensures
        awaits(phase, event) <==> match event {
            SessionEventView::Line { .. } => phase == SessionPhase::Reading,
            SessionEventView::EndOfInput => phase == SessionPhase::Reading,
            SessionEventView::ReadFailed => phase == SessionPhase::Reading,
            SessionEventView::Parsed { .. } => phase == SessionPhase::Parsing,
            SessionEventView::ParseFailed { .. } => phase == SessionPhase::Parsing,
            SessionEventView::TurnEnded { .. } => phase == SessionPhase::InTurn,
            SessionEventView::TurnFailed { .. } => phase == SessionPhase::InTurn,
            SessionEventView::Stopped { .. } => phase == SessionPhase::Resetting || phase
                == SessionPhase::Stopping,
            SessionEventView::Started { .. } => phase == SessionPhase::Restarting,
            SessionEventView::StartFailed => phase == SessionPhase::Restarting,
        },
{
}

/// A line with a text that is no reset command is read as a message, in full and
/// whatever its length; a blank line is skipped. Neither is answered at once.
pub proof fn law_lines_are_parsed_in_full<A>(
    phase: SessionPhase,
    before: Seq<char>,
    text: Seq<char>,
    after: Seq<char>,
)
    requires
        is_blank(before),
        has_clean_ends(text),
        is_blank(after),
        text != seq!['/', 'n', 'e', 'w'],
        text != seq!['/', 'c', 'l', 'e', 'a', 'r'],
    ensures
        ({
            let step = session_step(
                phase,
                SessionEventView::<A>::Line { line: before + text + after },
            );
            &&& step.outputs.len() == 0
            &&& step.phase == SessionPhase::Parsing
            &&& step.command == (SessionCommandView::ParseMessage { text })
        }),
        ({
            let step = session_step(phase, SessionEventView::<A>::Line { line: before + after });
            &&& step.outputs.len() == 0
            &&& step.phase == SessionPhase::Reading
            &&& step.command is ReadLine
        }),
{
    law_lines_are_read_in_full(before, text, after);
    assert(is_blank(before + after));
    law_blank_lines_are_skipped(before + after);
}

/// The two commands, with any white space around them, are resets: the
/// conversation is ended, and nothing is sent.
pub proof fn law_commands_reset<A>(
    phase: SessionPhase,
    before: Seq<char>,
    text: Seq<char>,
    after: Seq<char>,
)
    requires
        is_blank(before),
        text == seq!['/', 'n', 'e', 'w'] || text == seq!['/', 'c', 'l', 'e', 'a', 'r'],
        is_blank(after),
    ensures
        ({
            let step = session_step(
                phase,
                SessionEventView::<A>::Line { line: before + text + after },
            );
            &&& step.outputs.len() == 0
            &&& step.phase == SessionPhase::Resetting
            &&& step.command is StopAgent
        }),
{
    law_lines_are_read_in_full(before, text, after);
}

/// A user message that holds any text starts a turn with just its prompt, and
/// nothing is sent yet.
pub proof fn law_prompts_start_turns<A>(phase: SessionPhase, message: MessageView)
    requires
        text_length(message.content) > 0,
    ensures
        ({
            let step = session_step(
                phase,
                SessionEventView::<A>::Parsed { input: InputView::User { message } },
            );
            &&& step.outputs.len() == 0
            &&& step.phase == SessionPhase::InTurn
            &&& step.command == (SessionCommandView::RunTurn { prompt: handed_on(message) })
        }),
{
    law_prompts_have_full_length(message);
}

/// What cannot be turned into a prompt is answered at once, with an error message
/// that says why and a stop, and the session reads on.
pub proof fn law_refusals<A>(phase: SessionPhase, message: MessageView, error: Seq<char>)
    requires
        text_length(message.content) == 0,
    ensures
        ({
            let step = session_step(
                phase,
                SessionEventView::<A>::Parsed { input: InputView::User { message } },
            );
            &&& step.outputs == seq![
                OutputView::AssistantFinal { content: "Error: user message missing text content"@ },
                OutputView::MessageStop,
            ]
            &&& step.phase == SessionPhase::Reading
            &&& step.command is ReadLine
        }),
        ({
            let step = session_step(phase, SessionEventView::<A>::ParseFailed { error });
            &&& step.outputs == seq![
                OutputView::AssistantFinal { content: "Invalid JSON input: "@ + error },
                OutputView::MessageStop,
            ]
            &&& step.phase == SessionPhase::Reading
            &&& step.command is ReadLine
        }),
{
    law_prompts_have_full_length(message);
}

/// After a turn the client gets a stop. A turn that completed is followed by the
/// next line; one in which the agent shut down ends the session in order; one that
/// broke off ends it with the error, and the client is told of it before the stop.
pub proof fn law_after_turns<A>(phase: SessionPhase, error: Seq<char>)
    ensures
        ({
            let completed = session_step(
                phase,
                SessionEventView::<A>::TurnEnded { outcome: TurnOutcome::Completed },
            );
            let shut_down = session_step(
                phase,
                SessionEventView::<A>::TurnEnded { outcome: TurnOutcome::Shutdown },
            );
            let failed = session_step(phase, SessionEventView::<A>::TurnFailed { error });
            &&& completed.outputs == seq![OutputView::MessageStop]
            &&& completed.phase == SessionPhase::Reading
            &&& completed.command is ReadLine
            &&& shut_down.outputs == seq![OutputView::MessageStop]
            &&& shut_down.phase == SessionPhase::Ended
            &&& shut_down.command == (SessionCommandView::Exit { failed: false })
            &&& failed.outputs == seq![
                OutputView::AssistantFinal { content: "Error: "@ + error },
                OutputView::MessageStop,
            ]
            &&& failed.phase == SessionPhase::Ended
            &&& failed.command == (SessionCommandView::Exit { failed: true })
        }),
{
}

/// The end of the input and the end of the session are the same: the conversation
/// is ended, and then, in order or not, the session is over without a failure. A
/// line that cannot be read ends the session at once, as a failure. An approval
/// between turns is passed over. Nothing is sent in any of these cases.
pub proof fn law_ends_and_approvals<A>(
    phase: SessionPhase,
    approval_id: Seq<char>,
    resolution: ResolutionView,
    in_order: bool,
)
    ensures
        ({
            let end = session_step(phase, SessionEventView::<A>::EndOfInput);
            let over = session_step(end.phase, SessionEventView::<A>::Stopped { in_order });
            let unreadable = session_step(phase, SessionEventView::<A>::ReadFailed);
            let approval = session_step(
                phase,
                SessionEventView::<A>::Parsed {
                    input: InputView::ApprovalResolved { approval_id, resolution },
                },
            );
            &&& end.outputs.len() == 0
            &&& end.phase == SessionPhase::Stopping
            &&& end.command is StopAgent
            &&& session_step(
                phase,
                SessionEventView::<A>::Parsed { input: InputView::SessionEnd },
            ) == end
            &&& over.outputs.len() == 0
            &&& over.phase == SessionPhase::Ended
            &&& over.command == (SessionCommandView::Exit { failed: false })
            &&& unreadable.outputs.len() == 0
            &&& unreadable.phase == SessionPhase::Ended
            &&& unreadable.command == (SessionCommandView::Exit { failed: true })
            &&& approval.outputs.len() == 0
            &&& approval.phase == SessionPhase::Reading
            &&& approval.command is ReadLine
        }),
{
}

/// No event but the beginning of a conversation changes which one turns go to.
pub proof fn law_agents_change_when_started<A>(agent: A, event: SessionEventView<A>)
    ensures
        !(event is Started) ==> agent_after(agent, event) == agent,
        event is Started ==> agent_after(agent, event) == event->agent,
{
}

/// A reset, step by step. The conversation is ended; when it is over, in order
/// or not, one new conversation is begun; when that has begun, the session reads
/// on with it, and when it cannot be begun, the session fails. Until a new one
/// has begun the session keeps the old one, and the client is sent nothing.
pub proof fn law_reset<A>(agent: A, line: Seq<char>, in_order: bool, next: A)
    requires
        line_kind(line) is Reset,
    ensures
        ({
            let reset = SessionEventView::<A>::Line { line };
            let stopped = SessionEventView::<A>::Stopped { in_order };
            let started = SessionEventView::Started { agent: next };
            let failed = SessionEventView::<A>::StartFailed;
            let ending = session_step(SessionPhase::Reading, reset);
            let starting = session_step(ending.phase, stopped);
            let begun = session_step(starting.phase, started);
            let given_up = session_step(starting.phase, failed);
            &&& ending.command is StopAgent
            &&& forall|event: SessionEventView<A>|
                awaits(ending.phase, event) <==> event is Stopped
            &&& starting.command is StartAgent
            &&& forall|event: SessionEventView<A>|
                awaits(starting.phase, event) <==> event is Started || event is StartFailed
            &&& begun.command is ReadLine
            &&& begun.phase == SessionPhase::Reading
            &&& given_up.command == (SessionCommandView::Exit { failed: true })
            &&& given_up.phase == SessionPhase::Ended
            &&& agent_after(agent, reset) == agent
            &&& agent_after(agent, stopped) == agent
            &&& agent_after(agent, started) == next
            &&& ending.outputs + starting.outputs + begun.outputs == Seq::<OutputView>::empty()
            &&& ending.outputs + starting.outputs + given_up.outputs == Seq::<
                OutputView,
            >::empty()
        }),
{
}

proof fn lemma_phases_of_a_reset<A>(first: A, inputs: Seq<SessionInputView<A>>)
    requires
        possible(first, inputs),
    ensures
        ({
            let trace = run_session(first, inputs);
            let n = inputs.len();
            &&& trace.phase == SessionPhase::Resetting ==> n > 0 && inputs[n - 1].event is Line
                && line_kind(inputs[n - 1].event->line) is Reset
            &&& trace.phase == SessionPhase::Restarting ==> n > 1 && inputs[n - 1].event is Stopped
                && inputs[n - 2].event is Line && line_kind(inputs[n - 2].event->line) is Reset
            &&& trace.command is StartAgent <==> trace.phase == SessionPhase::Restarting
        }),
    decreases inputs.len(),
{
    if inputs.len() > 0 {
        lemma_phases_of_a_reset(first, inputs.drop_last());
    }
}

/// A new conversation is begun upon a reset command and nothing else, and only
/// once the one before is over: the two things that happened last are the reset
/// and that end.
pub proof fn law_only_resets_restart<A>(first: A, inputs: Seq<SessionInputView<A>>)
    requires
        possible(first, inputs),
        run_session(first, inputs).command is StartAgent,
    ensures
        inputs.len() > 1,
        inputs[inputs.len() - 1].event is Stopped,
        inputs[inputs.len() - 2].event matches SessionEventView::Line { line } && line_kind(
            line,
        ) is Reset,
{
    lemma_phases_of_a_reset(first, inputs);
}

/// The conversation that was begun last.
pub open spec fn last_started<A>(first: A, inputs: Seq<SessionInputView<A>>) -> A
    decreases inputs.len(),
{
    if inputs.len() == 0 {
        first
    } else {
        match inputs.last().event {
            SessionEventView::Started { agent } => agent,
            _ => last_started(first, inputs.drop_last()),
        }
    }
}

/// Turns go to the conversation that was begun last.
pub proof fn law_turns_go_to_the_last_agent<A>(first: A, inputs: Seq<SessionInputView<A>>)
    ensures
        run_session(first, inputs).agent == last_started(first, inputs),
    decreases inputs.len(),
{
    if inputs.len() > 0 {
        law_turns_go_to_the_last_agent(first, inputs.drop_last());
    }
}

/// No turn is run between the end of a conversation and the beginning of the next.
pub proof fn law_ended_agents_get_no_turn<A>(first: A, inputs: Seq<SessionInputView<A>>)
    requires
        possible(first, inputs),
        run_session(first, inputs).command is RunTurn,
    ensures
        forall|i: int|
            0 <= i < inputs.len() && (#[trigger] inputs[i]).event is Stopped ==> i + 1 < inputs.len()
                && inputs[i + 1].event is Started,
{
    lemma_ends_are_followed_by_begins(first, inputs);
}

proof fn lemma_ends_are_followed_by_begins<A>(first: A, inputs: Seq<SessionInputView<A>>)
    requires
        possible(first, inputs),
    ensures
        run_session(first, inputs).phase != SessionPhase::Restarting && run_session(
            first,
            inputs,
        ).phase != SessionPhase::Ended ==> (forall|i: int|
            0 <= i < inputs.len() && (#[trigger] inputs[i]).event is Stopped ==> i + 1 < inputs.len()
                && inputs[i + 1].event is Started),
        run_session(first, inputs).phase == SessionPhase::Restarting ==> (forall|i: int|
            0 <= i < inputs.len() - 1 && (#[trigger] inputs[i]).event is Stopped
                ==> inputs[i + 1].event is Started),
    decreases inputs.len(),
{
    if inputs.len() > 0 {
        let before = inputs.drop_last();
        lemma_ends_are_followed_by_begins(first, before);
        let n = inputs.len();
        if run_session(first, inputs).phase != SessionPhase::Ended {
            assert forall|i: int| 0 <= i < n - 1 && (#[trigger] inputs[i]).event is Stopped implies inputs[i
                + 1].event is Started by {
                assert(inputs[i] == before[i]);
                if i + 1 < n - 1 {
                    assert(inputs[i + 1] == before[i + 1]);
                }
            }
        }
    }
}

} // verus!
