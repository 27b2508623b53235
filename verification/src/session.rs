//! A session: it reads the client's lines between turns, starts turns, and ends
//! each answer with a stop message. It holds the conversation with the agent
//! that turns go to, and puts a new one in its place upon a reset.
//!
//! The session does no input or output itself. It is told what happened and
//! says what to send to the client and what to do next.

use vstd::prelude::*;
use crate::input::{classify_line, extract_prompt, line_kind, prompt_of, LineKind, LineKindView};
use crate::protocol::{InputView, OutputView, VuhlpInput, VuhlpOutput};
use crate::text::joined;
use crate::turn::TurnOutcome;

verus! {

/// Where a session stands, that is, what it waits for.
#[derive(Debug, Clone, Copy, PartialEq, Eq, Structural)]
pub enum SessionPhase {
    /// The client's next line.
    Reading,
    /// The message that a line holds.
    Parsing,
    /// The end of a turn.
    InTurn,
    /// The end of the conversation with the agent, upon a reset.
    Resetting,
    /// A new conversation with the agent.
    Restarting,
    /// The end of the conversation with the agent, for good.
    Stopping,
    /// Nothing: the session is over.
    Ended,
}

/// What happened. `A` is a conversation with the agent.
#[derive(Debug, PartialEq)]
pub enum SessionEvent<A> {
    /// The client sent a line.
    Line { line: String },
    /// The client closed its end.
    EndOfInput,
    /// The client's next line cannot be read.
    ReadFailed,
    /// The line holds this message.
    Parsed { input: VuhlpInput },
    /// The line holds no message, for this reason.
    ParseFailed { error: String },
    /// The turn came to its end.
    TurnEnded { outcome: TurnOutcome },
    /// The turn broke off, for this reason.
    TurnFailed { error: String },
    /// The conversation with the agent is over, in order or not.
    Stopped { in_order: bool },
    /// A new conversation with the agent has begun.
    Started { agent: A },
    /// No new conversation with the agent can be begun.
    StartFailed,
}

/// What to do next. The agent is the one that the session holds.
#[derive(Debug, PartialEq)]
pub enum SessionCommand {
    /// Read a line from the client.
    ReadLine,
    /// Read `text` as a message.
    ParseMessage { text: String },
    /// Submit `prompt` to the agent and see the turn through.
    RunTurn { prompt: String },
    /// End the conversation with the agent.
    StopAgent,
    /// Begin a new conversation.
    StartAgent,
    /// Leave, with the error that came up last if `failed` is set.
    Exit { failed: bool },
}

/// What to send to the client, and then what to do.
#[derive(Debug, PartialEq)]
pub struct SessionStep {
    pub outputs: Vec<VuhlpOutput>,
    pub command: SessionCommand,
}

/// A session with one client. Turns go to `agent`.
#[derive(Debug, PartialEq)]
pub struct Session<A> {
    pub agent: A,
    pub phase: SessionPhase,
}

/// Model of [`SessionEvent`].
pub enum SessionEventView<A> {
    Line { line: Seq<char> },
    EndOfInput,
    ReadFailed,
    Parsed { input: InputView },
    ParseFailed { error: Seq<char> },
    TurnEnded { outcome: TurnOutcome },
    TurnFailed { error: Seq<char> },
    Stopped { in_order: bool },
    Started { agent: A },
    StartFailed,
}

/// Model of [`SessionCommand`].
pub enum SessionCommandView {
    ReadLine,
    ParseMessage { text: Seq<char> },
    RunTurn { prompt: Seq<char> },
    StopAgent,
    StartAgent,
    Exit { failed: bool },
}

/// Model of [`SessionStep`], with the phase that the step leads to.
pub struct SessionStepView {
    pub phase: SessionPhase,
    pub outputs: Seq<OutputView>,
    pub command: SessionCommandView,
}

impl<A> View for SessionEvent<A> {
    type V = SessionEventView<A>;

    open spec fn view(&self) -> SessionEventView<A> {
        match self {
            SessionEvent::Line { line } => SessionEventView::Line { line: line@ },
            SessionEvent::EndOfInput => SessionEventView::EndOfInput,
            SessionEvent::ReadFailed => SessionEventView::ReadFailed,
            SessionEvent::Parsed { input } => SessionEventView::Parsed { input: input@ },
            SessionEvent::ParseFailed { error } => {
                SessionEventView::ParseFailed { error: error@ }
            },
            SessionEvent::TurnEnded { outcome } => {
                SessionEventView::TurnEnded { outcome: *outcome }
            },
            SessionEvent::TurnFailed { error } => SessionEventView::TurnFailed { error: error@ },
            SessionEvent::Stopped { in_order } => SessionEventView::Stopped { in_order: *in_order },
            SessionEvent::Started { agent } => SessionEventView::Started { agent: *agent },
            SessionEvent::StartFailed => SessionEventView::StartFailed,
        }
    }
}

impl View for SessionCommand {
    type V = SessionCommandView;

    open spec fn view(&self) -> SessionCommandView {
        match self {
            SessionCommand::ReadLine => SessionCommandView::ReadLine,
            SessionCommand::ParseMessage { text } => {
                SessionCommandView::ParseMessage { text: text@ }
            },
            SessionCommand::RunTurn { prompt } => SessionCommandView::RunTurn { prompt: prompt@ },
            SessionCommand::StopAgent => SessionCommandView::StopAgent,
            SessionCommand::StartAgent => SessionCommandView::StartAgent,
            SessionCommand::Exit { failed } => SessionCommandView::Exit { failed: *failed },
        }
    }
}

/// Whether an event can happen in a phase: it is what the phase waits for.
pub open spec fn awaits<A>(phase: SessionPhase, event: SessionEventView<A>) -> bool {
    match phase {
        SessionPhase::Reading => event is Line || event is EndOfInput || event is ReadFailed,
        SessionPhase::Parsing => event is Parsed || event is ParseFailed,
        SessionPhase::InTurn => event is TurnEnded || event is TurnFailed,
        SessionPhase::Resetting => event is Stopped,
        SessionPhase::Restarting => event is Started || event is StartFailed,
        SessionPhase::Stopping => event is Stopped,
        SessionPhase::Ended => false,
    }
}

/// An answer that is one error message.
pub open spec fn error_answer(message: Seq<char>) -> Seq<OutputView> {
    seq![OutputView::AssistantFinal { content: message }, OutputView::MessageStop]
}

/// Back to the client's next line, once these outputs are sent.
pub open spec fn read_on(outputs: Seq<OutputView>) -> SessionStepView {
    SessionStepView {
        phase: SessionPhase::Reading,
        outputs,
        command: SessionCommandView::ReadLine,
    }
}

/// The end of the session, once these outputs are sent.
pub open spec fn leave(outputs: Seq<OutputView>, failed: bool) -> SessionStepView {
    SessionStepView {
        phase: SessionPhase::Ended,
        outputs,
        command: SessionCommandView::Exit { failed },
    }
}

/// The end of the conversation with the agent.
pub open spec fn stop_agent() -> SessionStepView {
    SessionStepView {
        phase: SessionPhase::Stopping,
        outputs: Seq::empty(),
        command: SessionCommandView::StopAgent,
    }
}

/// What follows a line.
pub open spec fn on_line(line: Seq<char>) -> SessionStepView {
    match line_kind(line) {
        LineKindView::Blank => read_on(Seq::empty()),
        LineKindView::Reset => SessionStepView {
            phase: SessionPhase::Resetting,
            outputs: Seq::empty(),
            command: SessionCommandView::StopAgent,
        },
        LineKindView::Message { text } => SessionStepView {
            phase: SessionPhase::Parsing,
            outputs: Seq::empty(),
            command: SessionCommandView::ParseMessage { text },
        },
    }
}

/// What follows a message. An approval has no meaning between turns.
pub open spec fn on_input(input: InputView) -> SessionStepView {
    match input {
        InputView::User { message } => match prompt_of(message) {
            Some(prompt) => SessionStepView {
                phase: SessionPhase::InTurn,
                outputs: Seq::empty(),
                command: SessionCommandView::RunTurn { prompt },
            },
            None => read_on(error_answer("Error: user message missing text content"@)),
        },
        InputView::ApprovalResolved { .. } => read_on(Seq::empty()),
        InputView::SessionEnd => stop_agent(),
    }
}

/// What follows the end of the conversation with the agent: a new one if it was
/// ended by a reset, and else the end of the session. That it did not end in
/// order makes no difference.
pub open spec fn on_stopped(phase: SessionPhase) -> SessionStepView {
    if phase == SessionPhase::Resetting {
        SessionStepView {
            phase: SessionPhase::Restarting,
            outputs: Seq::empty(),
            command: SessionCommandView::StartAgent,
        }
    } else {
        leave(Seq::empty(), false)
    }
}

/// The conversation that turns go to after an event.
pub open spec fn agent_after<A>(agent: A, event: SessionEventView<A>) -> A {
    match event {
        SessionEventView::Started { agent: started } => started,
        _ => agent,
    }
}

/// What follows an event that the session waits for in this phase.
pub open spec fn session_step<A>(
    phase: SessionPhase,
    event: SessionEventView<A>,
) -> SessionStepView {
    match event {
        SessionEventView::Line { line } => on_line(line),
        SessionEventView::EndOfInput => stop_agent(),
        SessionEventView::ReadFailed => leave(Seq::empty(), true),
        SessionEventView::Parsed { input } => on_input(input),
        SessionEventView::ParseFailed { error } => {
            read_on(error_answer("Invalid JSON input: "@ + error))
        },
        SessionEventView::TurnEnded { outcome } => match outcome {
            TurnOutcome::Completed => read_on(seq![OutputView::MessageStop]),
            TurnOutcome::Shutdown => leave(seq![OutputView::MessageStop], false),
        },
        SessionEventView::TurnFailed { error } => leave(error_answer("Error: "@ + error), true),
        SessionEventView::Stopped { .. } => on_stopped(phase),
        SessionEventView::Started { .. } => read_on(Seq::empty()),
        SessionEventView::StartFailed => leave(Seq::empty(), true),
    }
}

/// The message that tells the client of an error.
pub fn error_final(message: String) -> (res: VuhlpOutput)
    ensures
        res@ == (OutputView::AssistantFinal { content: message@ }),
{
    VuhlpOutput::AssistantFinal { content: message }
}

/// An answer that is one error message.
fn error_outputs(message: String) -> (res: Vec<VuhlpOutput>)
    ensures
        res.deep_view() == error_answer(message@),
{
    let mut outputs: Vec<VuhlpOutput> = Vec::new();
    outputs.push(error_final(message));
    outputs.push(VuhlpOutput::MessageStop);
    proof {
        assert(outputs.deep_view() =~= error_answer(message@));
    }
    outputs
}

/// An answer that ends here.
fn stop_outputs() -> (res: Vec<VuhlpOutput>)
    ensures
        res.deep_view() == seq![OutputView::MessageStop],
{
    let mut outputs: Vec<VuhlpOutput> = Vec::new();
    outputs.push(VuhlpOutput::MessageStop);
    proof {
        assert(outputs.deep_view() =~= seq![OutputView::MessageStop]);
    }
    outputs
}

impl<A> Session<A> {
    /// A session that waits for the client's first line, with the conversation
    /// that its first turn goes to.
    pub fn new(agent: A) -> (res: Session<A>)
        ensures
            res.phase == SessionPhase::Reading,
            res.agent == agent,
    {
        Session { agent, phase: SessionPhase::Reading }
    }

    /// Whether the session waits for this event.
    pub fn accepts(&self, event: &SessionEvent<A>) -> (res: bool)
        ensures
            res == awaits(self.phase, event@),
    {
        match event {
            SessionEvent::Line { .. } | SessionEvent::EndOfInput | SessionEvent::ReadFailed => {
                self.phase == SessionPhase::Reading
            },
            SessionEvent::Parsed { .. } | SessionEvent::ParseFailed { .. } => {
                self.phase == SessionPhase::Parsing
            },
            SessionEvent::TurnEnded { .. } | SessionEvent::TurnFailed { .. } => {
                self.phase == SessionPhase::InTurn
            },
            SessionEvent::Stopped { .. } => {
                self.phase == SessionPhase::Resetting || self.phase == SessionPhase::Stopping
            },
            SessionEvent::Started { .. } | SessionEvent::StartFailed => {
                self.phase == SessionPhase::Restarting
            },
        }
    }

    /// Takes an event in and says what to send and what to do next.
    pub fn step(&mut self, event: SessionEvent<A>) -> (res: SessionStep)
        requires
            awaits(old(self).phase, event@),
        ensures
            final(self).phase == session_step(old(self).phase, event@).phase,
            final(self).agent == agent_after(old(self).agent, event@),
            res.outputs.deep_view() == session_step(old(self).phase, event@).outputs,
            res.command@ == session_step(old(self).phase, event@).command,
    {
        let (phase, outputs, command) = match event {
            SessionEvent::Line { line } => match classify_line(line.as_str()) {
                LineKind::Blank => (SessionPhase::Reading, Vec::new(), SessionCommand::ReadLine),
                LineKind::Reset => (
                    SessionPhase::Resetting,
                    Vec::new(),
                    SessionCommand::StopAgent,
                ),
                LineKind::Message { text } => (
                    SessionPhase::Parsing,
                    Vec::new(),
                    SessionCommand::ParseMessage { text },
                ),
            },
            SessionEvent::EndOfInput => (
                SessionPhase::Stopping,
                Vec::new(),
                SessionCommand::StopAgent,
            ),
            SessionEvent::ReadFailed | SessionEvent::StartFailed => (
                SessionPhase::Ended,
                Vec::new(),
                SessionCommand::Exit { failed: true },
            ),
            SessionEvent::Parsed { input } => match input {
                VuhlpInput::User { message } => match extract_prompt(&message) {
                    Some(prompt) => (
                        SessionPhase::InTurn,
                        Vec::new(),
                        SessionCommand::RunTurn { prompt },
                    ),
                    None => (
                        SessionPhase::Reading,
                        error_outputs("Error: user message missing text content".to_owned()),
                        SessionCommand::ReadLine,
                    ),
                },
                VuhlpInput::ApprovalResolved { .. } => (
                    SessionPhase::Reading,
                    Vec::new(),
                    SessionCommand::ReadLine,
                ),
                VuhlpInput::SessionEnd => (
                    SessionPhase::Stopping,
                    Vec::new(),
                    SessionCommand::StopAgent,
                ),
            },
            SessionEvent::ParseFailed { error } => (
                SessionPhase::Reading,
                error_outputs(joined("Invalid JSON input: ", error.as_str())),
                SessionCommand::ReadLine,
            ),
            SessionEvent::TurnEnded { outcome } => match outcome {
                TurnOutcome::Completed => (
                    SessionPhase::Reading,
                    stop_outputs(),
                    SessionCommand::ReadLine,
                ),
                TurnOutcome::Shutdown => (
                    SessionPhase::Ended,
                    stop_outputs(),
                    SessionCommand::Exit { failed: false },
                ),
            },
            SessionEvent::TurnFailed { error } => (
                SessionPhase::Ended,
                error_outputs(joined("Error: ", error.as_str())),
                SessionCommand::Exit { failed: true },
            ),
            SessionEvent::Stopped { .. } => {
                if self.phase == SessionPhase::Resetting {
                    (SessionPhase::Restarting, Vec::new(), SessionCommand::StartAgent)
                } else {
                    (SessionPhase::Ended, Vec::new(), SessionCommand::Exit { failed: false })
                }
            },
            SessionEvent::Started { agent } => {
                self.agent = agent;
                (SessionPhase::Reading, Vec::new(), SessionCommand::ReadLine)
            },
        };
        self.phase = phase;
        proof {
            assert(outputs.deep_view() =~= session_step(old(self).phase, event@).outputs);
        }
        SessionStep { outputs, command }
    }
}

} // verus!
