//! One turn of the agent: from a submitted prompt to the end of the answer.
//!
//! A turn reads the agent's events one at a time and says what to send to the
//! client. When the agent asks for approval the turn stops reading events and
//! reads the client's answers instead, until one of them settles the request.

use vstd::prelude::*;
use crate::protocol::{
    ApprovalResolution, ApprovalStatus, InputView, OutputView, ToolArgs, ToolArgsView,
    ToolCallView, VuhlpInput, VuhlpOutput, VuhlpToolCall, VuhlpUsage,
};
use crate::text::joined;

verus! {

/// Why the agent gave a turn up.
#[derive(Debug, Clone, Copy, PartialEq, Eq, Structural)]
pub enum TurnAbortReason {
    Interrupted,
    Replaced,
    ReviewEnded,
}

/// The token counts that the agent reports.
#[derive(Debug, Clone, Copy, PartialEq, Eq, Structural)]
pub struct TokenUsage {
    pub input_tokens: i64,
    pub output_tokens: i64,
    pub reasoning_output_tokens: i64,
    pub total_tokens: i64,
}

/// What the agent reports while a turn runs.
#[derive(Debug, PartialEq)]
pub enum TurnEvent {
    AgentMessageContentDelta { delta: String },
    ReasoningContentDelta { delta: String },
    ReasoningRawContentDelta { delta: String },
    AgentMessage { message: String },
    AgentReasoning { text: String },
    AgentReasoningRawContent { text: String },
    /// `last_token_usage` is missing if the agent sent no counts along.
    TokenCount { last_token_usage: Option<TokenUsage> },
    TurnComplete { last_agent_message: Option<String> },
    TurnAborted { reason: TurnAbortReason },
    Error { message: String },
    StreamError { message: String, additional_details: Option<String> },
    /// `request_id` is the request's id as it prints for debugging.
    ElicitationRequest { server_name: String, request_id: String, message: String },
    ShutdownComplete,
    /// Any event that a turn does not look at.
    Other,
}

/// Where a turn stands, that is, what it reads next.
#[derive(Debug, PartialEq)]
pub enum TurnPhase {
    /// The agent's next event.
    Streaming,
    /// The client's answer to this request for approval.
    AwaitingApproval { server_name: String, request_id: String },
    /// Nothing: the agent is done and the answer is to be closed.
    Closing,
    /// Nothing: the answer is closed.
    Completed,
    /// Nothing: the agent has shut down.
    ShutDown,
}

/// The answer as far as it has come in.
#[derive(Debug, PartialEq)]
pub struct TurnState {
    pub content: String,
    pub thinking: String,
    pub saw_final: bool,
    pub saw_thinking_final: bool,
}

/// How a turn ended.
#[derive(Debug, Clone, Copy, PartialEq, Eq, Structural)]
pub enum TurnOutcome {
    Completed,
    Shutdown,
}

/// A turn in progress.
#[derive(Debug, PartialEq)]
pub struct Turn {
    pub state: TurnState,
    pub last_usage: Option<TokenUsage>,
    pub error_message: Option<String>,
    pub last_agent_message: Option<String>,
    pub phase: TurnPhase,
}

/// What a request for approval is answered with.
#[derive(Debug, Clone, Copy, PartialEq, Eq, Structural)]
pub enum ElicitationAction {
    Accept,
    Decline,
    Cancel,
}

/// What the client sent while a request for approval was open.
#[derive(Debug, PartialEq)]
pub enum ApprovalReply {
    /// The client closed its end.
    EndOfInput,
    /// A line with nothing but white space.
    Blank,
    /// A line that is no message.
    Invalid,
    /// A message.
    Input { input: VuhlpInput },
}

/// Why something that the client sent does not settle an open request.
#[derive(Debug, Clone, Copy, PartialEq, Eq, Structural)]
pub enum IgnoredReply {
    Blank,
    Invalid,
    UserMessage,
    OtherApproval,
}

/// What to do after a reply.
#[derive(Debug, PartialEq)]
pub enum ApprovalStep {
    /// Read the next reply.
    KeepWaiting { why: IgnoredReply },
    /// Hand `decision` to the agent as the answer to this request.
    Resolve { server_name: String, request_id: String, decision: ElicitationAction },
}

/// Model of [`TurnEvent`].
pub enum TurnEventView {
    AgentMessageContentDelta { delta: Seq<char> },
    ReasoningContentDelta { delta: Seq<char> },
    ReasoningRawContentDelta { delta: Seq<char> },
    AgentMessage { message: Seq<char> },
    AgentReasoning { text: Seq<char> },
    AgentReasoningRawContent { text: Seq<char> },
    TokenCount { last_token_usage: Option<TokenUsage> },
    TurnComplete { last_agent_message: Option<Seq<char>> },
    TurnAborted { reason: TurnAbortReason },
    Error { message: Seq<char> },
    StreamError { message: Seq<char>, additional_details: Option<Seq<char>> },
    ElicitationRequest { server_name: Seq<char>, request_id: Seq<char>, message: Seq<char> },
    ShutdownComplete,
    Other,
}

/// Model of [`TurnPhase`].
pub enum TurnPhaseView {
    Streaming,
    AwaitingApproval { server_name: Seq<char>, request_id: Seq<char> },
    Closing,
    Completed,
    ShutDown,
}

/// Model of [`Turn`].
pub struct TurnView {
    pub content: Seq<char>,
    pub thinking: Seq<char>,
    pub saw_final: bool,
    pub saw_thinking_final: bool,
    pub last_usage: Option<TokenUsage>,
    pub error_message: Option<Seq<char>>,
    pub last_agent_message: Option<Seq<char>>,
    pub phase: TurnPhaseView,
}

/// Model of [`ApprovalReply`].
pub enum ReplyView {
    EndOfInput,
    Blank,
    Invalid,
    Input { input: InputView },
}

/// Model of [`ApprovalStep`].
pub enum ApprovalStepView {
    KeepWaiting { why: IgnoredReply },
    Resolve { server_name: Seq<char>, request_id: Seq<char>, decision: ElicitationAction },
}

impl View for TurnEvent {
    type V = TurnEventView;

    open spec fn view(&self) -> TurnEventView {
        match self {
            TurnEvent::AgentMessageContentDelta { delta } => {
                TurnEventView::AgentMessageContentDelta { delta: delta@ }
            },
            TurnEvent::ReasoningContentDelta { delta } => {
                TurnEventView::ReasoningContentDelta { delta: delta@ }
            },
            TurnEvent::ReasoningRawContentDelta { delta } => {
                TurnEventView::ReasoningRawContentDelta { delta: delta@ }
            },
            TurnEvent::AgentMessage { message } => {
                TurnEventView::AgentMessage { message: message@ }
            },
            TurnEvent::AgentReasoning { text } => TurnEventView::AgentReasoning { text: text@ },
            TurnEvent::AgentReasoningRawContent { text } => {
                TurnEventView::AgentReasoningRawContent { text: text@ }
            },
            TurnEvent::TokenCount { last_token_usage } => {
                TurnEventView::TokenCount { last_token_usage: *last_token_usage }
            },
            TurnEvent::TurnComplete { last_agent_message } => {
                TurnEventView::TurnComplete { last_agent_message: last_agent_message.deep_view() }
            },
            TurnEvent::TurnAborted { reason } => TurnEventView::TurnAborted { reason: *reason },
            TurnEvent::Error { message } => TurnEventView::Error { message: message@ },
            TurnEvent::StreamError { message, additional_details } => {
                TurnEventView::StreamError {
                    message: message@,
                    additional_details: additional_details.deep_view(),
                }
            },
            TurnEvent::ElicitationRequest { server_name, request_id, message } => {
                TurnEventView::ElicitationRequest {
                    server_name: server_name@,
                    request_id: request_id@,
                    message: message@,
                }
            },
            TurnEvent::ShutdownComplete => TurnEventView::ShutdownComplete,
            TurnEvent::Other => TurnEventView::Other,
        }
    }
}

impl View for TurnPhase {
    type V = TurnPhaseView;

    open spec fn view(&self) -> TurnPhaseView {
        match self {
            TurnPhase::Streaming => TurnPhaseView::Streaming,
            TurnPhase::AwaitingApproval { server_name, request_id } => {
                TurnPhaseView::AwaitingApproval {
                    server_name: server_name@,
                    request_id: request_id@,
                }
            },
            TurnPhase::Closing => TurnPhaseView::Closing,
            TurnPhase::Completed => TurnPhaseView::Completed,
            TurnPhase::ShutDown => TurnPhaseView::ShutDown,
        }
    }
}

impl View for Turn {
    type V = TurnView;

    open spec fn view(&self) -> TurnView {
        TurnView {
            content: self.state.content@,
            thinking: self.state.thinking@,
            saw_final: self.state.saw_final,
            saw_thinking_final: self.state.saw_thinking_final,
            last_usage: self.last_usage,
            error_message: self.error_message.deep_view(),
            last_agent_message: self.last_agent_message.deep_view(),
            phase: self.phase@,
        }
    }
}

impl View for ApprovalReply {
    type V = ReplyView;

    open spec fn view(&self) -> ReplyView {
        match self {
            ApprovalReply::EndOfInput => ReplyView::EndOfInput,
            ApprovalReply::Blank => ReplyView::Blank,
            ApprovalReply::Invalid => ReplyView::Invalid,
            ApprovalReply::Input { input } => ReplyView::Input { input: input@ },
        }
    }
}

impl View for ApprovalStep {
    type V = ApprovalStepView;

    open spec fn view(&self) -> ApprovalStepView {
        match self {
            ApprovalStep::KeepWaiting { why } => ApprovalStepView::KeepWaiting { why: *why },
            ApprovalStep::Resolve { server_name, request_id, decision } => {
                ApprovalStepView::Resolve {
                    server_name: server_name@,
                    request_id: request_id@,
                    decision: *decision,
                }
            },
        }
    }
}

/// How an aborted turn is explained.
pub open spec fn abort_message(reason: TurnAbortReason) -> Seq<char> {
    match reason {
        TurnAbortReason::Interrupted => "turn interrupted"@,
        TurnAbortReason::Replaced => "turn replaced"@,
        TurnAbortReason::ReviewEnded => "review ended"@,
    }
}

/// A stream error's message, with its details in brackets if there are any.
pub open spec fn stream_error_message(message: Seq<char>, details: Option<Seq<char>>) -> Seq<char> {
    match details {
        Some(details) if details.len() > 0 => message + " ("@ + details + ")"@,
        _ => message,
    }
}

/// The id under which a client approves a request: server and request id.
pub open spec fn approval_id_of(server_name: Seq<char>, request_id: Seq<char>) -> Seq<char> {
    server_name + ":"@ + request_id
}

/// The tool call under which a client sees a request.
pub open spec fn tool_call_of(
    server_name: Seq<char>,
    request_id: Seq<char>,
    message: Seq<char>,
) -> ToolCallView {
    ToolCallView {
        id: approval_id_of(server_name, request_id),
        name: server_name,
        args: Some(ToolArgsView { message }),
    }
}

/// What a client's answer means to the agent. Modified arguments are not passed
/// on, so a modified request counts as an accepted one.
pub open spec fn decision_of(status: ApprovalStatus) -> ElicitationAction {
    match status {
        ApprovalStatus::Approved => ElicitationAction::Accept,
        ApprovalStatus::Denied => ElicitationAction::Decline,
        ApprovalStatus::Modified => ElicitationAction::Accept,
    }
}

/// How a reply bears on the request with this approval id: the decision that
/// settles it, or why the reply is ignored.
pub open spec fn verdict_of(
    approval_id: Seq<char>,
    reply: ReplyView,
) -> Result<ElicitationAction, IgnoredReply> {
    match reply {
        ReplyView::EndOfInput => Ok(ElicitationAction::Cancel),
        ReplyView::Blank => Err(IgnoredReply::Blank),
        ReplyView::Invalid => Err(IgnoredReply::Invalid),
        ReplyView::Input { input: InputView::SessionEnd } => Ok(ElicitationAction::Cancel),
        ReplyView::Input { input: InputView::User { .. } } => Err(IgnoredReply::UserMessage),
        ReplyView::Input { input: InputView::ApprovalResolved { approval_id: id, resolution } } => {
            if id == approval_id {
                Ok(decision_of(resolution.status))
            } else {
                Err(IgnoredReply::OtherApproval)
            }
        },
    }
}

impl TurnView {
    /// A turn whose prompt has just been submitted.
    pub open spec fn initial() -> TurnView {
        TurnView {
            content: Seq::empty(),
            thinking: Seq::empty(),
            saw_final: false,
            saw_thinking_final: false,
            last_usage: None,
            error_message: None,
            last_agent_message: None,
            phase: TurnPhaseView::Streaming,
        }
    }

    /// The turn after an event that it read.
    pub open spec fn after_event(self, event: TurnEventView) -> TurnView {
        match event {
            TurnEventView::AgentMessageContentDelta { delta } => {
                TurnView { content: self.content + delta, ..self }
            },
            TurnEventView::ReasoningContentDelta { delta }
            | TurnEventView::ReasoningRawContentDelta { delta } => {
                TurnView { thinking: self.thinking + delta, ..self }
            },
            TurnEventView::AgentMessage { message } => {
                TurnView { content: message, saw_final: true, ..self }
            },
            TurnEventView::AgentReasoning { text }
            | TurnEventView::AgentReasoningRawContent { text } => {
                TurnView { thinking: text, saw_thinking_final: true, ..self }
            },
            TurnEventView::TokenCount { last_token_usage } => {
                match last_token_usage {
                    Some(usage) => TurnView { last_usage: Some(usage), ..self },
                    None => self,
                }
            },
            TurnEventView::TurnComplete { last_agent_message } => {
                TurnView { last_agent_message, phase: TurnPhaseView::Closing, ..self }
            },
            TurnEventView::TurnAborted { reason } => {
                TurnView {
                    error_message: Some(abort_message(reason)),
                    phase: TurnPhaseView::Closing,
                    ..self
                }
            },
            TurnEventView::Error { message } => {
                TurnView { error_message: Some(message), ..self }
            },
            TurnEventView::StreamError { message, additional_details } => {
                TurnView {
                    error_message: Some(stream_error_message(message, additional_details)),
                    ..self
                }
            },
            TurnEventView::ElicitationRequest { server_name, request_id, message } => {
                TurnView {
                    phase: TurnPhaseView::AwaitingApproval { server_name, request_id },
                    ..self
                }
            },
            TurnEventView::ShutdownComplete => {
                TurnView { phase: TurnPhaseView::ShutDown, ..self }
            },
            TurnEventView::Other => self,
        }
    }

    /// What the client is sent upon an event. Of several final messages, or of
    /// several final pieces of reasoning, only the first is sent.
    pub open spec fn event_outputs(self, event: TurnEventView) -> Seq<OutputView> {
        match event {
            TurnEventView::AgentMessageContentDelta { delta } => {
                seq![OutputView::AssistantDelta { delta }]
            },
            TurnEventView::ReasoningContentDelta { delta }
            | TurnEventView::ReasoningRawContentDelta { delta } => {
                seq![OutputView::ThinkingDelta { delta }]
            },
            TurnEventView::AgentMessage { message } => {
                if self.saw_final {
                    Seq::empty()
                } else {
                    seq![OutputView::AssistantFinal { content: message }]
                }
            },
            TurnEventView::AgentReasoning { text }
            | TurnEventView::AgentReasoningRawContent { text } => {
                if self.saw_thinking_final {
                    Seq::empty()
                } else {
                    seq![OutputView::ThinkingFinal { content: text }]
                }
            },
            TurnEventView::ElicitationRequest { server_name, request_id, message } => {
                let tool = tool_call_of(server_name, request_id, message);
                seq![
                    OutputView::ToolProposed { tool },
                    OutputView::ApprovalRequested {
                        approval_id: approval_id_of(server_name, request_id),
                        tool,
                    },
                ]
            },
            _ => Seq::empty(),
        }
    }

    /// The turn after a reply that it read, and what is to be done.
    pub open spec fn after_reply(self, reply: ReplyView) -> (TurnView, ApprovalStepView)
        recommends
            self.phase is AwaitingApproval,
    {
        let server_name = self.phase->server_name;
        let request_id = self.phase->request_id;
        match verdict_of(approval_id_of(server_name, request_id), reply) {
            Ok(decision) => (
                TurnView { phase: TurnPhaseView::Streaming, ..self },
                ApprovalStepView::Resolve { server_name, request_id, decision },
            ),
            Err(why) => (self, ApprovalStepView::KeepWaiting { why }),
        }
    }

    /// The answer that closes a turn without a final message: the error, else
    /// the message that the agent ended with, else what was streamed.
    pub open spec fn closing_content(self) -> Seq<char> {
        if let Some(error_message) = self.error_message {
            "Error: "@ + error_message
        } else if let Some(last_message) = self.last_agent_message {
            last_message
        } else if self.content.len() > 0 {
            self.content
        } else {
            "No response from Codex."@
        }
    }

    /// The turn once its answer is closed.
    pub open spec fn after_close(self) -> TurnView {
        TurnView {
            saw_final: true,
            saw_thinking_final: self.saw_thinking_final || self.thinking.len() > 0,
            phase: TurnPhaseView::Completed,
            ..self
        }
    }

    /// What the client is sent when the answer is closed: the finals that it
    /// has not had yet. Reasoning that is empty has no final.
    pub open spec fn close_outputs(self) -> Seq<OutputView> {
        let thinking = if !self.saw_thinking_final && self.thinking.len() > 0 {
            seq![OutputView::ThinkingFinal { content: self.thinking }]
        } else {
            Seq::empty()
        };
        let answer = if !self.saw_final {
            seq![OutputView::AssistantFinal { content: self.closing_content() }]
        } else {
            Seq::empty()
        };
        thinking + answer
    }

    /// The output tokens that are reported: the visible and the reasoning ones.
    pub open spec fn output_tokens(usage: TokenUsage) -> int {
        usage.output_tokens + usage.reasoning_output_tokens
    }

    /// Whether the output tokens to report are a number that can be sent.
    pub open spec fn usage_fits(self) -> bool {
        self.last_usage matches Some(usage) ==> i64::MIN <= TurnView::output_tokens(usage)
            <= i64::MAX
    }

    /// What the client is told of the tokens: the last counts that came in.
    pub open spec fn usage_output(self, model: Seq<char>) -> Option<OutputView>
        recommends
            self.usage_fits(),
    {
        match self.last_usage {
            Some(usage) => Some(
                OutputView::TelemetryUsage {
                    provider: "codex"@,
                    model,
                    usage: VuhlpUsage {
                        input_tokens: usage.input_tokens,
                        output_tokens: TurnView::output_tokens(usage) as i64,
                        total_tokens: usage.total_tokens,
                    },
                },
            ),
            None => None,
        }
    }

    /// What the client is sent when the turn is finished: the finals that it has
    /// not had yet, and then the tokens.
    pub open spec fn finish_outputs(self, model: Seq<char>) -> Seq<OutputView>
        recommends
            self.usage_fits(),
    {
        let usage = match self.usage_output(model) {
            Some(output) => seq![output],
            None => Seq::empty(),
        };
        self.close_outputs() + usage
    }
}

/// The explanation of an aborted turn.
pub fn abort_text(reason: TurnAbortReason) -> (res: String)
    ensures
        res@ == abort_message(reason),
{
    match reason {
        TurnAbortReason::Interrupted => "turn interrupted".to_owned(),
        TurnAbortReason::Replaced => "turn replaced".to_owned(),
        TurnAbortReason::ReviewEnded => "review ended".to_owned(),
    }
}

/// The text of a stream error.
pub fn stream_error_text(message: String, additional_details: Option<String>) -> (res: String)
    ensures
        res@ == stream_error_message(message@, additional_details.deep_view()),
{
    match additional_details {
        Some(details) => {
            if details.as_str().is_empty() {
                message
            } else {
                let mut text = message;
                text.append(" (");
                text.append(details.as_str());
                text.append(")");
                text
            }
        },
        None => message,
    }
}

/// The id under which a client approves a request.
pub fn approval_id(server_name: &str, request_id: &str) -> (res: String)
    ensures
        res@ == approval_id_of(server_name@, request_id@),
{
    let mut id = joined(server_name, ":");
    id.append(request_id);
    id
}

/// What a client's answer means to the agent.
pub fn elicitation_decision(resolution: &ApprovalResolution) -> (res: ElicitationAction)
    ensures
        res == decision_of(resolution@.status),
{
    match resolution.status {
        ApprovalStatus::Approved => ElicitationAction::Accept,
        ApprovalStatus::Denied => ElicitationAction::Decline,
        ApprovalStatus::Modified => ElicitationAction::Accept,
    }
}

impl Default for TurnState {
    fn default() -> (res: TurnState)
        ensures
            res.content@ == Seq::<char>::empty(),
            res.thinking@ == Seq::<char>::empty(),
            !res.saw_final,
            !res.saw_thinking_final,
    {
        TurnState {
            content: String::new(),
            thinking: String::new(),
            saw_final: false,
            saw_thinking_final: false,
        }
    }
}

impl Turn {
    /// A turn whose prompt has just been submitted.
    pub fn new() -> (res: Turn)
        ensures
            res@ == TurnView::initial(),
    {
        Turn {
            state: TurnState::default(),
            last_usage: None,
            error_message: None,
            last_agent_message: None,
            phase: TurnPhase::Streaming,
        }
    }

    /// Reads the agent's next event and returns what to send to the client.
    pub fn on_event(&mut self, event: TurnEvent) -> (outputs: Vec<VuhlpOutput>)
        requires
            old(self)@.phase is Streaming,
        ensures
            final(self)@ == old(self)@.after_event(event@),
            outputs.deep_view() == old(self)@.event_outputs(event@),
    {
        let mut outputs: Vec<VuhlpOutput> = Vec::new();
        match event {
            TurnEvent::AgentMessageContentDelta { delta } => {
                self.state.content.append(delta.as_str());
                outputs.push(VuhlpOutput::AssistantDelta { delta });
            },
            TurnEvent::ReasoningContentDelta { delta }
            | TurnEvent::ReasoningRawContentDelta { delta } => {
                self.state.thinking.append(delta.as_str());
                outputs.push(VuhlpOutput::ThinkingDelta { delta });
            },
            TurnEvent::AgentMessage { message } => {
                self.state.content = message.clone();
                if !self.state.saw_final {
                    outputs.push(VuhlpOutput::AssistantFinal { content: message });
                    self.state.saw_final = true;
                }
            },
            TurnEvent::AgentReasoning { text }
            | TurnEvent::AgentReasoningRawContent { text } => {
                self.state.thinking = text.clone();
                if !self.state.saw_thinking_final {
                    outputs.push(VuhlpOutput::ThinkingFinal { content: text });
                    self.state.saw_thinking_final = true;
                }
            },
            TurnEvent::TokenCount { last_token_usage } => {
                if let Some(usage) = last_token_usage {
                    self.last_usage = Some(usage);
                }
            },
            TurnEvent::TurnComplete { last_agent_message } => {
                self.last_agent_message = last_agent_message;
                self.phase = TurnPhase::Closing;
            },
            TurnEvent::TurnAborted { reason } => {
                self.error_message = Some(abort_text(reason));
                self.phase = TurnPhase::Closing;
            },
            TurnEvent::Error { message } => {
                self.error_message = Some(message);
            },
            TurnEvent::StreamError { message, additional_details } => {
                self.error_message = Some(stream_error_text(message, additional_details));
            },
            TurnEvent::ElicitationRequest { server_name, request_id, message } => {
                let approval_id = approval_id(server_name.as_str(), request_id.as_str());
                let tool = VuhlpToolCall {
                    id: approval_id.clone(),
                    name: server_name.clone(),
                    args: Some(ToolArgs { message }),
                };
                outputs.push(VuhlpOutput::ToolProposed { tool: tool.clone() });
                outputs.push(VuhlpOutput::ApprovalRequested { approval_id, tool });
                self.phase = TurnPhase::AwaitingApproval { server_name, request_id };
            },
            TurnEvent::ShutdownComplete => {
                self.phase = TurnPhase::ShutDown;
            },
            TurnEvent::Other => {},
        }
        proof {
            assert(outputs.deep_view() =~= old(self)@.event_outputs(event@));
        }
        outputs
    }

    /// Reads what the client sent while a request for approval is open.
    pub fn on_reply(&mut self, reply: ApprovalReply) -> (step: ApprovalStep)
        requires
            old(self)@.phase is AwaitingApproval,
        ensures
            final(self)@ == old(self)@.after_reply(reply@).0,
            step@ == old(self)@.after_reply(reply@).1,
    {
        let (server_name, request_id) = match &self.phase {
            TurnPhase::AwaitingApproval { server_name, request_id } => (
                server_name.clone(),
                request_id.clone(),
            ),
            _ => (String::new(), String::new()),
        };
        let expected = approval_id(server_name.as_str(), request_id.as_str());
        let verdict = match reply {
            ApprovalReply::EndOfInput => Ok(ElicitationAction::Cancel),
            ApprovalReply::Blank => Err(IgnoredReply::Blank),
            ApprovalReply::Invalid => Err(IgnoredReply::Invalid),
            ApprovalReply::Input { input } => match input {
                VuhlpInput::ApprovalResolved { approval_id, resolution } => {
                    if approval_id == expected {
                        Ok(elicitation_decision(&resolution))
                    } else {
                        Err(IgnoredReply::OtherApproval)
                    }
                },
                VuhlpInput::SessionEnd => Ok(ElicitationAction::Cancel),
                VuhlpInput::User { .. } => Err(IgnoredReply::UserMessage),
            },
        };
        match verdict {
            Ok(decision) => {
                self.phase = TurnPhase::Streaming;
                ApprovalStep::Resolve { server_name, request_id, decision }
            },
            Err(why) => ApprovalStep::KeepWaiting { why },
        }
    }

    /// Closes the answer and returns the finals that the client has not had.
    pub fn close(&mut self) -> (outputs: Vec<VuhlpOutput>)
        requires
            old(self)@.phase is Closing,
        ensures
            final(self)@ == old(self)@.after_close(),
            outputs.deep_view() == old(self)@.close_outputs(),
    {
        let mut outputs: Vec<VuhlpOutput> = Vec::new();
        if !self.state.saw_thinking_final && !self.state.thinking.as_str().is_empty() {
            outputs.push(VuhlpOutput::ThinkingFinal { content: self.state.thinking.clone() });
            self.state.saw_thinking_final = true;
        }
        if !self.state.saw_final {
            let content = if let Some(error_message) = &self.error_message {
                joined("Error: ", error_message.as_str())
            } else if let Some(last_message) = &self.last_agent_message {
                last_message.clone()
            } else if !self.state.content.as_str().is_empty() {
                self.state.content.clone()
            } else {
                "No response from Codex.".to_owned()
            };
            outputs.push(VuhlpOutput::AssistantFinal { content });
            self.state.saw_final = true;
        }
        self.phase = TurnPhase::Completed;
        proof {
            assert(outputs.deep_view() =~= old(self)@.close_outputs());
        }
        outputs
    }

    /// Whether the output tokens to report are a number that can be sent.
    pub fn has_sendable_usage(&self) -> (res: bool)
        ensures
            res == self@.usage_fits(),
    {
        match self.last_usage {
            Some(usage) => usage.output_tokens.checked_add(
                usage.reasoning_output_tokens,
            ).is_some(),
            None => true,
        }
    }

    /// What to tell the client of the tokens, if the agent counted any.
    pub fn usage_report(&self, model: &str) -> (res: Option<VuhlpOutput>)
        requires
            self@.usage_fits(),
        ensures
            res.deep_view() == self@.usage_output(model@),
    {
        match self.last_usage {
            Some(usage) => Some(
                VuhlpOutput::TelemetryUsage {
                    provider: "codex",
                    model: model.to_owned(),
                    usage: VuhlpUsage {
                        input_tokens: usage.input_tokens,
                        output_tokens: usage.output_tokens + usage.reasoning_output_tokens,
                        total_tokens: usage.total_tokens,
                    },
                },
            ),
            None => None,
        }
    }

    /// Closes the answer and reports the tokens: all that is left to send of the
    /// turn.
    pub fn finish(&mut self, model: &str) -> (outputs: Vec<VuhlpOutput>)
        requires
            old(self)@.phase is Closing,
            old(self)@.usage_fits(),
        ensures
            final(self)@ == old(self)@.after_close(),
            outputs.deep_view() == old(self)@.finish_outputs(model@),
    {
        let mut outputs = self.close();
        if let Some(report) = self.usage_report(model) {
            outputs.push(report);
        }
        proof {
            assert(outputs.deep_view() =~= old(self)@.finish_outputs(model@));
        }
        outputs
    }

    /// How the turn ended, once it has.
    pub fn outcome(&self) -> (res: Option<TurnOutcome>)
        ensures
            res == (match self@.phase {
                TurnPhaseView::Completed => Some(TurnOutcome::Completed),
                TurnPhaseView::ShutDown => Some(TurnOutcome::Shutdown),
                _ => None,
            }),
    {
        match self.phase {
            TurnPhase::Completed => Some(TurnOutcome::Completed),
            TurnPhase::ShutDown => Some(TurnOutcome::Shutdown),
            _ => None,
        }
    }
}

} // verus!
