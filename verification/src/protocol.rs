//! The messages that a client and a session exchange, one per line.

use vstd::prelude::*;

verus! {

/// What a client can send.
#[derive(Debug, PartialEq)]
pub enum VuhlpInput {
    User { message: VuhlpMessage },
    ApprovalResolved { approval_id: String, resolution: ApprovalResolution },
    SessionEnd,
}

/// A message of the user.
#[derive(Debug, PartialEq)]
pub struct VuhlpMessage {
    pub role: String,
    pub content: Vec<VuhlpContentPart>,
}

/// One part of a user message. Only text is read.
#[derive(Debug, PartialEq)]
pub enum VuhlpContentPart {
    Text { text: String },
    Other,
}

/// How the client answered a request for approval.
#[derive(Debug, Clone, Copy, PartialEq, Eq, Structural)]
pub enum ApprovalStatus {
    Approved,
    Denied,
    Modified,
}

/// The client's answer to a request for approval. `modified_args` is the JSON
/// text of the arguments that the client put in place of the proposed ones.
#[derive(Debug, PartialEq)]
pub struct ApprovalResolution {
    pub status: ApprovalStatus,
    pub modified_args: Option<String>,
}

/// What a session sends.
#[derive(Debug, PartialEq)]
pub enum VuhlpOutput {
    AssistantDelta { delta: String },
    AssistantFinal { content: String },
    ThinkingDelta { delta: String },
    ThinkingFinal { content: String },
    ToolProposed { tool: VuhlpToolCall },
    ApprovalRequested { approval_id: String, tool: VuhlpToolCall },
    TelemetryUsage { provider: &'static str, model: String, usage: VuhlpUsage },
    MessageStop,
}

/// A tool call that waits for the client's approval.
#[derive(Debug, PartialEq)]
pub struct VuhlpToolCall {
    pub id: String,
    pub name: String,
    pub args: Option<ToolArgs>,
}

/// The arguments of a tool call: the message that goes with the request.
#[derive(Debug, PartialEq)]
pub struct ToolArgs {
    pub message: String,
}

/// The tokens that a turn took.
#[derive(Debug, Clone, Copy, PartialEq, Eq, Structural)]
pub struct VuhlpUsage {
    pub input_tokens: i64,
    pub output_tokens: i64,
    pub total_tokens: i64,
}

/// Model of [`VuhlpContentPart`].
pub enum ContentPartView {
    Text { text: Seq<char> },
    Other,
}

/// Model of [`VuhlpMessage`].
pub struct MessageView {
    pub role: Seq<char>,
    pub content: Seq<ContentPartView>,
}

/// Model of [`ApprovalResolution`].
pub struct ResolutionView {
    pub status: ApprovalStatus,
    pub modified_args: Option<Seq<char>>,
}

/// Model of [`VuhlpInput`].
pub enum InputView {
    User { message: MessageView },
    ApprovalResolved { approval_id: Seq<char>, resolution: ResolutionView },
    SessionEnd,
}

/// Model of [`ToolArgs`].
pub struct ToolArgsView {
    pub message: Seq<char>,
}

/// Model of [`VuhlpToolCall`].
pub struct ToolCallView {
    pub id: Seq<char>,
    pub name: Seq<char>,
    pub args: Option<ToolArgsView>,
}

/// Model of [`VuhlpOutput`].
pub enum OutputView {
    AssistantDelta { delta: Seq<char> },
    AssistantFinal { content: Seq<char> },
    ThinkingDelta { delta: Seq<char> },
    ThinkingFinal { content: Seq<char> },
    ToolProposed { tool: ToolCallView },
    ApprovalRequested { approval_id: Seq<char>, tool: ToolCallView },
    TelemetryUsage { provider: Seq<char>, model: Seq<char>, usage: VuhlpUsage },
    MessageStop,
}

impl View for VuhlpContentPart {
    type V = ContentPartView;

    open spec fn view(&self) -> ContentPartView {
        match self {
            VuhlpContentPart::Text { text } => ContentPartView::Text { text: text@ },
            VuhlpContentPart::Other => ContentPartView::Other,
        }
    }
}

impl DeepView for VuhlpContentPart {
    type V = ContentPartView;

    open spec fn deep_view(&self) -> ContentPartView {
        self@
    }
}

impl View for VuhlpMessage {
    type V = MessageView;

    open spec fn view(&self) -> MessageView {
        MessageView { role: self.role@, content: self.content.deep_view() }
    }
}

impl View for ApprovalResolution {
    type V = ResolutionView;

    open spec fn view(&self) -> ResolutionView {
        ResolutionView { status: self.status, modified_args: self.modified_args.deep_view() }
    }
}

impl View for VuhlpInput {
    type V = InputView;

    open spec fn view(&self) -> InputView {
        match self {
            VuhlpInput::User { message } => InputView::User { message: message@ },
            VuhlpInput::ApprovalResolved { approval_id, resolution } => {
                InputView::ApprovalResolved {
                    approval_id: approval_id@,
                    resolution: resolution@,
                }
            },
            VuhlpInput::SessionEnd => InputView::SessionEnd,
        }
    }
}

impl View for ToolArgs {
    type V = ToolArgsView;

    open spec fn view(&self) -> ToolArgsView {
        ToolArgsView { message: self.message@ }
    }
}

impl DeepView for ToolArgs {
    type V = ToolArgsView;

    open spec fn deep_view(&self) -> ToolArgsView {
        self@
    }
}

impl View for VuhlpToolCall {
    type V = ToolCallView;

    open spec fn view(&self) -> ToolCallView {
        ToolCallView { id: self.id@, name: self.name@, args: self.args.deep_view() }
    }
}

impl Clone for ToolArgs {
    fn clone(&self) -> (res: Self)
        ensures
            res@ == self@,
    {
        ToolArgs { message: self.message.clone() }
    }
}

impl Clone for VuhlpToolCall {
    fn clone(&self) -> (res: Self)
        ensures
            res@ == self@,
    {
        let args = match &self.args {
            Some(args) => Some(args.clone()),
            None => None,
        };
        VuhlpToolCall { id: self.id.clone(), name: self.name.clone(), args }
    }
}

impl View for VuhlpOutput {
    type V = OutputView;

    open spec fn view(&self) -> OutputView {
        match self {
            VuhlpOutput::AssistantDelta { delta } => OutputView::AssistantDelta { delta: delta@ },
            VuhlpOutput::AssistantFinal { content } => {
                OutputView::AssistantFinal { content: content@ }
            },
            VuhlpOutput::ThinkingDelta { delta } => OutputView::ThinkingDelta { delta: delta@ },
            VuhlpOutput::ThinkingFinal { content } => {
                OutputView::ThinkingFinal { content: content@ }
            },
            VuhlpOutput::ToolProposed { tool } => OutputView::ToolProposed { tool: tool@ },
            VuhlpOutput::ApprovalRequested { approval_id, tool } => {
                OutputView::ApprovalRequested { approval_id: approval_id@, tool: tool@ }
            },
            VuhlpOutput::TelemetryUsage { provider, model, usage } => {
                OutputView::TelemetryUsage { provider: provider@, model: model@, usage: *usage }
            },
            VuhlpOutput::MessageStop => OutputView::MessageStop,
        }
    }
}

impl DeepView for VuhlpOutput {
    type V = OutputView;

    open spec fn deep_view(&self) -> OutputView {
        self@
    }
}

} // verus!
