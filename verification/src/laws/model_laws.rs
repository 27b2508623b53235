//! The models of values say what the values hold, no more and no less.

use vstd::prelude::*;
use crate::input::{LineKind, LineKindView};
use crate::launch::{
    ConfigOverrides, ConfigOverridesView, Launch, LaunchCommand, LaunchCommandView, LaunchError,
    LaunchErrorView, LaunchEvent, LaunchEventView, LaunchOptions, LaunchOptionsView, LaunchView,
};
use crate::protocol::{
    ApprovalResolution, ContentPartView, InputView, MessageView, OutputView, ResolutionView,
    ToolArgs, ToolArgsView, ToolCallView, VuhlpContentPart, VuhlpInput, VuhlpMessage, VuhlpOutput,
    VuhlpToolCall,
};
use crate::session::{SessionCommand, SessionCommandView, SessionEvent, SessionEventView};
use crate::shutdown::{ShutdownEvent, ShutdownEventView, ShutdownPhase, ShutdownPhaseView};
use crate::turn::{
    ApprovalReply, ApprovalStep, ApprovalStepView, ReplyView, Turn, TurnEvent, TurnEventView,
    TurnPhase, TurnPhaseView, TurnView,
};

verus! {

/// The model of a part of a message holds what the value holds.
pub proof fn law_model_of_content_part(value: VuhlpContentPart)
    ensures
        match value@ {
            ContentPartView::Text { text } => {
                &&& value matches VuhlpContentPart::Text { text: text_held }
                &&& text == text_held@
            },
            ContentPartView::Other => value is Other,
        },
        value.deep_view() == value@,
{
}

/// The model of a message holds what the value holds.
pub proof fn law_model_of_message(value: VuhlpMessage)
    ensures
        value@.role == value.role@,
        value@.content == value.content.deep_view(),
{
}

/// The model of an answer to a request holds what the value holds.
pub proof fn law_model_of_approval_resolution(value: ApprovalResolution)
    ensures
        value@.status == value.status,
        value@.modified_args == value.modified_args.deep_view(),
{
}

/// The model of what a client sends holds what the value holds.
pub proof fn law_model_of_input(value: VuhlpInput)
    ensures
        match value@ {
            InputView::User { message } => {
                &&& value matches VuhlpInput::User { message: message_held }
                &&& message == message_held@
            },
            InputView::ApprovalResolved { approval_id, resolution } => {
                &&& value matches VuhlpInput::ApprovalResolved {
                    approval_id: approval_id_held,
                    resolution: resolution_held,
                }
                &&& approval_id == approval_id_held@
                &&& resolution == resolution_held@
            },
            InputView::SessionEnd => value is SessionEnd,
        },
{
}

/// The model of a tool call's arguments holds what the value holds.
pub proof fn law_model_of_tool_args(value: ToolArgs)
    ensures
        value@.message == value.message@,
        value.deep_view() == value@,
{
}

/// The model of a tool call holds what the value holds.
pub proof fn law_model_of_tool_call(value: VuhlpToolCall)
    ensures
        value@.id == value.id@,
        value@.name == value.name@,
        value@.args == value.args.deep_view(),
{
}

/// The model of what a session sends holds what the value holds.
pub proof fn law_model_of_output(value: VuhlpOutput)
    ensures
        match value@ {
            OutputView::AssistantDelta { delta } => {
                &&& value matches VuhlpOutput::AssistantDelta { delta: delta_held }
                &&& delta == delta_held@
            },
            OutputView::AssistantFinal { content } => {
                &&& value matches VuhlpOutput::AssistantFinal { content: content_held }
                &&& content == content_held@
            },
            OutputView::ThinkingDelta { delta } => {
                &&& value matches VuhlpOutput::ThinkingDelta { delta: delta_held }
                &&& delta == delta_held@
            },
            OutputView::ThinkingFinal { content } => {
                &&& value matches VuhlpOutput::ThinkingFinal { content: content_held }
                &&& content == content_held@
            },
            OutputView::ToolProposed { tool } => {
                &&& value matches VuhlpOutput::ToolProposed { tool: tool_held }
                &&& tool == tool_held@
            },
            OutputView::ApprovalRequested { approval_id, tool } => {
                &&& value matches VuhlpOutput::ApprovalRequested {
                    approval_id: approval_id_held,
                    tool: tool_held,
                }
                &&& approval_id == approval_id_held@
                &&& tool == tool_held@
            },
            OutputView::TelemetryUsage { provider, model, usage } => {
                &&& value matches VuhlpOutput::TelemetryUsage {
                    provider: provider_held,
                    model: model_held,
                    usage: usage_held,
                }
                &&& provider == provider_held@
                &&& model == model_held@
                &&& usage == usage_held
            },
            OutputView::MessageStop => value is MessageStop,
        },
        value.deep_view() == value@,
{
}

/// The model of the meaning of a line holds what the value holds.
pub proof fn law_model_of_line_kind(value: LineKind)
    ensures
        match value@ {
            LineKindView::Blank => value is Blank,
            LineKindView::Reset => value is Reset,
            LineKindView::Message { text } => {
                &&& value matches LineKind::Message { text: text_held }
                &&& text == text_held@
            },
        },
{
}

/// The model of an event of a turn holds what the value holds.
pub proof fn law_model_of_turn_event(value: TurnEvent)
    ensures
        match value@ {
            TurnEventView::AgentMessageContentDelta { delta } => {
                &&& value matches TurnEvent::AgentMessageContentDelta { delta: delta_held }
                &&& delta == delta_held@
            },
            TurnEventView::ReasoningContentDelta { delta } => {
                &&& value matches TurnEvent::ReasoningContentDelta { delta: delta_held }
                &&& delta == delta_held@
            },
            TurnEventView::ReasoningRawContentDelta { delta } => {
                &&& value matches TurnEvent::ReasoningRawContentDelta { delta: delta_held }
                &&& delta == delta_held@
            },
            TurnEventView::AgentMessage { message } => {
                &&& value matches TurnEvent::AgentMessage { message: message_held }
                &&& message == message_held@
            },
            TurnEventView::AgentReasoning { text } => {
                &&& value matches TurnEvent::AgentReasoning { text: text_held }
                &&& text == text_held@
            },
            TurnEventView::AgentReasoningRawContent { text } => {
                &&& value matches TurnEvent::AgentReasoningRawContent { text: text_held }
                &&& text == text_held@
            },
            TurnEventView::TokenCount { last_token_usage } => {
                &&& value matches TurnEvent::TokenCount { last_token_usage: last_token_usage_held }
                &&& last_token_usage == last_token_usage_held
            },
            TurnEventView::TurnComplete { last_agent_message } => {
                &&& value matches TurnEvent::TurnComplete {
                    last_agent_message: last_agent_message_held,
                }
                &&& last_agent_message == last_agent_message_held.deep_view()
            },
            TurnEventView::TurnAborted { reason } => {
                &&& value matches TurnEvent::TurnAborted { reason: reason_held }
                &&& reason == reason_held
            },
            TurnEventView::Error { message } => {
                &&& value matches TurnEvent::Error { message: message_held }
                &&& message == message_held@
            },
            TurnEventView::StreamError { message, additional_details } => {
                &&& value matches TurnEvent::StreamError {
                    message: message_held,
                    additional_details: additional_details_held,
                }
                &&& message == message_held@
                &&& additional_details == additional_details_held.deep_view()
            },
            TurnEventView::ElicitationRequest { server_name, request_id, message } => {
                &&& value matches TurnEvent::ElicitationRequest {
                    server_name: server_name_held,
                    request_id: request_id_held,
                    message: message_held,
                }
                &&& server_name == server_name_held@
                &&& request_id == request_id_held@
                &&& message == message_held@
            },
            TurnEventView::ShutdownComplete => value is ShutdownComplete,
            TurnEventView::Other => value is Other,
        },
{
}

/// The model of the phase of a turn holds what the value holds.
pub proof fn law_model_of_turn_phase(value: TurnPhase)
    ensures
        match value@ {
            TurnPhaseView::Streaming => value is Streaming,
            TurnPhaseView::AwaitingApproval { server_name, request_id } => {
                &&& value matches TurnPhase::AwaitingApproval {
                    server_name: server_name_held,
                    request_id: request_id_held,
                }
                &&& server_name == server_name_held@
                &&& request_id == request_id_held@
            },
            TurnPhaseView::Closing => value is Closing,
            TurnPhaseView::Completed => value is Completed,
            TurnPhaseView::ShutDown => value is ShutDown,
        },
{
}

/// The model of a turn holds what the value holds.
pub proof fn law_model_of_turn(value: Turn)
    ensures
        value@.content == value.state.content@,
        value@.thinking == value.state.thinking@,
        value@.saw_final == value.state.saw_final,
        value@.saw_thinking_final == value.state.saw_thinking_final,
        value@.last_usage == value.last_usage,
        value@.error_message == value.error_message.deep_view(),
        value@.last_agent_message == value.last_agent_message.deep_view(),
        value@.phase == value.phase@,
{
}

/// The model of a reply holds what the value holds.
pub proof fn law_model_of_approval_reply(value: ApprovalReply)
    ensures
        match value@ {
            ReplyView::EndOfInput => value is EndOfInput,
            ReplyView::Blank => value is Blank,
            ReplyView::Invalid => value is Invalid,
            ReplyView::Input { input } => {
                &&& value matches ApprovalReply::Input { input: input_held }
                &&& input == input_held@
            },
        },
{
}

/// The model of what follows a reply holds what the value holds.
pub proof fn law_model_of_approval_step(value: ApprovalStep)
    ensures
        match value@ {
            ApprovalStepView::KeepWaiting { why } => {
                &&& value matches ApprovalStep::KeepWaiting { why: why_held }
                &&& why == why_held
            },
            ApprovalStepView::Resolve { server_name, request_id, decision } => {
                &&& value matches ApprovalStep::Resolve {
                    server_name: server_name_held,
                    request_id: request_id_held,
                    decision: decision_held,
                }
                &&& server_name == server_name_held@
                &&& request_id == request_id_held@
                &&& decision == decision_held
            },
        },
{
}

/// The model of an event of a session holds what the value holds.
pub proof fn law_model_of_session_event<A>(value: SessionEvent<A>)
    ensures
        match value@ {
            SessionEventView::Line { line } => {
                &&& value matches SessionEvent::Line { line: line_held }
                &&& line == line_held@
            },
            SessionEventView::EndOfInput => value is EndOfInput,
            SessionEventView::ReadFailed => value is ReadFailed,
            SessionEventView::Parsed { input } => {
                &&& value matches SessionEvent::Parsed { input: input_held }
                &&& input == input_held@
            },
            SessionEventView::ParseFailed { error } => {
                &&& value matches SessionEvent::ParseFailed { error: error_held }
                &&& error == error_held@
            },
            SessionEventView::TurnEnded { outcome } => {
                &&& value matches SessionEvent::TurnEnded { outcome: outcome_held }
                &&& outcome == outcome_held
            },
            SessionEventView::TurnFailed { error } => {
                &&& value matches SessionEvent::TurnFailed { error: error_held }
                &&& error == error_held@
            },
            SessionEventView::Stopped { in_order } => {
                &&& value matches SessionEvent::Stopped { in_order: in_order_held }
                &&& in_order == in_order_held
            },
            SessionEventView::Started { agent } => {
                &&& value matches SessionEvent::Started { agent: agent_held }
                &&& agent == agent_held
            },
            SessionEventView::StartFailed => value is StartFailed,
        },
{
}

/// The model of what a session is to do holds what the value holds.
pub proof fn law_model_of_session_command(value: SessionCommand)
    ensures
        match value@ {
            SessionCommandView::ReadLine => value is ReadLine,
            SessionCommandView::ParseMessage { text } => {
                &&& value matches SessionCommand::ParseMessage { text: text_held }
                &&& text == text_held@
            },
            SessionCommandView::RunTurn { prompt } => {
                &&& value matches SessionCommand::RunTurn { prompt: prompt_held }
                &&& prompt == prompt_held@
            },
            SessionCommandView::StopAgent => value is StopAgent,
            SessionCommandView::StartAgent => value is StartAgent,
            SessionCommandView::Exit { failed } => {
                &&& value matches SessionCommand::Exit { failed: failed_held }
                &&& failed == failed_held
            },
        },
{
}

/// The model of the phase of a shutdown holds what the value holds.
pub proof fn law_model_of_shutdown_phase(value: ShutdownPhase)
    ensures
        match value@ {
            ShutdownPhaseView::Asking => value is Asking,
            ShutdownPhaseView::Timing => value is Timing,
            ShutdownPhaseView::Waiting { remaining_nanos } => {
                &&& value matches ShutdownPhase::Waiting { remaining_nanos: remaining_nanos_held }
                &&& remaining_nanos == remaining_nanos_held
            },
            ShutdownPhaseView::Done => value is Done,
            ShutdownPhaseView::Failed { message } => {
                &&& value matches ShutdownPhase::Failed { message: message_held }
                &&& message == message_held@
            },
        },
{
}

/// The model of an event of a shutdown holds what the value holds.
pub proof fn law_model_of_shutdown_event(value: ShutdownEvent)
    ensures
        match value@ {
            ShutdownEventView::Asked { sent } => {
                &&& value matches ShutdownEvent::Asked { sent: sent_held }
                &&& sent == sent_held
            },
            ShutdownEventView::Elapsed { nanos } => {
                &&& value matches ShutdownEvent::Elapsed { nanos: nanos_held }
                &&& nanos == nanos_held
            },
            ShutdownEventView::ShutdownComplete => value is ShutdownComplete,
            ShutdownEventView::OtherEvent => value is OtherEvent,
            ShutdownEventView::EventError { error } => {
                &&& value matches ShutdownEvent::EventError { error: error_held }
                &&& error == error_held@
            },
            ShutdownEventView::TimedOut => value is TimedOut,
        },
{
}

/// The model of an error of a launch holds what the value holds.
pub proof fn law_model_of_launch_error(value: LaunchError)
    ensures
        match value@ {
            LaunchErrorView::Overrides { error } => {
                &&& value matches LaunchError::Overrides { error: error_held }
                &&& error == error_held@
            },
            LaunchErrorView::Directory { error } => {
                &&& value matches LaunchError::Directory { error: error_held }
                &&& error == error_held@
            },
            LaunchErrorView::CodexHome { error } => {
                &&& value matches LaunchError::CodexHome { error: error_held }
                &&& error == error_held@
            },
            LaunchErrorView::ConfigToml { error } => {
                &&& value matches LaunchError::ConfigToml { error: error_held }
                &&& error == error_held@
            },
            LaunchErrorView::NoOssProvider => value is NoOssProvider,
            LaunchErrorView::Config { error } => {
                &&& value matches LaunchError::Config { error: error_held }
                &&& error == error_held@
            },
            LaunchErrorView::Login { error } => {
                &&& value matches LaunchError::Login { error: error_held }
                &&& error == error_held@
            },
            LaunchErrorView::OssProviderNotSet => value is OssProviderNotSet,
            LaunchErrorView::OssSetup { error } => {
                &&& value matches LaunchError::OssSetup { error: error_held }
                &&& error == error_held@
            },
            LaunchErrorView::UntrustedDirectory => value is UntrustedDirectory,
            LaunchErrorView::Agent { error } => {
                &&& value matches LaunchError::Agent { error: error_held }
                &&& error == error_held@
            },
        },
{
}

/// The model of the options of a launch holds what the value holds.
pub proof fn law_model_of_launch_options<P>(value: LaunchOptions<P>)
    ensures
        value@.model == value.model.deep_view(),
        value@.oss == value.oss,
        value@.oss_provider == value.oss_provider.deep_view(),
        value@.config_profile == value.config_profile.deep_view(),
        value@.full_auto == value.full_auto,
        value@.dangerously_bypass_approvals_and_sandbox == value.dangerously_bypass_approvals_and_sandbox,
        value@.skip_git_repo_check == value.skip_git_repo_check,
        value@.sandbox_mode == value.sandbox_mode,
        value@.cwd == value.cwd,
        value@.add_dir == value.add_dir@,
        value@.codex_linux_sandbox_exe == value.codex_linux_sandbox_exe,
{
}

/// The model of what the configuration is asked for holds what the value holds.
pub proof fn law_model_of_config_overrides<P>(value: ConfigOverrides<P>)
    ensures
        value@.model == value.model.deep_view(),
        value@.config_profile == value.config_profile.deep_view(),
        value@.approval_policy == value.approval_policy,
        value@.sandbox_mode == value.sandbox_mode,
        value@.cwd == value.cwd,
        value@.model_provider == value.model_provider.deep_view(),
        value@.codex_linux_sandbox_exe == value.codex_linux_sandbox_exe,
        value@.show_raw_agent_reasoning == value.show_raw_agent_reasoning,
        value@.additional_writable_roots == value.additional_writable_roots@,
{
}

/// The model of the result of a step holds what the value holds.
pub proof fn law_model_of_launch_event(value: LaunchEvent)
    ensures
        match value@ {
            LaunchEventView::Succeeded => value is Succeeded,
            LaunchEventView::Failed { error } => {
                &&& value matches LaunchEvent::Failed { error: error_held }
                &&& error == error_held@
            },
            LaunchEventView::Provider { resolved } => {
                &&& value matches LaunchEvent::Provider { resolved: resolved_held }
                &&& resolved == resolved_held.deep_view()
            },
            LaunchEventView::DefaultModel { model } => {
                &&& value matches LaunchEvent::DefaultModel { model: model_held }
                &&& model == model_held.deep_view()
            },
            LaunchEventView::Repository { found } => {
                &&& value matches LaunchEvent::Repository { found: found_held }
                &&& found == found_held
            },
        },
{
}

/// The model of a step of a launch holds what the value holds.
pub proof fn law_model_of_launch_command<P>(value: LaunchCommand<P>)
    ensures
        match value@ {
            LaunchCommandView::ParseOverrides => value is ParseOverrides,
            LaunchCommandView::ResolveDirectory { cwd } => {
                &&& value matches LaunchCommand::ResolveDirectory { cwd: cwd_held }
                &&& cwd == cwd_held
            },
            LaunchCommandView::FindCodexHome => value is FindCodexHome,
            LaunchCommandView::LoadConfigToml => value is LoadConfigToml,
            LaunchCommandView::ResolveProvider { named, config_profile } => {
                &&& value matches LaunchCommand::ResolveProvider {
                    named: named_held,
                    config_profile: config_profile_held,
                }
                &&& named == named_held.deep_view()
                &&& config_profile == config_profile_held.deep_view()
            },
            LaunchCommandView::LookUpDefaultModel { provider } => {
                &&& value matches LaunchCommand::LookUpDefaultModel { provider: provider_held }
                &&& provider == provider_held@
            },
            LaunchCommandView::LoadConfig { overrides } => {
                &&& value matches LaunchCommand::LoadConfig { overrides: overrides_held }
                &&& overrides == overrides_held@
            },
            LaunchCommandView::CheckLogin => value is CheckLogin,
            LaunchCommandView::PrepareProvider { provider } => {
                &&& value matches LaunchCommand::PrepareProvider { provider: provider_held }
                &&& provider == provider_held@
            },
            LaunchCommandView::FindRepository => value is FindRepository,
            LaunchCommandView::StartAgent => value is StartAgent,
            LaunchCommandView::StartSession => value is StartSession,
            LaunchCommandView::Fail { error } => {
                &&& value matches LaunchCommand::Fail { error: error_held }
                &&& error == error_held@
            },
        },
{
}

/// The model of a launch holds what the value holds.
pub proof fn law_model_of_launch<P>(value: Launch<P>)
    ensures
        value@.options == value.options@,
        value@.provider == value.provider.deep_view(),
        value@.phase == value.phase,
{
}

} // verus!
