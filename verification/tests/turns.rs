use vuhlp::protocol::{
    ApprovalResolution, ApprovalStatus, ToolArgs, VuhlpInput, VuhlpMessage, VuhlpOutput,
    VuhlpToolCall, VuhlpUsage,
};
use vuhlp::turn::{
    abort_text, approval_id, elicitation_decision, stream_error_text, ApprovalReply, ApprovalStep,
    ElicitationAction, IgnoredReply, TokenUsage, Turn, TurnAbortReason, TurnEvent, TurnOutcome,
    TurnPhase, TurnState,
};

fn s(text: &str) -> String {
    text.to_string()
}

fn final_answer(content: &str) -> VuhlpOutput {
    VuhlpOutput::AssistantFinal { content: s(content) }
}

fn final_thinking(content: &str) -> VuhlpOutput {
    VuhlpOutput::ThinkingFinal { content: s(content) }
}

fn delta(text: &str) -> TurnEvent {
    TurnEvent::AgentMessageContentDelta { delta: s(text) }
}

fn complete(last: Option<&str>) -> TurnEvent {
    TurnEvent::TurnComplete { last_agent_message: last.map(s) }
}

fn request(server: &str, id: &str) -> TurnEvent {
    TurnEvent::ElicitationRequest { server_name: s(server), request_id: s(id), message: s("ok?") }
}

fn answer(id: &str, status: ApprovalStatus, args: Option<&str>) -> ApprovalReply {
    ApprovalReply::Input {
        input: VuhlpInput::ApprovalResolved {
            approval_id: s(id),
            resolution: ApprovalResolution { status, modified_args: args.map(s) },
        },
    }
}

/// Feeds the events to a new turn and returns all that it sends until it is closed.
fn played(events: Vec<TurnEvent>) -> Vec<VuhlpOutput> {
    let mut turn = Turn::new();
    let mut outputs = Vec::new();
    for event in events {
        assert_eq!(turn.phase, TurnPhase::Streaming);
        outputs.extend(turn.on_event(event));
    }
    assert_eq!(turn.phase, TurnPhase::Closing);
    outputs.extend(turn.close());
    assert_eq!(turn.outcome(), Some(TurnOutcome::Completed));
    outputs
}

#[test]
fn new_turn_is_empty() {
    let turn = Turn::new();
    assert_eq!(turn.state, TurnState::default());
    assert_eq!(turn.state.content, "");
    assert!(!turn.state.saw_final && !turn.state.saw_thinking_final);
    assert_eq!(turn.last_usage, None);
    assert_eq!(turn.phase, TurnPhase::Streaming);
    assert_eq!(turn.outcome(), None);
}

#[test]
fn streamed_answer_is_closed_with_what_was_streamed() {
    assert_eq!(
        played(vec![delta("Hel"), delta("lo"), complete(None)]),
        vec![
            VuhlpOutput::AssistantDelta { delta: s("Hel") },
            VuhlpOutput::AssistantDelta { delta: s("lo") },
            final_answer("Hello"),
        ]
    );
}

#[test]
fn only_the_first_final_message_is_sent() {
    let events = vec![
        TurnEvent::AgentMessage { message: s("one") },
        TurnEvent::AgentMessage { message: s("two") },
        complete(Some("three")),
    ];
    assert_eq!(played(events), vec![final_answer("one")]);
}

#[test]
fn final_message_replaces_the_content() {
    let mut turn = Turn::new();
    turn.on_event(delta("x"));
    turn.on_event(TurnEvent::AgentMessage { message: s("one") });
    assert_eq!(turn.state.content, "one");
    assert!(turn.on_event(TurnEvent::AgentMessage { message: s("two") }).is_empty());
    assert_eq!(turn.state.content, "two");
}

#[test]
fn both_kinds_of_reasoning_are_thinking() {
    let events = vec![
        TurnEvent::ReasoningContentDelta { delta: s("a") },
        TurnEvent::ReasoningRawContentDelta { delta: s("b") },
        complete(Some("done")),
    ];
    assert_eq!(
        played(events),
        vec![
            VuhlpOutput::ThinkingDelta { delta: s("a") },
            VuhlpOutput::ThinkingDelta { delta: s("b") },
            final_thinking("ab"),
            final_answer("done"),
        ]
    );
}

#[test]
fn only_the_first_final_reasoning_is_sent() {
    let events = vec![
        TurnEvent::AgentReasoningRawContent { text: s("r1") },
        TurnEvent::AgentReasoning { text: s("r2") },
        complete(Some("done")),
    ];
    assert_eq!(played(events), vec![final_thinking("r1"), final_answer("done")]);
}

#[test]
fn empty_final_reasoning_is_sent_once() {
    let events = vec![
        TurnEvent::AgentReasoning { text: s("") },
        TurnEvent::ReasoningContentDelta { delta: s("later") },
        complete(Some("done")),
    ];
    assert_eq!(
        played(events),
        vec![
            final_thinking(""),
            VuhlpOutput::ThinkingDelta { delta: s("later") },
            final_answer("done"),
        ]
    );
}

#[test]
fn message_at_the_end_comes_before_streamed_text() {
    assert_eq!(
        played(vec![delta("streamed"), complete(Some("last"))])[1],
        final_answer("last")
    );
    assert_eq!(played(vec![delta("streamed"), complete(Some(""))])[1], final_answer(""));
}

#[test]
fn nothing_at_all_has_a_stand_in() {
    assert_eq!(played(vec![complete(None)]), vec![final_answer("No response from Codex.")]);
}

#[test]
fn errors_come_before_any_other_answer() {
    let events = vec![delta("x"), TurnEvent::Error { message: s("boom") }, complete(Some("y"))];
    assert_eq!(played(events)[1], final_answer("Error: boom"));
}

#[test]
fn last_error_counts() {
    let events = vec![
        TurnEvent::Error { message: s("first") },
        TurnEvent::StreamError { message: s("second"), additional_details: Some(s("why")) },
        complete(None),
    ];
    assert_eq!(played(events), vec![final_answer("Error: second (why)")]);
}

#[test]
fn errors_after_a_final_message_are_not_sent() {
    let events = vec![
        TurnEvent::AgentMessage { message: s("fine") },
        TurnEvent::Error { message: s("boom") },
        complete(None),
    ];
    assert_eq!(played(events), vec![final_answer("fine")]);
}

#[test]
fn aborted_turns_say_why() {
    for (reason, text) in [
        (TurnAbortReason::Interrupted, "turn interrupted"),
        (TurnAbortReason::Replaced, "turn replaced"),
        (TurnAbortReason::ReviewEnded, "review ended"),
    ] {
        assert_eq!(abort_text(reason), text);
        assert_eq!(
            played(vec![TurnEvent::TurnAborted { reason }]),
            vec![final_answer(&format!("Error: {text}"))]
        );
    }
}

#[test]
fn stream_error_details_are_bracketed() {
    assert_eq!(stream_error_text(s("m"), None), "m");
    assert_eq!(stream_error_text(s("m"), Some(s(""))), "m");
    assert_eq!(stream_error_text(s("m"), Some(s("d"))), "m (d)");
}

#[test]
fn other_events_do_nothing() {
    let mut turn = Turn::new();
    assert!(turn.on_event(TurnEvent::Other).is_empty());
    assert_eq!(turn, Turn::new());
}

#[test]
fn shutdown_ends_a_turn_without_an_answer() {
    let mut turn = Turn::new();
    turn.on_event(delta("x"));
    assert!(turn.on_event(TurnEvent::ShutdownComplete).is_empty());
    assert_eq!(turn.phase, TurnPhase::ShutDown);
    assert_eq!(turn.outcome(), Some(TurnOutcome::Shutdown));
}

#[test]
fn approval_requests_are_proposed_first() {
    let mut turn = Turn::new();
    let tool = VuhlpToolCall {
        id: s("srv:Integer(7)"),
        name: s("srv"),
        args: Some(ToolArgs { message: s("ok?") }),
    };
    assert_eq!(
        turn.on_event(request("srv", "Integer(7)")),
        vec![
            VuhlpOutput::ToolProposed { tool: tool.clone() },
            VuhlpOutput::ApprovalRequested { approval_id: s("srv:Integer(7)"), tool },
        ]
    );
    assert_eq!(
        turn.phase,
        TurnPhase::AwaitingApproval { server_name: s("srv"), request_id: s("Integer(7)") }
    );
    assert_eq!(turn.outcome(), None);
}

#[test]
fn approval_ids_name_server_and_request() {
    assert_eq!(approval_id("a", "b"), "a:b");
    assert_eq!(approval_id("", ""), ":");
}

#[test]
fn answers_settle_the_open_request() {
    for (status, decision) in [
        (ApprovalStatus::Approved, ElicitationAction::Accept),
        (ApprovalStatus::Denied, ElicitationAction::Decline),
        (ApprovalStatus::Modified, ElicitationAction::Accept),
    ] {
        let resolution = ApprovalResolution { status, modified_args: None };
        assert_eq!(elicitation_decision(&resolution), decision);
        for args in [None, Some("{}")] {
            let mut turn = Turn::new();
            turn.on_event(request("srv", "1"));
            assert_eq!(
                turn.on_reply(answer("srv:1", status, args)),
                ApprovalStep::Resolve { server_name: s("srv"), request_id: s("1"), decision }
            );
            assert_eq!(turn, Turn::new());
        }
    }
}

#[test]
fn end_of_input_and_session_end_cancel() {
    for reply in [
        ApprovalReply::EndOfInput,
        ApprovalReply::Input { input: VuhlpInput::SessionEnd },
    ] {
        let mut turn = Turn::new();
        turn.on_event(request("srv", "1"));
        assert_eq!(
            turn.on_reply(reply),
            ApprovalStep::Resolve {
                server_name: s("srv"),
                request_id: s("1"),
                decision: ElicitationAction::Cancel,
            }
        );
        assert_eq!(turn.phase, TurnPhase::Streaming);
    }
}

#[test]
fn other_replies_are_ignored() {
    let user = VuhlpInput::User { message: VuhlpMessage { role: s("user"), content: vec![] } };
    for (reply, why) in [
        (ApprovalReply::Blank, IgnoredReply::Blank),
        (ApprovalReply::Invalid, IgnoredReply::Invalid),
        (ApprovalReply::Input { input: user }, IgnoredReply::UserMessage),
        (answer("srv:2", ApprovalStatus::Approved, None), IgnoredReply::OtherApproval),
    ] {
        let mut turn = Turn::new();
        turn.on_event(request("srv", "1"));
        assert_eq!(turn.on_reply(reply), ApprovalStep::KeepWaiting { why });
        assert_eq!(
            turn.phase,
            TurnPhase::AwaitingApproval { server_name: s("srv"), request_id: s("1") }
        );
    }
}

#[test]
fn requests_are_settled_in_order() {
    let mut turn = Turn::new();
    let mut settled = Vec::new();
    for id in ["1", "2"] {
        turn.on_event(request("srv", id));
        turn.on_reply(answer("srv:0", ApprovalStatus::Denied, None));
        let step = turn.on_reply(answer(&approval_id("srv", id), ApprovalStatus::Denied, None));
        if let ApprovalStep::Resolve { request_id, decision, .. } = step {
            assert_eq!(decision, ElicitationAction::Decline);
            settled.push(request_id);
        }
    }
    assert_eq!(settled, vec![s("1"), s("2")]);
}

#[test]
fn last_token_counts_are_reported() {
    let counts = |n: i64| TokenUsage {
        input_tokens: n,
        output_tokens: 2 * n,
        reasoning_output_tokens: 3 * n,
        total_tokens: 7 * n,
    };
    let mut turn = Turn::new();
    assert_eq!(turn.usage_report("m"), None);
    turn.on_event(TurnEvent::TokenCount { last_token_usage: Some(counts(1)) });
    turn.on_event(TurnEvent::TokenCount { last_token_usage: Some(counts(10)) });
    turn.on_event(TurnEvent::TokenCount { last_token_usage: None });
    assert!(turn.has_sendable_usage());
    assert_eq!(
        turn.usage_report("gpt"),
        Some(VuhlpOutput::TelemetryUsage {
            provider: "codex",
            model: s("gpt"),
            usage: VuhlpUsage { input_tokens: 10, output_tokens: 50, total_tokens: 70 },
        })
    );
}

#[test]
fn token_counts_that_do_not_fit_are_noticed() {
    let mut turn = Turn::new();
    assert!(turn.has_sendable_usage());
    for (output_tokens, reasoning_output_tokens, fits) in [
        (i64::MAX, 0, true),
        (i64::MAX, 1, false),
        (i64::MIN, -1, false),
        (i64::MIN, i64::MAX, true),
    ] {
        turn.on_event(TurnEvent::TokenCount {
            last_token_usage: Some(TokenUsage {
                input_tokens: 0,
                output_tokens,
                reasoning_output_tokens,
                total_tokens: 0,
            }),
        });
        assert_eq!(turn.has_sendable_usage(), fits);
    }
}

#[test]
fn finished_turns_report_tokens_last() {
    let mut turn = Turn::new();
    turn.on_event(TurnEvent::ReasoningContentDelta { delta: s("hm") });
    turn.on_event(TurnEvent::TokenCount {
        last_token_usage: Some(TokenUsage {
            input_tokens: 1,
            output_tokens: 2,
            reasoning_output_tokens: 3,
            total_tokens: 6,
        }),
    });
    turn.on_event(complete(Some("done")));
    assert_eq!(
        turn.finish("gpt"),
        vec![
            final_thinking("hm"),
            final_answer("done"),
            VuhlpOutput::TelemetryUsage {
                provider: "codex",
                model: s("gpt"),
                usage: VuhlpUsage { input_tokens: 1, output_tokens: 5, total_tokens: 6 },
            },
        ]
    );
    assert_eq!(turn.outcome(), Some(TurnOutcome::Completed));
}

#[test]
fn deltas_are_passed_on_one_for_one() {
    let outputs = played(vec![
        delta("a"),
        TurnEvent::ReasoningRawContentDelta { delta: s("r") },
        delta(""),
        delta("a"),
        TurnEvent::AgentMessage { message: s("whole") },
        delta("late"),
        complete(None),
    ]);
    let deltas: Vec<VuhlpOutput> = outputs
        .into_iter()
        .filter(|o| {
            matches!(o, VuhlpOutput::AssistantDelta { .. } | VuhlpOutput::ThinkingDelta { .. })
        })
        .collect();
    assert_eq!(
        deltas,
        vec![
            VuhlpOutput::AssistantDelta { delta: s("a") },
            VuhlpOutput::ThinkingDelta { delta: s("r") },
            VuhlpOutput::AssistantDelta { delta: s("") },
            VuhlpOutput::AssistantDelta { delta: s("a") },
            VuhlpOutput::AssistantDelta { delta: s("late") },
        ]
    );
}

#[test]
fn turns_without_counts_report_no_tokens() {
    let mut turn = Turn::new();
    turn.on_event(TurnEvent::TokenCount { last_token_usage: None });
    turn.on_event(complete(Some("done")));
    assert_eq!(turn.finish("gpt"), vec![final_answer("done")]);
}
