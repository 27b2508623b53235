use vuhlp::protocol::{
    ApprovalResolution, ApprovalStatus, VuhlpContentPart, VuhlpInput, VuhlpMessage, VuhlpOutput,
};
use vuhlp::session::{
    error_final, Session, SessionCommand, SessionEvent, SessionPhase, SessionStep,
};
use vuhlp::turn::TurnOutcome;

fn s(text: &str) -> String {
    text.to_string()
}

fn user(text: &str) -> SessionEvent<char> {
    SessionEvent::Parsed {
        input: VuhlpInput::User {
            message: VuhlpMessage {
                role: s("user"),
                content: vec![VuhlpContentPart::Text { text: s(text) }],
            },
        },
    }
}

fn step(session: &mut Session<char>, event: SessionEvent<char>) -> SessionStep {
    assert!(session.accepts(&event));
    session.step(event)
}

fn in_phase(phase: SessionPhase) -> Session<char> {
    Session { agent: 'a', phase }
}

fn error_answer(text: &str) -> Vec<VuhlpOutput> {
    vec![VuhlpOutput::AssistantFinal { content: s(text) }, VuhlpOutput::MessageStop]
}

#[test]
fn new_sessions_read() {
    let session = Session::new('a');
    assert_eq!(session.phase, SessionPhase::Reading);
    assert_eq!(session.agent, 'a');
}

#[test]
fn blank_lines_read_on() {
    let mut session = Session::new('a');
    let next = step(&mut session, SessionEvent::Line { line: s(" \r") });
    assert_eq!(next, SessionStep { outputs: vec![], command: SessionCommand::ReadLine });
    assert_eq!(session.phase, SessionPhase::Reading);
}

#[test]
fn resets_replace_the_agent() {
    for (line, in_order) in [("/clear ", true), ("/new", false)] {
        let mut session = Session::new('a');
        let next = step(&mut session, SessionEvent::Line { line: s(line) });
        assert_eq!(next, SessionStep { outputs: vec![], command: SessionCommand::StopAgent });
        assert_eq!(session, Session { agent: 'a', phase: SessionPhase::Resetting });
        let next = step(&mut session, SessionEvent::Stopped { in_order });
        assert_eq!(next, SessionStep { outputs: vec![], command: SessionCommand::StartAgent });
        assert_eq!(session, Session { agent: 'a', phase: SessionPhase::Restarting });
        let next = step(&mut session, SessionEvent::Started { agent: 'b' });
        assert_eq!(next, SessionStep { outputs: vec![], command: SessionCommand::ReadLine });
        assert_eq!(session, Session { agent: 'b', phase: SessionPhase::Reading });
    }
}

#[test]
fn later_turns_go_to_the_new_agent() {
    let mut session = Session::new('a');
    let events = vec![
        SessionEvent::Line { line: s("/new") },
        SessionEvent::Stopped { in_order: false },
        SessionEvent::Started { agent: 'b' },
        SessionEvent::Line { line: s("{}") },
        user("p"),
    ];
    for event in events {
        step(&mut session, event);
    }
    assert_eq!(session, Session { agent: 'b', phase: SessionPhase::InTurn });
}

#[test]
fn a_restart_that_fails_ends_the_session() {
    let mut session = in_phase(SessionPhase::Restarting);
    let next = step(&mut session, SessionEvent::StartFailed);
    assert_eq!(next, SessionStep { outputs: vec![], command: SessionCommand::Exit { failed: true } });
    assert_eq!(session, Session { agent: 'a', phase: SessionPhase::Ended });
}

#[test]
fn a_line_that_cannot_be_read_ends_the_session() {
    let mut session = Session::new('a');
    let next = step(&mut session, SessionEvent::ReadFailed);
    assert_eq!(next, SessionStep { outputs: vec![], command: SessionCommand::Exit { failed: true } });
    assert_eq!(session.phase, SessionPhase::Ended);
}

#[test]
fn messages_run_turns() {
    let mut session = Session::new('a');
    let next = step(&mut session, SessionEvent::Line { line: s(" {} ") });
    assert_eq!(next.command, SessionCommand::ParseMessage { text: s("{}") });
    let next = step(&mut session, user("hi"));
    assert_eq!(next.command, SessionCommand::RunTurn { prompt: s("hi") });
    assert!(next.outputs.is_empty());
    let next = step(
        &mut session,
        SessionEvent::TurnEnded { outcome: TurnOutcome::Completed },
    );
    assert_eq!(next.outputs, vec![VuhlpOutput::MessageStop]);
    assert_eq!(next.command, SessionCommand::ReadLine);
}

#[test]
fn lines_that_are_no_messages_are_answered() {
    let mut session = in_phase(SessionPhase::Parsing);
    let next = step(&mut session, SessionEvent::ParseFailed { error: s("EOF") });
    assert_eq!(next.outputs, error_answer("Invalid JSON input: EOF"));
    assert_eq!(next.command, SessionCommand::ReadLine);
    assert_eq!(session.phase, SessionPhase::Reading);
}

#[test]
fn messages_without_text_are_answered() {
    let mut session = in_phase(SessionPhase::Parsing);
    let next = step(&mut session, user(""));
    assert_eq!(next.outputs, error_answer("Error: user message missing text content"));
    assert_eq!(next.command, SessionCommand::ReadLine);
}

#[test]
fn approvals_between_turns_are_ignored() {
    let mut session = in_phase(SessionPhase::Parsing);
    let input = VuhlpInput::ApprovalResolved {
        approval_id: s("a:b"),
        resolution: ApprovalResolution { status: ApprovalStatus::Approved, modified_args: None },
    };
    let next = step(&mut session, SessionEvent::Parsed { input });
    assert_eq!(next, SessionStep { outputs: vec![], command: SessionCommand::ReadLine });
}

#[test]
fn session_end_and_end_of_input_stop_the_agent() {
    for (phase, event, in_order) in [
        (SessionPhase::Reading, SessionEvent::EndOfInput, false),
        (SessionPhase::Parsing, SessionEvent::Parsed { input: VuhlpInput::SessionEnd }, true),
    ] {
        let mut session = in_phase(phase);
        let next = step(&mut session, event);
        assert_eq!(next, SessionStep { outputs: vec![], command: SessionCommand::StopAgent });
        let next = step(&mut session, SessionEvent::Stopped { in_order });
        assert_eq!(
            next,
            SessionStep { outputs: vec![], command: SessionCommand::Exit { failed: false } }
        );
        assert_eq!(session.phase, SessionPhase::Ended);
    }
}

#[test]
fn failed_turns_end_the_session() {
    let mut session = in_phase(SessionPhase::InTurn);
    let next = step(&mut session, SessionEvent::TurnFailed { error: s("gone") });
    assert_eq!(next.outputs, error_answer("Error: gone"));
    assert_eq!(next.command, SessionCommand::Exit { failed: true });
    assert_eq!(session.phase, SessionPhase::Ended);
}

#[test]
fn shutdown_in_a_turn_ends_the_session() {
    let mut session = in_phase(SessionPhase::InTurn);
    let next = step(&mut session, SessionEvent::TurnEnded { outcome: TurnOutcome::Shutdown });
    assert_eq!(next.outputs, vec![VuhlpOutput::MessageStop]);
    assert_eq!(next.command, SessionCommand::Exit { failed: false });
}

#[test]
fn events_are_accepted_where_they_are_awaited() {
    let phases = [
        SessionPhase::Reading,
        SessionPhase::Parsing,
        SessionPhase::InTurn,
        SessionPhase::Resetting,
        SessionPhase::Restarting,
        SessionPhase::Stopping,
        SessionPhase::Ended,
    ];
    for (event, awaited) in [
        (SessionEvent::Line { line: s("") }, SessionPhase::Reading),
        (SessionEvent::EndOfInput, SessionPhase::Reading),
        (SessionEvent::ReadFailed, SessionPhase::Reading),
        (user(""), SessionPhase::Parsing),
        (SessionEvent::ParseFailed { error: s("") }, SessionPhase::Parsing),
        (SessionEvent::TurnEnded { outcome: TurnOutcome::Completed }, SessionPhase::InTurn),
        (SessionEvent::TurnFailed { error: s("") }, SessionPhase::InTurn),
        (SessionEvent::Started { agent: 'b' }, SessionPhase::Restarting),
        (SessionEvent::StartFailed, SessionPhase::Restarting),
    ] {
        for phase in phases {
            assert_eq!(in_phase(phase).accepts(&event), phase == awaited);
        }
    }
    for phase in phases {
        assert_eq!(
            in_phase(phase).accepts(&SessionEvent::Stopped { in_order: true }),
            phase == SessionPhase::Resetting || phase == SessionPhase::Stopping
        );
    }
}

#[test]
fn each_message_gets_one_stop() {
    let mut session = Session::new('a');
    let mut stops = 0;
    let events = vec![
        SessionEvent::Line { line: s("") },
        SessionEvent::Line { line: s("x") },
        SessionEvent::ParseFailed { error: s("e") },
        SessionEvent::Line { line: s("{}") },
        user(""),
        SessionEvent::Line { line: s("{}") },
        user("p"),
        SessionEvent::TurnEnded { outcome: TurnOutcome::Completed },
        SessionEvent::Line { line: s("/new") },
        SessionEvent::Stopped { in_order: true },
        SessionEvent::Started { agent: 'b' },
        SessionEvent::EndOfInput,
        SessionEvent::Stopped { in_order: true },
    ];
    for event in events {
        let next = step(&mut session, event);
        stops += next.outputs.iter().filter(|o| **o == VuhlpOutput::MessageStop).count();
    }
    assert_eq!(stops, 3);
}

#[test]
fn errors_are_final_messages() {
    assert_eq!(error_final(s("x")), VuhlpOutput::AssistantFinal { content: s("x") });
}

#[test]
fn ignored_lines_change_nothing() {
    let approval = || SessionEvent::Parsed {
        input: VuhlpInput::ApprovalResolved {
            approval_id: s("a:b"),
            resolution: ApprovalResolution { status: ApprovalStatus::Denied, modified_args: None },
        },
    };
    for ignored in [
        vec![],
        vec![SessionEvent::Line { line: s("  ") }],
        vec![SessionEvent::Line { line: s("{}") }, approval()],
    ] {
        let mut session = Session::new('a');
        for event in ignored {
            assert!(step(&mut session, event).outputs.is_empty());
        }
        assert_eq!(session, Session::new('a'));
        step(&mut session, SessionEvent::Line { line: s("{}") });
        assert_eq!(
            step(&mut session, user("hi")).command,
            SessionCommand::RunTurn { prompt: s("hi") }
        );
    }
}
