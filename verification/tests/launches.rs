use vuhlp::launch::{
    model_override, needs_default_model, sandbox_mode, show_raw_agent_reasoning, AskForApproval,
    ConfigOverrides, Launch, LaunchCommand, LaunchError, LaunchEvent, LaunchOptions, LaunchPhase,
    SandboxMode,
};

fn s(text: &str) -> String {
    text.to_string()
}

fn options() -> LaunchOptions<&'static str> {
    LaunchOptions {
        model: None,
        oss: false,
        oss_provider: None,
        config_profile: None,
        full_auto: false,
        dangerously_bypass_approvals_and_sandbox: false,
        skip_git_repo_check: false,
        sandbox_mode: None,
        cwd: None,
        add_dir: vec![],
        codex_linux_sandbox_exe: None,
    }
}

fn overrides() -> ConfigOverrides<&'static str> {
    ConfigOverrides {
        model: None,
        config_profile: None,
        approval_policy: Some(AskForApproval::Never),
        sandbox_mode: None,
        cwd: None,
        model_provider: None,
        codex_linux_sandbox_exe: None,
        show_raw_agent_reasoning: None,
        additional_writable_roots: vec![],
    }
}

fn ok() -> LaunchEvent {
    LaunchEvent::Succeeded
}

fn failed() -> LaunchEvent {
    LaunchEvent::Failed { error: s("why") }
}

/// All the steps of a launch whose steps have these results.
fn steps(options: LaunchOptions<&'static str>, events: Vec<LaunchEvent>) -> Vec<LaunchCommand<&'static str>> {
    let (mut launch, first) = Launch::new(options);
    let mut commands = vec![first];
    for event in events {
        assert!(launch.accepts(&event));
        commands.push(launch.step(event));
    }
    commands
}

fn last(options: LaunchOptions<&'static str>, events: Vec<LaunchEvent>) -> LaunchCommand<&'static str> {
    steps(options, events).pop().unwrap()
}

#[test]
fn steps_come_in_order() {
    let commands = steps(
        options(),
        vec![ok(), ok(), ok(), ok(), ok(), ok(), LaunchEvent::Repository { found: true }, ok()],
    );
    assert_eq!(
        commands,
        vec![
            LaunchCommand::ParseOverrides,
            LaunchCommand::ResolveDirectory { cwd: None },
            LaunchCommand::FindCodexHome,
            LaunchCommand::LoadConfigToml,
            LaunchCommand::LoadConfig { overrides: overrides() },
            LaunchCommand::CheckLogin,
            LaunchCommand::FindRepository,
            LaunchCommand::StartAgent,
            LaunchCommand::StartSession,
        ]
    );
}

#[test]
fn local_providers_are_found_and_prepared() {
    let commands = steps(
        LaunchOptions {
            oss: true,
            oss_provider: Some(s("lmstudio")),
            config_profile: Some(s("work")),
            skip_git_repo_check: true,
            ..options()
        },
        vec![
            ok(),
            ok(),
            ok(),
            ok(),
            LaunchEvent::Provider { resolved: Some(s("ollama")) },
            LaunchEvent::DefaultModel { model: Some(s("gpt-oss")) },
            ok(),
            ok(),
            ok(),
            ok(),
        ],
    );
    assert_eq!(
        commands[4..],
        [
            LaunchCommand::ResolveProvider {
                named: Some(s("lmstudio")),
                config_profile: Some(s("work")),
            },
            LaunchCommand::LookUpDefaultModel { provider: s("ollama") },
            LaunchCommand::LoadConfig {
                overrides: ConfigOverrides {
                    model: Some(s("gpt-oss")),
                    config_profile: Some(s("work")),
                    model_provider: Some(s("ollama")),
                    show_raw_agent_reasoning: Some(true),
                    ..overrides()
                },
            },
            LaunchCommand::CheckLogin,
            LaunchCommand::PrepareProvider { provider: s("ollama") },
            LaunchCommand::StartAgent,
            LaunchCommand::StartSession,
        ]
    );
}

#[test]
fn named_models_need_no_default() {
    let command = last(
        LaunchOptions { oss: true, model: Some(s("mine")), ..options() },
        vec![ok(), ok(), ok(), ok(), LaunchEvent::Provider { resolved: Some(s("p")) }],
    );
    match command {
        LaunchCommand::LoadConfig { overrides } => {
            assert_eq!(overrides.model, Some(s("mine")));
            assert_eq!(overrides.model_provider, Some(s("p")));
        }
        other => panic!("{other:?}"),
    }
}

#[test]
fn missing_local_provider_fails() {
    let command = last(
        LaunchOptions { oss: true, ..options() },
        vec![ok(), ok(), ok(), ok(), LaunchEvent::Provider { resolved: None }],
    );
    assert_eq!(command, LaunchCommand::Fail { error: LaunchError::NoOssProvider });
    assert!(!LaunchError::NoOssProvider.exits());
    assert_eq!(
        LaunchError::NoOssProvider.message(),
        "No default OSS provider configured. Use --local-provider=provider or set oss_provider in config.toml"
    );
}

#[test]
fn directories_outside_repositories_fail() {
    let command = last(
        options(),
        vec![ok(), ok(), ok(), ok(), ok(), ok(), LaunchEvent::Repository { found: false }],
    );
    assert_eq!(command, LaunchCommand::Fail { error: LaunchError::UntrustedDirectory });
    assert!(LaunchError::UntrustedDirectory.exits());
    assert_eq!(
        LaunchError::UntrustedDirectory.message(),
        "Not inside a trusted directory and --skip-git-repo-check was not specified."
    );
}

#[test]
fn failed_steps_say_what_failed() {
    let why = || s("why");
    let cases = vec![
        (0, LaunchError::Overrides { error: why() }, "Error parsing -c overrides: why", true),
        (1, LaunchError::Directory { error: why() }, "why", false),
        (2, LaunchError::CodexHome { error: why() }, "Error finding codex home: why", true),
        (3, LaunchError::ConfigToml { error: why() }, "Error loading config.toml: why", true),
        (4, LaunchError::Config { error: why() }, "why", false),
        (5, LaunchError::Login { error: why() }, "why", true),
        (6, LaunchError::Agent { error: why() }, "why", false),
    ];
    for (done, error, message, exits) in cases {
        let mut events: Vec<LaunchEvent> = (0..done).map(|_| ok()).collect();
        events.push(failed());
        assert_eq!(error.message(), message);
        assert_eq!(error.exits(), exits);
        assert_eq!(
            last(LaunchOptions { skip_git_repo_check: true, ..options() }, events),
            LaunchCommand::Fail { error }
        );
    }
}

#[test]
fn providers_that_are_not_ready_fail() {
    let (mut launch, _) = Launch::new(LaunchOptions { oss: true, ..options() });
    launch.provider = Some(s("p"));
    launch.phase = LaunchPhase::OssSetup;
    let error = LaunchError::OssSetup { error: s("why") };
    assert_eq!(error.message(), "OSS setup failed: why");
    assert!(!error.exits());
    assert_eq!(launch.step(failed()), LaunchCommand::Fail { error });
    assert_eq!(launch.phase, LaunchPhase::Failed);
}

#[test]
fn provider_that_was_never_set_fails() {
    let (mut launch, _) = Launch::new(LaunchOptions { oss: true, ..options() });
    launch.phase = LaunchPhase::Login;
    let error = LaunchError::OssProviderNotSet;
    assert_eq!(error.message(), "OSS provider not set but oss flag was used");
    assert!(!error.exits());
    assert_eq!(launch.step(ok()), LaunchCommand::Fail { error });
}

#[test]
fn full_auto_comes_before_bypass() {
    let named = Some(SandboxMode::ReadOnly);
    assert_eq!(sandbox_mode(true, true, named), Some(SandboxMode::WorkspaceWrite));
    assert_eq!(sandbox_mode(true, false, named), Some(SandboxMode::WorkspaceWrite));
    assert_eq!(sandbox_mode(false, true, named), Some(SandboxMode::DangerFullAccess));
    assert_eq!(sandbox_mode(false, false, named), named);
    assert_eq!(sandbox_mode(false, false, None), None);
}

#[test]
fn models_come_from_flags_or_local_providers() {
    assert_eq!(model_override(Some(s("a")), true, Some(s("b"))), Some(s("a")));
    assert_eq!(model_override(None, true, Some(s("b"))), Some(s("b")));
    assert_eq!(model_override(None, true, None), None);
    assert_eq!(model_override(None, false, Some(s("b"))), None);
    assert!(needs_default_model(&None, true));
    assert!(!needs_default_model(&None, false));
    assert!(!needs_default_model(&Some(s("a")), true));
}

#[test]
fn raw_reasoning_is_shown_with_local_providers() {
    assert_eq!(show_raw_agent_reasoning(true), Some(true));
    assert_eq!(show_raw_agent_reasoning(false), None);
}

#[test]
fn results_are_accepted_where_they_are_awaited() {
    let (mut launch, _) = Launch::new(options());
    assert!(!launch.accepts(&LaunchEvent::Repository { found: true }));
    assert!(!launch.accepts(&LaunchEvent::Provider { resolved: None }));
    launch.phase = LaunchPhase::Repository;
    assert!(!launch.accepts(&ok()));
    launch.phase = LaunchPhase::DefaultModel;
    assert!(!launch.accepts(&failed()));
    assert!(launch.accepts(&LaunchEvent::DefaultModel { model: None }));
    for phase in [LaunchPhase::Started, LaunchPhase::Failed] {
        launch.phase = phase;
        assert!(!launch.accepts(&ok()));
    }
}

#[test]
fn paths_of_the_command_line_reach_the_configuration() {
    let commands = steps(
        LaunchOptions {
            cwd: Some("/work"),
            add_dir: vec!["/a", "/b"],
            codex_linux_sandbox_exe: Some("/bin/sandbox"),
            full_auto: true,
            ..options()
        },
        vec![ok(), ok(), ok(), ok()],
    );
    assert_eq!(commands[1], LaunchCommand::ResolveDirectory { cwd: Some("/work") });
    assert_eq!(
        commands[4],
        LaunchCommand::LoadConfig {
            overrides: ConfigOverrides {
                sandbox_mode: Some(SandboxMode::WorkspaceWrite),
                cwd: Some("/work"),
                codex_linux_sandbox_exe: Some("/bin/sandbox"),
                additional_writable_roots: vec!["/a", "/b"],
                ..overrides()
            },
        }
    );
}
