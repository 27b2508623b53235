//! Laws of a launch, over every sequence of results that its steps can have.

use vstd::prelude::*;
use crate::launch::{
    chosen_model, chosen_sandbox, overrides_of, wants_default_model, AskForApproval,
    LaunchCommandView, LaunchErrorView, LaunchEventView,
    LaunchOptionsView, LaunchPhase, LaunchView, SandboxMode,
};

verus! {

/// What a launch comes to after these results, with the step to take next.
pub open spec fn run_launch<P>(options: LaunchOptionsView<P>, events: Seq<LaunchEventView>) -> (
    LaunchView<P>,
    LaunchCommandView<P>,
)
    decreases events.len(),
{
    if events.len() == 0 {
        (LaunchView::initial(options), LaunchCommandView::ParseOverrides)
    } else {
        run_launch(options, events.drop_last()).0.after_event(events.last())
    }
}

/// Whether these can be the results of a launch's steps, one after the other.
pub open spec fn possible<P>(options: LaunchOptionsView<P>, events: Seq<LaunchEventView>) -> bool
    decreases events.len(),
{
    events.len() == 0 || (possible(options, events.drop_last()) && run_launch(
        options,
        events.drop_last(),
    ).0.awaits(events.last()))
}

/// The local provider that was found.
pub open spec fn found_provider(events: Seq<LaunchEventView>) -> Option<Seq<char>>
    decreases events.len(),
{
    if events.len() == 0 {
        None
    } else {
        match events.last() {
            LaunchEventView::Provider { resolved } => resolved,
            _ => found_provider(events.drop_last()),
        }
    }
}

/// The local provider's default model, as far as it was looked up.
pub open spec fn found_default(events: Seq<LaunchEventView>) -> Option<Seq<char>>
    decreases events.len(),
{
    if events.len() == 0 {
        None
    } else {
        match events.last() {
            LaunchEventView::DefaultModel { model } => model,
            _ => found_default(events.drop_last()),
        }
    }
}

/// Whether the local provider is already settled in this phase.
pub open spec fn past_provider(phase: LaunchPhase) -> bool {
    ||| phase == LaunchPhase::DefaultModel
    ||| phase == LaunchPhase::Config
    ||| phase == LaunchPhase::Login
    ||| phase == LaunchPhase::OssSetup
    ||| phase == LaunchPhase::Repository
    ||| phase == LaunchPhase::Agent
    ||| phase == LaunchPhase::Started
}

/// What every step of a launch keeps: the options stay as they are; the provider
/// is the one that was found; and past the question of the provider, there is
/// one exactly if a local provider was asked for.
pub proof fn law_launch_invariant<P>(options: LaunchOptionsView<P>, events: Seq<LaunchEventView>)
    requires
        possible(options, events),
    ensures
        ({
            let launch = run_launch(options, events).0;
            &&& launch.options == options
            &&& launch.provider == found_provider(events)
            &&& past_provider(launch.phase) ==> (options.oss <==> launch.provider is Some)
            &&& launch.phase == LaunchPhase::Provider ==> options.oss
            &&& launch.phase == LaunchPhase::DefaultModel ==> options.oss && options.model is None
            &&& !past_provider(launch.phase) && launch.phase != LaunchPhase::Failed
                ==> launch.provider is None
        }),
    decreases events.len(),
{
    if events.len() > 0 {
        law_launch_invariant(options, events.drop_last());
    }
}

/// A launch never finds at the end that the local provider is missing: that is
/// found out when the provider is looked for.
pub proof fn law_provider_is_never_missing_late<P>(
    options: LaunchOptionsView<P>,
    events: Seq<LaunchEventView>,
)
    requires
        possible(options, events),
    ensures
        run_launch(options, events).1 != (LaunchCommandView::<P>::Fail {
            error: LaunchErrorView::OssProviderNotSet,
        }),
{
    if events.len() > 0 {
        law_launch_invariant(options, events.drop_last());
    }
}

/// A session starts, and a conversation with the agent is begun for it, only if
/// every step before was done, and in a directory that is in a repository,
/// unless that check is skipped.
pub proof fn law_sessions_start_after_all_checks<P>(
    options: LaunchOptionsView<P>,
    events: Seq<LaunchEventView>,
)
    requires
        possible(options, events),
    ensures
        run_launch(options, events).0.phase != LaunchPhase::Failed ==> (forall|i: int|
            0 <= i < events.len() ==> !((#[trigger] events[i]) is Failed)),
        run_launch(options, events).1 is StartAgent || run_launch(options, events).1
            is StartSession ==> options.skip_git_repo_check || events.contains(
            LaunchEventView::Repository { found: true },
        ),
        run_launch(options, events).0.phase == LaunchPhase::Agent <==> run_launch(
            options,
            events,
        ).1 is StartAgent,
        run_launch(options, events).0.phase == LaunchPhase::Started <==> run_launch(
            options,
            events,
        ).1 is StartSession,
    decreases events.len(),
{
    if events.len() > 0 {
        let before = events.drop_last();
        law_sessions_start_after_all_checks(options, before);
        law_launch_invariant(options, before);
        let found = LaunchEventView::Repository { found: true };
        if events.last() == found {
            assert(events[events.len() - 1] == found);
        }
        if before.contains(found) {
            let i = before.index_of(found);
            assert(events[i] == found);
        }
        if run_launch(options, events).0.phase != LaunchPhase::Failed {
            assert forall|i: int| 0 <= i < events.len() implies !((#[trigger] events[i]) is Failed) by {
                if i < before.len() {
                    assert(events[i] == before[i]);
                }
            }
        }
    }
}

proof fn lemma_default_is_looked_up_once<P>(
    options: LaunchOptionsView<P>,
    events: Seq<LaunchEventView>,
)
    requires
        possible(options, events),
    ensures
        ({
            let phase = run_launch(options, events).0.phase;
            phase == LaunchPhase::DefaultModel || !past_provider(phase) && phase
                != LaunchPhase::Failed ==> found_default(events) is None
        }),
    decreases events.len(),
{
    if events.len() > 0 {
        lemma_default_is_looked_up_once(options, events.drop_last());
    }
}

/// The configuration is asked for what the command line says, with the local
/// provider that was found and that provider's default model.
pub proof fn law_overrides<P>(options: LaunchOptionsView<P>, events: Seq<LaunchEventView>)
    requires
        possible(options, events),
        run_launch(options, events).1 is LoadConfig,
    ensures
        run_launch(options, events).1->overrides == overrides_of(
            options,
            found_provider(events),
            found_default(events),
        ),
{
    if events.len() > 0 {
        law_launch_invariant(options, events.drop_last());
        law_launch_invariant(options, events);
        lemma_default_is_looked_up_once(options, events.drop_last());
    }
}

/// Whenever the configuration is loaded, it is asked for the working directory,
/// the writable directories, the confining program and the profile of the command
/// line, as they are, and never to ask before a command is run.
pub proof fn law_command_line_reaches_the_configuration<P>(
    options: LaunchOptionsView<P>,
    events: Seq<LaunchEventView>,
)
    requires
        possible(options, events),
        run_launch(options, events).1 is LoadConfig,
    ensures
        ({
            let overrides = run_launch(options, events).1->overrides;
            &&& overrides.cwd == options.cwd
            &&& overrides.additional_writable_roots == options.add_dir
            &&& overrides.codex_linux_sandbox_exe == options.codex_linux_sandbox_exe
            &&& overrides.config_profile == options.config_profile
            &&& overrides.approval_policy == Some(AskForApproval::Never)
        }),
{
    law_overrides(options, events);
}

/// Full automation is confined to the workspace whatever else the command line
/// says of the sandbox, and only without it can the sandbox be bypassed.
pub proof fn law_full_auto_is_confined<P>(
    options: LaunchOptionsView<P>,
    provider: Option<Seq<char>>,
    provider_default: Option<Seq<char>>,
)
    ensures
        ({
            let mode = overrides_of(options, provider, provider_default).sandbox_mode;
            &&& options.full_auto ==> mode == Some(SandboxMode::WorkspaceWrite)
            &&& mode == Some(SandboxMode::DangerFullAccess) ==> !options.full_auto && (
            options.dangerously_bypass_approvals_and_sandbox || options.sandbox_mode == Some(
                SandboxMode::DangerFullAccess,
            ))
        }),
{
}

/// A model that was named is asked for, with a local provider or without one and
/// whatever that provider's default is; no default is looked up for it. Without a
/// named one the local provider's default is asked for, and without a local
/// provider none.
pub proof fn law_named_models_are_used(
    model: Seq<char>,
    oss: bool,
    provider_default: Option<Seq<char>>,
)
    ensures
        chosen_model(Some(model), oss, provider_default) == Some(model),
        chosen_model(None, true, provider_default) == provider_default,
        chosen_model(None, false, provider_default) is None,
        !wants_default_model(Some(model), oss),
        wants_default_model(None, oss) <==> oss,
{
}

/// Full automation means a writable workspace, whatever else was said. Else a
/// bypass means full access, whatever was named; and else it is what was named.
pub proof fn law_sandboxes(bypass: bool, named: Option<SandboxMode>)
    ensures
        chosen_sandbox(true, bypass, named) == Some(SandboxMode::WorkspaceWrite),
        chosen_sandbox(false, true, named) == Some(SandboxMode::DangerFullAccess),
        chosen_sandbox(false, false, named) == named,
{
}

/// Whenever the configuration is loaded: a model that the command line names is
/// asked for as it is; without one, and with a local provider, that provider's
/// default has just been looked up and is asked for; otherwise none is. The
/// provider is the one that was found, and the agent's raw reasoning is asked for
/// exactly with a local provider.
pub proof fn law_what_the_configuration_is_asked_for<P>(
    options: LaunchOptionsView<P>,
    events: Seq<LaunchEventView>,
)
    requires
        possible(options, events),
        run_launch(options, events).1 is LoadConfig,
    ensures
        ({
            let overrides = run_launch(options, events).1->overrides;
            &&& options.model is Some ==> overrides.model == options.model
            &&& options.model is None && options.oss ==> events.len() > 0 && events.last()
                == (LaunchEventView::DefaultModel { model: overrides.model })
            &&& options.model is None && !options.oss ==> overrides.model is None
            &&& overrides.model_provider == found_provider(events)
            &&& overrides.model_provider is Some <==> options.oss
            &&& overrides.show_raw_agent_reasoning == Some(true) <==> options.oss
            &&& overrides.show_raw_agent_reasoning is None <==> !options.oss
            &&& options.full_auto ==> overrides.sandbox_mode == Some(SandboxMode::WorkspaceWrite)
            &&& !options.full_auto && options.dangerously_bypass_approvals_and_sandbox
                ==> overrides.sandbox_mode == Some(SandboxMode::DangerFullAccess)
            &&& !options.full_auto && !options.dangerously_bypass_approvals_and_sandbox
                ==> overrides.sandbox_mode == options.sandbox_mode
        }),
{
    law_overrides(options, events);
    law_launch_invariant(options, events);
    if events.len() > 0 {
        law_launch_invariant(options, events.drop_last());
    }
}

/// What is said of an error: its cause in full, behind what went wrong where the
/// cause alone would not tell.
pub proof fn law_error_messages(error: Seq<char>)
    ensures
        (LaunchErrorView::Overrides { error }).message() == "Error parsing -c overrides: "@ + error,
        (LaunchErrorView::Directory { error }).message() == error,
        (LaunchErrorView::CodexHome { error }).message() == "Error finding codex home: "@ + error,
        (LaunchErrorView::ConfigToml { error }).message() == "Error loading config.toml: "@ + error,
        LaunchErrorView::NoOssProvider.message()
            == "No default OSS provider configured. Use --local-provider=provider or set oss_provider in config.toml"@,
        (LaunchErrorView::Config { error }).message() == error,
        (LaunchErrorView::Login { error }).message() == error,
        LaunchErrorView::OssProviderNotSet.message() == "OSS provider not set but oss flag was used"@,
        (LaunchErrorView::OssSetup { error }).message() == "OSS setup failed: "@ + error,
        LaunchErrorView::UntrustedDirectory.message()
            == "Not inside a trusted directory and --skip-git-repo-check was not specified."@,
        (LaunchErrorView::Agent { error }).message() == error,
{
}

/// Which errors end the program at once, and which are returned.
pub proof fn law_which_errors_exit(error: LaunchErrorView)
    ensures
        error.exits() <==> match error {
            LaunchErrorView::Overrides { .. } => true,
            LaunchErrorView::CodexHome { .. } => true,
            LaunchErrorView::ConfigToml { .. } => true,
            LaunchErrorView::Login { .. } => true,
            LaunchErrorView::UntrustedDirectory => true,
            LaunchErrorView::Directory { .. } => false,
            LaunchErrorView::NoOssProvider => false,
            LaunchErrorView::Config { .. } => false,
            LaunchErrorView::OssProviderNotSet => false,
            LaunchErrorView::OssSetup { .. } => false,
            LaunchErrorView::Agent { .. } => false,
        },
{
}

/// Which results can come in when.
pub proof fn law_what_launches_await<P>(launch: LaunchView<P>, event: LaunchEventView)
    ensures
        launch.awaits(event) <==> {
            let phase = launch.phase;
            match event {
                LaunchEventView::Provider { .. } => phase == LaunchPhase::Provider,
                LaunchEventView::DefaultModel { .. } => phase == LaunchPhase::DefaultModel,
                LaunchEventView::Repository { .. } => phase == LaunchPhase::Repository,
                LaunchEventView::Succeeded | LaunchEventView::Failed { .. } => {
                    ||| phase == LaunchPhase::Overrides || phase == LaunchPhase::Directory
                    ||| phase == LaunchPhase::CodexHome || phase == LaunchPhase::ConfigToml
                    ||| phase == LaunchPhase::Config || phase == LaunchPhase::Login
                    ||| phase == LaunchPhase::OssSetup || phase == LaunchPhase::Agent
                },
            }
        },
{
}

/// The phase tells which step is under way, and the step is given what the command
/// line says or what was found.
pub proof fn law_steps_of_a_launch<P>(options: LaunchOptionsView<P>, events: Seq<LaunchEventView>)
    requires
        possible(options, events),
    ensures
        ({
            let (launch, command) = run_launch(options, events);
            match launch.phase {
                LaunchPhase::Overrides => command is ParseOverrides,
                LaunchPhase::Directory => command == (LaunchCommandView::ResolveDirectory {
                    cwd: options.cwd,
                }),
                LaunchPhase::CodexHome => command is FindCodexHome,
                LaunchPhase::ConfigToml => command is LoadConfigToml,
                LaunchPhase::Provider => command == (LaunchCommandView::<P>::ResolveProvider {
                    named: options.oss_provider,
                    config_profile: options.config_profile,
                }),
                LaunchPhase::DefaultModel => command is LookUpDefaultModel && found_provider(events)
                    == Some(command->LookUpDefaultModel_provider),
                LaunchPhase::Config => command is LoadConfig,
                LaunchPhase::Login => command is CheckLogin,
                LaunchPhase::OssSetup => command is PrepareProvider && found_provider(events)
                    == Some(command->PrepareProvider_provider),
                LaunchPhase::Repository => command is FindRepository,
                LaunchPhase::Agent => command is StartAgent,
                LaunchPhase::Started => command is StartSession,
                LaunchPhase::Failed => command is Fail,
            }
        }),
{
    law_launch_invariant(options, events);
    if events.len() > 0 {
        law_launch_invariant(options, events.drop_last());
    }
}

/// Whether a result lets a launch go on.
pub open spec fn lets_go_on(event: LaunchEventView) -> bool {
    match event {
        LaunchEventView::Succeeded => true,
        LaunchEventView::Failed { .. } => false,
        LaunchEventView::Provider { resolved } => resolved is Some,
        LaunchEventView::DefaultModel { .. } => true,
        LaunchEventView::Repository { found } => found,
    }
}

/// The steps that were done, in order.
pub open spec fn steps_done<P>(
    options: LaunchOptionsView<P>,
    events: Seq<LaunchEventView>,
) -> Seq<LaunchPhase>
    decreases events.len(),
{
    if events.len() == 0 {
        Seq::empty()
    } else {
        let before = events.drop_last();
        if lets_go_on(events.last()) {
            steps_done(options, before).push(run_launch(options, before).0.phase)
        } else {
            steps_done(options, before)
        }
    }
}

/// A launch goes on exactly as long as its steps are done.
pub proof fn law_launches_fail_with_a_step<P>(
    options: LaunchOptionsView<P>,
    events: Seq<LaunchEventView>,
    next: LaunchEventView,
)
    requires
        possible(options, events.push(next)),
    ensures
        run_launch(options, events.push(next)).0.phase == LaunchPhase::Failed <==> !lets_go_on(
            next,
        ),
{
    assert(events.push(next).drop_last() =~= events);
    law_launch_invariant(options, events);
}

/// The steps before the question of the provider.
pub open spec fn first_steps() -> Seq<LaunchPhase> {
    seq![
        LaunchPhase::Overrides,
        LaunchPhase::Directory,
        LaunchPhase::CodexHome,
        LaunchPhase::ConfigToml,
    ]
}

/// The steps that find the local provider and its model.
pub open spec fn provider_steps<P>(options: LaunchOptionsView<P>) -> Seq<LaunchPhase> {
    if !options.oss {
        Seq::empty()
    } else if options.model is None {
        seq![LaunchPhase::Provider, LaunchPhase::DefaultModel]
    } else {
        seq![LaunchPhase::Provider]
    }
}

/// The steps that check what was configured.
pub open spec fn last_steps<P>(options: LaunchOptionsView<P>) -> Seq<LaunchPhase> {
    let setup = if options.oss {
        seq![LaunchPhase::OssSetup]
    } else {
        Seq::empty()
    };
    let repository = if options.skip_git_repo_check {
        Seq::empty()
    } else {
        seq![LaunchPhase::Repository]
    };
    seq![LaunchPhase::Config, LaunchPhase::Login] + setup + repository + seq![LaunchPhase::Agent]
}

/// All the steps of a launch.
pub open spec fn all_steps<P>(options: LaunchOptionsView<P>) -> Seq<LaunchPhase> {
    first_steps() + provider_steps(options) + last_steps(options)
}

/// A launch takes its steps in this order and leaves none out: the steps that were
/// done are the first ones of the list, the one under way is the next, and the
/// session starts when the list is through.
pub proof fn law_steps_come_in_order<P>(
    options: LaunchOptionsView<P>,
    events: Seq<LaunchEventView>,
)
    requires
        possible(options, events),
        run_launch(options, events).0.phase != LaunchPhase::Failed,
    ensures
        ({
            let all = all_steps(options);
            let done = steps_done(options, events);
            let phase = run_launch(options, events).0.phase;
            &&& done.len() == events.len()
            &&& done.len() <= all.len()
            &&& done == all.take(done.len() as int)
            &&& done.len() < all.len() ==> phase == all[done.len() as int]
            &&& done.len() == all.len() ==> phase == LaunchPhase::Started
        }),
    decreases events.len(),
{
    let all = all_steps(options);
    if events.len() == 0 {
        assert(all.take(0) =~= Seq::empty());
    } else {
        let before = events.drop_last();
        assert(before.push(events.last()) =~= events);
        law_launch_invariant(options, before);
        law_launch_invariant(options, events);
        law_launches_fail_with_a_step(options, before, events.last());
        assert(run_launch(options, before).0.phase != LaunchPhase::Failed);
        law_steps_come_in_order(options, before);
        let done = steps_done(options, events);
        let n = before.len() as int;
        assert(n < all.len());
        assert(done =~= all.take(n + 1));
    }
}

/// A step that fails ends the launch with the error of that step, which holds the
/// cause in full. A local provider that is not configured and a directory in no
/// repository have errors of their own.
pub proof fn law_failed_steps<P>(launch: LaunchView<P>, error: Seq<char>)
    requires
        launch.awaits(LaunchEventView::Failed { error }),
    ensures
        ({
            let (next, command) = launch.after_event(LaunchEventView::Failed { error });
            &&& next == (LaunchView { phase: LaunchPhase::Failed, ..launch })
            &&& command is Fail
            &&& launch.phase == LaunchPhase::Overrides ==> command->error
                == (LaunchErrorView::Overrides { error })
            &&& launch.phase == LaunchPhase::Directory ==> command->error
                == (LaunchErrorView::Directory { error })
            &&& launch.phase == LaunchPhase::CodexHome ==> command->error
                == (LaunchErrorView::CodexHome { error })
            &&& launch.phase == LaunchPhase::ConfigToml ==> command->error
                == (LaunchErrorView::ConfigToml { error })
            &&& launch.phase == LaunchPhase::Config ==> command->error
                == (LaunchErrorView::Config { error })
            &&& launch.phase == LaunchPhase::Login ==> command->error
                == (LaunchErrorView::Login { error })
            &&& launch.phase == LaunchPhase::OssSetup ==> command->error
                == (LaunchErrorView::OssSetup { error })
            &&& launch.phase == LaunchPhase::Agent ==> command->error
                == (LaunchErrorView::Agent { error })
        }),
        launch.after_event(LaunchEventView::Provider { resolved: None }).1 == (
        LaunchCommandView::<P>::Fail { error: LaunchErrorView::NoOssProvider }),
        launch.after_event(LaunchEventView::Repository { found: false }).1 == (
        LaunchCommandView::<P>::Fail { error: LaunchErrorView::UntrustedDirectory }),
{
}

/// A launch that asked for a local provider and holds none fails once the login is
/// in order, and keeps all else as it was.
pub proof fn law_local_providers_are_needed<P>(launch: LaunchView<P>)
    requires
        launch.phase == LaunchPhase::Login,
        launch.options.oss,
        launch.provider is None,
    ensures
        launch.after_event(LaunchEventView::Succeeded).0 == (LaunchView {
            phase: LaunchPhase::Failed,
            ..launch
        }),
        launch.after_event(LaunchEventView::Succeeded).1 == (LaunchCommandView::<P>::Fail {
            error: LaunchErrorView::OssProviderNotSet,
        }),
{
}

/// A launch begins with the options as they are, no provider, and the overrides.
pub proof fn law_new_launches<P>(options: LaunchOptionsView<P>)
    ensures
        LaunchView::initial(options).options == options,
        LaunchView::initial(options).provider is None,
        LaunchView::initial(options).phase == LaunchPhase::Overrides,
{
}

} // verus!
