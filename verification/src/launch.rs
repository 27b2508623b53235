//! From the command line to a running session: which step follows which, what
//! the configuration is asked for, and how a start that fails is reported.

use vstd::prelude::*;
use crate::text::joined;

verus! {

/// What the agent's commands may touch.
#[derive(Debug, Clone, Copy, PartialEq, Eq, Structural)]
pub enum SandboxMode {
    ReadOnly,
    WorkspaceWrite,
    DangerFullAccess,
}

/// When the agent asks before it runs a command. A session knows one policy.
#[derive(Debug, Clone, Copy, PartialEq, Eq, Structural)]
pub enum AskForApproval {
    Never,
}

/// Why a session does not start.
#[derive(Debug, PartialEq)]
pub enum LaunchError {
    /// The overrides on the command line cannot be read.
    Overrides { error: String },
    /// The working directory cannot be found.
    Directory { error: String },
    /// The home directory of the configuration cannot be found.
    CodexHome { error: String },
    /// The configuration file cannot be loaded.
    ConfigToml { error: String },
    /// A local provider is asked for and none is configured.
    NoOssProvider,
    /// The configuration does not hold together.
    Config { error: String },
    /// The login is not one that the configuration allows.
    Login { error: String },
    /// A local provider is asked for and none was set.
    OssProviderNotSet,
    /// The local provider cannot be made ready.
    OssSetup { error: String },
    /// The working directory is in no repository.
    UntrustedDirectory,
    /// No conversation with the agent can be begun.
    Agent { error: String },
}

/// Model of [`LaunchError`].
pub enum LaunchErrorView {
    Overrides { error: Seq<char> },
    Directory { error: Seq<char> },
    CodexHome { error: Seq<char> },
    ConfigToml { error: Seq<char> },
    NoOssProvider,
    Config { error: Seq<char> },
    Login { error: Seq<char> },
    OssProviderNotSet,
    OssSetup { error: Seq<char> },
    UntrustedDirectory,
    Agent { error: Seq<char> },
}

impl View for LaunchError {
    type V = LaunchErrorView;

    open spec fn view(&self) -> LaunchErrorView {
        match self {
            LaunchError::Overrides { error } => LaunchErrorView::Overrides { error: error@ },
            LaunchError::Directory { error } => LaunchErrorView::Directory { error: error@ },
            LaunchError::CodexHome { error } => LaunchErrorView::CodexHome { error: error@ },
            LaunchError::ConfigToml { error } => LaunchErrorView::ConfigToml { error: error@ },
            LaunchError::NoOssProvider => LaunchErrorView::NoOssProvider,
            LaunchError::Config { error } => LaunchErrorView::Config { error: error@ },
            LaunchError::Login { error } => LaunchErrorView::Login { error: error@ },
            LaunchError::OssProviderNotSet => LaunchErrorView::OssProviderNotSet,
            LaunchError::OssSetup { error } => LaunchErrorView::OssSetup { error: error@ },
            LaunchError::UntrustedDirectory => LaunchErrorView::UntrustedDirectory,
            LaunchError::Agent { error } => LaunchErrorView::Agent { error: error@ },
        }
    }
}

impl LaunchErrorView {
    /// What is said of the error.
    pub open spec fn message(self) -> Seq<char> {
        match self {
            LaunchErrorView::Overrides { error } => "Error parsing -c overrides: "@ + error,
            LaunchErrorView::Directory { error } => error,
            LaunchErrorView::CodexHome { error } => "Error finding codex home: "@ + error,
            LaunchErrorView::ConfigToml { error } => "Error loading config.toml: "@ + error,
            LaunchErrorView::NoOssProvider => {
                "No default OSS provider configured. Use --local-provider=provider or set oss_provider in config.toml"@
            },
            LaunchErrorView::Config { error } => error,
            LaunchErrorView::Login { error } => error,
            LaunchErrorView::OssProviderNotSet => "OSS provider not set but oss flag was used"@,
            LaunchErrorView::OssSetup { error } => "OSS setup failed: "@ + error,
            LaunchErrorView::UntrustedDirectory => {
                "Not inside a trusted directory and --skip-git-repo-check was not specified."@
            },
            LaunchErrorView::Agent { error } => error,
        }
    }

    /// Whether the program prints the error and exits at once with status 1;
    /// the other errors are returned to the caller.
    pub open spec fn exits(self) -> bool {
        ||| self is Overrides
        ||| self is CodexHome
        ||| self is ConfigToml
        ||| self is Login
        ||| self is UntrustedDirectory
    }
}

impl LaunchError {
    /// What is said of the error.
    pub fn message(&self) -> (res: String)
        ensures
            res@ == self@.message(),
    {
        match self {
            LaunchError::Overrides { error } => {
                joined("Error parsing -c overrides: ", error.as_str())
            },
            LaunchError::Directory { error } => error.clone(),
            LaunchError::CodexHome { error } => {
                joined("Error finding codex home: ", error.as_str())
            },
            LaunchError::ConfigToml { error } => {
                joined("Error loading config.toml: ", error.as_str())
            },
            LaunchError::NoOssProvider => {
                "No default OSS provider configured. Use --local-provider=provider or set oss_provider in config.toml".to_owned()
            },
            LaunchError::Config { error } => error.clone(),
            LaunchError::Login { error } => error.clone(),
            LaunchError::OssProviderNotSet => {
                "OSS provider not set but oss flag was used".to_owned()
            },
            LaunchError::OssSetup { error } => joined("OSS setup failed: ", error.as_str()),
            LaunchError::UntrustedDirectory => {
                "Not inside a trusted directory and --skip-git-repo-check was not specified.".to_owned()
            },
            LaunchError::Agent { error } => error.clone(),
        }
    }

    /// Whether the program prints the error and exits at once with status 1.
    pub fn exits(&self) -> (res: bool)
        ensures
            res == self@.exits(),
    {
        match self {
            LaunchError::Overrides { .. } => true,
            LaunchError::Directory { .. } => false,
            LaunchError::CodexHome { .. } => true,
            LaunchError::ConfigToml { .. } => true,
            LaunchError::NoOssProvider => false,
            LaunchError::Config { .. } => false,
            LaunchError::Login { .. } => true,
            LaunchError::OssProviderNotSet => false,
            LaunchError::OssSetup { .. } => false,
            LaunchError::UntrustedDirectory => true,
            LaunchError::Agent { .. } => false,
        }
    }
}

/// The sandbox that the flags ask for: `full_auto` comes before `bypass`, and
/// either before the mode that was named.
pub open spec fn chosen_sandbox(
    full_auto: bool,
    bypass: bool,
    named: Option<SandboxMode>,
) -> Option<SandboxMode> {
    if full_auto {
        Some(SandboxMode::WorkspaceWrite)
    } else if bypass {
        Some(SandboxMode::DangerFullAccess)
    } else {
        named
    }
}

/// The sandbox to ask the configuration for; `None` leaves it to the
/// configuration.
pub fn sandbox_mode(
    full_auto: bool,
    dangerously_bypass_approvals_and_sandbox: bool,
    named: Option<SandboxMode>,
) -> (res: Option<SandboxMode>)
    ensures
        res == chosen_sandbox(full_auto, dangerously_bypass_approvals_and_sandbox, named),
{
    if full_auto {
        Some(SandboxMode::WorkspaceWrite)
    } else if dangerously_bypass_approvals_and_sandbox {
        Some(SandboxMode::DangerFullAccess)
    } else {
        named
    }
}

/// Whether the local provider's default model is needed.
pub open spec fn wants_default_model(named: Option<Seq<char>>, oss: bool) -> bool {
    named is None && oss
}

/// Whether to look up the local provider's default model: no model was named,
/// and a local provider is used.
pub fn needs_default_model(named: &Option<String>, oss: bool) -> (res: bool)
    ensures
        res == wants_default_model(named.deep_view(), oss),
{
    named.is_none() && oss
}

/// The model to ask for: the one that was named, or else, with a local
/// provider, that provider's default.
pub open spec fn chosen_model(
    named: Option<Seq<char>>,
    oss: bool,
    provider_default: Option<Seq<char>>,
) -> Option<Seq<char>> {
    if wants_default_model(named, oss) {
        provider_default
    } else {
        named
    }
}

/// The model to ask the configuration for; `None` leaves it to the
/// configuration.
pub fn model_override(
    named: Option<String>,
    oss: bool,
    provider_default: Option<String>,
) -> (res: Option<String>)
    ensures
        res.deep_view() == chosen_model(
            named.deep_view(),
            oss,
            provider_default.deep_view(),
        ),
{
    match named {
        Some(model) => Some(model),
        None => if oss {
            provider_default
        } else {
            None
        },
    }
}

/// Whether to ask for the agent's raw reasoning: with a local provider; else it
/// is left to the configuration.
pub fn show_raw_agent_reasoning(oss: bool) -> (res: Option<bool>)
    ensures
        res == if oss {
            Some(true)
        } else {
            None
        },
{
    if oss {
        Some(true)
    } else {
        None
    }
}

/// What the command line asks for. `P` is a path.
#[derive(Debug, PartialEq)]
pub struct LaunchOptions<P> {
    pub model: Option<String>,
    pub oss: bool,
    /// The local provider that was named.
    pub oss_provider: Option<String>,
    pub config_profile: Option<String>,
    pub full_auto: bool,
    pub dangerously_bypass_approvals_and_sandbox: bool,
    pub skip_git_repo_check: bool,
    pub sandbox_mode: Option<SandboxMode>,
    /// The working directory that was named.
    pub cwd: Option<P>,
    /// More directories that may be written to.
    pub add_dir: Vec<P>,
    /// The program that confines the agent's commands, if the caller has one.
    pub codex_linux_sandbox_exe: Option<P>,
}

/// What the configuration is asked for. `None` leaves a setting as it is, and so
/// are all settings left that are not among these.
#[derive(Debug, PartialEq)]
pub struct ConfigOverrides<P> {
    pub model: Option<String>,
    pub config_profile: Option<String>,
    pub approval_policy: Option<AskForApproval>,
    pub sandbox_mode: Option<SandboxMode>,
    pub cwd: Option<P>,
    pub model_provider: Option<String>,
    pub codex_linux_sandbox_exe: Option<P>,
    pub show_raw_agent_reasoning: Option<bool>,
    pub additional_writable_roots: Vec<P>,
}

/// Where a launch stands, that is, which step's result it waits for.
#[derive(Debug, Clone, Copy, PartialEq, Eq, Structural)]
pub enum LaunchPhase {
    Overrides,
    Directory,
    CodexHome,
    ConfigToml,
    Provider,
    DefaultModel,
    Config,
    Login,
    OssSetup,
    Repository,
    Agent,
    Started,
    Failed,
}

/// The result of a step.
#[derive(Debug, PartialEq)]
pub enum LaunchEvent {
    /// The step was done.
    Succeeded,
    /// The step could not be done, for this reason.
    Failed { error: String },
    /// The local provider that the flags and the configuration name, if any.
    Provider { resolved: Option<String> },
    /// The local provider's default model, if it has one.
    DefaultModel { model: Option<String> },
    /// Whether the working directory is in a repository.
    Repository { found: bool },
}

/// The next step.
#[derive(Debug, PartialEq)]
pub enum LaunchCommand<P> {
    /// Read the overrides on the command line.
    ParseOverrides,
    /// Find the working directory: `cwd`, or else the one that the program is in.
    ResolveDirectory { cwd: Option<P> },
    /// Find the home directory of the configuration.
    FindCodexHome,
    /// Load the configuration file.
    LoadConfigToml,
    /// Find out which local provider to use, from the one that was named and the
    /// configuration file, read for this profile.
    ResolveProvider { named: Option<String>, config_profile: Option<String> },
    /// Look the default model of `provider` up.
    LookUpDefaultModel { provider: String },
    /// Load the configuration, with these overrides.
    LoadConfig { overrides: ConfigOverrides<P> },
    /// Check the login against the configuration.
    CheckLogin,
    /// Make the local provider ready.
    PrepareProvider { provider: String },
    /// Look for the repository around the working directory.
    FindRepository,
    /// Begin a conversation with the agent.
    StartAgent,
    /// Start the session.
    StartSession,
    /// Give up.
    Fail { error: LaunchError },
}

/// A launch under way.
#[derive(Debug, PartialEq)]
pub struct Launch<P> {
    pub options: LaunchOptions<P>,
    pub provider: Option<String>,
    pub phase: LaunchPhase,
}

/// Model of [`LaunchOptions`].
pub struct LaunchOptionsView<P> {
    pub model: Option<Seq<char>>,
    pub oss: bool,
    pub oss_provider: Option<Seq<char>>,
    pub config_profile: Option<Seq<char>>,
    pub full_auto: bool,
    pub dangerously_bypass_approvals_and_sandbox: bool,
    pub skip_git_repo_check: bool,
    pub sandbox_mode: Option<SandboxMode>,
    pub cwd: Option<P>,
    pub add_dir: Seq<P>,
    pub codex_linux_sandbox_exe: Option<P>,
}

/// Model of [`ConfigOverrides`].
pub struct ConfigOverridesView<P> {
    pub model: Option<Seq<char>>,
    pub config_profile: Option<Seq<char>>,
    pub approval_policy: Option<AskForApproval>,
    pub sandbox_mode: Option<SandboxMode>,
    pub cwd: Option<P>,
    pub model_provider: Option<Seq<char>>,
    pub codex_linux_sandbox_exe: Option<P>,
    pub show_raw_agent_reasoning: Option<bool>,
    pub additional_writable_roots: Seq<P>,
}

/// Model of [`LaunchEvent`].
pub enum LaunchEventView {
    Succeeded,
    Failed { error: Seq<char> },
    Provider { resolved: Option<Seq<char>> },
    DefaultModel { model: Option<Seq<char>> },
    Repository { found: bool },
}

/// Model of [`LaunchCommand`].
pub enum LaunchCommandView<P> {
    ParseOverrides,
    ResolveDirectory { cwd: Option<P> },
    FindCodexHome,
    LoadConfigToml,
    ResolveProvider { named: Option<Seq<char>>, config_profile: Option<Seq<char>> },
    LookUpDefaultModel { provider: Seq<char> },
    LoadConfig { overrides: ConfigOverridesView<P> },
    CheckLogin,
    PrepareProvider { provider: Seq<char> },
    FindRepository,
    StartAgent,
    StartSession,
    Fail { error: LaunchErrorView },
}

/// Model of [`Launch`].
pub struct LaunchView<P> {
    pub options: LaunchOptionsView<P>,
    pub provider: Option<Seq<char>>,
    pub phase: LaunchPhase,
}

impl<P> View for LaunchOptions<P> {
    type V = LaunchOptionsView<P>;

    open spec fn view(&self) -> LaunchOptionsView<P> {
        LaunchOptionsView {
            model: self.model.deep_view(),
            oss: self.oss,
            oss_provider: self.oss_provider.deep_view(),
            config_profile: self.config_profile.deep_view(),
            full_auto: self.full_auto,
            dangerously_bypass_approvals_and_sandbox:
                self.dangerously_bypass_approvals_and_sandbox,
            skip_git_repo_check: self.skip_git_repo_check,
            sandbox_mode: self.sandbox_mode,
            cwd: self.cwd,
            add_dir: self.add_dir@,
            codex_linux_sandbox_exe: self.codex_linux_sandbox_exe,
        }
    }
}

impl<P> View for ConfigOverrides<P> {
    type V = ConfigOverridesView<P>;

    open spec fn view(&self) -> ConfigOverridesView<P> {
        ConfigOverridesView {
            model: self.model.deep_view(),
            config_profile: self.config_profile.deep_view(),
            approval_policy: self.approval_policy,
            sandbox_mode: self.sandbox_mode,
            cwd: self.cwd,
            model_provider: self.model_provider.deep_view(),
            codex_linux_sandbox_exe: self.codex_linux_sandbox_exe,
            show_raw_agent_reasoning: self.show_raw_agent_reasoning,
            additional_writable_roots: self.additional_writable_roots@,
        }
    }
}

impl View for LaunchEvent {
    type V = LaunchEventView;

    open spec fn view(&self) -> LaunchEventView {
        match self {
            LaunchEvent::Succeeded => LaunchEventView::Succeeded,
            LaunchEvent::Failed { error } => LaunchEventView::Failed { error: error@ },
            LaunchEvent::Provider { resolved } => {
                LaunchEventView::Provider { resolved: resolved.deep_view() }
            },
            LaunchEvent::DefaultModel { model } => {
                LaunchEventView::DefaultModel { model: model.deep_view() }
            },
            LaunchEvent::Repository { found } => LaunchEventView::Repository { found: *found },
        }
    }
}

impl<P> View for LaunchCommand<P> {
    type V = LaunchCommandView<P>;

    open spec fn view(&self) -> LaunchCommandView<P> {
        match self {
            LaunchCommand::ParseOverrides => LaunchCommandView::ParseOverrides,
            LaunchCommand::ResolveDirectory { cwd } => {
                LaunchCommandView::ResolveDirectory { cwd: *cwd }
            },
            LaunchCommand::FindCodexHome => LaunchCommandView::FindCodexHome,
            LaunchCommand::LoadConfigToml => LaunchCommandView::LoadConfigToml,
            LaunchCommand::ResolveProvider { named, config_profile } => {
                LaunchCommandView::ResolveProvider {
                    named: named.deep_view(),
                    config_profile: config_profile.deep_view(),
                }
            },
            LaunchCommand::LookUpDefaultModel { provider } => {
                LaunchCommandView::LookUpDefaultModel { provider: provider@ }
            },
            LaunchCommand::LoadConfig { overrides } => {
                LaunchCommandView::LoadConfig { overrides: overrides@ }
            },
            LaunchCommand::CheckLogin => LaunchCommandView::CheckLogin,
            LaunchCommand::PrepareProvider { provider } => {
                LaunchCommandView::PrepareProvider { provider: provider@ }
            },
            LaunchCommand::FindRepository => LaunchCommandView::FindRepository,
            LaunchCommand::StartAgent => LaunchCommandView::StartAgent,
            LaunchCommand::StartSession => LaunchCommandView::StartSession,
            LaunchCommand::Fail { error } => LaunchCommandView::Fail { error: error@ },
        }
    }
}

impl<P> View for Launch<P> {
    type V = LaunchView<P>;

    open spec fn view(&self) -> LaunchView<P> {
        LaunchView {
            options: self.options@,
            provider: self.provider.deep_view(),
            phase: self.phase,
        }
    }
}

/// What the configuration is asked for, given the local provider that was
/// found and that provider's default model. The profile and the paths are those
/// of the command line.
pub open spec fn overrides_of<P>(
    options: LaunchOptionsView<P>,
    provider: Option<Seq<char>>,
    provider_default: Option<Seq<char>>,
) -> ConfigOverridesView<P> {
    ConfigOverridesView {
        model: chosen_model(options.model, options.oss, provider_default),
        config_profile: options.config_profile,
        approval_policy: Some(AskForApproval::Never),
        sandbox_mode: chosen_sandbox(
            options.full_auto,
            options.dangerously_bypass_approvals_and_sandbox,
            options.sandbox_mode,
        ),
        cwd: options.cwd,
        model_provider: provider,
        codex_linux_sandbox_exe: options.codex_linux_sandbox_exe,
        show_raw_agent_reasoning: if options.oss {
            Some(true)
        } else {
            None
        },
        additional_writable_roots: options.add_dir,
    }
}

impl<P> LaunchView<P> {
    /// A launch that has yet to read the overrides.
    pub open spec fn initial(options: LaunchOptionsView<P>) -> LaunchView<P> {
        LaunchView { options, provider: None, phase: LaunchPhase::Overrides }
    }

    /// Whether an event can be the result of the step under way.
    pub open spec fn awaits(self, event: LaunchEventView) -> bool {
        match self.phase {
            LaunchPhase::Provider => event is Provider,
            LaunchPhase::DefaultModel => event is DefaultModel,
            LaunchPhase::Repository => event is Repository,
            LaunchPhase::Started | LaunchPhase::Failed => false,
            _ => event is Succeeded || event is Failed,
        }
    }

    /// On to another phase.
    pub open spec fn to(self, phase: LaunchPhase) -> LaunchView<P> {
        LaunchView { phase, ..self }
    }

    /// The end of the launch.
    pub open spec fn fail(self, error: LaunchErrorView) -> (LaunchView<P>, LaunchCommandView<P>) {
        (self.to(LaunchPhase::Failed), LaunchCommandView::Fail { error })
    }

    /// On to the configuration.
    pub open spec fn load_config(self, provider_default: Option<Seq<char>>) -> (
        LaunchView<P>,
        LaunchCommandView<P>,
    ) {
        (
            self.to(LaunchPhase::Config),
            LaunchCommandView::LoadConfig {
                overrides: overrides_of(self.options, self.provider, provider_default),
            },
        )
    }

    /// On to the working directory, which need not be in a repository if the
    /// check is skipped.
    pub open spec fn find_repository(self) -> (LaunchView<P>, LaunchCommandView<P>) {
        if self.options.skip_git_repo_check {
            (self.to(LaunchPhase::Agent), LaunchCommandView::StartAgent)
        } else {
            (self.to(LaunchPhase::Repository), LaunchCommandView::FindRepository)
        }
    }

    /// The error that a step that failed comes to.
    pub open spec fn step_error(self, error: Seq<char>) -> LaunchErrorView {
        match self.phase {
            LaunchPhase::Overrides => LaunchErrorView::Overrides { error },
            LaunchPhase::Directory => LaunchErrorView::Directory { error },
            LaunchPhase::CodexHome => LaunchErrorView::CodexHome { error },
            LaunchPhase::ConfigToml => LaunchErrorView::ConfigToml { error },
            LaunchPhase::Config => LaunchErrorView::Config { error },
            LaunchPhase::Login => LaunchErrorView::Login { error },
            LaunchPhase::Agent => LaunchErrorView::Agent { error },
            _ => LaunchErrorView::OssSetup { error },
        }
    }

    /// What follows a step that was done.
    pub open spec fn after_success(self) -> (LaunchView<P>, LaunchCommandView<P>) {
        match self.phase {
            LaunchPhase::Overrides => (
                self.to(LaunchPhase::Directory),
                LaunchCommandView::ResolveDirectory { cwd: self.options.cwd },
            ),
            LaunchPhase::Directory => (
                self.to(LaunchPhase::CodexHome),
                LaunchCommandView::FindCodexHome,
            ),
            LaunchPhase::CodexHome => (
                self.to(LaunchPhase::ConfigToml),
                LaunchCommandView::LoadConfigToml,
            ),
            LaunchPhase::ConfigToml => if self.options.oss {
                (
                    self.to(LaunchPhase::Provider),
                    LaunchCommandView::ResolveProvider {
                        named: self.options.oss_provider,
                        config_profile: self.options.config_profile,
                    },
                )
            } else {
                self.load_config(None)
            },
            LaunchPhase::Config => (self.to(LaunchPhase::Login), LaunchCommandView::CheckLogin),
            LaunchPhase::Login => if self.options.oss {
                match self.provider {
                    Some(provider) => (
                        self.to(LaunchPhase::OssSetup),
                        LaunchCommandView::PrepareProvider { provider },
                    ),
                    None => self.fail(LaunchErrorView::OssProviderNotSet),
                }
            } else {
                self.find_repository()
            },
            LaunchPhase::Agent => (
                self.to(LaunchPhase::Started),
                LaunchCommandView::StartSession,
            ),
            _ => self.find_repository(),
        }
    }

    /// What follows the result of a step.
    pub open spec fn after_event(self, event: LaunchEventView) -> (
        LaunchView<P>,
        LaunchCommandView<P>,
    ) {
        match event {
            LaunchEventView::Succeeded => self.after_success(),
            LaunchEventView::Failed { error } => self.fail(self.step_error(error)),
            LaunchEventView::Provider { resolved } => match resolved {
                Some(provider) => {
                    let next = LaunchView { provider: Some(provider), ..self };
                    if wants_default_model(self.options.model, self.options.oss) {
                        (
                            next.to(LaunchPhase::DefaultModel),
                            LaunchCommandView::LookUpDefaultModel { provider },
                        )
                    } else {
                        next.load_config(None)
                    }
                },
                None => self.fail(LaunchErrorView::NoOssProvider),
            },
            LaunchEventView::DefaultModel { model } => self.load_config(model),
            LaunchEventView::Repository { found } => if found {
                (self.to(LaunchPhase::Agent), LaunchCommandView::StartAgent)
            } else {
                self.fail(LaunchErrorView::UntrustedDirectory)
            },
        }
    }
}

/// The same paths again.
fn copied<P: Copy>(paths: &Vec<P>) -> (res: Vec<P>)
    ensures
        res@ == paths@,
{
    let mut copy: Vec<P> = Vec::new();
    let count = paths.len();
    for i in 0..count
        invariant
            count == paths.len(),
            copy@ == paths@.take(i as int),
    {
        copy.push(paths[i]);
        proof {
            assert(copy@ =~= paths@.take(i + 1));
        }
    }
    proof {
        assert(copy@ =~= paths@);
    }
    copy
}

impl<P: Copy> Launch<P> {
    /// A launch whose first step is to read the overrides on the command line.
    pub fn new(options: LaunchOptions<P>) -> (res: (Launch<P>, LaunchCommand<P>))
        ensures
            res.0@ == LaunchView::initial(options@),
            res.1@ == LaunchCommandView::<P>::ParseOverrides,
    {
        (
            Launch { options, provider: None, phase: LaunchPhase::Overrides },
            LaunchCommand::ParseOverrides,
        )
    }

    /// Whether this can be the result of the step under way.
    pub fn accepts(&self, event: &LaunchEvent) -> (res: bool)
        ensures
            res == self@.awaits(event@),
    {
        match self.phase {
            LaunchPhase::Provider => matches!(event, LaunchEvent::Provider { .. }),
            LaunchPhase::DefaultModel => matches!(event, LaunchEvent::DefaultModel { .. }),
            LaunchPhase::Repository => matches!(event, LaunchEvent::Repository { .. }),
            LaunchPhase::Started | LaunchPhase::Failed => false,
            _ => matches!(event, LaunchEvent::Succeeded | LaunchEvent::Failed { .. }),
        }
    }

    /// What the configuration is asked for.
    fn overrides(&self, provider_default: Option<String>) -> (res: ConfigOverrides<P>)
        ensures
            res@ == overrides_of(self@.options, self@.provider, provider_default.deep_view()),
    {
        ConfigOverrides {
            model: model_override(self.options.model.clone(), self.options.oss, provider_default),
            config_profile: self.options.config_profile.clone(),
            approval_policy: Some(AskForApproval::Never),
            sandbox_mode: sandbox_mode(
                self.options.full_auto,
                self.options.dangerously_bypass_approvals_and_sandbox,
                self.options.sandbox_mode,
            ),
            cwd: self.options.cwd,
            model_provider: self.provider.clone(),
            codex_linux_sandbox_exe: self.options.codex_linux_sandbox_exe,
            show_raw_agent_reasoning: show_raw_agent_reasoning(self.options.oss),
            additional_writable_roots: copied(&self.options.add_dir),
        }
    }

    /// On to the configuration.
    fn load_config(&mut self, provider_default: Option<String>) -> (res: LaunchCommand<P>)
        ensures
            final(self)@ == old(self)@.load_config(provider_default.deep_view()).0,
            res@ == old(self)@.load_config(provider_default.deep_view()).1,
    {
        let overrides = self.overrides(provider_default);
        self.phase = LaunchPhase::Config;
        LaunchCommand::LoadConfig { overrides }
    }

    /// On to the working directory.
    fn find_repository(&mut self) -> (res: LaunchCommand<P>)
        ensures
            final(self)@ == old(self)@.find_repository().0,
            res@ == old(self)@.find_repository().1,
    {
        if self.options.skip_git_repo_check {
            self.phase = LaunchPhase::Agent;
            LaunchCommand::StartAgent
        } else {
            self.phase = LaunchPhase::Repository;
            LaunchCommand::FindRepository
        }
    }

    /// The end of the launch.
    fn fail(&mut self, error: LaunchError) -> (res: LaunchCommand<P>)
        ensures
            final(self)@ == old(self)@.fail(error@).0,
            res@ == old(self)@.fail(error@).1,
    {
        self.phase = LaunchPhase::Failed;
        LaunchCommand::Fail { error }
    }

    /// The error that a step that failed comes to.
    fn step_error(&self, error: String) -> (res: LaunchError)
        ensures
            res@ == self@.step_error(error@),
    {
        match self.phase {
            LaunchPhase::Overrides => LaunchError::Overrides { error },
            LaunchPhase::Directory => LaunchError::Directory { error },
            LaunchPhase::CodexHome => LaunchError::CodexHome { error },
            LaunchPhase::ConfigToml => LaunchError::ConfigToml { error },
            LaunchPhase::Config => LaunchError::Config { error },
            LaunchPhase::Login => LaunchError::Login { error },
            LaunchPhase::Agent => LaunchError::Agent { error },
            _ => LaunchError::OssSetup { error },
        }
    }

    /// What follows a step that was done.
    fn after_success(&mut self) -> (res: LaunchCommand<P>)
        ensures
            final(self)@ == old(self)@.after_success().0,
            res@ == old(self)@.after_success().1,
    {
        match self.phase {
            LaunchPhase::Overrides => {
                self.phase = LaunchPhase::Directory;
                LaunchCommand::ResolveDirectory { cwd: self.options.cwd }
            },
            LaunchPhase::Directory => {
                self.phase = LaunchPhase::CodexHome;
                LaunchCommand::FindCodexHome
            },
            LaunchPhase::CodexHome => {
                self.phase = LaunchPhase::ConfigToml;
                LaunchCommand::LoadConfigToml
            },
            LaunchPhase::ConfigToml => {
                if self.options.oss {
                    self.phase = LaunchPhase::Provider;
                    LaunchCommand::ResolveProvider {
                        named: self.options.oss_provider.clone(),
                        config_profile: self.options.config_profile.clone(),
                    }
                } else {
                    self.load_config(None)
                }
            },
            LaunchPhase::Config => {
                self.phase = LaunchPhase::Login;
                LaunchCommand::CheckLogin
            },
            LaunchPhase::Login => {
                if self.options.oss {
                    match self.provider.clone() {
                        Some(provider) => {
                            self.phase = LaunchPhase::OssSetup;
                            LaunchCommand::PrepareProvider { provider }
                        },
                        None => self.fail(LaunchError::OssProviderNotSet),
                    }
                } else {
                    self.find_repository()
                }
            },
            LaunchPhase::Agent => {
                self.phase = LaunchPhase::Started;
                LaunchCommand::StartSession
            },
            _ => self.find_repository(),
        }
    }

    /// Takes the result of a step in and says which step follows.
    pub fn step(&mut self, event: LaunchEvent) -> (res: LaunchCommand<P>)
        requires
            old(self)@.awaits(event@),
        ensures
            final(self)@ == old(self)@.after_event(event@).0,
            res@ == old(self)@.after_event(event@).1,
    {
        match event {
            LaunchEvent::Succeeded => self.after_success(),
            LaunchEvent::Failed { error } => {
                let error = self.step_error(error);
                self.fail(error)
            },
            LaunchEvent::Provider { resolved } => match resolved {
                Some(provider) => {
                    self.provider = Some(provider.clone());
                    if needs_default_model(&self.options.model, self.options.oss) {
                        self.phase = LaunchPhase::DefaultModel;
                        LaunchCommand::LookUpDefaultModel { provider }
                    } else {
                        self.load_config(None)
                    }
                },
                None => self.fail(LaunchError::NoOssProvider),
            },
            LaunchEvent::DefaultModel { model } => self.load_config(model),
            LaunchEvent::Repository { found } => {
                if found {
                    self.phase = LaunchPhase::Agent;
                    LaunchCommand::StartAgent
                } else {
                    self.fail(LaunchError::UntrustedDirectory)
                }
            },
        }
    }
}

} // verus!
