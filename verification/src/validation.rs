//! Validation of a job's worktree: which commands are run, and how their outcome is judged.

use vstd::prelude::*;

use crate::encoding;
use crate::error;
use crate::error::EdgeError;
use crate::json;
use crate::paths;
use crate::paths::PathStyle;
use crate::sandbox;
use crate::sandbox::{EnvVar, EnvVarView, ProgramResolution, ProgramResolutionView, SandboxPolicy};
use crate::text;
use crate::text::push_text;
use crate::timestamp::Timestamp;

verus! {

/// Build and test commands configured in a repository.
#[derive(Clone, Debug, PartialEq, Eq)]
pub struct ValidationConfig {
    pub build: Option<Vec<String>>,
    pub test: Option<Vec<String>>,
    pub working_dir: Option<String>,
}

/// A command line and the directory it runs in.
#[derive(Clone, Debug, PartialEq, Eq)]
pub struct CommandSpec {
    pub argv: Vec<String>,
    pub working_dir: String,
}

/// The contents of a [`CommandSpec`].
pub struct CommandSpecView {
    pub argv: Seq<Seq<char>>,
    pub working_dir: Seq<char>,
}

impl View for CommandSpec {
    type V = CommandSpecView;

    open spec fn view(&self) -> CommandSpecView {
        CommandSpecView {
            argv: text::texts(self.argv@),
            working_dir: self.working_dir@,
        }
    }
}

impl CommandSpec {
    /// A copy with the same contents.
    pub fn copy(&self) -> (out: CommandSpec)
        ensures
            out@ == self@,
    {
        CommandSpec {
            argv: text::copy_list(&self.argv),
            working_dir: self.working_dir.clone(),
        }
    }
}

/// The validation commands of one job, and where they come from.
#[derive(Clone, Debug, PartialEq, Eq)]
pub struct ValidationPlan {
    pub build: Option<CommandSpec>,
    pub test: Option<CommandSpec>,
    pub config_source: String,
}

/// The contents of a [`ValidationPlan`].
pub struct ValidationPlanView {
    pub build: Option<CommandSpecView>,
    pub test: Option<CommandSpecView>,
    pub config_source: Seq<char>,
}

impl View for ValidationPlan {
    type V = ValidationPlanView;

    open spec fn view(&self) -> ValidationPlanView {
        ValidationPlanView {
            build: (match self.build {
                Some(inner) => Some(inner@),
                None => None,
            }),
            test: (match self.test {
                Some(inner) => Some(inner@),
                None => None,
            }),
            config_source: self.config_source@,
        }
    }
}

/// The command that configured entries make up, if any are configured: their trimmed, non-blank
/// entries, of which there must be one.
pub open spec fn command_spec(argv: Option<Seq<Seq<char>>>, working_dir: Seq<char>) -> Result<
    Option<CommandSpecView>,
    Seq<char>,
> {
    match argv {
        None => Ok(None),
        Some(entries) => {
            let kept = text::trimmed_entries(entries);
            if kept.len() == 0 {
                Err("validation command entries must not be empty"@)
            } else {
                Ok(Some(CommandSpecView { argv: kept, working_dir }))
            }
        },
    }
}

/// The contents of an optional command.
pub open spec fn opt_command(command: Option<CommandSpec>) -> Option<CommandSpecView> {
    match command {
        Some(inner) => Some(inner@),
        None => None,
    }
}

/// The command that configured entries make up, if any are configured.
pub fn build_command_spec(argv: &Option<Vec<String>>, working_dir: &str) -> (out: Result<
    Option<CommandSpec>,
    EdgeError,
>)
    ensures
        match out {
            Ok(command) => command_spec(json::opt_texts(*argv), working_dir@) == Ok::<
                Option<CommandSpecView>,
                Seq<char>,
            >(opt_command(command)),
            Err(error) => command_spec(json::opt_texts(*argv), working_dir@) == Err::<
                Option<CommandSpecView>,
                Seq<char>,
            >(error@),
        },
{
    match argv {
        None => Ok(None),
        Some(entries) => {
            let kept = text::trim_entries(entries);
            assert(text::texts(kept@).len() == kept.len());
            if kept.len() == 0 {
                return Err(EdgeError::new("validation command entries must not be empty"));
            }
            Ok(Some(CommandSpec { argv: kept, working_dir: working_dir.to_owned() }))
        },
    }
}

/// The configured working directory below a worktree, if one is configured.
pub open spec fn configured_working_dir(
    style: PathStyle,
    worktree: Seq<char>,
    configured: Option<Seq<char>>,
) -> Option<Seq<char>> {
    match configured {
        Some(dir) => if text::trim(dir).len() == 0 {
            None
        } else {
            Some(paths::join(style, worktree, text::trim(dir)))
        },
        None => None,
    }
}

/// The configured working directory below a worktree, if one is configured.
pub fn working_dir_candidate(
    style: PathStyle,
    worktree_path: &str,
    configured_dir: &Option<String>,
) -> (out: Option<
    String,
>)
    ensures
        text::opt_text(out) == configured_working_dir(
            style,
            worktree_path@,
            text::opt_text(*configured_dir),
        ),
{
    match configured_dir {
        Some(dir) => {
            let trimmed = text::trimmed_text(dir);
            if trimmed.as_str().is_empty() {
                None
            } else {
                Some(paths::join_path(style, worktree_path, &trimmed))
            }
        },
        None => None,
    }
}

/// The directory that validation runs in: the worktree, or the configured directory below it,
/// which must exist.
pub open spec fn working_dir(
    style: PathStyle,
    worktree: Seq<char>,
    configured: Option<Seq<char>>,
    exists: bool,
) -> Result<Seq<char>, Seq<char>> {
    match configured_working_dir(style, worktree, configured) {
        None => Ok(worktree),
        Some(dir) => if exists {
            Ok(dir)
        } else {
            Err("configured validation working_dir does not exist: "@ + dir)
        },
    }
}

/// The directory that validation runs in. `exists` says whether the configured directory is
/// there; without a configured directory it is not asked for.
pub fn resolve_working_dir(
    style: PathStyle,
    worktree_path: &str,
    configured_dir: &Option<String>,
    exists: bool,
) -> (out: Result<String, EdgeError>)
    ensures
        error::outcome(out) == working_dir(
            style,
            worktree_path@,
            text::opt_text(*configured_dir),
            exists,
        ),
{
    match working_dir_candidate(style, worktree_path, configured_dir) {
        None => Ok(worktree_path.to_owned()),
        Some(dir) => {
            if exists {
                Ok(dir)
            } else {
                let mut message = "configured validation working_dir does not exist: ".to_owned();
                message.append(&dir);
                Err(EdgeError::of(message))
            }
        },
    }
}

/// The plan that a validation configuration gives.
pub open spec fn plan_of(
    style: PathStyle,
    worktree: Seq<char>,
    config: ValidationConfig,
    config_source: Seq<char>,
    dir_exists: bool,
) -> Result<ValidationPlanView, Seq<char>> {
    match working_dir(style, worktree, text::opt_text(config.working_dir), dir_exists) {
        Err(message) => Err(message),
        Ok(dir) => match command_spec(json::opt_texts(config.build), dir) {
            Err(message) => Err(message),
            Ok(build) => match command_spec(json::opt_texts(config.test), dir) {
                Err(message) => Err(message),
                Ok(test) => Ok(ValidationPlanView { build, test, config_source }),
            },
        },
    }
}

/// The plan that a validation configuration gives.
pub fn build_validation_plan(
    style: PathStyle,
    worktree_path: &str,
    config: &ValidationConfig,
    config_source: String,
    dir_exists: bool,
) -> (out: Result<ValidationPlan, EdgeError>)
    ensures
        error::outcome(out) == plan_of(style, worktree_path@, *config, config_source@, dir_exists),
{
    let working_dir = match resolve_working_dir(
        style,
        worktree_path,
        &config.working_dir,
        dir_exists,
    ) {
        Ok(dir) => dir,
        Err(error) => return Err(error),
    };
    let build = match build_command_spec(&config.build, &working_dir) {
        Ok(command) => command,
        Err(error) => return Err(error),
    };
    let test = match build_command_spec(&config.test, &working_dir) {
        Ok(command) => command,
        Err(error) => return Err(error),
    };
    Ok(ValidationPlan { build, test, config_source })
}

/// Where a repository keeps its validation configuration.
pub open spec fn repo_config_path(style: PathStyle, worktree: Seq<char>) -> Seq<char> {
    paths::join(style, paths::join(style, worktree, ".assistant"@), "config.toml"@)
}

/// Where a repository keeps its validation configuration.
pub fn validation_config_path(style: PathStyle, worktree_path: &str) -> (out: String)
    ensures
        out@ == repo_config_path(style, worktree_path@),
{
    paths::join_path(style, &paths::join_path(style, worktree_path, ".assistant"), "config.toml")
}

/// Where a Cargo project has its manifest.
pub fn manifest_path(style: PathStyle, worktree_path: &str) -> (out: String)
    ensures
        out@ == paths::join(style, worktree_path@, "Cargo.toml"@),
{
    paths::join_path(style, worktree_path, "Cargo.toml")
}

/// What was found in a worktree that bears on its validation.
pub enum ValidationSource {
    /// The repository configures its validation.
    Repository { config: ValidationConfig },
    /// The repository has a Cargo manifest and no configuration.
    CargoManifest,
    /// Neither is there.
    Nothing,
}

/// Where the validation of a project comes from.
pub open spec fn source_of(config: Option<ValidationConfig>, has_manifest: bool) -> ValidationSource {
    match config {
        Some(given) => ValidationSource::Repository { config: given },
        None => if has_manifest {
            ValidationSource::CargoManifest
        } else {
            ValidationSource::Nothing
        },
    }
}

/// What bears on the validation of a worktree: the configuration of the repository, else its Cargo
/// manifest, else nothing.
pub fn validation_source(config: Option<ValidationConfig>, has_manifest: bool) -> (source:
    ValidationSource)
    ensures
        source == source_of(config, has_manifest),
{
    match config {
        Some(given) => ValidationSource::Repository { config: given },
        None => if has_manifest {
            ValidationSource::CargoManifest
        } else {
            ValidationSource::Nothing
        },
    }
}

/// What came of reading the validation configuration of a repository.
pub enum RepoConfigRead {
    /// There is none.
    Missing,
    /// It cannot be read.
    NotRead,
    /// It cannot be parsed.
    NotParsed,
    /// It says this.
    Parsed { config: ValidationConfig },
}

/// The validation configuration of a repository, if it has one, or the message of its refusal.
pub open spec fn repo_config(style: PathStyle, worktree: Seq<char>, read: RepoConfigRead) -> Result<
    Option<ValidationConfig>,
    Seq<char>,
> {
    match read {
        RepoConfigRead::Missing => Ok(None),
        RepoConfigRead::NotRead => Err("failed to read "@ + repo_config_path(style, worktree)),
        RepoConfigRead::NotParsed => Err("failed to parse "@ + repo_config_path(style, worktree)),
        RepoConfigRead::Parsed { config } => Ok(Some(config)),
    }
}

/// The validation configuration of a repository, if it has one.
pub fn load_repo_config(style: PathStyle, worktree_path: &str, read: RepoConfigRead) -> (out:
    Result<Option<ValidationConfig>, EdgeError>)
    ensures
        (match out {
            Ok(config) => Ok::<Option<ValidationConfig>, Seq<char>>(config),
            Err(error) => Err::<Option<ValidationConfig>, Seq<char>>(error@),
        }) == repo_config(style, worktree_path@, read),
{
    match read {
        RepoConfigRead::Missing => Ok(None),
        RepoConfigRead::NotRead => Err(
            EdgeError::of(
                text::message_about(
                    "failed to read ",
                    &validation_config_path(style, worktree_path),
                ),
            ),
        ),
        RepoConfigRead::NotParsed => Err(
            EdgeError::of(
                text::message_about(
                    "failed to parse ",
                    &validation_config_path(style, worktree_path),
                ),
            ),
        ),
        RepoConfigRead::Parsed { config } => Ok(Some(config)),
    }
}

/// The plan for what was found in a worktree. `dir_exists` says whether a configured working
/// directory is there.
pub open spec fn plan_for(
    style: PathStyle,
    worktree: Seq<char>,
    source: ValidationSource,
    dir_exists: bool,
) -> Result<ValidationPlanView, Seq<char>> {
    match source {
        ValidationSource::Repository { config } => plan_of(
            style,
            worktree,
            config,
            "repo config at "@ + repo_config_path(style, worktree),
            dir_exists,
        ),
        ValidationSource::CargoManifest => Ok(
            ValidationPlanView {
                build: Some(
                    CommandSpecView { argv: seq!["cargo"@, "check"@], working_dir: worktree },
                ),
                test: Some(
                    CommandSpecView {
                        argv: seq!["cargo"@, "test"@, "--quiet"@],
                        working_dir: worktree,
                    },
                ),
                config_source: "inferred from Cargo.toml"@,
            },
        ),
        ValidationSource::Nothing => Ok(
            ValidationPlanView {
                build: None,
                test: None,
                config_source: "no repository validation config found"@,
            },
        ),
    }
}

/// The plan for what was found in a worktree.
pub fn load_validation_plan(
    style: PathStyle,
    worktree_path: &str,
    source: &ValidationSource,
    dir_exists: bool,
) -> (out: Result<ValidationPlan, EdgeError>)
    ensures
        error::outcome(out) == plan_for(style, worktree_path@, *source, dir_exists),
{
    match source {
        ValidationSource::Repository { config } => {
            let mut config_source = "repo config at ".to_owned();
            config_source.append(&validation_config_path(style, worktree_path));
            build_validation_plan(style, worktree_path, config, config_source, dir_exists)
        },
        ValidationSource::CargoManifest => {
            let mut build: Vec<String> = Vec::new();
            push_text(&mut build, "cargo".to_owned());
            push_text(&mut build, "check".to_owned());
            assert(text::texts(build@) == seq!["cargo"@, "check"@]);
            let mut test: Vec<String> = Vec::new();
            push_text(&mut test, "cargo".to_owned());
            push_text(&mut test, "test".to_owned());
            push_text(&mut test, "--quiet".to_owned());
            assert(text::texts(test@) == seq!["cargo"@, "test"@, "--quiet"@]);
            Ok(
                ValidationPlan {
                    build: Some(CommandSpec { argv: build, working_dir: worktree_path.to_owned() }),
                    test: Some(CommandSpec { argv: test, working_dir: worktree_path.to_owned() }),
                    config_source: "inferred from Cargo.toml".to_owned(),
                },
            )
        },
        ValidationSource::Nothing => Ok(
            ValidationPlan {
                build: None,
                test: None,
                config_source: "no repository validation config found".to_owned(),
            },
        ),
    }
}

/// The outcome of one validation command.
#[derive(Clone, Debug, PartialEq, Eq)]
pub enum ValidationReport {
    /// No command is configured.
    NotConfigured { reason: String },
    /// The command was not run.
    Skipped { reason: String },
    /// The sandbox refused the command.
    SandboxBlocked { kind: String, command: Vec<String>, working_dir: String, started_at: Timestamp, duration_ms: u64, reason: String },
    /// The command could not be started, or took too long.
    Failed { command: Vec<String>, resolved_program: String, working_dir: String, started_at: Timestamp, duration_ms: u64, reason: String },
    /// The command ran to its end.
    Finished { success: bool, command: Vec<String>, resolved_program: String, working_dir: String, started_at: Timestamp, duration_ms: u64, exit_code: Option<i32>, stdout: String, stderr: String },
}

/// The contents of a [`ValidationReport`].
pub enum ValidationReportView {
    NotConfigured { reason: Seq<char> },
    Skipped { reason: Seq<char> },
    SandboxBlocked { kind: Seq<char>, command: Seq<Seq<char>>, working_dir: Seq<char>, started_at: Timestamp, duration_ms: u64, reason: Seq<char> },
    Failed { command: Seq<Seq<char>>, resolved_program: Seq<char>, working_dir: Seq<char>, started_at: Timestamp, duration_ms: u64, reason: Seq<char> },
    Finished { success: bool, command: Seq<Seq<char>>, resolved_program: Seq<char>, working_dir: Seq<char>, started_at: Timestamp, duration_ms: u64, exit_code: Option<i32>, stdout: Seq<char>, stderr: Seq<char> },
}

impl View for ValidationReport {
    type V = ValidationReportView;

    open spec fn view(&self) -> ValidationReportView {
        match *self {
            ValidationReport::NotConfigured { reason } => ValidationReportView::NotConfigured {
                reason: reason@,
            },
            ValidationReport::Skipped { reason } => ValidationReportView::Skipped {
                reason: reason@,
            },
            ValidationReport::SandboxBlocked { kind, command, working_dir, started_at, duration_ms, reason } => ValidationReportView::SandboxBlocked {
                kind: kind@,
                command: text::texts(command@),
                working_dir: working_dir@,
                started_at: started_at,
                duration_ms: duration_ms,
                reason: reason@,
            },
            ValidationReport::Failed { command, resolved_program, working_dir, started_at, duration_ms, reason } => ValidationReportView::Failed {
                command: text::texts(command@),
                resolved_program: resolved_program@,
                working_dir: working_dir@,
                started_at: started_at,
                duration_ms: duration_ms,
                reason: reason@,
            },
            ValidationReport::Finished { success, command, resolved_program, working_dir, started_at, duration_ms, exit_code, stdout, stderr } => ValidationReportView::Finished {
                success: success,
                command: text::texts(command@),
                resolved_program: resolved_program@,
                working_dir: working_dir@,
                started_at: started_at,
                duration_ms: duration_ms,
                exit_code: exit_code,
                stdout: stdout@,
                stderr: stderr@,
            },
        }
    }
}

impl ValidationReport {
    /// A copy with the same contents.
    pub fn copy(&self) -> (out: ValidationReport)
        ensures
            out@ == self@,
    {
        match self {
            ValidationReport::NotConfigured { reason } => ValidationReport::NotConfigured {
                reason: reason.clone(),
            },
            ValidationReport::Skipped { reason } => ValidationReport::Skipped {
                reason: reason.clone(),
            },
            ValidationReport::SandboxBlocked { kind, command, working_dir, started_at, duration_ms, reason } => ValidationReport::SandboxBlocked {
                kind: kind.clone(),
                command: text::copy_list(command),
                working_dir: working_dir.clone(),
                started_at: *started_at,
                duration_ms: *duration_ms,
                reason: reason.clone(),
            },
            ValidationReport::Failed { command, resolved_program, working_dir, started_at, duration_ms, reason } => ValidationReport::Failed {
                command: text::copy_list(command),
                resolved_program: resolved_program.clone(),
                working_dir: working_dir.clone(),
                started_at: *started_at,
                duration_ms: *duration_ms,
                reason: reason.clone(),
            },
            ValidationReport::Finished { success, command, resolved_program, working_dir, started_at, duration_ms, exit_code, stdout, stderr } => ValidationReport::Finished {
                success: *success,
                command: text::copy_list(command),
                resolved_program: resolved_program.clone(),
                working_dir: working_dir.clone(),
                started_at: *started_at,
                duration_ms: *duration_ms,
                exit_code: *exit_code,
                stdout: stdout.clone(),
                stderr: stderr.clone(),
            },
        }
    }
}

impl ValidationReportView {
    /// The status that a report states.
    pub open spec fn status(self) -> Seq<char> {
        match self {
            ValidationReportView::NotConfigured { .. } => "not_configured"@,
            ValidationReportView::Skipped { .. } => "skipped"@,
            ValidationReportView::SandboxBlocked { .. } => "sandbox_blocked"@,
            ValidationReportView::Failed { .. } => "failed"@,
            ValidationReportView::Finished { success, .. } => if success {
                "passed"@
            } else {
                "failed"@
            },
        }
    }

    /// A command that failed, or was never started.
    pub open spec fn failed(self) -> bool {
        match self {
            ValidationReportView::Failed { .. } => true,
            ValidationReportView::Finished { success, .. } => !success,
            _ => false,
        }
    }

    /// A command that passed.
    pub open spec fn passed(self) -> bool {
        match self {
            ValidationReportView::Finished { success, .. } => success,
            _ => false,
        }
    }
}

/// The status that a report states.
pub fn validation_status(report: &ValidationReport) -> (out: &'static str)
    ensures
        out@ == report@.status(),
{
    match report {
        ValidationReport::NotConfigured { .. } => "not_configured",
        ValidationReport::Skipped { .. } => "skipped",
        ValidationReport::SandboxBlocked { .. } => "sandbox_blocked",
        ValidationReport::Failed { .. } => "failed",
        ValidationReport::Finished { success, .. } => if *success {
            "passed"
        } else {
            "failed"
        },
    }
}

/// The report of a command that the sandbox refused.
pub fn sandbox_blocked_report(
    kind: &str,
    argv: &Vec<String>,
    working_dir: &str,
    started_at: Timestamp,
    duration_ms: u64,
    reason: &str,
) -> (report: ValidationReport)
    ensures
        report@ == (ValidationReportView::SandboxBlocked {
            kind: kind@,
            command: text::texts(argv@),
            working_dir: working_dir@,
            started_at,
            duration_ms,
            reason: reason@,
        }),
{
    ValidationReport::SandboxBlocked {
        kind: kind.to_owned(),
        command: text::copy_list(argv),
        working_dir: working_dir.to_owned(),
        started_at,
        duration_ms,
        reason: reason.to_owned(),
    }
}

/// A validation command as it is started.
#[derive(Clone, Debug, PartialEq, Eq)]
pub struct ValidationLaunch {
    pub program: String,
    pub args: Vec<String>,
    pub working_dir: String,
    pub environment: Vec<EnvVar>,
}

/// The contents of a [`ValidationLaunch`].
pub struct ValidationLaunchView {
    pub program: Seq<char>,
    pub args: Seq<Seq<char>>,
    pub working_dir: Seq<char>,
    pub environment: Seq<EnvVarView>,
}

impl View for ValidationLaunch {
    type V = ValidationLaunchView;

    open spec fn view(&self) -> ValidationLaunchView {
        ValidationLaunchView {
            program: self.program@,
            args: text::texts(self.args@),
            working_dir: self.working_dir@,
            environment: self.environment@.map_values(|item: EnvVar| item@),
        }
    }
}

/// What the paths of a validation command resolve to on disk; nothing where one does not resolve.
pub struct ResolvedPaths {
    /// The worktree.
    pub worktree: Option<String>,
    /// The directory that the command is to run in.
    pub working_dir: Option<String>,
    /// The program, where it is given by a path.
    pub program: Option<String>,
}

/// The program that a validation command starts.
pub open spec fn launched_program(
    style: PathStyle,
    worktree: Seq<char>,
    working_dir: Seq<char>,
    program: Seq<char>,
    resolved: ResolvedPaths,
) -> Result<Seq<char>, Seq<char>> {
    match sandbox::program_resolution(style, working_dir, program) {
        Err(message) => Err(message),
        Ok(ProgramResolutionView::SearchPath { program: name }) => Ok(name),
        Ok(ProgramResolutionView::Contained { candidate }) => sandbox::contained_path(
            style,
            worktree,
            candidate,
            "validation command path"@,
            text::opt_text(resolved.worktree),
            text::opt_text(resolved.program),
        ),
    }
}

/// How a validation command is started, or the message of its refusal: its directory must lie
/// within the worktree, and its program must be no shell and, given by a path, lie there too.
pub open spec fn launch_of(
    style: PathStyle,
    spec: CommandSpecView,
    policy: SandboxPolicy,
    resolved: ResolvedPaths,
) -> Result<ValidationLaunchView, Seq<char>> {
    match sandbox::contained_path(
        style,
        policy.worktree_path@,
        spec.working_dir,
        "validation working directory"@,
        text::opt_text(resolved.worktree),
        text::opt_text(resolved.working_dir),
    ) {
        Err(message) => Err(message),
        Ok(working_dir) => match launched_program(
            style,
            policy.worktree_path@,
            working_dir,
            spec.argv[0],
            resolved,
        ) {
            Err(message) => Err(message),
            Ok(program) => Ok(
                ValidationLaunchView {
                    program,
                    args: spec.argv.skip(1),
                    working_dir,
                    environment: sandbox::environment_of(style, policy@),
                },
            ),
        },
    }
}

/// How a validation command is started.
pub fn prepare_validation_launch(
    style: PathStyle,
    spec: &CommandSpec,
    policy: &SandboxPolicy,
    resolved: &ResolvedPaths,
) -> (out: Result<ValidationLaunch, EdgeError>)
    requires
        spec.argv.len() > 0,
    ensures
        error::outcome(out) == launch_of(style, spec@, *policy, *resolved),
{
    assert(spec@.argv.len() == spec.argv.len());
    let working_dir = match sandbox::enforce_worktree_containment(
        style,
        &policy.worktree_path,
        &spec.working_dir,
        "validation working directory",
        text::copy_opt(&resolved.worktree),
        text::copy_opt(&resolved.working_dir),
    ) {
        Ok(path) => path,
        Err(error) => return Err(error),
    };
    assert(spec@.argv[0] == spec.argv@[0]@);
    let program = match sandbox::resolve_validation_program(style, &working_dir, &spec.argv[0]) {
        Err(error) => return Err(error),
        Ok(ProgramResolution::SearchPath { program }) => program,
        Ok(ProgramResolution::Contained { candidate }) => match sandbox::enforce_worktree_containment(
            style,
            &policy.worktree_path,
            &candidate,
            "validation command path",
            text::copy_opt(&resolved.worktree),
            text::copy_opt(&resolved.program),
        ) {
            Ok(path) => path,
            Err(error) => return Err(error),
        },
    };
    let mut args: Vec<String> = Vec::new();
    let mut i: usize = 1;
    while i < spec.argv.len()
        invariant
            1 <= i <= spec.argv.len(),
            spec@.argv.len() == spec.argv.len(),
            text::texts(args@) == spec@.argv.subrange(1, i as int),
        decreases spec.argv.len() - i,
    {
        push_text(&mut args, spec.argv[i].clone());
        assert(spec@.argv.subrange(1, i + 1) == spec@.argv.subrange(1, i as int).push(
            spec@.argv[i as int],
        ));
        i = i + 1;
    }
    assert(spec@.argv.subrange(1, i as int) == spec@.argv.skip(1));
    let mut environment: Vec<EnvVar> = Vec::new();
    sandbox::apply_sandbox_environment(style, &mut environment, policy);
    assert(sandbox::env_views(environment@) == sandbox::environment_of(style, policy@));
    Ok(ValidationLaunch { program, args, working_dir, environment })
}

/// A validation command that is started runs in a directory within the worktree; its program is
/// no shell, and where it was given by a path it lies within the worktree too.
pub proof fn launched_commands_stay_in_the_sandbox(
    style: PathStyle,
    spec: CommandSpecView,
    policy: SandboxPolicy,
    resolved: ResolvedPaths,
)
    requires
        spec.argv.len() > 0,
    ensures
        launch_of(style, spec, policy, resolved) matches Ok(launch) ==> {
            &&& resolved.worktree is Some
            &&& paths::lies_within(style, launch.working_dir, resolved.worktree->0@)
            &&& !sandbox::is_shell(style, spec.argv[0])
            &&& launch.program == spec.argv[0] || paths::lies_within(
                style,
                launch.program,
                resolved.worktree->0@,
            )
            &&& paths::is_absolute(
                style,
                spec.argv[0],
            ) || paths::components(style, spec.argv[0]).len() > 1
                ==> paths::lies_within(style, launch.program, resolved.worktree->0@)
        },
{
}

/// How far a validation command got.
pub enum CommandRun {
    /// Its directory or its program violates the sandbox.
    Blocked { error: EdgeError },
    /// It was still running when its time was up.
    TimedOut { program: String, working_dir: String },
    /// It could not be run.
    NotRun { program: String, working_dir: String, reason: String },
    /// It ran to its end.
    Exited {
        program: String,
        working_dir: String,
        success: bool,
        exit_code: Option<i32>,
        stdout: Vec<u8>,
        stderr: Vec<u8>,
    },
}

/// The longest output that a report keeps of a command, in characters.
pub const OUTPUT_LIMIT: usize = 4000;

/// The report of a validation command.
pub open spec fn report_for(
    kind: Seq<char>,
    spec: CommandSpecView,
    timeout_secs: u64,
    started_at: Timestamp,
    duration_ms: u64,
    run: CommandRun,
) -> ValidationReportView {
    match run {
        CommandRun::Blocked { error } => ValidationReportView::SandboxBlocked {
            kind,
            command: spec.argv,
            working_dir: spec.working_dir,
            started_at,
            duration_ms,
            reason: error@,
        },
        CommandRun::TimedOut { program, working_dir } => ValidationReportView::Failed {
            command: spec.argv,
            resolved_program: program@,
            working_dir: working_dir@,
            started_at,
            duration_ms,
            reason: kind + " command timed out after "@ + text::decimal(timeout_secs as nat)
                + " seconds"@,
        },
        CommandRun::NotRun { program, working_dir, reason } => ValidationReportView::Failed {
            command: spec.argv,
            resolved_program: program@,
            working_dir: working_dir@,
            started_at,
            duration_ms,
            reason: reason@,
        },
        CommandRun::Exited { program, working_dir, success, exit_code, stdout, stderr } =>
            ValidationReportView::Finished {
                success,
                command: spec.argv,
                resolved_program: program@,
                working_dir: working_dir@,
                started_at,
                duration_ms,
                exit_code,
                stdout: text::truncated(encoding::lossy_text(stdout@), OUTPUT_LIMIT as nat),
                stderr: text::truncated(encoding::lossy_text(stderr@), OUTPUT_LIMIT as nat),
            },
    }
}

/// The report of a validation command, from how far it got.
pub fn execute_validation_command(
    kind: &str,
    spec: &CommandSpec,
    timeout_secs: u64,
    started_at: Timestamp,
    duration_ms: u64,
    run: &CommandRun,
) -> (report: ValidationReport)
    ensures
        report@ == report_for(kind@, spec@, timeout_secs, started_at, duration_ms, *run),
{
    match run {
        CommandRun::Blocked { error } => sandbox_blocked_report(
            kind,
            &spec.argv,
            &spec.working_dir,
            started_at,
            duration_ms,
            &error.message,
        ),
        CommandRun::TimedOut { program, working_dir } => {
            let mut reason = kind.to_owned();
            reason.append(" command timed out after ");
            reason.append(&text::decimal_text(timeout_secs));
            reason.append(" seconds");
            ValidationReport::Failed {
                command: text::copy_list(&spec.argv),
                resolved_program: program.clone(),
                working_dir: working_dir.clone(),
                started_at,
                duration_ms,
                reason,
            }
        },
        CommandRun::NotRun { program, working_dir, reason } => ValidationReport::Failed {
            command: text::copy_list(&spec.argv),
            resolved_program: program.clone(),
            working_dir: working_dir.clone(),
            started_at,
            duration_ms,
            reason: reason.clone(),
        },
        CommandRun::Exited { program, working_dir, success, exit_code, stdout, stderr } => {
            let out_text = encoding::text_from_lossy(stdout.as_slice());
            let err_text = encoding::text_from_lossy(stderr.as_slice());
            ValidationReport::Finished {
                success: *success,
                command: text::copy_list(&spec.argv),
                resolved_program: program.clone(),
                working_dir: working_dir.clone(),
                started_at,
                duration_ms,
                exit_code: *exit_code,
                stdout: text::truncate_text(&out_text, OUTPUT_LIMIT),
                stderr: text::truncate_text(&err_text, OUTPUT_LIMIT),
            }
        },
    }
}

/// What happens to the test command once the build has been reported.
pub enum TestDecision {
    /// The test command is run.
    Run,
    /// The test command is not run; this is its report.
    Report { report: ValidationReport },
}

/// The report for a build command that is not configured.
pub open spec fn build_not_configured() -> ValidationReportView {
    ValidationReportView::NotConfigured {
        reason: "no build command is configured for this repository"@,
    }
}

/// The report for a build command that is not configured.
pub fn unconfigured_build_report() -> (report: ValidationReport)
    ensures
        report@ == build_not_configured(),
{
    ValidationReport::NotConfigured {
        reason: "no build command is configured for this repository".to_owned(),
    }
}

/// The report of a test command that is not run, or nothing if it is run: a failed or blocked
/// build takes the tests with it.
pub open spec fn test_report_without_run(
    build: ValidationReportView,
    has_test: bool,
) -> Option<ValidationReportView> {
    if build.failed() {
        Some(
            ValidationReportView::Skipped {
                reason: "test command was skipped because the build command failed"@,
            },
        )
    } else if build is SandboxBlocked {
        Some(
            ValidationReportView::Skipped {
                reason:
                    "test command was skipped because the build command was blocked by the sandbox"@,
            },
        )
    } else if has_test {
        None
    } else {
        Some(
            ValidationReportView::NotConfigured {
                reason: "no test command is configured for this repository"@,
            },
        )
    }
}

/// What happens to the test command once the build has been reported.
pub fn decide_test(build: &ValidationReport, has_test: bool) -> (decision: TestDecision)
    ensures
        match decision {
            TestDecision::Run => test_report_without_run(build@, has_test) is None,
            TestDecision::Report { report } => test_report_without_run(build@, has_test) == Some(
                report@,
            ),
        },
{
    let failed = match build {
        ValidationReport::Failed { .. } => true,
        ValidationReport::Finished { success, .. } => !*success,
        _ => false,
    };
    let blocked = match build {
        ValidationReport::SandboxBlocked { .. } => true,
        _ => false,
    };
    if failed {
        TestDecision::Report {
            report: ValidationReport::Skipped {
                reason: "test command was skipped because the build command failed".to_owned(),
            },
        }
    } else if blocked {
        TestDecision::Report {
            report: ValidationReport::Skipped {
                reason:
                    "test command was skipped because the build command was blocked by the sandbox".to_owned(),
            },
        }
    } else if has_test {
        TestDecision::Run
    } else {
        TestDecision::Report {
            report: ValidationReport::NotConfigured {
                reason: "no test command is configured for this repository".to_owned(),
            },
        }
    }
}

/// The judged outcome of a job's validation.
#[derive(Clone, Debug, PartialEq, Eq)]
pub struct ValidationResults {
    pub build: ValidationReport,
    pub test: ValidationReport,
    pub overall_success: bool,
    pub config_source: String,
}

/// The contents of a [`ValidationResults`].
pub struct ValidationResultsView {
    pub build: ValidationReportView,
    pub test: ValidationReportView,
    pub overall_success: bool,
    pub config_source: Seq<char>,
}

impl View for ValidationResults {
    type V = ValidationResultsView;

    open spec fn view(&self) -> ValidationResultsView {
        ValidationResultsView {
            build: self.build@,
            test: self.test@,
            overall_success: self.overall_success,
            config_source: self.config_source@,
        }
    }
}

/// Validation succeeds when nothing that is configured failed or was blocked.
pub open spec fn overall_success(build: ValidationReportView, test: ValidationReportView) -> bool {
    &&& build.passed() || build is NotConfigured
    &&& test.passed() || test is NotConfigured || test is Skipped
}

/// The judged outcome of the two validation commands.
pub fn run_validation_suite(
    build: ValidationReport,
    test: ValidationReport,
    config_source: String,
) -> (results: ValidationResults)
    ensures
        results@ == (ValidationResultsView {
            build: build@,
            test: test@,
            overall_success: overall_success(build@, test@),
            config_source: config_source@,
        }),
{
    let build_ok = match &build {
        ValidationReport::NotConfigured { .. } => true,
        ValidationReport::Finished { success, .. } => *success,
        _ => false,
    };
    let test_ok = match &test {
        ValidationReport::NotConfigured { .. } => true,
        ValidationReport::Skipped { .. } => true,
        ValidationReport::Finished { success, .. } => *success,
        _ => false,
    };
    ValidationResults { build, test, overall_success: build_ok && test_ok, config_source }
}

/// Tests that were skipped because of the build never let validation succeed.
pub proof fn skipped_tests_do_not_hide_a_bad_build(
    build: ValidationReportView,
    has_test: bool,
)
    ensures
        build.failed() || build is SandboxBlocked ==> {
            &&& test_report_without_run(build, has_test) is Some
            &&& !overall_success(build, test_report_without_run(build, has_test)->0)
        },
{
}

/// Every command of a plan has a program to run.
pub proof fn planned_commands_have_a_program(
    style: PathStyle,
    worktree: Seq<char>,
    source: ValidationSource,
    dir_exists: bool,
)
    ensures
        plan_for(style, worktree, source, dir_exists) matches Ok(plan) ==> {
            &&& plan.build matches Some(command) ==> command.argv.len() > 0
            &&& plan.test matches Some(command) ==> command.argv.len() > 0
        },
{
}

/// Validation succeeds exactly where nothing speaks against the work: the build passed or is not
/// configured, and the tests passed, are not configured or were skipped. In particular it never
/// succeeds where a report states a failure, a timeout or a violation of the sandbox.
pub proof fn validation_succeeds_only_without_failures(
    build: ValidationReportView,
    test: ValidationReportView,
)
    ensures
        overall_success(build, test) <==> {
            &&& build.status() == "passed"@ || build.status() == "not_configured"@
            &&& test.status() == "passed"@ || test.status() == "not_configured"@ || test.status()
                == "skipped"@
        },
        overall_success(build, test) <==> {
            &&& !build.failed() && !(build is SandboxBlocked) && !(build is Skipped)
            &&& !test.failed() && !(test is SandboxBlocked)
        },
        build is Failed || test is Failed ==> !overall_success(build, test),
        build is SandboxBlocked || test is SandboxBlocked ==> !overall_success(build, test),
        build matches ValidationReportView::Finished { success, .. } && !success
            ==> !overall_success(build, test),
        test matches ValidationReportView::Finished { success, .. } && !success
            ==> !overall_success(build, test),
        build matches ValidationReportView::Finished { success, .. } && success && (test
            is NotConfigured || test is Skipped) ==> overall_success(build, test),
        build is NotConfigured && test is NotConfigured ==> overall_success(build, test),
{
    reveal_strlit("passed");
    reveal_strlit("failed");
    reveal_strlit("skipped");
    reveal_strlit("not_configured");
    reveal_strlit("sandbox_blocked");
    assert("passed"@.len() == 6 && "failed"@.len() == 6 && "skipped"@.len() == 7);
    assert("not_configured"@.len() == 14 && "sandbox_blocked"@.len() == 15);
    assert("passed"@[0] == 'p' && "failed"@[0] == 'f');
}

/// A report states how its command ended: `passed` exactly where it ran to a successful end,
/// `failed` where it ended otherwise, ran out of time or could not be run, and `sandbox_blocked`
/// where the sandbox refused it. The report tells what was run, where, when and for how long, and
/// why it failed.
pub proof fn reports_tell_how_the_command_ended(
    kind: Seq<char>,
    spec: CommandSpecView,
    timeout_secs: u64,
    started_at: Timestamp,
    duration_ms: u64,
    run: CommandRun,
)
    ensures
        ({
            let report = report_for(kind, spec, timeout_secs, started_at, duration_ms, run);
            match run {
                CommandRun::Blocked { error } => {
                    &&& report.status() == "sandbox_blocked"@
                    &&& !report.passed()
                    &&& report matches ValidationReportView::SandboxBlocked {
                        kind: told,
                        command,
                        working_dir,
                        started_at: at,
                        duration_ms: lasted,
                        reason,
                    }
                    &&& told == kind && command == spec.argv && working_dir == spec.working_dir
                    &&& at == started_at && lasted == duration_ms && reason == error@
                },
                CommandRun::TimedOut { program, working_dir } => {
                    &&& report.status() == "failed"@
                    &&& report.failed()
                    &&& report matches ValidationReportView::Failed {
                        command,
                        resolved_program,
                        working_dir: place,
                        started_at: at,
                        duration_ms: lasted,
                        reason,
                    }
                    &&& command == spec.argv && resolved_program == program@ && place
                        == working_dir@
                    &&& at == started_at && lasted == duration_ms
                    &&& kind.is_prefix_of(reason)
                    &&& text::contains_text(reason, text::decimal(timeout_secs as nat))
                },
                CommandRun::NotRun { program, working_dir, reason: why } => {
                    &&& report.status() == "failed"@
                    &&& report.failed()
                    &&& report matches ValidationReportView::Failed {
                        command,
                        resolved_program,
                        working_dir: place,
                        started_at: at,
                        duration_ms: lasted,
                        reason,
                    }
                    &&& command == spec.argv && resolved_program == program@ && place
                        == working_dir@
                    &&& at == started_at && lasted == duration_ms && reason == why@
                },
                CommandRun::Exited { program, working_dir, success, exit_code, stdout, stderr } => {
                    &&& success ==> report.status() == "passed"@ && report.passed()
                        && !report.failed()
                    &&& !success ==> report.status() == "failed"@ && report.failed()
                        && !report.passed()
                    &&& report matches ValidationReportView::Finished {
                        success: told,
                        command,
                        resolved_program,
                        working_dir: place,
                        started_at: at,
                        duration_ms: lasted,
                        exit_code: code,
                        stdout: out,
                        stderr: err,
                    }
                    &&& told == success && command == spec.argv && resolved_program == program@
                    &&& place == working_dir@ && at == started_at && lasted == duration_ms
                    &&& code == exit_code
                    &&& out == text::truncated(encoding::lossy_text(stdout@), 4000)
                    &&& err == text::truncated(encoding::lossy_text(stderr@), 4000)
                },
            }
        }),
{
    if let CommandRun::TimedOut { program, working_dir } = run {
        let seconds = text::decimal(timeout_secs as nat);
        let before = kind + " command timed out after "@;
        let reason = before + seconds + " seconds"@;
        assert(reason.subrange(0, kind.len() as int) =~= kind);
        text::parts_are_contained(before, seconds, " seconds"@);
    }
}

/// Tests are run exactly where a test command is configured and the build did nothing worse than
/// to pass or to be missing. Otherwise the report says why they were not: skipped because of the
/// build, or not configured.
pub proof fn tests_run_after_a_good_build(build: ValidationReportView, has_test: bool)
    ensures
        test_report_without_run(build, has_test) is None <==> {
            &&& has_test
            &&& !build.failed()
            &&& !(build is SandboxBlocked)
        },
        build.failed() || build is SandboxBlocked ==> {
            &&& test_report_without_run(build, has_test) matches Some(report)
            &&& report is Skipped
            &&& report.status() == "skipped"@
        },
        !build.failed() && !(build is SandboxBlocked) && !has_test ==> {
            &&& test_report_without_run(build, has_test) matches Some(report)
            &&& report is NotConfigured
            &&& report.status() == "not_configured"@
        },
        build_not_configured() is NotConfigured,
{
}

/// A plan has exactly the commands that were configured, with their words in order and without
/// blank ones, all to be run in the one configured directory or, without one, in the worktree. A
/// command without words, and a configured directory that is not there, make the plan fail.
pub proof fn plans_follow_the_configuration(
    style: PathStyle,
    worktree: Seq<char>,
    config: ValidationConfig,
    dir_exists: bool,
)
    ensures
        ({
            let plan = plan_for(
                style,
                worktree,
                ValidationSource::Repository { config },
                dir_exists,
            );
            let own_dir = config.working_dir matches Some(dir) && text::trim(dir@).len() > 0;
            let bad_dir = own_dir && !dir_exists;
            let no_words = {
                ||| config.build matches Some(words) && text::trimmed_entries(
                    text::texts(words@),
                ).len() == 0
                ||| config.test matches Some(words) && text::trimmed_entries(
                    text::texts(words@),
                ).len() == 0
            };
            &&& plan is Err <==> bad_dir || no_words
            &&& plan matches Ok(found) ==> {
                let place = if own_dir {
                    paths::join(style, worktree, text::trim(config.working_dir->0@))
                } else {
                    worktree
                };
                &&& found.build is Some <==> config.build is Some
                &&& config.build matches Some(words) ==> found.build->0.argv
                    == text::trimmed_entries(text::texts(words@))
                &&& found.build matches Some(command) ==> command.working_dir == place
                &&& found.test is Some <==> config.test is Some
                &&& config.test matches Some(words) ==> found.test->0.argv
                    == text::trimmed_entries(text::texts(words@))
                &&& found.test matches Some(command) ==> command.working_dir == place
                &&& repo_config_path(style, worktree).is_suffix_of(found.config_source)
            }
        }),
{
    let shown = repo_config_path(style, worktree);
    let source = "repo config at "@ + shown;
    assert(source.subrange(source.len() - shown.len(), source.len() as int) =~= shown);
}

/// A Cargo project is checked and then tested in its worktree; where nothing is known, nothing is
/// run. Neither depends on a configured directory.
pub proof fn projects_are_validated_by_what_they_are(
    style: PathStyle,
    worktree: Seq<char>,
    dir_exists: bool,
)
    ensures
        plan_for(style, worktree, ValidationSource::CargoManifest, dir_exists) matches Ok(plan) && {
            &&& plan.build matches Some(build)
            &&& build.argv == seq!["cargo"@, "check"@]
            &&& build.working_dir == worktree
            &&& plan.test matches Some(test)
            &&& test.argv == seq!["cargo"@, "test"@, "--quiet"@]
            &&& test.working_dir == worktree
        },
        plan_for(style, worktree, ValidationSource::Nothing, dir_exists) matches Ok(plan) && {
            &&& plan.build is None
            &&& plan.test is None
        },
        repo_config_path(style, worktree) == paths::join(
            style,
            paths::join(style, worktree, ".assistant"@),
            "config.toml"@,
        ),
{
}

/// What is started is the command that was asked for: its words behind the program are handed on
/// in order, it runs where its directory resolved to, and its environment is that of the sandbox.
/// A program that is no path is looked up under its own name; one that is a path is started where
/// it resolved to.
pub proof fn launches_hand_the_command_on(
    style: PathStyle,
    spec: CommandSpecView,
    policy: SandboxPolicy,
    resolved: ResolvedPaths,
)
    requires
        spec.argv.len() > 0,
    ensures
        launch_of(style, spec, policy, resolved) matches Ok(launch) ==> {
            &&& seq![spec.argv[0]] + launch.args == spec.argv
            &&& resolved.working_dir matches Some(dir) && launch.working_dir == dir@
            &&& launch.environment == sandbox::environment_of(style, policy@)
            &&& if paths::is_absolute(style, spec.argv[0]) || paths::components(
                style,
                spec.argv[0],
            ).len() > 1 {
                resolved.program matches Some(program) && launch.program == program@
            } else {
                launch.program == spec.argv[0]
            }
        },
        launch_of(style, spec, policy, resolved) is Ok <==> {
            &&& resolved.worktree matches Some(root)
            &&& resolved.working_dir matches Some(dir)
            &&& paths::lies_within(style, dir@, root@)
            &&& !sandbox::is_shell(style, spec.argv[0])
            &&& paths::is_absolute(style, spec.argv[0]) || paths::components(
                style,
                spec.argv[0],
            ).len() > 1 ==> {
                &&& resolved.program matches Some(program)
                &&& paths::lies_within(style, program@, root@)
            }
        },
{
    assert(seq![spec.argv[0]] + spec.argv.skip(1) =~= spec.argv);
}

/// Tests that are not run say why, and so does a build that there is none of.
pub proof fn missing_reports_say_why(build: ValidationReportView, has_test: bool)
    ensures
        build_not_configured() == (ValidationReportView::NotConfigured {
            reason: "no build command is configured for this repository"@,
        }),
        build.failed() ==> test_report_without_run(build, has_test) == Some(
            ValidationReportView::Skipped {
                reason: "test command was skipped because the build command failed"@,
            },
        ),
        build is SandboxBlocked ==> test_report_without_run(build, has_test) == Some(
            ValidationReportView::Skipped {
                reason:
                    "test command was skipped because the build command was blocked by the sandbox"@,
            },
        ),
        !build.failed() && !(build is SandboxBlocked) && !has_test ==> test_report_without_run(
            build,
            has_test,
        ) == Some(
            ValidationReportView::NotConfigured {
                reason: "no test command is configured for this repository"@,
            },
        ),
{
}

/// A plan says where it comes from, and a configuration that cannot be had says what is wrong with
/// it.
pub proof fn plans_say_where_they_come_from(
    style: PathStyle,
    worktree: Seq<char>,
    source: ValidationSource,
    dir_exists: bool,
    configured: Option<Seq<char>>,
    read: RepoConfigRead,
    entries: Seq<Seq<char>>,
)
    ensures
        plan_for(style, worktree, source, dir_exists) matches Ok(plan) ==> match source {
            ValidationSource::Repository { .. } => plan.config_source == "repo config at "@
                + repo_config_path(style, worktree),
            ValidationSource::CargoManifest => plan.config_source == "inferred from Cargo.toml"@,
            ValidationSource::Nothing => plan.config_source
                == "no repository validation config found"@,
        },
        working_dir(style, worktree, configured, dir_exists) matches Err(message) ==> message
            == "configured validation working_dir does not exist: "@ + configured_working_dir(
            style,
            worktree,
            configured,
        )->0,
        read is NotRead ==> repo_config(style, worktree, read) == Err::<
            Option<ValidationConfig>,
            Seq<char>,
        >("failed to read "@ + repo_config_path(style, worktree)),
        read is NotParsed ==> repo_config(style, worktree, read) == Err::<
            Option<ValidationConfig>,
            Seq<char>,
        >("failed to parse "@ + repo_config_path(style, worktree)),
        read is Missing ==> repo_config(style, worktree, read) == Ok::<
            Option<ValidationConfig>,
            Seq<char>,
        >(None),
        read matches RepoConfigRead::Parsed { config } ==> repo_config(style, worktree, read)
            == Ok::<Option<ValidationConfig>, Seq<char>>(Some(config)),
        command_spec(Some(entries), worktree) matches Err(message) ==> message
            == "validation command entries must not be empty"@,
{
}

/// A command that ran out of time says which it was and how much it had.
pub proof fn late_commands_say_how_late(
    kind: Seq<char>,
    spec: CommandSpecView,
    timeout_secs: u64,
    started_at: Timestamp,
    duration_ms: u64,
    run: CommandRun,
)
    ensures
        run is TimedOut ==> {
            &&& report_for(kind, spec, timeout_secs, started_at, duration_ms, run)
                matches ValidationReportView::Failed { reason, .. }
            &&& reason == kind + " command timed out after "@ + text::decimal(timeout_secs as nat)
                + " seconds"@
        },
{
}

/// What is shown of a value is what it holds, field by field.
pub proof fn what_is_held_is_shown(
    command_spec: CommandSpec,
    validation_plan: ValidationPlan,
    validation_launch: ValidationLaunch,
    validation_results: ValidationResults,
)
    ensures
        command_spec@.argv == text::texts(command_spec.argv@),
        command_spec@.working_dir == command_spec.working_dir@,
        validation_plan@.build == (match validation_plan.build { Some(inner) => Some(inner@), None => None, }),
        validation_plan@.test == (match validation_plan.test { Some(inner) => Some(inner@), None => None, }),
        validation_plan@.config_source == validation_plan.config_source@,
        validation_launch@.program == validation_launch.program@,
        validation_launch@.args == text::texts(validation_launch.args@),
        validation_launch@.working_dir == validation_launch.working_dir@,
        validation_launch@.environment == validation_launch.environment@.map_values(|item: EnvVar| item@),
        validation_results@.build == validation_results.build@,
        validation_results@.test == validation_results.test@,
        validation_results@.overall_success == validation_results.overall_success,
        validation_results@.config_source == validation_results.config_source@,
{
}

/// The configuration of a repository comes first, then its manifest. Nothing is validated only where
/// there is neither.
pub proof fn configurations_come_before_manifests(
    config: Option<ValidationConfig>,
    has_manifest: bool,
)
    ensures
        config matches Some(given) ==> source_of(config, has_manifest) == (
        ValidationSource::Repository { config: given }),
        source_of(config, has_manifest) is CargoManifest <==> config is None && has_manifest,
        source_of(config, has_manifest) is Nothing <==> config is None && !has_manifest,
{
}

/// What is shown of a value is its kind and what it holds.
pub proof fn kinds_are_shown_with_what_they_hold(
    validation_report: ValidationReport,
)
    ensures
        validation_report matches ValidationReport::NotConfigured { reason } ==> validation_report@ == (ValidationReportView::NotConfigured {
            reason: reason@,
        }),
        validation_report matches ValidationReport::Skipped { reason } ==> validation_report@ == (ValidationReportView::Skipped {
            reason: reason@,
        }),
        validation_report matches ValidationReport::SandboxBlocked {
            kind,
            command,
            working_dir,
            started_at,
            duration_ms,
            reason,
        } ==> validation_report@ == (ValidationReportView::SandboxBlocked {
            kind: kind@,
            command: text::texts(command@),
            working_dir: working_dir@,
            started_at: started_at,
            duration_ms: duration_ms,
            reason: reason@,
        }),
        validation_report matches ValidationReport::Failed {
            command,
            resolved_program,
            working_dir,
            started_at,
            duration_ms,
            reason,
        } ==> validation_report@ == (ValidationReportView::Failed {
            command: text::texts(command@),
            resolved_program: resolved_program@,
            working_dir: working_dir@,
            started_at: started_at,
            duration_ms: duration_ms,
            reason: reason@,
        }),
        validation_report matches ValidationReport::Finished {
            success,
            command,
            resolved_program,
            working_dir,
            started_at,
            duration_ms,
            exit_code,
            stdout,
            stderr,
        } ==> validation_report@ == (ValidationReportView::Finished {
            success: success,
            command: text::texts(command@),
            resolved_program: resolved_program@,
            working_dir: working_dir@,
            started_at: started_at,
            duration_ms: duration_ms,
            exit_code: exit_code,
            stdout: stdout@,
            stderr: stderr@,
        }),
{
}

} // verus!
