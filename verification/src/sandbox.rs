//! The sandbox that every job runs in: its directories, its environment and its limits.

use vstd::prelude::*;

use crate::error;
use crate::error::EdgeError;
use crate::paths;
use crate::paths::PathStyle;
use crate::text;
use crate::text::push_text;
use crate::volumes;

verus! {

/// What a sandbox violation's message begins with.
pub const SANDBOX_ERROR_PREFIX: &'static str = "sandbox blocked: ";

/// The boundary applied around worktree execution.
#[derive(Clone, Copy, Debug, PartialEq, Eq, Structural)]
pub enum SandboxMode {
    Off,
    Workspace,
}

/// The mode that a configured name selects, or the message of its refusal.
pub open spec fn sandbox_mode_of(value: Option<Seq<char>>) -> Result<SandboxMode, Seq<char>> {
    let trimmed = match value {
        Some(configured) => text::trim(configured),
        None => Seq::empty(),
    };
    let normalized = if trimmed.len() == 0 {
        "workspace"@
    } else {
        text::lower(trimmed)
    };
    if normalized == "off"@ {
        Ok(SandboxMode::Off)
    } else if normalized == "workspace"@ {
        Ok(SandboxMode::Workspace)
    } else {
        Err(
            "unsupported ELOWEN_SANDBOX_MODE `"@ + normalized
                + "`; expected `workspace` or `off`"@,
        )
    }
}

impl SandboxMode {
    /// The name of the mode.
    pub open spec fn name(self) -> Seq<char> {
        match self {
            SandboxMode::Off => "off"@,
            SandboxMode::Workspace => "workspace"@,
        }
    }

    /// The mode that a configured name selects. No name, or a blank one, selects the workspace.
    pub fn from_env(value: Option<&str>) -> (out: Result<SandboxMode, EdgeError>)
        ensures
            match out {
                Ok(mode) => sandbox_mode_of(text::opt_str(value)) == Ok::<SandboxMode, Seq<char>>(
                    mode,
                ),
                Err(error) => sandbox_mode_of(text::opt_str(value)) == Err::<
                    SandboxMode,
                    Seq<char>,
                >(error@),
            },
    {
        let trimmed = match value {
            Some(configured) => text::trimmed_text(configured),
            None => String::new(),
        };
        let normalized = if trimmed.as_str().is_empty() {
            "workspace".to_owned()
        } else {
            text::lowered(&trimmed)
        };
        if text::text_eq(&normalized, "off") {
            Ok(SandboxMode::Off)
        } else if text::text_eq(&normalized, "workspace") {
            Ok(SandboxMode::Workspace)
        } else {
            let mut message = "unsupported ELOWEN_SANDBOX_MODE `".to_owned();
            message.append(&normalized);
            message.append("`; expected `workspace` or `off`");
            Err(EdgeError::of(message))
        }
    }

    /// The name of the mode.
    pub fn as_str(&self) -> (out: &'static str)
        ensures
            out@ == self.name(),
    {
        match self {
            SandboxMode::Off => "off",
            SandboxMode::Workspace => "workspace",
        }
    }
}

/// The directories of one job's sandbox.
#[derive(Clone, Debug, PartialEq, Eq)]
pub struct SandboxPolicy {
    pub mode: SandboxMode,
    pub worktree_path: String,
    pub sandbox_root: String,
    pub temp_root: String,
    pub cache_root: String,
    pub policy_path: String,
}

/// The contents of a [`SandboxPolicy`].
pub struct SandboxPolicyView {
    pub mode: SandboxMode,
    pub worktree_path: Seq<char>,
    pub sandbox_root: Seq<char>,
    pub temp_root: Seq<char>,
    pub cache_root: Seq<char>,
    pub policy_path: Seq<char>,
}

impl View for SandboxPolicy {
    type V = SandboxPolicyView;

    open spec fn view(&self) -> SandboxPolicyView {
        SandboxPolicyView {
            mode: self.mode,
            worktree_path: self.worktree_path@,
            sandbox_root: self.sandbox_root@,
            temp_root: self.temp_root@,
            cache_root: self.cache_root@,
            policy_path: self.policy_path@,
        }
    }
}

impl SandboxPolicy {
    /// A copy with the same contents.
    pub fn copy(&self) -> (out: SandboxPolicy)
        ensures
            out@ == self@,
    {
        SandboxPolicy {
            mode: self.mode,
            worktree_path: self.worktree_path.clone(),
            sandbox_root: self.sandbox_root.clone(),
            temp_root: self.temp_root.clone(),
            cache_root: self.cache_root.clone(),
            policy_path: self.policy_path.clone(),
        }
    }
}

/// The sandbox of a worktree.
pub open spec fn policy_for(
    style: PathStyle,
    mode: SandboxMode,
    worktree: Seq<char>,
) -> SandboxPolicyView {
    let root = paths::join(style, worktree, ".elowen-sandbox"@);
    SandboxPolicyView {
        mode,
        worktree_path: worktree,
        sandbox_root: root,
        temp_root: paths::join(style, root, "tmp"@),
        cache_root: paths::join(style, root, "cache"@),
        policy_path: paths::join(style, root, "policy.json"@),
    }
}

/// The sandbox of a worktree, or the message of its refusal: the worktree must lie within the
/// worktree root, once both have been resolved on disk.
pub open spec fn sandbox_for(
    style: PathStyle,
    mode: SandboxMode,
    worktree_root: Seq<char>,
    worktree: Seq<char>,
    resolved_root: Option<Seq<char>>,
    resolved_worktree: Option<Seq<char>>,
) -> Result<SandboxPolicyView, Seq<char>> {
    match contained_path(
        style,
        worktree_root,
        worktree,
        "job worktree"@,
        resolved_root,
        resolved_worktree,
    ) {
        Err(message) => Err(message),
        Ok(contained) => Ok(policy_for(style, mode, contained)),
    }
}

/// The sandbox of a worktree. A path that could not be resolved on disk is given as nothing.
pub fn prepare_sandbox_policy(
    style: PathStyle,
    mode: SandboxMode,
    worktree_root: &str,
    worktree_path: &str,
    resolved_root: Option<String>,
    resolved_worktree: Option<String>,
) -> (out: Result<SandboxPolicy, EdgeError>)
    ensures
        error::outcome(out) == sandbox_for(
            style,
            mode,
            worktree_root@,
            worktree_path@,
            text::opt_text(resolved_root),
            text::opt_text(resolved_worktree),
        ),
{
    let worktree = match enforce_worktree_containment(
        style,
        worktree_root,
        worktree_path,
        "job worktree",
        resolved_root,
        resolved_worktree,
    ) {
        Ok(path) => path,
        Err(error) => return Err(error),
    };
    let sandbox_root = paths::join_path(style, &worktree, ".elowen-sandbox");
    let temp_root = paths::join_path(style, &sandbox_root, "tmp");
    let cache_root = paths::join_path(style, &sandbox_root, "cache");
    let policy_path = paths::join_path(style, &sandbox_root, "policy.json");
    Ok(
        SandboxPolicy {
            mode,
            worktree_path: worktree,
            sandbox_root,
            temp_root,
            cache_root,
            policy_path,
        },
    )
}

/// The sandbox as it is written down for the operator and the orchestrator.
#[derive(Clone, Debug, PartialEq, Eq)]
pub struct SandboxReport {
    pub mode: String,
    pub worktree_path: String,
    pub sandbox_root: String,
    pub temp_root: String,
    pub cache_root: String,
    pub policy_path: String,
    pub working_dir_must_stay_within_worktree: bool,
    pub validation_shells_blocked: bool,
    pub cache_redirects: Vec<String>,
}

/// The contents of a [`SandboxReport`].
pub struct SandboxReportView {
    pub mode: Seq<char>,
    pub worktree_path: Seq<char>,
    pub sandbox_root: Seq<char>,
    pub temp_root: Seq<char>,
    pub cache_root: Seq<char>,
    pub policy_path: Seq<char>,
    pub working_dir_must_stay_within_worktree: bool,
    pub validation_shells_blocked: bool,
    pub cache_redirects: Seq<Seq<char>>,
}

impl View for SandboxReport {
    type V = SandboxReportView;

    open spec fn view(&self) -> SandboxReportView {
        SandboxReportView {
            mode: self.mode@,
            worktree_path: self.worktree_path@,
            sandbox_root: self.sandbox_root@,
            temp_root: self.temp_root@,
            cache_root: self.cache_root@,
            policy_path: self.policy_path@,
            working_dir_must_stay_within_worktree: self.working_dir_must_stay_within_worktree,
            validation_shells_blocked: self.validation_shells_blocked,
            cache_redirects: text::texts(self.cache_redirects@),
        }
    }
}

impl SandboxReport {
    /// A copy with the same contents.
    pub fn copy(&self) -> (out: SandboxReport)
        ensures
            out@ == self@,
    {
        SandboxReport {
            mode: self.mode.clone(),
            worktree_path: self.worktree_path.clone(),
            sandbox_root: self.sandbox_root.clone(),
            temp_root: self.temp_root.clone(),
            cache_root: self.cache_root.clone(),
            policy_path: self.policy_path.clone(),
            working_dir_must_stay_within_worktree: self.working_dir_must_stay_within_worktree,
            validation_shells_blocked: self.validation_shells_blocked,
            cache_redirects: text::copy_list(&self.cache_redirects),
        }
    }
}

/// The environment variables that redirect temporary and cached files into the sandbox.
pub open spec fn redirected_variables() -> Seq<Seq<char>> {
    seq![
        "TMP"@,
        "TEMP"@,
        "TMPDIR"@,
        "CARGO_TARGET_DIR"@,
        "XDG_CACHE_HOME"@,
        "XDG_STATE_HOME"@,
        "XDG_CONFIG_HOME"@,
        "npm_config_cache"@,
        "PIP_CACHE_DIR"@,
        "UV_CACHE_DIR"@,
    ]
}

/// The report of a sandbox.
pub open spec fn report_of(policy: SandboxPolicyView) -> SandboxReportView {
    SandboxReportView {
        mode: policy.mode.name(),
        worktree_path: policy.worktree_path,
        sandbox_root: policy.sandbox_root,
        temp_root: policy.temp_root,
        cache_root: policy.cache_root,
        policy_path: policy.policy_path,
        working_dir_must_stay_within_worktree: true,
        validation_shells_blocked: true,
        cache_redirects: redirected_variables(),
    }
}

/// The report of a sandbox.
pub fn sandbox_report_value(policy: &SandboxPolicy) -> (report: SandboxReport)
    ensures
        report@ == report_of(policy@),
{
    let mut cache_redirects: Vec<String> = Vec::new();
    push_text(&mut cache_redirects, "TMP".to_owned());
    push_text(&mut cache_redirects, "TEMP".to_owned());
    push_text(&mut cache_redirects, "TMPDIR".to_owned());
    push_text(&mut cache_redirects, "CARGO_TARGET_DIR".to_owned());
    push_text(&mut cache_redirects, "XDG_CACHE_HOME".to_owned());
    push_text(&mut cache_redirects, "XDG_STATE_HOME".to_owned());
    push_text(&mut cache_redirects, "XDG_CONFIG_HOME".to_owned());
    push_text(&mut cache_redirects, "npm_config_cache".to_owned());
    push_text(&mut cache_redirects, "PIP_CACHE_DIR".to_owned());
    push_text(&mut cache_redirects, "UV_CACHE_DIR".to_owned());
    assert(text::texts(cache_redirects@) == redirected_variables());
    SandboxReport {
        mode: policy.mode.as_str().to_owned(),
        worktree_path: policy.worktree_path.clone(),
        sandbox_root: policy.sandbox_root.clone(),
        temp_root: policy.temp_root.clone(),
        cache_root: policy.cache_root.clone(),
        policy_path: policy.policy_path.clone(),
        working_dir_must_stay_within_worktree: true,
        validation_shells_blocked: true,
        cache_redirects,
    }
}

/// An environment variable of a command.
#[derive(Clone, Debug, PartialEq, Eq)]
pub struct EnvVar {
    pub name: String,
    pub value: String,
}

/// The contents of an [`EnvVar`].
pub struct EnvVarView {
    pub name: Seq<char>,
    pub value: Seq<char>,
}

impl View for EnvVar {
    type V = EnvVarView;

    open spec fn view(&self) -> EnvVarView {
        EnvVarView {
            name: self.name@,
            value: self.value@,
        }
    }
}

/// The variables of a list.
pub open spec fn env_views(list: Seq<EnvVar>) -> Seq<EnvVarView> {
    list.map_values(|variable: EnvVar| variable@)
}

/// A variable with its value.
pub open spec fn env_var(name: Seq<char>, value: Seq<char>) -> EnvVarView {
    EnvVarView { name, value }
}

/// Adds a variable to the end of a list.
pub fn push_env(list: &mut Vec<EnvVar>, name: &str, value: &str)
    ensures
        env_views(final(list)@) == env_views(old(list)@).push(env_var(name@, value@)),
{
    let ghost before = env_views(list@);
    list.push(EnvVar { name: name.to_owned(), value: value.to_owned() });
    assert(env_views(list@) == before.push(env_var(name@, value@)));
}

/// The environment that confines a command to its sandbox.
pub open spec fn environment_of(style: PathStyle, policy: SandboxPolicyView) -> Seq<EnvVarView> {
    seq![
        env_var("TMP"@, policy.temp_root),
        env_var("TEMP"@, policy.temp_root),
        env_var("TMPDIR"@, policy.temp_root),
        env_var("CARGO_TARGET_DIR"@, paths::join(style, policy.sandbox_root, "cargo-target"@)),
        env_var("XDG_CACHE_HOME"@, policy.cache_root),
        env_var("XDG_STATE_HOME"@, paths::join(style, policy.cache_root, "state"@)),
        env_var("XDG_CONFIG_HOME"@, paths::join(style, policy.cache_root, "config"@)),
        env_var("npm_config_cache"@, paths::join(style, policy.cache_root, "npm"@)),
        env_var("PIP_CACHE_DIR"@, paths::join(style, policy.cache_root, "pip"@)),
        env_var("UV_CACHE_DIR"@, paths::join(style, policy.cache_root, "uv"@)),
        env_var("ELOWEN_SANDBOX_MODE"@, policy.mode.name()),
        env_var("ELOWEN_SANDBOX_POLICY_FILE"@, policy.policy_path),
        env_var("ELOWEN_SANDBOX_WORKTREE"@, policy.worktree_path),
    ]
}

/// Adds the environment that confines a command to its sandbox.
pub fn apply_sandbox_environment(
    style: PathStyle,
    command: &mut Vec<EnvVar>,
    policy: &SandboxPolicy,
)
    ensures
        env_views(final(command)@) == env_views(old(command)@) + environment_of(style, policy@),
{
    let ghost before = env_views(command@);
    let cargo_target = paths::join_path(style, &policy.sandbox_root, "cargo-target");
    let state = paths::join_path(style, &policy.cache_root, "state");
    let config = paths::join_path(style, &policy.cache_root, "config");
    let npm = paths::join_path(style, &policy.cache_root, "npm");
    let pip = paths::join_path(style, &policy.cache_root, "pip");
    let uv = paths::join_path(style, &policy.cache_root, "uv");
    push_env(command, "TMP", &policy.temp_root);
    push_env(command, "TEMP", &policy.temp_root);
    push_env(command, "TMPDIR", &policy.temp_root);
    push_env(command, "CARGO_TARGET_DIR", &cargo_target);
    push_env(command, "XDG_CACHE_HOME", &policy.cache_root);
    push_env(command, "XDG_STATE_HOME", &state);
    push_env(command, "XDG_CONFIG_HOME", &config);
    push_env(command, "npm_config_cache", &npm);
    push_env(command, "PIP_CACHE_DIR", &pip);
    push_env(command, "UV_CACHE_DIR", &uv);
    push_env(command, "ELOWEN_SANDBOX_MODE", policy.mode.as_str());
    push_env(command, "ELOWEN_SANDBOX_POLICY_FILE", &policy.policy_path);
    push_env(command, "ELOWEN_SANDBOX_WORKTREE", &policy.worktree_path);
    assert(env_views(command@) == before + environment_of(style, policy@));
}

/// The message of a sandbox violation.
pub open spec fn sandbox_message(message: Seq<char>) -> Seq<char> {
    SANDBOX_ERROR_PREFIX@ + message
}

/// The error of a sandbox violation.
pub fn sandbox_error(message: &str) -> (error: EdgeError)
    ensures
        error@ == sandbox_message(message@),
{
    let mut full = SANDBOX_ERROR_PREFIX.to_owned();
    full.append(message);
    EdgeError::of(full)
}

/// The failure class of an error message, and the detail that is reported with it.
pub open spec fn failure_of(message: Seq<char>) -> (Seq<char>, Seq<char>) {
    if SANDBOX_ERROR_PREFIX@.is_prefix_of(message) {
        ("sandbox"@, message.skip(SANDBOX_ERROR_PREFIX@.len() as int))
    } else {
        ("execution"@, message)
    }
}

/// The failure class of an error, and the detail that is reported with it.
pub fn classify_failure(error: &EdgeError) -> (out: (String, String))
    ensures
        (out.0@, out.1@) == failure_of(error@),
{
    match text::without_prefix(&error.message, SANDBOX_ERROR_PREFIX) {
        Some(stripped) => ("sandbox".to_owned(), stripped),
        None => ("execution".to_owned(), error.message.clone()),
    }
}

/// A sandbox violation is classified as such, and its detail is the message it was made with.
pub proof fn sandbox_errors_are_classified(message: Seq<char>)
    ensures
        failure_of(sandbox_message(message)) == ("sandbox"@, message),
{
    let full = sandbox_message(message);
    let n = SANDBOX_ERROR_PREFIX@.len() as int;
    assert(full.subrange(0, n) == SANDBOX_ERROR_PREFIX@);
    assert(full.skip(n) == message);
}

/// A path that must stay within a root, once both have been resolved on disk.
pub open spec fn contained_path(
    style: PathStyle,
    root: Seq<char>,
    candidate: Seq<char>,
    label: Seq<char>,
    resolved_root: Option<Seq<char>>,
    resolved_candidate: Option<Seq<char>>,
) -> Result<Seq<char>, Seq<char>> {
    match (resolved_root, resolved_candidate) {
        (None, _) => Err("failed to resolve sandbox root "@ + root),
        (Some(_), None) => Err("failed to resolve "@ + label + " "@ + candidate),
        (Some(outer), Some(inner)) => if paths::lies_within(style, inner, outer) {
            Ok(inner)
        } else {
            Err(
                sandbox_message(
                    label + " `"@ + inner + "` escapes sandbox root `"@ + outer + "`"@,
                ),
            )
        },
    }
}

/// The resolved candidate, if it lies within the resolved root. A path that could not be resolved
/// on disk is given as nothing.
pub fn enforce_worktree_containment(
    style: PathStyle,
    worktree_root: &str,
    candidate: &str,
    label: &str,
    resolved_root: Option<String>,
    resolved_candidate: Option<String>,
) -> (out: Result<String, EdgeError>)
    ensures
        match out {
            Ok(path) => contained_path(
                style,
                worktree_root@,
                candidate@,
                label@,
                text::opt_text(resolved_root),
                text::opt_text(resolved_candidate),
            ) == Ok::<Seq<char>, Seq<char>>(path@),
            Err(error) => contained_path(
                style,
                worktree_root@,
                candidate@,
                label@,
                text::opt_text(resolved_root),
                text::opt_text(resolved_candidate),
            ) == Err::<Seq<char>, Seq<char>>(error@),
        },
{
    let outer = match resolved_root {
        Some(path) => path,
        None => {
            let mut message = "failed to resolve sandbox root ".to_owned();
            message.append(worktree_root);
            return Err(EdgeError::of(message));
        },
    };
    let inner = match resolved_candidate {
        Some(path) => path,
        None => {
            let mut message = "failed to resolve ".to_owned();
            message.append(label);
            message.append(" ");
            message.append(candidate);
            return Err(EdgeError::of(message));
        },
    };
    if !paths::path_within(style, &inner, &outer) {
        let mut message = label.to_owned();
        message.append(" `");
        message.append(&inner);
        message.append("` escapes sandbox root `");
        message.append(&outer);
        message.append("`");
        return Err(sandbox_error(&message));
    }
    Ok(inner)
}

/// The path of a program as its name is taken from it. Both kinds of separators are understood on
/// every system, so that a program is recognised however its path is written.
pub open spec fn program_path(style: PathStyle, program: Seq<char>) -> Seq<char> {
    match style {
        PathStyle::Posix => volumes::unified_separators(program),
        PathStyle::Windows => program,
    }
}

/// The bare name of a program in lower case.
pub open spec fn program_name(style: PathStyle, program: Seq<char>) -> Seq<char> {
    let name = match paths::file_name(style, program_path(style, program)) {
        Some(last) => last,
        None => program,
    };
    text::lower(text::trim(name))
}

/// The bare name of a program in lower case.
pub fn validation_program_name(style: PathStyle, program: &str) -> (name: String)
    ensures
        name@ == program_name(style, program@),
{
    let path = match style {
        PathStyle::Posix => volumes::unify_separators(program),
        PathStyle::Windows => program.to_owned(),
    };
    let name = match paths::path_file_name(style, &path) {
        Some(last) => last,
        None => program.to_owned(),
    };
    text::lowered(&text::trimmed_text(&name))
}

/// A program that is a shell, which validation must not invoke.
pub open spec fn is_shell(style: PathStyle, program: Seq<char>) -> bool {
    let name = program_name(style, program);
    ||| name == "cmd"@
    ||| name == "cmd.exe"@
    ||| name == "powershell"@
    ||| name == "powershell.exe"@
    ||| name == "pwsh"@
    ||| name == "pwsh.exe"@
    ||| name == "sh"@
    ||| name == "bash"@
    ||| name == "zsh"@
}

/// Whether a program is a shell, which validation must not invoke.
pub fn is_disallowed_validation_program(style: PathStyle, program: &str) -> (disallowed: bool)
    ensures
        disallowed == is_shell(style, program@),
{
    let name = validation_program_name(style, program);
    text::text_eq(&name, "cmd") || text::text_eq(&name, "cmd.exe") || text::text_eq(
        &name,
        "powershell",
    ) || text::text_eq(&name, "powershell.exe") || text::text_eq(&name, "pwsh") || text::text_eq(
        &name,
        "pwsh.exe",
    ) || text::text_eq(&name, "sh") || text::text_eq(&name, "bash") || text::text_eq(&name, "zsh")
}

/// How the program of a validation command is found.
#[derive(Clone, Debug, PartialEq, Eq)]
pub enum ProgramResolution {
    /// A bare name, looked up by the operating system.
    SearchPath { program: String },
    /// A path that must resolve to a file within the worktree.
    Contained { candidate: String },
}

/// The contents of a [`ProgramResolution`].
pub enum ProgramResolutionView {
    SearchPath { program: Seq<char> },
    Contained { candidate: Seq<char> },
}

impl View for ProgramResolution {
    type V = ProgramResolutionView;

    open spec fn view(&self) -> ProgramResolutionView {
        match *self {
            ProgramResolution::SearchPath { program } => ProgramResolutionView::SearchPath {
                program: program@,
            },
            ProgramResolution::Contained { candidate } => ProgramResolutionView::Contained {
                candidate: candidate@,
            },
        }
    }
}

/// How the program of a validation command is found, or the message of its refusal.
pub open spec fn program_resolution(
    style: PathStyle,
    working_dir: Seq<char>,
    program: Seq<char>,
) -> Result<
    ProgramResolutionView,
    Seq<char>,
> {
    if is_shell(style, program) {
        Err(
            sandbox_message(
                "validation command `"@ + program
                    + "` is not allowed; invoke a direct executable instead of a shell"@,
            ),
        )
    } else if paths::is_absolute(style, program) || paths::components(style, program).len() > 1 {
        Ok(ProgramResolutionView::Contained { candidate: paths::join(style, working_dir, program) })
    } else {
        Ok(ProgramResolutionView::SearchPath { program })
    }
}

/// How the program of a validation command is found. Shells are refused; a program given by a
/// path must lie within the worktree.
pub fn resolve_validation_program(
    style: PathStyle,
    working_dir: &str,
    program: &str,
) -> (out: Result<
    ProgramResolution,
    EdgeError,
>)
    ensures
        match out {
            Ok(found) => program_resolution(style, working_dir@, program@) == Ok::<
                ProgramResolutionView,
                Seq<char>,
            >(found@),
            Err(error) => program_resolution(style, working_dir@, program@) == Err::<
                ProgramResolutionView,
                Seq<char>,
            >(error@),
        },
{
    if is_disallowed_validation_program(style, program) {
        let mut message = "validation command `".to_owned();
        message.append(program);
        message.append("` is not allowed; invoke a direct executable instead of a shell");
        return Err(sandbox_error(&message));
    }
    let parts = paths::path_components(style, program);
    assert(text::texts(parts@).len() == parts.len());
    if paths::path_is_absolute(style, program) || parts.len() > 1 {
        Ok(ProgramResolution::Contained { candidate: paths::join_path(
            style,
            working_dir,
            program,
        ) })
    } else {
        Ok(ProgramResolution::SearchPath { program: program.to_owned() })
    }
}

/// A path below a directory of the sandbox lies within the worktree too.
proof fn lemma_below_stays_within(
    style: PathStyle,
    base: Seq<char>,
    name: Seq<char>,
    worktree: Seq<char>,
)
    requires
        paths::is_plain_name(name),
        paths::lies_within(style, base, worktree),
        style == PathStyle::Windows ==> volumes::is_settled(base),
    ensures
        paths::lies_within(style, paths::join(style, base, name), worktree),
        style == PathStyle::Windows ==> volumes::is_settled(paths::join(style, base, name)),
{
    paths::plain_names_can_lie_within(style, base, name);
    paths::joined_paths_lie_within(style, base, name);
    paths::lying_within_is_transitive(style, paths::join(style, base, name), base, worktree);
}

/// The names in a sandbox are plain.
proof fn lemma_sandbox_names_are_plain()
    ensures
        paths::is_plain_name(".elowen-sandbox"@),
        paths::is_plain_name("tmp"@),
        paths::is_plain_name("cache"@),
        paths::is_plain_name("policy.json"@),
        paths::is_plain_name("cargo-target"@),
        paths::is_plain_name("state"@),
        paths::is_plain_name("config"@),
        paths::is_plain_name("npm"@),
        paths::is_plain_name("pip"@),
        paths::is_plain_name("uv"@),
{
    reveal_strlit(".");
    reveal_strlit("..");
    reveal_strlit(".elowen-sandbox");
    reveal_strlit("tmp");
    reveal_strlit("cache");
    reveal_strlit("policy.json");
    reveal_strlit("cargo-target");
    reveal_strlit("state");
    reveal_strlit("config");
    reveal_strlit("npm");
    reveal_strlit("pip");
    reveal_strlit("uv");
    assert("uv"@[0] == 'u' && ".."@[0] == '.');
    assert forall|i: int| 0 <= i < ".elowen-sandbox"@.len() implies !paths::is_special(#[trigger] ".elowen-sandbox"@[i]) by {
        assert(i == 0 || i == 1 || i == 2 || i == 3 || i == 4 || i == 5 || i == 6 || i == 7 || i == 8 || i == 9 || i == 10 || i == 11 || i == 12 || i == 13 || i == 14);
    }
    assert forall|i: int| 0 <= i < "tmp"@.len() implies !paths::is_special(#[trigger] "tmp"@[i]) by {
        assert(i == 0 || i == 1 || i == 2);
    }
    assert forall|i: int| 0 <= i < "cache"@.len() implies !paths::is_special(#[trigger] "cache"@[i]) by {
        assert(i == 0 || i == 1 || i == 2 || i == 3 || i == 4);
    }
    assert forall|i: int| 0 <= i < "policy.json"@.len() implies !paths::is_special(#[trigger] "policy.json"@[i]) by {
        assert(i == 0 || i == 1 || i == 2 || i == 3 || i == 4 || i == 5 || i == 6 || i == 7 || i == 8 || i == 9 || i == 10);
    }
    assert forall|i: int| 0 <= i < "cargo-target"@.len() implies !paths::is_special(#[trigger] "cargo-target"@[i]) by {
        assert(i == 0 || i == 1 || i == 2 || i == 3 || i == 4 || i == 5 || i == 6 || i == 7 || i == 8 || i == 9 || i == 10 || i == 11);
    }
    assert forall|i: int| 0 <= i < "state"@.len() implies !paths::is_special(#[trigger] "state"@[i]) by {
        assert(i == 0 || i == 1 || i == 2 || i == 3 || i == 4);
    }
    assert forall|i: int| 0 <= i < "config"@.len() implies !paths::is_special(#[trigger] "config"@[i]) by {
        assert(i == 0 || i == 1 || i == 2 || i == 3 || i == 4 || i == 5);
    }
    assert forall|i: int| 0 <= i < "npm"@.len() implies !paths::is_special(#[trigger] "npm"@[i]) by {
        assert(i == 0 || i == 1 || i == 2);
    }
    assert forall|i: int| 0 <= i < "pip"@.len() implies !paths::is_special(#[trigger] "pip"@[i]) by {
        assert(i == 0 || i == 1 || i == 2);
    }
    assert forall|i: int| 0 <= i < "uv"@.len() implies !paths::is_special(#[trigger] "uv"@[i]) by {
        assert(i == 0 || i == 1);
    }
}

/// Every directory of a sandbox lies within its worktree, and so does every file and directory
/// that its environment points a command to. All but the name of the mode, which stands at
/// position ten, are such paths. On Windows the worktree names its volume in full, as every
/// resolved path does.
pub proof fn sandboxes_stay_within_their_worktree(
    style: PathStyle,
    mode: SandboxMode,
    worktree: Seq<char>,
)
    requires
        style == PathStyle::Windows ==> volumes::is_settled(worktree),
    ensures
        ({
            let policy = policy_for(style, mode, worktree);
            &&& paths::lies_within(style, policy.sandbox_root, worktree)
            &&& paths::lies_within(style, policy.temp_root, worktree)
            &&& paths::lies_within(style, policy.cache_root, worktree)
            &&& paths::lies_within(style, policy.policy_path, worktree)
            &&& forall|i: int|
                0 <= i < environment_of(style, policy).len() && i != 10 ==> paths::lies_within(
                    style,
                    #[trigger] environment_of(style, policy)[i].value,
                    worktree,
                )
        }),
{
    lemma_sandbox_names_are_plain();
    let policy = policy_for(style, mode, worktree);
    assert(paths::components(style, worktree) =~= paths::components(style, worktree).subrange(
        0,
        paths::components(style, worktree).len() as int,
    ));
    lemma_below_stays_within(style, worktree, ".elowen-sandbox"@, worktree);
    lemma_below_stays_within(style, policy.sandbox_root, "tmp"@, worktree);
    lemma_below_stays_within(style, policy.sandbox_root, "cache"@, worktree);
    lemma_below_stays_within(style, policy.sandbox_root, "policy.json"@, worktree);
    lemma_below_stays_within(style, policy.sandbox_root, "cargo-target"@, worktree);
    lemma_below_stays_within(style, policy.cache_root, "state"@, worktree);
    lemma_below_stays_within(style, policy.cache_root, "config"@, worktree);
    lemma_below_stays_within(style, policy.cache_root, "npm"@, worktree);
    lemma_below_stays_within(style, policy.cache_root, "pip"@, worktree);
    lemma_below_stays_within(style, policy.cache_root, "uv"@, worktree);
}

/// A path is accepted exactly where both it and the root were resolved and it lies within the root;
/// it is then used as it was resolved. A path that leaves the root is a violation of the sandbox,
/// one that cannot be resolved is not.
pub proof fn only_contained_paths_are_accepted(
    style: PathStyle,
    root: Seq<char>,
    candidate: Seq<char>,
    label: Seq<char>,
    resolved_root: Option<Seq<char>>,
    resolved_candidate: Option<Seq<char>>,
)
    ensures
        ({
            let out = contained_path(
                style,
                root,
                candidate,
                label,
                resolved_root,
                resolved_candidate,
            );
            &&& out matches Ok(path) ==> resolved_candidate == Some(path)
            &&& out is Ok <==> {
                &&& resolved_root matches Some(outer)
                &&& resolved_candidate matches Some(inner)
                &&& paths::lies_within(style, inner, outer)
            }
            &&& out matches Err(message) ==> {
                let escapes = resolved_root is Some && resolved_candidate is Some;
                &&& escapes <==> SANDBOX_ERROR_PREFIX@.is_prefix_of(message)
                &&& escapes ==> failure_of(message).0 == "sandbox"@
                &&& !escapes ==> failure_of(message).0 == "execution"@
                &&& escapes ==> text::contains_text(message, resolved_candidate->0)
                &&& escapes ==> text::contains_text(message, resolved_root->0)
                &&& resolved_root is None ==> root.is_suffix_of(message)
                &&& resolved_root is Some && resolved_candidate is None
                    ==> candidate.is_suffix_of(message)
            }
        }),
{
    reveal_strlit("sandbox blocked: ");
    reveal_strlit("failed to resolve sandbox root ");
    reveal_strlit("failed to resolve ");
    match (resolved_root, resolved_candidate) {
        (None, _) => {
            let message = "failed to resolve sandbox root "@ + root;
            assert(message.subrange(message.len() - root.len(), message.len() as int) =~= root);
            assert(message[0] == 'f');
            assert(message.subrange(0, SANDBOX_ERROR_PREFIX@.len() as int)[0] == message[0]
                || message.len() < SANDBOX_ERROR_PREFIX@.len());
        },
        (Some(_), None) => {
            let message = "failed to resolve "@ + label + " "@ + candidate;
            assert(message.subrange(message.len() - candidate.len(), message.len() as int)
                =~= candidate);
            assert(message[0] == 'f');
            assert(message.subrange(0, SANDBOX_ERROR_PREFIX@.len() as int)[0] == message[0]
                || message.len() < SANDBOX_ERROR_PREFIX@.len());
        },
        (Some(outer), Some(inner)) => {
            let told = label + " `"@ + inner + "` escapes sandbox root `"@ + outer + "`"@;
            let message = SANDBOX_ERROR_PREFIX@ + told;
            assert(message.subrange(0, SANDBOX_ERROR_PREFIX@.len() as int)
                =~= SANDBOX_ERROR_PREFIX@);
            let before = SANDBOX_ERROR_PREFIX@ + label + " `"@;
            let after = "` escapes sandbox root `"@ + outer + "`"@;
            assert(message =~= before + inner + after);
            text::parts_are_contained(before, inner, after);
            let all_before = before + inner + "` escapes sandbox root `"@;
            assert(message =~= all_before + outer + "`"@);
            text::parts_are_contained(all_before, outer, "`"@);
        },
    }
}

/// A failure is one of the sandbox exactly where its message is marked as such; the mark is not
/// part of the detail, and nothing else of the message is lost.
pub proof fn failures_keep_their_message(message: Seq<char>)
    ensures
        failure_of(message).0 == "sandbox"@ <==> SANDBOX_ERROR_PREFIX@.is_prefix_of(message),
        failure_of(message).0 == "execution"@ <==> !SANDBOX_ERROR_PREFIX@.is_prefix_of(message),
        failure_of(message).0 == "sandbox"@ ==> SANDBOX_ERROR_PREFIX@ + failure_of(message).1
            == message,
        failure_of(message).0 == "execution"@ ==> failure_of(message).1 == message,
{
    reveal_strlit("sandbox");
    reveal_strlit("execution");
    assert("sandbox"@.len() != "execution"@.len());
    let prefix = SANDBOX_ERROR_PREFIX@;
    if prefix.is_prefix_of(message) {
        assert(prefix + message.skip(prefix.len() as int) =~= message);
    }
}

/// The sandbox of a job has the mode that was asked for and is made in the worktree as it was
/// resolved; its directories bear their own names there.
pub proof fn sandboxes_are_made_in_the_resolved_worktree(
    style: PathStyle,
    mode: SandboxMode,
    worktree_root: Seq<char>,
    worktree: Seq<char>,
    resolved_root: Option<Seq<char>>,
    resolved_worktree: Option<Seq<char>>,
)
    ensures
        sandbox_for(
            style,
            mode,
            worktree_root,
            worktree,
            resolved_root,
            resolved_worktree,
        ) matches Ok(policy) ==> {
            &&& policy.mode == mode
            &&& resolved_worktree == Some(policy.worktree_path)
            &&& resolved_root matches Some(root) && paths::lies_within(
                style,
                policy.worktree_path,
                root,
            )
            &&& policy.sandbox_root == paths::join(
                style,
                policy.worktree_path,
                ".elowen-sandbox"@,
            )
            &&& policy.temp_root == paths::join(style, policy.sandbox_root, "tmp"@)
            &&& policy.cache_root == paths::join(style, policy.sandbox_root, "cache"@)
            &&& policy.policy_path == paths::join(style, policy.sandbox_root, "policy.json"@)
        },
        sandbox_for(style, mode, worktree_root, worktree, resolved_root, resolved_worktree) is Ok
            <==> {
            &&& resolved_root matches Some(root)
            &&& resolved_worktree matches Some(inner)
            &&& paths::lies_within(style, inner, root)
        },
{
}

/// Every variable that says where commands keep temporary files and caches is redirected into the
/// sandbox, and the report lists exactly those. The commands are also told the mode, the policy
/// file and the worktree.
pub proof fn commands_are_redirected_into_the_sandbox(style: PathStyle, policy: SandboxPolicyView)
    ensures
        ({
            let environment = environment_of(style, policy);
            &&& environment.len() == redirected_variables().len() + 3
            &&& forall|i: int|
                0 <= i < redirected_variables().len() ==> (#[trigger] environment[i]).name
                    == redirected_variables()[i]
            &&& forall|i: int|
                0 <= i < 3 ==> (#[trigger] environment[i]).value == policy.temp_root
            &&& environment[3].value == paths::join(style, policy.sandbox_root, "cargo-target"@)
            &&& environment[4].value == policy.cache_root
            &&& environment[5].value == paths::join(style, policy.cache_root, "state"@)
            &&& environment[6].value == paths::join(style, policy.cache_root, "config"@)
            &&& environment[7].value == paths::join(style, policy.cache_root, "npm"@)
            &&& environment[8].value == paths::join(style, policy.cache_root, "pip"@)
            &&& environment[9].value == paths::join(style, policy.cache_root, "uv"@)
            &&& environment[10] == env_var("ELOWEN_SANDBOX_MODE"@, policy.mode.name())
            &&& environment[11] == env_var("ELOWEN_SANDBOX_POLICY_FILE"@, policy.policy_path)
            &&& environment[12] == env_var("ELOWEN_SANDBOX_WORKTREE"@, policy.worktree_path)
        }),
        redirected_variables() == seq![
            "TMP"@,
            "TEMP"@,
            "TMPDIR"@,
            "CARGO_TARGET_DIR"@,
            "XDG_CACHE_HOME"@,
            "XDG_STATE_HOME"@,
            "XDG_CONFIG_HOME"@,
            "npm_config_cache"@,
            "PIP_CACHE_DIR"@,
            "UV_CACHE_DIR"@,
        ],
        report_of(policy).cache_redirects == redirected_variables(),
        report_of(policy).mode == policy.mode.name(),
        report_of(policy).worktree_path == policy.worktree_path,
        report_of(policy).sandbox_root == policy.sandbox_root,
        report_of(policy).temp_root == policy.temp_root,
        report_of(policy).cache_root == policy.cache_root,
        report_of(policy).policy_path == policy.policy_path,
        report_of(policy).working_dir_must_stay_within_worktree,
        report_of(policy).validation_shells_blocked,
{
}

/// A mode is read back from its own name, in whatever case and margin; nothing at all means the
/// workspace, and any other word is refused with the word.
pub proof fn modes_are_read_from_their_names(mode: SandboxMode, value: Seq<char>)
    ensures
        text::lower(text::trim(value)) == mode.name() && text::trim(value).len() > 0
            ==> sandbox_mode_of(Some(value)) == Ok::<SandboxMode, Seq<char>>(mode),
        sandbox_mode_of(None) == Ok::<SandboxMode, Seq<char>>(SandboxMode::Workspace),
        text::trim(value).len() == 0 ==> sandbox_mode_of(Some(value)) == Ok::<
            SandboxMode,
            Seq<char>,
        >(SandboxMode::Workspace),
        sandbox_mode_of(Some(value)) matches Ok(found) ==> text::trim(value).len() == 0
            || text::lower(text::trim(value)) == found.name(),
        sandbox_mode_of(Some(value)) matches Err(message) ==> text::contains_text(
            message,
            text::lower(text::trim(value)),
        ),
        SandboxMode::Off.name() == "off"@,
        SandboxMode::Workspace.name() == "workspace"@,
{
    reveal_strlit("off");
    reveal_strlit("workspace");
    assert("off"@.len() != "workspace"@.len());
    text::parts_are_contained(
        "unsupported ELOWEN_SANDBOX_MODE `"@,
        text::lower(text::trim(value)),
        "`; expected `workspace` or `off`"@,
    );
}

/// Two programs with the same bare name are both shells or both none, whatever directories they
/// lie in and in whatever case they are written. The common shells are shells.
pub proof fn shells_are_known_by_their_name(style: PathStyle, a: Seq<char>, b: Seq<char>)
    ensures
        program_name(style, a) == program_name(style, b) ==> is_shell(style, a) == is_shell(
            style,
            b,
        ),
        is_shell(style, a) <==> seq![
            "cmd"@,
            "cmd.exe"@,
            "powershell"@,
            "powershell.exe"@,
            "pwsh"@,
            "pwsh.exe"@,
            "sh"@,
            "bash"@,
            "zsh"@,
        ].contains(program_name(style, a)),
        paths::file_name(style, program_path(style, a)) matches Some(name) ==> program_name(
            style,
            a,
        ) == text::lower(text::trim(name)),
        paths::file_name(style, program_path(style, a)) is None ==> program_name(style, a)
            == text::lower(text::trim(a)),
        style == PathStyle::Windows ==> program_path(style, a) == a,
        program_path(style, a).len() == a.len(),
        style == PathStyle::Posix ==> forall|i: int|
            0 <= i < a.len() ==> #[trigger] program_path(style, a)[i] == if a[i] == '\\' {
                '/'
            } else {
                a[i]
            },
{
    let shells = seq![
        "cmd"@,
        "cmd.exe"@,
        "powershell"@,
        "powershell.exe"@,
        "pwsh"@,
        "pwsh.exe"@,
        "sh"@,
        "bash"@,
        "zsh"@,
    ];
    let name = program_name(style, a);
    if is_shell(style, a) {
        assert(shells[0] == "cmd"@ && shells[1] == "cmd.exe"@ && shells[2] == "powershell"@);
        assert(shells[3] == "powershell.exe"@ && shells[4] == "pwsh"@ && shells[5] == "pwsh.exe"@);
        assert(shells[6] == "sh"@ && shells[7] == "bash"@ && shells[8] == "zsh"@);
        assert(shells.contains(name));
    }
    if shells.contains(name) {
        let i = choose|i: int| 0 <= i < shells.len() && shells[i] == name;
        assert(i == 0 || i == 1 || i == 2 || i == 3 || i == 4 || i == 5 || i == 6 || i == 7 || i
            == 8);
    }
}

/// A shell is refused as a violation of the sandbox. A program that is given by a path is to be
/// found at that path, seen from the working directory; any other program is looked up by name.
pub proof fn programs_are_found_by_path_or_name(
    style: PathStyle,
    working_dir: Seq<char>,
    program: Seq<char>,
)
    ensures
        ({
            let found = program_resolution(style, working_dir, program);
            let is_path = paths::is_absolute(style, program) || paths::components(
                style,
                program,
            ).len() > 1;
            &&& found is Err <==> is_shell(style, program)
            &&& found matches Err(message) ==> {
                &&& failure_of(message).0 == "sandbox"@
                &&& text::contains_text(message, program)
            }
            &&& found matches Ok(ProgramResolutionView::Contained { candidate }) ==> is_path
                && candidate == paths::join(style, working_dir, program)
            &&& found matches Ok(ProgramResolutionView::SearchPath { program: name }) ==> !is_path
                && name == program
        }),
{
    let before = "validation command `"@;
    let after = "` is not allowed; invoke a direct executable instead of a shell"@;
    let message = SANDBOX_ERROR_PREFIX@ + (before + program + after);
    assert(message =~= (SANDBOX_ERROR_PREFIX@ + before) + program + after);
    text::parts_are_contained(SANDBOX_ERROR_PREFIX@ + before, program, after);
    sandbox_errors_are_classified(before + program + after);
}

/// A path that is refused is named with what it stands for: where it could not be resolved, and
/// where it leaves its root.
pub proof fn refused_paths_are_named(
    style: PathStyle,
    root: Seq<char>,
    candidate: Seq<char>,
    label: Seq<char>,
    resolved_root: Option<Seq<char>>,
    resolved_candidate: Option<Seq<char>>,
)
    ensures
        contained_path(
            style,
            root,
            candidate,
            label,
            resolved_root,
            resolved_candidate,
        ) matches Err(message) ==> {
            &&& resolved_root is None ==> message == "failed to resolve sandbox root "@ + root
            &&& resolved_root is Some && resolved_candidate is None ==> message
                == "failed to resolve "@ + label + " "@ + candidate
            &&& resolved_root is Some && resolved_candidate is Some ==> message
                == "sandbox blocked: "@ + (label + " `"@ + resolved_candidate->0
                + "` escapes sandbox root `"@ + resolved_root->0 + "`"@)
        },
{
}

/// What is refused is named: a mode that is not known, and a shell.
pub proof fn refused_words_are_named(
    style: PathStyle,
    working_dir: Seq<char>,
    program: Seq<char>,
    value: Seq<char>,
)
    ensures
        sandbox_mode_of(Some(value)) matches Err(message) ==> message
            == "unsupported ELOWEN_SANDBOX_MODE `"@ + text::lower(text::trim(value))
            + "`; expected `workspace` or `off`"@,
        program_resolution(style, working_dir, program) matches Err(message) ==> message
            == "sandbox blocked: "@ + ("validation command `"@ + program
            + "` is not allowed; invoke a direct executable instead of a shell"@),
{
}

/// What is shown of a value is what it holds, field by field.
pub proof fn what_is_held_is_shown(
    sandbox_policy: SandboxPolicy,
    sandbox_report: SandboxReport,
    env_var: EnvVar,
)
    ensures
        sandbox_policy@.mode == sandbox_policy.mode,
        sandbox_policy@.worktree_path == sandbox_policy.worktree_path@,
        sandbox_policy@.sandbox_root == sandbox_policy.sandbox_root@,
        sandbox_policy@.temp_root == sandbox_policy.temp_root@,
        sandbox_policy@.cache_root == sandbox_policy.cache_root@,
        sandbox_policy@.policy_path == sandbox_policy.policy_path@,
        sandbox_report@.mode == sandbox_report.mode@,
        sandbox_report@.worktree_path == sandbox_report.worktree_path@,
        sandbox_report@.sandbox_root == sandbox_report.sandbox_root@,
        sandbox_report@.temp_root == sandbox_report.temp_root@,
        sandbox_report@.cache_root == sandbox_report.cache_root@,
        sandbox_report@.policy_path == sandbox_report.policy_path@,
        sandbox_report@.working_dir_must_stay_within_worktree == sandbox_report.working_dir_must_stay_within_worktree,
        sandbox_report@.validation_shells_blocked == sandbox_report.validation_shells_blocked,
        sandbox_report@.cache_redirects == text::texts(sandbox_report.cache_redirects@),
        env_var@.name == env_var.name@,
        env_var@.value == env_var.value@,
{
}

/// What is shown of a value is its kind and what it holds.
pub proof fn kinds_are_shown_with_what_they_hold(
    program_resolution: ProgramResolution,
)
    ensures
        program_resolution matches ProgramResolution::SearchPath { program } ==> program_resolution@ == (ProgramResolutionView::SearchPath {
            program: program@,
        }),
        program_resolution matches ProgramResolution::Contained { candidate } ==> program_resolution@ == (ProgramResolutionView::Contained {
            candidate: candidate@,
        }),
{
}

} // verus!
