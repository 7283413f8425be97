//! A minimal edge: configured by environment variables alone, it hands jobs on a repository to
//! whatever command it is given, without sandbox, validation or commits.

use vstd::prelude::*;

use crate::config;
use crate::discovery;
use crate::encoding;
use crate::env_import;
use crate::env_import::EnvOverlay;
use crate::error;
use crate::error::EdgeError;
use crate::execution;
use crate::execution::{GitReport, GitReportView, ProcessRun};
use crate::json;
use crate::paths;
use crate::paths::PathStyle;
use crate::registration;
use crate::runtime;
use crate::runtime::Route;
use crate::sandbox;
use crate::sandbox::EnvVar;
use crate::text;
use crate::text::push_text;
use crate::timestamp::Timestamp;

verus! {

/// The configuration of a minimal edge.
#[derive(Clone, Debug, PartialEq, Eq)]
pub struct EdgeConfig {
    pub api_url: String,
    pub nats_url: String,
    pub device_id: String,
    pub device_name: String,
    pub primary_flag: bool,
    pub allowed_repos: Vec<String>,
    pub capabilities: Vec<String>,
    pub workspace_root: String,
    pub worktree_root: String,
    pub codex_command: Option<String>,
    pub codex_args: Vec<String>,
    pub simulated_run_ms: u64,
}

/// The contents of an [`EdgeConfig`].
pub struct EdgeConfigView {
    pub api_url: Seq<char>,
    pub nats_url: Seq<char>,
    pub device_id: Seq<char>,
    pub device_name: Seq<char>,
    pub primary_flag: bool,
    pub allowed_repos: Seq<Seq<char>>,
    pub capabilities: Seq<Seq<char>>,
    pub workspace_root: Seq<char>,
    pub worktree_root: Seq<char>,
    pub codex_command: Option<Seq<char>>,
    pub codex_args: Seq<Seq<char>>,
    pub simulated_run_ms: u64,
}

impl View for EdgeConfig {
    type V = EdgeConfigView;

    open spec fn view(&self) -> EdgeConfigView {
        EdgeConfigView {
            api_url: self.api_url@,
            nats_url: self.nats_url@,
            device_id: self.device_id@,
            device_name: self.device_name@,
            primary_flag: self.primary_flag,
            allowed_repos: text::texts(self.allowed_repos@),
            capabilities: text::texts(self.capabilities@),
            workspace_root: self.workspace_root@,
            worktree_root: self.worktree_root@,
            codex_command: text::opt_text(self.codex_command),
            codex_args: text::texts(self.codex_args@),
            simulated_run_ms: self.simulated_run_ms,
        }
    }
}

/// A value, unless it is blank. It is not trimmed.
pub open spec fn unless_blank(value: Option<Seq<char>>) -> Option<Seq<char>> {
    match value {
        Some(inner) => if text::trim(inner).len() == 0 {
            None
        } else {
            Some(inner)
        },
        None => None,
    }
}

/// The value of a variable, unless it is blank.
fn variable_unless_blank(env: &EnvOverlay, name: &str) -> (out: Option<String>)
    ensures
        text::opt_text(out) == unless_blank(env_import::value_of(env@, name@)),
{
    match env.get(name) {
        Some(value) => if text::trimmed_text(value).as_str().is_empty() {
            None
        } else {
            Some(value.clone())
        },
        None => None,
    }
}

/// The entries of a variable that is a list written with commas, or defaults where it is not set.
pub open spec fn entries_of(value: Option<Seq<char>>, default: Seq<Seq<char>>) -> Seq<Seq<char>> {
    env_import::listed_entries(
        match value {
            Some(inner) => inner,
            None => text::joined(default, ","@),
        },
    )
}

/// The entries of a variable that is a list written with commas, or defaults where it is not set.
pub fn parse_list_env(env: &EnvOverlay, key: &str, default: &Vec<String>) -> (out: Vec<String>)
    ensures
        text::texts(out@) == entries_of(
            env_import::value_of(env@, key@),
            text::texts(default@),
        ),
{
    match env.get(key) {
        Some(value) => env_import::parse_list_value(value),
        None => env_import::parse_list_value(&text::join_texts(default, ",")),
    }
}

/// The entries of a variable that is a JSON list, or the message of its refusal. `parsed` is what
/// the JSON text was read as.
pub open spec fn json_entries(
    key: Seq<char>,
    value: Option<Seq<char>>,
    parsed: Option<Seq<Seq<char>>>,
) -> Result<Seq<Seq<char>>, Seq<char>> {
    match unless_blank(value) {
        None => Ok(Seq::empty()),
        Some(_) => match parsed {
            Some(list) => Ok(list),
            None => Err("failed to parse "@ + key + " as a JSON string array"@),
        },
    }
}

/// The entries of a variable that is a JSON list, given what its text was read as.
pub fn entries_from_json(key: &str, value: &Option<String>, parsed: Option<Vec<String>>) -> (out: Result<
    Vec<String>,
    EdgeError,
>)
    ensures
        error::list_outcome(out) == json_entries(
            key@,
            text::opt_text(*value),
            json::opt_texts(parsed),
        ),
{
    let blank = match value {
        Some(inner) => text::trimmed_text(inner).as_str().is_empty(),
        None => true,
    };
    if blank {
        let none: Vec<String> = Vec::new();
        assert(text::texts(none@) == Seq::<Seq<char>>::empty());
        return Ok(none);
    }
    match parsed {
        Some(list) => Ok(list),
        None => {
            let mut message = "failed to parse ".to_owned();
            message.append(key);
            message.append(" as a JSON string array");
            Err(EdgeError::of(message))
        },
    }
}

/// The entries of a variable that is a JSON list.
pub fn parse_json_list_env(env: &EnvOverlay, key: &str) -> (out: Result<Vec<String>, EdgeError>)
    ensures
        error::list_outcome(out) == json_entries(
            key@,
            env_import::value_of(env@, key@),
            env_import::parsed_args(env_import::value_of(env@, key@)),
        ),
{
    let value = env.cloned(key);
    let parsed = match &value {
        Some(body) => json::parse_string_list(body),
        None => None,
    };
    entries_from_json(key, &value, parsed)
}

/// What a minimal edge can do where nothing else is set.
pub open spec fn default_capabilities() -> Seq<Seq<char>> {
    seq!["codex"@, "git"@, "build"@, "test"@]
}

/// What a minimal edge can do where nothing else is set.
fn capabilities_by_default() -> (out: Vec<String>)
    ensures
        text::texts(out@) == default_capabilities(),
{
    let mut out: Vec<String> = Vec::new();
    push_text(&mut out, "codex".to_owned());
    push_text(&mut out, "git".to_owned());
    push_text(&mut out, "build".to_owned());
    push_text(&mut out, "test".to_owned());
    assert(text::texts(out@) == default_capabilities());
    out
}

/// The identity of the device.
pub open spec fn device_id_of(vars: Map<Seq<char>, Seq<char>>) -> Seq<char> {
    text::text_or(
        unless_blank(env_import::value_of(vars, "ELOWEN_DEVICE_ID"@)),
        discovery::detected_id(
            env_import::value_of(vars, "COMPUTERNAME"@),
            env_import::value_of(vars, "HOSTNAME"@),
        ),
    )
}

/// The directory of the repositories.
pub open spec fn workspace_root_of(vars: Map<Seq<char>, Seq<char>>) -> Seq<char> {
    text::text_or(env_import::value_of(vars, "ELOWEN_EDGE_WORKSPACE_ROOT"@), "/workspace"@)
}

/// The configuration that variables make up, given their list of Codex arguments.
pub open spec fn config_with(
    style: PathStyle,
    vars: Map<Seq<char>, Seq<char>>,
    nats_url: Seq<char>,
    codex_args: Seq<Seq<char>>,
) -> EdgeConfigView {
    EdgeConfigView {
        api_url: config::without_trailing_slashes(
            text::text_or(env_import::value_of(vars, "ELOWEN_API_URL"@), "http://elowen-api:8080"@),
        ),
        nats_url,
        device_id: device_id_of(vars),
        device_name: text::text_or(
            unless_blank(env_import::value_of(vars, "ELOWEN_DEVICE_NAME"@)),
            discovery::detected_name(
                env_import::value_of(vars, "COMPUTERNAME"@),
                env_import::value_of(vars, "HOSTNAME"@),
                device_id_of(vars),
            ),
        ),
        primary_flag: match env_import::value_of(vars, "ELOWEN_DEVICE_PRIMARY"@) {
            Some(word) => registration::is_affirmative(word),
            None => true,
        },
        allowed_repos: entries_of(
            env_import::value_of(vars, "ELOWEN_ALLOWED_REPOS"@),
            config::default_repos(),
        ),
        capabilities: entries_of(
            env_import::value_of(vars, "ELOWEN_DEVICE_CAPABILITIES"@),
            default_capabilities(),
        ),
        workspace_root: workspace_root_of(vars),
        worktree_root: text::text_or(
            unless_blank(env_import::value_of(vars, "ELOWEN_EDGE_WORKTREE_ROOT"@)),
            paths::join(
                style,
                paths::join(style, workspace_root_of(vars), ".elowen"@),
                "worktrees"@,
            ),
        ),
        codex_command: config::trimmed_value(env_import::value_of(vars, "ELOWEN_CODEX_COMMAND"@)),
        codex_args,
        simulated_run_ms: match env_import::optional_number(
            env_import::value_of(vars, "ELOWEN_SIMULATED_RUN_MS"@),
        ) {
            Some(ms) => ms,
            None => 1500,
        },
    }
}

/// The configuration that variables make up, or the message of its refusal.
pub open spec fn config_from(
    style: PathStyle,
    vars: Map<Seq<char>,
    Seq<char>>,
) -> Result<EdgeConfigView, Seq<char>> {
    match env_import::value_of(vars, "ELOWEN_NATS_URL"@) {
        None => Err("missing ELOWEN_NATS_URL"@),
        Some(nats_url) => match json_entries(
            "ELOWEN_CODEX_ARGS_JSON"@,
            env_import::value_of(vars, "ELOWEN_CODEX_ARGS_JSON"@),
            env_import::parsed_args(env_import::value_of(vars, "ELOWEN_CODEX_ARGS_JSON"@)),
        ) {
            Err(message) => Err(message),
            Ok(codex_args) => Ok(config_with(style, vars, nats_url, codex_args)),
        },
    }
}

impl EdgeConfig {
    /// The configuration that variables make up, given the message bus and the arguments of Codex.
    pub fn from_parts(
        style: PathStyle,
        env: &EnvOverlay,
        nats_url: String,
        codex_args: Vec<String>,
    ) -> (out: EdgeConfig)
        ensures
            out@ == config_with(style, env@, nats_url@, text::texts(codex_args@)),
    {
        let computer_name = env.cloned("COMPUTERNAME");
        let host_name = env.cloned("HOSTNAME");
        let device_id = match variable_unless_blank(env, "ELOWEN_DEVICE_ID") {
            Some(id) => id,
            None => discovery::detect_device_id(&computer_name, &host_name),
        };
        let device_name = match variable_unless_blank(env, "ELOWEN_DEVICE_NAME") {
            Some(name) => name,
            None => discovery::detect_device_name(&computer_name, &host_name, &device_id),
        };
        let workspace_root = match env.cloned("ELOWEN_EDGE_WORKSPACE_ROOT") {
            Some(root) => root,
            None => "/workspace".to_owned(),
        };
        let worktree_root = match variable_unless_blank(env, "ELOWEN_EDGE_WORKTREE_ROOT") {
            Some(root) => root,
            None => paths::join_path(
                style,
                &paths::join_path(style, &workspace_root, ".elowen"),
                "worktrees",
            ),
        };
        let api_url = match env.get("ELOWEN_API_URL") {
            Some(url) => config::strip_trailing_slashes(url),
            None => config::strip_trailing_slashes("http://elowen-api:8080"),
        };
        let primary_flag = match env.get("ELOWEN_DEVICE_PRIMARY") {
            Some(word) => registration::parse_bool(word),
            None => true,
        };
        let number = match env.get("ELOWEN_SIMULATED_RUN_MS") {
            Some(value) => text::parse_u64(value),
            None => None,
        };
        let codex_command = config::trimmed(&env.cloned("ELOWEN_CODEX_COMMAND"));
        EdgeConfig {
            api_url,
            nats_url,
            device_id,
            device_name,
            primary_flag,
            allowed_repos: parse_list_env(
                env,
                "ELOWEN_ALLOWED_REPOS",
                &config::repos_by_default(),
            ),
            capabilities: parse_list_env(
                env,
                "ELOWEN_DEVICE_CAPABILITIES",
                &capabilities_by_default(),
            ),
            workspace_root,
            worktree_root,
            codex_command,
            codex_args,
            simulated_run_ms: match number {
                Some(ms) => ms,
                None => 1500,
            },
        }
    }

    /// The configuration that variables make up.
    pub fn from_env(style: PathStyle, env: &EnvOverlay) -> (out: Result<EdgeConfig, EdgeError>)
        ensures
            error::outcome(out) == config_from(style, env@),
    {
        let nats_url = match env.cloned("ELOWEN_NATS_URL") {
            Some(url) => url,
            None => return Err(EdgeError::new("missing ELOWEN_NATS_URL")),
        };
        match parse_json_list_env(env, "ELOWEN_CODEX_ARGS_JSON") {
            Ok(codex_args) => Ok(EdgeConfig::from_parts(style, env, nats_url, codex_args)),
            Err(error) => Err(error),
        }
    }
}

/// A job on a repository.
#[derive(Clone, Debug, PartialEq, Eq)]
pub struct RepositoryJob {
    pub job_id: String,
    pub short_id: String,
    pub thread_id: String,
    pub title: String,
    pub device_id: String,
    pub repo_name: String,
    pub base_branch: String,
    pub branch_name: String,
    pub request_text: String,
    pub dispatched_at: Timestamp,
}

/// What becomes of a dispatched job.
pub fn route_repository_job(job: &Option<RepositoryJob>, device_id: &str) -> (route: Route)
    ensures
        route == runtime::route_of(
            match *job {
                Some(message) => Some(message.device_id@),
                None => None,
            },
            device_id@,
        ),
{
    match job {
        None => Route::NotDecoded,
        Some(message) => if text::text_eq(&message.device_id, device_id) {
            Route::Accepted
        } else {
            Route::Mismatched
        },
    }
}

/// The request file of a job.
pub open spec fn request_body(job: RepositoryJob) -> Seq<char> {
    "# Elowen Job Request\n\n- Job: "@ + job.job_id@ + "\n- Thread: "@ + job.thread_id@
        + "\n- Repo: "@ + job.repo_name@ + "\n- Branch: "@ + job.branch_name@
        + "\n- Base branch: "@ + job.base_branch@ + "\n\n## Requested Work\n\n"@
        + job.request_text@ + "\n"@
}

/// The request file of a job: where it stands in the worktree, and its contents.
pub fn write_job_request_files(
    style: PathStyle,
    job: &RepositoryJob,
    worktree_path: &str,
) -> (out: (String, String))
    ensures
        out.0@ == paths::join(style, worktree_path@, "elowen-job-request.md"@),
        out.1@ == request_body(*job),
{
    let mut body = "# Elowen Job Request\n\n- Job: ".to_owned();
    body.append(&job.job_id);
    body.append("\n- Thread: ");
    body.append(&job.thread_id);
    body.append("\n- Repo: ");
    body.append(&job.repo_name);
    body.append("\n- Branch: ");
    body.append(&job.branch_name);
    body.append("\n- Base branch: ");
    body.append(&job.base_branch);
    body.append("\n\n## Requested Work\n\n");
    body.append(&job.request_text);
    body.append("\n");
    (paths::join_path(style, worktree_path, "elowen-job-request.md"), body)
}

/// The paths that trimmed status lines speak of.
pub open spec fn changed_paths(lines: Seq<Seq<char>>) -> Seq<Seq<char>>
    decreases lines.len(),
{
    if lines.len() == 0 {
        Seq::empty()
    } else {
        let before = changed_paths(lines.drop_last());
        let line = lines.last();
        let path = text::trim(text::text_or(text::after_bytes(line, 3), line));
        if path.len() == 0 {
            before
        } else {
            before.push(path)
        }
    }
}

/// The report that the outputs of `git status --short` and `git diff --stat` make up.
pub open spec fn git_report_of(status: Seq<u8>, diff_stat: Seq<u8>) -> GitReportView {
    let status_lines = text::trimmed_entries(text::lines_of(encoding::lossy_text(status)));
    let stat = text::joined(
        text::trimmed_entries(text::lines_of(encoding::lossy_text(diff_stat))),
        "\n"@,
    );
    GitReportView {
        status_lines,
        diff_stat: if stat.len() == 0 {
            None
        } else {
            Some(stat)
        },
        changed_files: changed_paths(status_lines),
    }
}

/// The report that the outputs of `git status --short` and `git diff --stat` make up.
pub fn capture_git_report(status: &[u8], diff_stat: &[u8]) -> (report: GitReport)
    ensures
        report@ == git_report_of(status@, diff_stat@),
{
    let status_lines = text::trim_entries(&text::text_lines(&encoding::text_from_lossy(status)));
    let ghost lines = text::texts(status_lines@);
    let mut changed_files: Vec<String> = Vec::new();
    let mut i: usize = 0;
    assert(lines.take(0) == Seq::<Seq<char>>::empty());
    assert(text::texts(changed_files@) == Seq::<Seq<char>>::empty());
    while i < status_lines.len()
        invariant
            i <= status_lines.len(),
            lines == text::texts(status_lines@),
            text::texts(changed_files@) == changed_paths(lines.take(i as int)),
        decreases status_lines.len() - i,
    {
        assert(lines.take(i + 1).drop_last() == lines.take(i as int));
        assert(lines.take(i + 1).last() == status_lines@[i as int]@);
        let path = match text::text_after_bytes(&status_lines[i], 3) {
            Some(rest) => text::trimmed_text(&rest),
            None => text::trimmed_text(&status_lines[i]),
        };
        if !path.as_str().is_empty() {
            push_text(&mut changed_files, path);
        }
        i = i + 1;
    }
    assert(lines.take(i as int) == lines);
    let stat_lines = text::trim_entries(&text::text_lines(&encoding::text_from_lossy(diff_stat)));
    let stat = text::join_texts(&stat_lines, "\n");
    let diff_stat = if stat.as_str().is_empty() {
        None
    } else {
        Some(stat)
    };
    GitReport { status_lines, diff_stat, changed_files }
}

/// The state of a worktree as two runs of `git` report it, or the message of a failure. What they
/// print counts, however they end.
pub open spec fn reported_state(status: ProcessRun, diff_stat: ProcessRun) -> Result<
    GitReportView,
    Seq<char>,
> {
    match status {
        ProcessRun::NotRun => Err("failed to capture git status"@),
        ProcessRun::Exited { stdout: lines, .. } => match diff_stat {
            ProcessRun::NotRun => Err("failed to capture git diff --stat"@),
            ProcessRun::Exited { stdout: stat, .. } => Ok(git_report_of(lines@, stat@)),
        },
    }
}

/// The state of a worktree as two runs of `git` report it.
pub fn state_of_worktree(status: &ProcessRun, diff_stat: &ProcessRun) -> (out: Result<
    GitReport,
    EdgeError,
>)
    ensures
        error::outcome(out) == reported_state(*status, *diff_stat),
{
    match status {
        ProcessRun::NotRun => Err(EdgeError::new("failed to capture git status")),
        ProcessRun::Exited { success: _, stdout: lines, stderr: _ } => match diff_stat {
            ProcessRun::NotRun => Err(EdgeError::new("failed to capture git diff --stat")),
            ProcessRun::Exited { success: _, stdout: stat, stderr: _ } => Ok(
                capture_git_report(lines.as_slice(), stat.as_slice()),
            ),
        },
    }
}

/// What ran a job.
#[derive(Clone, Debug, PartialEq, Eq)]
pub enum JobRunner {
    /// Nothing but a summary was written.
    Simulated { summary_path: String },
    /// A command was run.
    External { command: String, args: Vec<String>, stdout: String, stderr: String, log_path: String },
}

/// The contents of a [`JobRunner`].
pub enum JobRunnerView {
    Simulated { summary_path: Seq<char> },
    External { command: Seq<char>, args: Seq<Seq<char>>, stdout: Seq<char>, stderr: Seq<char>, log_path: Seq<char> },
}

impl View for JobRunner {
    type V = JobRunnerView;

    open spec fn view(&self) -> JobRunnerView {
        match *self {
            JobRunner::Simulated { summary_path } => JobRunnerView::Simulated {
                summary_path: summary_path@,
            },
            JobRunner::External { command, args, stdout, stderr, log_path } => JobRunnerView::External {
                command: command@,
                args: text::texts(args@),
                stdout: stdout@,
                stderr: stderr@,
                log_path: log_path@,
            },
        }
    }
}

/// The structured report of a job.
#[derive(Clone, Debug, PartialEq, Eq)]
pub struct JobReport {
    pub runner: JobRunner,
    /// Why there was no build.
    pub build_reason: String,
    /// Why there were no tests.
    pub test_reason: String,
    pub git_status: Vec<String>,
    pub diff_stat: Option<String>,
    pub changed_files: Vec<String>,
}

/// The contents of a [`JobReport`].
pub struct JobReportView {
    pub runner: JobRunnerView,
    pub build_reason: Seq<char>,
    pub test_reason: Seq<char>,
    pub git_status: Seq<Seq<char>>,
    pub diff_stat: Option<Seq<char>>,
    pub changed_files: Seq<Seq<char>>,
}

impl View for JobReport {
    type V = JobReportView;

    open spec fn view(&self) -> JobReportView {
        JobReportView {
            runner: self.runner@,
            build_reason: self.build_reason@,
            test_reason: self.test_reason@,
            git_status: text::texts(self.git_status@),
            diff_stat: text::opt_text(self.diff_stat),
            changed_files: text::texts(self.changed_files@),
        }
    }
}

/// How a job ended. It always succeeded, and its push always waits for approval.
#[derive(Clone, Debug, PartialEq, Eq)]
pub struct JobOutcome {
    pub detail: String,
    pub result: String,
    pub summary_markdown: String,
    pub execution_report: JobReport,
    pub approval_summary: String,
}

/// The contents of a [`JobOutcome`].
pub struct JobOutcomeView {
    pub detail: Seq<char>,
    pub result: Seq<char>,
    pub summary_markdown: Seq<char>,
    pub execution_report: JobReportView,
    pub approval_summary: Seq<char>,
}

impl View for JobOutcome {
    type V = JobOutcomeView;

    open spec fn view(&self) -> JobOutcomeView {
        JobOutcomeView {
            detail: self.detail@,
            result: self.result@,
            summary_markdown: self.summary_markdown@,
            execution_report: self.execution_report@,
            approval_summary: self.approval_summary@,
        }
    }
}

/// The state of the worktree at the end of a summary.
pub open spec fn changes_summary(git: GitReportView) -> Seq<char> {
    "\n\n## Workspace Changes\n\n- Changed entries: "@ + text::decimal(git.changed_files.len())
        + "\n- Diff stat: "@ + text::text_or(git.diff_stat, "no tracked diff"@) + "\n"@
}

/// The state of the worktree at the end of a summary.
fn summarize_changes(git: &GitReport) -> (out: String)
    ensures
        out@ == changes_summary(git@),
{
    assert(git@.changed_files.len() == git.changed_files.len());
    let mut out = "\n\n## Workspace Changes\n\n- Changed entries: ".to_owned();
    out.append(&text::count_text(git.changed_files.len()));
    out.append("\n- Diff stat: ");
    out.append(execution::unwrap_text(&git.diff_stat, "no tracked diff"));
    out.append("\n");
    out
}

/// The summary file of a simulated run.
pub open spec fn simulated_summary(job: RepositoryJob) -> Seq<char> {
    "# Simulated Slice 4 Execution\n\n- Job: "@ + job.job_id@ + "\n- Thread: "@ + job.thread_id@
        + "\n- Repo: "@ + job.repo_name@ + "\n- Branch: "@ + job.branch_name@
        + "\n- Base branch: "@ + job.base_branch@ + "\n- Runner: simulated\n\n## Request\n\n"@
        + job.request_text@ + "\n"@
}

/// The summary file of a simulated run: where it stands, and its contents.
pub fn simulated_summary_file(
    style: PathStyle,
    job: &RepositoryJob,
    worktree_path: &str,
) -> (out: (String, String))
    ensures
        out.0@ == paths::join(style, worktree_path@, "elowen-job-summary.md"@),
        out.1@ == simulated_summary(*job),
{
    let mut body = "# Simulated Slice 4 Execution\n\n- Job: ".to_owned();
    body.append(&job.job_id);
    body.append("\n- Thread: ");
    body.append(&job.thread_id);
    body.append("\n- Repo: ");
    body.append(&job.repo_name);
    body.append("\n- Branch: ");
    body.append(&job.branch_name);
    body.append("\n- Base branch: ");
    body.append(&job.base_branch);
    body.append("\n- Runner: simulated\n\n## Request\n\n");
    body.append(&job.request_text);
    body.append("\n");
    (paths::join_path(style, worktree_path, "elowen-job-summary.md"), body)
}

/// How a simulated run ended.
pub open spec fn simulated_outcome(
    style: PathStyle,
    job: RepositoryJob,
    worktree: Seq<char>,
    git: GitReportView,
) -> JobOutcomeView {
    JobOutcomeView {
        detail: "simulated Codex wrapper completed successfully"@,
        result: "success"@,
        summary_markdown: "# Job Summary\n\n- Result: success\n- Runner: simulated\n- Repo: "@
            + job.repo_name@ + "\n- Branch: "@ + job.branch_name@ + "\n\n## Request\n\n"@
            + job.request_text@ + "\n\n## Validation\n\n- Build: not run\n- Test: not run"@
            + changes_summary(git),
        execution_report: JobReportView {
            runner: JobRunnerView::Simulated {
                summary_path: paths::join(style, worktree, "elowen-job-summary.md"@),
            },
            build_reason:
                "no project-specific build command is configured in the Slice 5 scaffold"@,
            test_reason:
                "no project-specific test command is configured in the Slice 5 scaffold"@,
            git_status: git.status_lines,
            diff_stat: git.diff_stat,
            changed_files: git.changed_files,
        },
        approval_summary: "Approve push for `"@ + job.repo_name@ + "` on branch `"@
            + job.branch_name@ + "`. Review the generated summary and "@ + text::decimal(
            git.changed_files.len(),
        ) + " changed entries before pushing."@,
    }
}

/// How a simulated run ended.
pub fn run_simulated_codex_wrapper(
    style: PathStyle,
    job: &RepositoryJob,
    worktree_path: &str,
    git: GitReport,
) -> (outcome: JobOutcome)
    ensures
        outcome@ == simulated_outcome(style, *job, worktree_path@, git@),
{
    assert(git@.changed_files.len() == git.changed_files.len());
    let mut summary = "# Job Summary\n\n- Result: success\n- Runner: simulated\n- Repo: ".to_owned();
    summary.append(&job.repo_name);
    summary.append("\n- Branch: ");
    summary.append(&job.branch_name);
    summary.append("\n\n## Request\n\n");
    summary.append(&job.request_text);
    summary.append("\n\n## Validation\n\n- Build: not run\n- Test: not run");
    summary.append(&summarize_changes(&git));
    let mut approval = "Approve push for `".to_owned();
    approval.append(&job.repo_name);
    approval.append("` on branch `");
    approval.append(&job.branch_name);
    approval.append("`. Review the generated summary and ");
    approval.append(&text::count_text(git.changed_files.len()));
    approval.append(" changed entries before pushing.");
    JobOutcome {
        detail: "simulated Codex wrapper completed successfully".to_owned(),
        result: "success".to_owned(),
        summary_markdown: summary,
        execution_report: JobReport {
            runner: JobRunner::Simulated {
                summary_path: paths::join_path(style, worktree_path, "elowen-job-summary.md"),
            },
            build_reason:
                "no project-specific build command is configured in the Slice 5 scaffold".to_owned(),
            test_reason:
                "no project-specific test command is configured in the Slice 5 scaffold".to_owned(),
            git_status: git.status_lines,
            diff_stat: git.diff_stat,
            changed_files: git.changed_files,
        },
        approval_summary: approval,
    }
}

/// The environment of an external command.
pub open spec fn external_environment(job: RepositoryJob, worktree: Seq<char>) -> Seq<
    sandbox::EnvVarView,
> {
    seq![
        sandbox::env_var("ELOWEN_JOB_ID"@, job.job_id@),
        sandbox::env_var("ELOWEN_JOB_SHORT_ID"@, job.short_id@),
        sandbox::env_var("ELOWEN_THREAD_ID"@, job.thread_id@),
        sandbox::env_var("ELOWEN_JOB_TITLE"@, job.title@),
        sandbox::env_var("ELOWEN_REPO_NAME"@, job.repo_name@),
        sandbox::env_var("ELOWEN_BRANCH_NAME"@, job.branch_name@),
        sandbox::env_var("ELOWEN_BASE_BRANCH"@, job.base_branch@),
        sandbox::env_var("ELOWEN_WORKTREE_PATH"@, worktree),
        sandbox::env_var("ELOWEN_REQUEST_TEXT"@, job.request_text@),
    ]
}

/// The environment of an external command.
pub fn environment_of_command(job: &RepositoryJob, worktree_path: &str) -> (out: Vec<EnvVar>)
    ensures
        sandbox::env_views(out@) == external_environment(*job, worktree_path@),
{
    let mut out: Vec<EnvVar> = Vec::new();
    sandbox::push_env(&mut out, "ELOWEN_JOB_ID", &job.job_id);
    sandbox::push_env(&mut out, "ELOWEN_JOB_SHORT_ID", &job.short_id);
    sandbox::push_env(&mut out, "ELOWEN_THREAD_ID", &job.thread_id);
    sandbox::push_env(&mut out, "ELOWEN_JOB_TITLE", &job.title);
    sandbox::push_env(&mut out, "ELOWEN_REPO_NAME", &job.repo_name);
    sandbox::push_env(&mut out, "ELOWEN_BRANCH_NAME", &job.branch_name);
    sandbox::push_env(&mut out, "ELOWEN_BASE_BRANCH", &job.base_branch);
    sandbox::push_env(&mut out, "ELOWEN_WORKTREE_PATH", worktree_path);
    sandbox::push_env(&mut out, "ELOWEN_REQUEST_TEXT", &job.request_text);
    assert(sandbox::env_views(out@) == external_environment(*job, worktree_path@));
    out
}

/// The outputs of an external command as they are kept.
pub open spec fn kept_output(bytes: Seq<u8>) -> Seq<char> {
    text::truncated(encoding::lossy_text(bytes), 4000)
}

/// Where the log of an external command stands.
pub open spec fn log_path_in(style: PathStyle, worktree: Seq<char>) -> Seq<char> {
    paths::join(style, worktree, "elowen-runner-output.log"@)
}

/// The log of an external command: where it stands, and its contents.
pub fn external_log(
    style: PathStyle,
    worktree_path: &str,
    stdout: &[u8],
    stderr: &[u8],
) -> (out: (String, String))
    ensures
        out.0@ == log_path_in(style, worktree_path@),
        out.1@ == "stdout:\n"@ + kept_output(stdout@) + "\n\nstderr:\n"@ + kept_output(stderr@)
            + "\n"@,
{
    let mut body = "stdout:\n".to_owned();
    body.append(&text::truncate_text(&encoding::text_from_lossy(stdout), 4000));
    body.append("\n\nstderr:\n");
    body.append(&text::truncate_text(&encoding::text_from_lossy(stderr), 4000));
    body.append("\n");
    (paths::join_path(style, worktree_path, "elowen-runner-output.log"), body)
}

/// How far an external command got.
pub enum ExternalRun {
    /// It could not be run.
    NotRun,
    /// Its log could not be written.
    LogNotWritten,
    /// It ran to its end, and its log was written.
    Exited { success: bool, status: String, stdout: Vec<u8>, stderr: Vec<u8> },
}

/// How the run of an external command ended, or the message of its failure.
pub open spec fn external_outcome(
    style: PathStyle,
    job: RepositoryJob,
    worktree: Seq<char>,
    command: Seq<char>,
    args: Seq<Seq<char>>,
    run: ExternalRun,
    git: GitReportView,
) -> Result<JobOutcomeView, Seq<char>> {
    let log_path = log_path_in(style, worktree);
    match run {
        ExternalRun::NotRun => Err("failed to run Codex wrapper command `"@ + command + "`"@),
        ExternalRun::LogNotWritten => Err("failed to write "@ + log_path),
        ExternalRun::Exited { success, status, stdout, stderr } => if !success {
            Err("Codex wrapper command failed with status "@ + status@)
        } else {
            Ok(
                JobOutcomeView {
                    detail: "external Codex wrapper `"@ + command + "` completed successfully"@,
                    result: "success"@,
                    summary_markdown:
                        "# Job Summary\n\n- Result: success\n- Runner: external\n- Repo: "@
                        + job.repo_name@ + "\n- Branch: "@ + job.branch_name@
                        + "\n\n## Request\n\n"@ + job.request_text@
                        + "\n\n## Runner Output\n\n- Command: `"@ + command + "`\n- Log: `"@
                        + log_path + "`"@ + changes_summary(git),
                    execution_report: JobReportView {
                        runner: JobRunnerView::External {
                            command,
                            args,
                            stdout: kept_output(stdout@),
                            stderr: kept_output(stderr@),
                            log_path,
                        },
                        build_reason: "external runner did not emit a build report"@,
                        test_reason: "external runner did not emit a test report"@,
                        git_status: git.status_lines,
                        diff_stat: git.diff_stat,
                        changed_files: git.changed_files,
                    },
                    approval_summary: "Approve push for `"@ + job.repo_name@ + "` on branch `"@
                        + job.branch_name@ + "` after reviewing the external runner output and "@
                        + text::decimal(git.changed_files.len()) + " changed entries."@,
                },
            )
        },
    }
}

/// How the run of an external command ended.
pub fn run_external_codex_wrapper(
    style: PathStyle,
    job: &RepositoryJob,
    worktree_path: &str,
    command: &str,
    args: &Vec<String>,
    run: &ExternalRun,
    git: GitReport,
) -> (out: Result<JobOutcome, EdgeError>)
    ensures
        error::outcome(out) == external_outcome(
            style,
            *job,
            worktree_path@,
            command@,
            text::texts(args@),
            *run,
            git@,
        ),
{
    let log_path = paths::join_path(style, worktree_path, "elowen-runner-output.log");
    match run {
        ExternalRun::NotRun => {
            let mut message = "failed to run Codex wrapper command `".to_owned();
            message.append(command);
            message.append("`");
            Err(EdgeError::of(message))
        },
        ExternalRun::LogNotWritten => {
            let mut message = "failed to write ".to_owned();
            message.append(&log_path);
            Err(EdgeError::of(message))
        },
        ExternalRun::Exited { success, status, stdout, stderr } => {
            if !*success {
                let mut message = "Codex wrapper command failed with status ".to_owned();
                message.append(status);
                return Err(EdgeError::of(message));
            }
            assert(git@.changed_files.len() == git.changed_files.len());
            let mut detail = "external Codex wrapper `".to_owned();
            detail.append(command);
            detail.append("` completed successfully");
            let mut summary =
                "# Job Summary\n\n- Result: success\n- Runner: external\n- Repo: ".to_owned();
            summary.append(&job.repo_name);
            summary.append("\n- Branch: ");
            summary.append(&job.branch_name);
            summary.append("\n\n## Request\n\n");
            summary.append(&job.request_text);
            summary.append("\n\n## Runner Output\n\n- Command: `");
            summary.append(command);
            summary.append("`\n- Log: `");
            summary.append(&log_path);
            summary.append("`");
            summary.append(&summarize_changes(&git));
            let mut approval = "Approve push for `".to_owned();
            approval.append(&job.repo_name);
            approval.append("` on branch `");
            approval.append(&job.branch_name);
            approval.append("` after reviewing the external runner output and ");
            approval.append(&text::count_text(git.changed_files.len()));
            approval.append(" changed entries.");
            let out_text = encoding::text_from_lossy(stdout.as_slice());
            let err_text = encoding::text_from_lossy(stderr.as_slice());
            Ok(
                JobOutcome {
                    detail,
                    result: "success".to_owned(),
                    summary_markdown: summary,
                    execution_report: JobReport {
                        runner: JobRunner::External {
                            command: command.to_owned(),
                            args: text::copy_list(args),
                            stdout: text::truncate_text(&out_text, 4000),
                            stderr: text::truncate_text(&err_text, 4000),
                            log_path,
                        },
                        build_reason: "external runner did not emit a build report".to_owned(),
                        test_reason: "external runner did not emit a test report".to_owned(),
                        git_status: git.status_lines,
                        diff_stat: git.diff_stat,
                        changed_files: git.changed_files,
                    },
                    approval_summary: approval,
                },
            )
        },
    }
}

/// The request of a job names the job, its thread, its repository and its branches, and says what is
/// asked for.
#[verifier::rlimit(60)]
#[verifier::spinoff_prover]
pub proof fn requests_hold_the_whole_job(job: RepositoryJob)
    ensures
        ({
            let told = request_body(job);
            &&& text::contains_text(told, "# Elowen Job Request\n\n- Job: "@ + job.job_id@)
            &&& text::contains_text(told, "\n- Thread: "@ + job.thread_id@)
            &&& text::contains_text(told, "\n- Repo: "@ + job.repo_name@)
            &&& text::contains_text(told, "\n- Branch: "@ + job.branch_name@)
            &&& text::contains_text(told, "\n- Base branch: "@ + job.base_branch@)
            &&& text::contains_text(told, "\n\n## Requested Work\n\n"@ + job.request_text@)
        }),
{
    let said = "# Elowen Job Request\n\n- Job: "@ + job.job_id@;
    text::texts_contain_themselves(said);
    text::labelled_values_are_contained(said, "\n- Thread: "@, job.thread_id@);
    let said = said + "\n- Thread: "@ + job.thread_id@;
    text::labelled_values_are_contained(said, "\n- Repo: "@, job.repo_name@);
    let said = said + "\n- Repo: "@ + job.repo_name@;
    text::labelled_values_are_contained(said, "\n- Branch: "@, job.branch_name@);
    let said = said + "\n- Branch: "@ + job.branch_name@;
    text::labelled_values_are_contained(said, "\n- Base branch: "@, job.base_branch@);
    let said = said + "\n- Base branch: "@ + job.base_branch@;
    text::labelled_values_are_contained(said, "\n\n## Requested Work\n\n"@, job.request_text@);
    let said = said + "\n\n## Requested Work\n\n"@ + job.request_text@;
    text::containing_grows(said, "\n"@);
}

/// So does the summary that a simulated run leaves behind.
#[verifier::rlimit(60)]
#[verifier::spinoff_prover]
pub proof fn simulated_summaries_hold_the_whole_job(job: RepositoryJob)
    ensures
        ({
            let told = simulated_summary(job);
            &&& text::contains_text(told, "# Simulated Slice 4 Execution\n\n- Job: "@ + job.job_id@)
            &&& text::contains_text(told, "\n- Thread: "@ + job.thread_id@)
            &&& text::contains_text(told, "\n- Repo: "@ + job.repo_name@)
            &&& text::contains_text(told, "\n- Branch: "@ + job.branch_name@)
            &&& text::contains_text(told, "\n- Base branch: "@ + job.base_branch@)
            &&& text::contains_text(
                told,
                "\n- Runner: simulated\n\n## Request\n\n"@ + job.request_text@,
            )
        }),
{
    let said = "# Simulated Slice 4 Execution\n\n- Job: "@ + job.job_id@;
    text::texts_contain_themselves(said);
    text::labelled_values_are_contained(said, "\n- Thread: "@, job.thread_id@);
    let said = said + "\n- Thread: "@ + job.thread_id@;
    text::labelled_values_are_contained(said, "\n- Repo: "@, job.repo_name@);
    let said = said + "\n- Repo: "@ + job.repo_name@;
    text::labelled_values_are_contained(said, "\n- Branch: "@, job.branch_name@);
    let said = said + "\n- Branch: "@ + job.branch_name@;
    text::labelled_values_are_contained(said, "\n- Base branch: "@, job.base_branch@);
    let said = said + "\n- Base branch: "@ + job.base_branch@;
    text::labelled_values_are_contained(
        said,
        "\n- Runner: simulated\n\n## Request\n\n"@,
        job.request_text@,
    );
    let said = said + "\n- Runner: simulated\n\n## Request\n\n"@ + job.request_text@;
    text::containing_grows(said, "\n"@);
}

/// What changed is told by its count and its statistics.
#[verifier::rlimit(60)]
#[verifier::spinoff_prover]
pub proof fn changes_are_told(git: GitReportView)
    ensures
        ({
            let told = changes_summary(git);
            &&& text::contains_text(
                told,
                "\n\n## Workspace Changes\n\n- Changed entries: "@ + text::decimal(git.changed_files.len()),
            )
            &&& text::contains_text(
                told,
                "\n- Diff stat: "@ + text::text_or(git.diff_stat, "no tracked diff"@),
            )
        }),
{
    let said = "\n\n## Workspace Changes\n\n- Changed entries: "@ + text::decimal(git.changed_files.len());
    text::texts_contain_themselves(said);
    text::labelled_values_are_contained(
        said,
        "\n- Diff stat: "@,
        text::text_or(git.diff_stat, "no tracked diff"@),
    );
    let said = said + "\n- Diff stat: "@ + text::text_or(git.diff_stat, "no tracked diff"@);
    text::containing_grows(said, "\n"@);
}

/// The summary of a simulated run tells its repository, its branch and its request, and ends with the
/// changes.
#[verifier::rlimit(60)]
#[verifier::spinoff_prover]
pub proof fn simulated_outcomes_are_summarised(
    style: PathStyle,
    job: RepositoryJob,
    worktree: Seq<char>,
    git: GitReportView,
)
    ensures
        ({
            let told = simulated_outcome(style, job, worktree, git).summary_markdown;
            &&& text::contains_text(
                told,
                "# Job Summary\n\n- Result: success\n- Runner: simulated\n- Repo: "@ + job.repo_name@,
            )
            &&& text::contains_text(told, "\n- Branch: "@ + job.branch_name@)
            &&& text::contains_text(told, "\n\n## Request\n\n"@ + job.request_text@)
            &&& text::contains_text(
                told,
                "\n\n## Validation\n\n- Build: not run\n- Test: not run"@ + changes_summary(git),
            )
        }),
{
    let said = "# Job Summary\n\n- Result: success\n- Runner: simulated\n- Repo: "@ + job.repo_name@;
    text::texts_contain_themselves(said);
    text::labelled_values_are_contained(said, "\n- Branch: "@, job.branch_name@);
    let said = said + "\n- Branch: "@ + job.branch_name@;
    text::labelled_values_are_contained(said, "\n\n## Request\n\n"@, job.request_text@);
    let said = said + "\n\n## Request\n\n"@ + job.request_text@;
    text::labelled_values_are_contained(
        said,
        "\n\n## Validation\n\n- Build: not run\n- Test: not run"@,
        changes_summary(git),
    );
    let said = said + "\n\n## Validation\n\n- Build: not run\n- Test: not run"@ + changes_summary(git);
}

/// The question that follows a simulated run names what is to be pushed.
#[verifier::rlimit(60)]
#[verifier::spinoff_prover]
pub proof fn simulated_outcomes_ask_for_their_push(
    style: PathStyle,
    job: RepositoryJob,
    worktree: Seq<char>,
    git: GitReportView,
)
    ensures
        ({
            let told = simulated_outcome(style, job, worktree, git).approval_summary;
            &&& text::contains_text(told, "Approve push for `"@ + job.repo_name@)
            &&& text::contains_text(told, "` on branch `"@ + job.branch_name@)
            &&& text::contains_text(
                told,
                "`. Review the generated summary and "@ + text::decimal(git.changed_files.len()),
            )
        }),
{
    let said = "Approve push for `"@ + job.repo_name@;
    text::texts_contain_themselves(said);
    text::labelled_values_are_contained(said, "` on branch `"@, job.branch_name@);
    let said = said + "` on branch `"@ + job.branch_name@;
    text::labelled_values_are_contained(
        said,
        "`. Review the generated summary and "@,
        text::decimal(git.changed_files.len()),
    );
    let said = said + "`. Review the generated summary and "@ + text::decimal(git.changed_files.len());
    text::containing_grows(said, " changed entries before pushing."@);
}

/// The summary of an external run tells its repository, its branch, its request, its command and its
/// log, and ends with the changes.
#[verifier::rlimit(60)]
#[verifier::spinoff_prover]
pub proof fn external_outcomes_are_summarised(
    style: PathStyle,
    job: RepositoryJob,
    worktree: Seq<char>,
    command: Seq<char>,
    args: Seq<Seq<char>>,
    run: ExternalRun,
    git: GitReportView,
)
    requires
        run is Exited,
        run->success,
    ensures
        ({
            let told = external_outcome(style, job, worktree, command, args, run, git)->Ok_0.summary_markdown;
            &&& text::contains_text(
                told,
                "# Job Summary\n\n- Result: success\n- Runner: external\n- Repo: "@ + job.repo_name@,
            )
            &&& text::contains_text(told, "\n- Branch: "@ + job.branch_name@)
            &&& text::contains_text(told, "\n\n## Request\n\n"@ + job.request_text@)
            &&& text::contains_text(told, "\n\n## Runner Output\n\n- Command: `"@ + command)
            &&& text::contains_text(told, "`\n- Log: `"@ + log_path_in(style, worktree))
            &&& text::contains_text(told, "`"@ + changes_summary(git))
        }),
{
    let said = "# Job Summary\n\n- Result: success\n- Runner: external\n- Repo: "@ + job.repo_name@;
    text::texts_contain_themselves(said);
    text::labelled_values_are_contained(said, "\n- Branch: "@, job.branch_name@);
    let said = said + "\n- Branch: "@ + job.branch_name@;
    text::labelled_values_are_contained(said, "\n\n## Request\n\n"@, job.request_text@);
    let said = said + "\n\n## Request\n\n"@ + job.request_text@;
    text::labelled_values_are_contained(said, "\n\n## Runner Output\n\n- Command: `"@, command);
    let said = said + "\n\n## Runner Output\n\n- Command: `"@ + command;
    text::labelled_values_are_contained(said, "`\n- Log: `"@, log_path_in(style, worktree));
    let said = said + "`\n- Log: `"@ + log_path_in(style, worktree);
    text::labelled_values_are_contained(said, "`"@, changes_summary(git));
    let said = said + "`"@ + changes_summary(git);
}

/// The question that follows an external run names what is to be pushed.
#[verifier::rlimit(60)]
#[verifier::spinoff_prover]
pub proof fn external_outcomes_ask_for_their_push(
    style: PathStyle,
    job: RepositoryJob,
    worktree: Seq<char>,
    command: Seq<char>,
    args: Seq<Seq<char>>,
    run: ExternalRun,
    git: GitReportView,
)
    requires
        run is Exited,
        run->success,
    ensures
        ({
            let told = external_outcome(style, job, worktree, command, args, run, git)->Ok_0.approval_summary;
            &&& text::contains_text(told, "Approve push for `"@ + job.repo_name@)
            &&& text::contains_text(told, "` on branch `"@ + job.branch_name@)
            &&& text::contains_text(
                told,
                "` after reviewing the external runner output and "@ + text::decimal(git.changed_files.len()),
            )
        }),
{
    let said = "Approve push for `"@ + job.repo_name@;
    text::texts_contain_themselves(said);
    text::labelled_values_are_contained(said, "` on branch `"@, job.branch_name@);
    let said = said + "` on branch `"@ + job.branch_name@;
    text::labelled_values_are_contained(
        said,
        "` after reviewing the external runner output and "@,
        text::decimal(git.changed_files.len()),
    );
    let said = said + "` after reviewing the external runner output and "@ + text::decimal(git.changed_files.len());
    text::containing_grows(said, " changed entries."@);
}


/// A simulated run succeeds, and reports the state of the worktree and the file it left there.
pub proof fn simulated_runs_report_the_worktree(
    style: PathStyle,
    job: RepositoryJob,
    worktree: Seq<char>,
    git: GitReportView,
)
    ensures
        ({
            let outcome = simulated_outcome(style, job, worktree, git);
            let told = outcome.execution_report;
            &&& outcome.result == "success"@
            &&& outcome.detail == "simulated Codex wrapper completed successfully"@
            &&& told.git_status == git.status_lines
            &&& told.diff_stat == git.diff_stat
            &&& told.changed_files == git.changed_files
            &&& told.runner == (JobRunnerView::Simulated {
                summary_path: paths::join(style, worktree, "elowen-job-summary.md"@),
            })
        }),
{
}

/// An external run succeeds exactly where its command ran to its end, reported success and was
/// logged. It then reports the command, its arguments, what it printed and its log, and the state of
/// the worktree. A failure tells the command, the log or the status.
pub proof fn external_runs_report_their_command(
    style: PathStyle,
    job: RepositoryJob,
    worktree: Seq<char>,
    command: Seq<char>,
    args: Seq<Seq<char>>,
    run: ExternalRun,
    git: GitReportView,
)
    ensures
        external_outcome(style, job, worktree, command, args, run, git) is Ok <==> run is Exited
            && run->success,
        external_outcome(style, job, worktree, command, args, run, git) matches Ok(outcome) ==> {
            let told = outcome.execution_report;
            &&& outcome.result == "success"@
            &&& text::contains_text(outcome.detail, command)
            &&& told.git_status == git.status_lines
            &&& told.diff_stat == git.diff_stat
            &&& told.changed_files == git.changed_files
            &&& told.runner matches JobRunnerView::External {
                command: told_command,
                args: told_args,
                stdout,
                stderr,
                log_path,
            }
            &&& told_command == command
            &&& told_args == args
            &&& stdout == text::truncated(encoding::lossy_text(run->stdout@), 4000)
            &&& stderr == text::truncated(encoding::lossy_text(run->stderr@), 4000)
            &&& log_path == paths::join(style, worktree, "elowen-runner-output.log"@)
        },
        external_outcome(style, job, worktree, command, args, run, git) matches Err(message) ==> {
            &&& run is NotRun ==> text::contains_text(message, command)
            &&& run is LogNotWritten ==> paths::join(
                style,
                worktree,
                "elowen-runner-output.log"@,
            ).is_suffix_of(message)
            &&& run is Exited ==> run->status@.is_suffix_of(message)
        },
{
    text::parts_are_contained(
        "external Codex wrapper `"@,
        command,
        "` completed successfully"@,
    );
    text::parts_are_contained("failed to run Codex wrapper command `"@, command, "`"@);
    text::parts_begin_and_end("failed to write "@, log_path_in(style, worktree));
    if let ExternalRun::Exited { success, status, stdout, stderr } = run {
        text::parts_begin_and_end("Codex wrapper command failed with status "@, status@);
    }
}

/// An external command is told the whole job, and nothing else.
pub proof fn external_commands_are_told_the_job(job: RepositoryJob, worktree: Seq<char>)
    ensures
        ({
            let environment = external_environment(job, worktree);
            &&& environment.len() == 9
            &&& environment.contains(sandbox::env_var("ELOWEN_JOB_ID"@, job.job_id@))
            &&& environment.contains(sandbox::env_var("ELOWEN_JOB_SHORT_ID"@, job.short_id@))
            &&& environment.contains(sandbox::env_var("ELOWEN_THREAD_ID"@, job.thread_id@))
            &&& environment.contains(sandbox::env_var("ELOWEN_JOB_TITLE"@, job.title@))
            &&& environment.contains(sandbox::env_var("ELOWEN_REPO_NAME"@, job.repo_name@))
            &&& environment.contains(sandbox::env_var("ELOWEN_BRANCH_NAME"@, job.branch_name@))
            &&& environment.contains(sandbox::env_var("ELOWEN_BASE_BRANCH"@, job.base_branch@))
            &&& environment.contains(sandbox::env_var("ELOWEN_WORKTREE_PATH"@, worktree))
            &&& environment.contains(sandbox::env_var("ELOWEN_REQUEST_TEXT"@, job.request_text@))
        }),
{
    let environment = external_environment(job, worktree);
    assert(environment[0] == sandbox::env_var("ELOWEN_JOB_ID"@, job.job_id@));
    assert(environment[1] == sandbox::env_var("ELOWEN_JOB_SHORT_ID"@, job.short_id@));
    assert(environment[2] == sandbox::env_var("ELOWEN_THREAD_ID"@, job.thread_id@));
    assert(environment[3] == sandbox::env_var("ELOWEN_JOB_TITLE"@, job.title@));
    assert(environment[4] == sandbox::env_var("ELOWEN_REPO_NAME"@, job.repo_name@));
    assert(environment[5] == sandbox::env_var("ELOWEN_BRANCH_NAME"@, job.branch_name@));
    assert(environment[6] == sandbox::env_var("ELOWEN_BASE_BRANCH"@, job.base_branch@));
    assert(environment[7] == sandbox::env_var("ELOWEN_WORKTREE_PATH"@, worktree));
    assert(environment[8] == sandbox::env_var("ELOWEN_REQUEST_TEXT"@, job.request_text@));
}

/// No line of the status is lost: each that is not blank is reported, and each names a path behind
/// its first three bytes, or is one itself where it is shorter.
pub proof fn every_status_line_names_its_path(
    status: Seq<u8>,
    diff_stat: Seq<u8>,
    flags: Seq<char>,
    path: Seq<char>,
)
    ensures
        ({
            let report = git_report_of(status, diff_stat);
            &&& report.status_lines == text::trimmed_entries(
                text::lines_of(encoding::lossy_text(status)),
            )
            &&& report.changed_files.len() <= report.status_lines.len()
            &&& report.diff_stat matches Some(stat) ==> stat.len() > 0 && stat == text::joined(
                text::trimmed_entries(text::lines_of(encoding::lossy_text(diff_stat))),
                "\n"@,
            )
            &&& report.diff_stat is None <==> text::joined(
                text::trimmed_entries(text::lines_of(encoding::lossy_text(diff_stat))),
                "\n"@,
            ).len() == 0
            &&& forall|i: int|
                0 <= i < report.status_lines.len() ==> {
                    let line = #[trigger] report.status_lines[i];
                    let named = text::trim(text::text_or(text::after_bytes(line, 3), line));
                    named.len() > 0 ==> report.changed_files.contains(named)
                }
        }),
        text::byte_count(flags) == 3 && text::trim(path).len() > 0 ==> changed_paths(
            seq![flags + path],
        ) == seq![text::trim(path)],
{
    let lines = text::trimmed_entries(text::lines_of(encoding::lossy_text(status)));
    lemma_paths_are_kept(lines);
    text::skipped_bytes_are_counted(flags, path);
    let one = seq![flags + path];
    assert(one.drop_last() =~= Seq::empty());
    assert(changed_paths(one.drop_last()) =~= Seq::empty());
    if text::byte_count(flags) == 3 && text::trim(path).len() > 0 {
        assert(changed_paths(one) =~= seq![text::trim(path)]);
    }
}

/// Every path is kept.
proof fn lemma_paths_are_kept(lines: Seq<Seq<char>>)
    ensures
        forall|i: int|
            0 <= i < lines.len() ==> {
                let line = #[trigger] lines[i];
                let named = text::trim(text::text_or(text::after_bytes(line, 3), line));
                named.len() > 0 ==> changed_paths(lines).contains(named)
            },
        changed_paths(lines).len() <= lines.len(),
    decreases lines.len(),
{
    if lines.len() > 0 {
        let shorter = lines.drop_last();
        let before = changed_paths(shorter);
        let all = changed_paths(lines);
        lemma_paths_are_kept(shorter);
        assert forall|i: int| 0 <= i < lines.len() implies {
            let line = #[trigger] lines[i];
            let named = text::trim(text::text_or(text::after_bytes(line, 3), line));
            named.len() > 0 ==> all.contains(named)
        } by {
            let line = lines[i];
            let named = text::trim(text::text_or(text::after_bytes(line, 3), line));
            if named.len() > 0 {
                if i < shorter.len() {
                    assert(shorter[i] == line);
                    assert(before.contains(named));
                    let at = choose|at: int| 0 <= at < before.len() && before[at] == named;
                    assert(all[at] == named);
                } else {
                    assert(all[all.len() - 1] == named);
                }
            }
        }
    }
}

/// The state of a worktree is known exactly where both commands ran.
pub proof fn states_are_known_from_both_commands(status: ProcessRun, diff_stat: ProcessRun)
    ensures
        reported_state(status, diff_stat) is Ok <==> status is Exited && diff_stat is Exited,
        reported_state(status, diff_stat) matches Ok(report) ==> report == git_report_of(
            status->stdout@,
            diff_stat->stdout@,
        ),
{
}

/// The configuration is read from the variables: each that is set is taken, and each that is not has
/// its stand-in. It is refused only where the message bus is not named or the extra arguments cannot
/// be read.
pub proof fn configurations_are_read_from_variables(
    style: PathStyle,
    vars: Map<Seq<char>, Seq<char>>,
)
    ensures
        config_from(style, vars) is Err <==> {
            ||| env_import::value_of(vars, "ELOWEN_NATS_URL"@) is None
            ||| {
                let listed = env_import::value_of(vars, "ELOWEN_CODEX_ARGS_JSON"@);
                listed is Some && text::trim(listed->0).len() > 0 && env_import::parsed_args(
                    listed,
                ) is None
            }
        },
        config_from(style, vars) matches Ok(config) ==> {
            let read = |name: Seq<char>| env_import::value_of(vars, name);
            &&& Some(config.nats_url) == read("ELOWEN_NATS_URL"@)
            &&& config.api_url == config::without_trailing_slashes(
                match read("ELOWEN_API_URL"@) {
                    Some(url) => url,
                    None => "http://elowen-api:8080"@,
                },
            )
            &&& read("ELOWEN_DEVICE_ID"@) is Some && text::trim(read("ELOWEN_DEVICE_ID"@)->0).len()
                > 0 ==> Some(config.device_id) == read("ELOWEN_DEVICE_ID"@)
            &&& read("ELOWEN_DEVICE_ID"@) is None ==> config.device_id == discovery::detected_id(
                read("COMPUTERNAME"@),
                read("HOSTNAME"@),
            )
            &&& read("ELOWEN_DEVICE_NAME"@) is Some && text::trim(
                read("ELOWEN_DEVICE_NAME"@)->0,
            ).len() > 0 ==> Some(config.device_name) == read("ELOWEN_DEVICE_NAME"@)
            &&& read("ELOWEN_DEVICE_NAME"@) is None ==> config.device_name
                == discovery::detected_name(
                read("COMPUTERNAME"@),
                read("HOSTNAME"@),
                config.device_id,
            )
            &&& config.primary_flag <==> read("ELOWEN_DEVICE_PRIMARY"@) is None
                || registration::is_affirmative(read("ELOWEN_DEVICE_PRIMARY"@)->0)
            &&& read("ELOWEN_ALLOWED_REPOS"@) matches Some(list) ==> config.allowed_repos
                == env_import::listed_entries(list)
            &&& read("ELOWEN_DEVICE_CAPABILITIES"@) matches Some(list) ==> config.capabilities
                == env_import::listed_entries(list)
            &&& config.workspace_root == match read("ELOWEN_EDGE_WORKSPACE_ROOT"@) {
                Some(root) => root,
                None => "/workspace"@,
            }
            &&& read("ELOWEN_EDGE_WORKTREE_ROOT"@) is Some && text::trim(
                read("ELOWEN_EDGE_WORKTREE_ROOT"@)->0,
            ).len() > 0 ==> Some(config.worktree_root) == read("ELOWEN_EDGE_WORKTREE_ROOT"@)
            &&& read("ELOWEN_EDGE_WORKTREE_ROOT"@) is None ==> config.worktree_root == paths::join(
                style,
                paths::join(style, config.workspace_root, ".elowen"@),
                "worktrees"@,
            )
            &&& config.codex_command is Some <==> read("ELOWEN_CODEX_COMMAND"@) is Some
                && text::trim(read("ELOWEN_CODEX_COMMAND"@)->0).len() > 0
            &&& config.codex_command is Some ==> config.codex_command->0 == text::trim(
                read("ELOWEN_CODEX_COMMAND"@)->0,
            )
            &&& read("ELOWEN_CODEX_ARGS_JSON"@) is None ==> config.codex_args.len() == 0
            &&& read("ELOWEN_CODEX_ARGS_JSON"@) matches Some(listed) ==> (text::trim(listed).len()
                > 0 ==> Some(config.codex_args) == env_import::parsed_args(Some(listed)))
            &&& env_import::optional_number(read("ELOWEN_SIMULATED_RUN_MS"@)) is None
                ==> config.simulated_run_ms == 1500
            &&& env_import::optional_number(read("ELOWEN_SIMULATED_RUN_MS"@)) matches Some(ms)
                ==> config.simulated_run_ms == ms
        },
{
}

/// What cannot be had is said in words.
pub proof fn what_cannot_be_had_is_said(
    style: PathStyle,
    job: RepositoryJob,
    worktree: Seq<char>,
    command: Seq<char>,
    args: Seq<Seq<char>>,
    run: ExternalRun,
    git: GitReportView,
    status: ProcessRun,
    diff_stat: ProcessRun,
    vars: Map<Seq<char>, Seq<char>>,
    key: Seq<char>,
    value: Seq<char>,
)
    ensures
        reported_state(status, diff_stat) matches Err(message) ==> {
            &&& status is NotRun ==> message == "failed to capture git status"@
            &&& status is Exited ==> message == "failed to capture git diff --stat"@
        },
        external_outcome(style, job, worktree, command, args, run, git) matches Err(message) ==> {
            match run {
                ExternalRun::NotRun => message == "failed to run Codex wrapper command `"@ + command
                    + "`"@,
                ExternalRun::LogNotWritten => message == "failed to write "@ + log_path_in(
                    style,
                    worktree,
                ),
                ExternalRun::Exited { status: ended, .. } => message
                    == "Codex wrapper command failed with status "@ + ended@,
            }
        },
        external_outcome(style, job, worktree, command, args, run, git) matches Ok(outcome) ==> {
            &&& outcome.detail == "external Codex wrapper `"@ + command
                + "` completed successfully"@
            &&& outcome.execution_report.build_reason
                == "external runner did not emit a build report"@
            &&& outcome.execution_report.test_reason
                == "external runner did not emit a test report"@
        },
        simulated_outcome(style, job, worktree, git).execution_report.build_reason
            == "no project-specific build command is configured in the Slice 5 scaffold"@,
        simulated_outcome(style, job, worktree, git).execution_report.test_reason
            == "no project-specific test command is configured in the Slice 5 scaffold"@,
        env_import::value_of(vars, "ELOWEN_NATS_URL"@) is None ==> config_from(style, vars) == Err::<
            EdgeConfigView,
            Seq<char>,
        >("missing ELOWEN_NATS_URL"@),
        text::trim(value).len() > 0 ==> json_entries(key, Some(value), None) == Err::<
            Seq<Seq<char>>,
            Seq<char>,
        >("failed to parse "@ + key + " as a JSON string array"@),
{
}

/// A list that is not set is the default one, entry by entry.
pub proof fn unset_lists_are_the_default(value: Seq<char>, default: Seq<Seq<char>>)
    ensures
        entries_of(Some(value), default) == env_import::listed_entries(value),
        entries_of(None, default) == env_import::listed_entries(text::joined(default, ","@)),
        default_capabilities() == seq!["codex"@, "git"@, "build"@, "test"@],
{
}

/// What is shown of a value is what it holds, field by field.
pub proof fn what_is_held_is_shown(
    edge_config: EdgeConfig,
    job_report: JobReport,
    job_outcome: JobOutcome,
)
    ensures
        edge_config@.api_url == edge_config.api_url@,
        edge_config@.nats_url == edge_config.nats_url@,
        edge_config@.device_id == edge_config.device_id@,
        edge_config@.device_name == edge_config.device_name@,
        edge_config@.primary_flag == edge_config.primary_flag,
        edge_config@.allowed_repos == text::texts(edge_config.allowed_repos@),
        edge_config@.capabilities == text::texts(edge_config.capabilities@),
        edge_config@.workspace_root == edge_config.workspace_root@,
        edge_config@.worktree_root == edge_config.worktree_root@,
        edge_config@.codex_command == text::opt_text(edge_config.codex_command),
        edge_config@.codex_args == text::texts(edge_config.codex_args@),
        edge_config@.simulated_run_ms == edge_config.simulated_run_ms,
        job_report@.runner == job_report.runner@,
        job_report@.build_reason == job_report.build_reason@,
        job_report@.test_reason == job_report.test_reason@,
        job_report@.git_status == text::texts(job_report.git_status@),
        job_report@.diff_stat == text::opt_text(job_report.diff_stat),
        job_report@.changed_files == text::texts(job_report.changed_files@),
        job_outcome@.detail == job_outcome.detail@,
        job_outcome@.result == job_outcome.result@,
        job_outcome@.summary_markdown == job_outcome.summary_markdown@,
        job_outcome@.execution_report == job_outcome.execution_report@,
        job_outcome@.approval_summary == job_outcome.approval_summary@,
{
}

/// What is shown of a value is its kind and what it holds.
pub proof fn kinds_are_shown_with_what_they_hold(
    job_runner: JobRunner,
)
    ensures
        job_runner matches JobRunner::Simulated { summary_path } ==> job_runner@ == (JobRunnerView::Simulated {
            summary_path: summary_path@,
        }),
        job_runner matches JobRunner::External {
            command,
            args,
            stdout,
            stderr,
            log_path,
        } ==> job_runner@ == (JobRunnerView::External {
            command: command@,
            args: text::texts(args@),
            stdout: stdout@,
            stderr: stderr@,
            log_path: log_path@,
        }),
{
}

} // verus!
