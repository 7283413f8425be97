//! What a job leaves behind: changed files, its commit, and the report sent upstream.

use vstd::prelude::*;

use crate::contracts::{ExecutionIntent, JobDispatchMessage, JobTargetKind};
use crate::encoding;
use crate::error;
use crate::error::EdgeError;
use crate::paths;
use crate::paths::PathStyle;
use crate::sandbox;
use crate::sandbox::{SandboxPolicy, SandboxReport, SandboxReportView};
use crate::text;
use crate::text::push_text;
use crate::validation;
use crate::validation::{ValidationReport, ValidationReportView, ValidationResults};

verus! {

/// A commit made of the changes of a job.
#[derive(Clone, Debug, PartialEq, Eq)]
pub struct CommitRecord {
    pub sha: String,
    pub short_sha: String,
    pub message: String,
    pub changed_files: Vec<String>,
}

/// The contents of a [`CommitRecord`].
pub struct CommitRecordView {
    pub sha: Seq<char>,
    pub short_sha: Seq<char>,
    pub message: Seq<char>,
    pub changed_files: Seq<Seq<char>>,
}

impl View for CommitRecord {
    type V = CommitRecordView;

    open spec fn view(&self) -> CommitRecordView {
        CommitRecordView {
            sha: self.sha@,
            short_sha: self.short_sha@,
            message: self.message@,
            changed_files: text::texts(self.changed_files@),
        }
    }
}

impl CommitRecord {
    /// A copy with the same contents.
    pub fn copy(&self) -> (out: CommitRecord)
        ensures
            out@ == self@,
    {
        CommitRecord {
            sha: self.sha.clone(),
            short_sha: self.short_sha.clone(),
            message: self.message.clone(),
            changed_files: text::copy_list(&self.changed_files),
        }
    }
}

/// The state of a worktree after a run.
#[derive(Clone, Debug, PartialEq, Eq)]
pub struct GitReport {
    pub status_lines: Vec<String>,
    pub diff_stat: Option<String>,
    pub changed_files: Vec<String>,
}

/// The contents of a [`GitReport`].
pub struct GitReportView {
    pub status_lines: Seq<Seq<char>>,
    pub diff_stat: Option<Seq<char>>,
    pub changed_files: Seq<Seq<char>>,
}

impl View for GitReport {
    type V = GitReportView;

    open spec fn view(&self) -> GitReportView {
        GitReportView {
            status_lines: text::texts(self.status_lines@),
            diff_stat: text::opt_text(self.diff_stat),
            changed_files: text::texts(self.changed_files@),
        }
    }
}

impl GitReport {
    /// A copy with the same contents.
    pub fn copy(&self) -> (out: GitReport)
        ensures
            out@ == self@,
    {
        GitReport {
            status_lines: text::copy_list(&self.status_lines),
            diff_stat: text::copy_opt(&self.diff_stat),
            changed_files: text::copy_list(&self.changed_files),
        }
    }
}

/// What the runner of a job produced.
#[derive(Clone, Debug, PartialEq, Eq)]
pub enum RunnerReport {
    /// A simulated run that only wrote a summary.
    Simulated { summary_path: String },
    /// A run of the Codex command line.
    CodexCli { command: String, args: Vec<String>, prompt_path: String, output_path: String, error_path: String, last_message_path: String, last_message: Option<String>, event_messages: Vec<String>, stdout: String, stderr: String },
}

/// The contents of a [`RunnerReport`].
pub enum RunnerReportView {
    Simulated { summary_path: Seq<char> },
    CodexCli { command: Seq<char>, args: Seq<Seq<char>>, prompt_path: Seq<char>, output_path: Seq<char>, error_path: Seq<char>, last_message_path: Seq<char>, last_message: Option<Seq<char>>, event_messages: Seq<Seq<char>>, stdout: Seq<char>, stderr: Seq<char> },
}

impl View for RunnerReport {
    type V = RunnerReportView;

    open spec fn view(&self) -> RunnerReportView {
        match *self {
            RunnerReport::Simulated { summary_path } => RunnerReportView::Simulated {
                summary_path: summary_path@,
            },
            RunnerReport::CodexCli { command, args, prompt_path, output_path, error_path, last_message_path, last_message, event_messages, stdout, stderr } => RunnerReportView::CodexCli {
                command: command@,
                args: text::texts(args@),
                prompt_path: prompt_path@,
                output_path: output_path@,
                error_path: error_path@,
                last_message_path: last_message_path@,
                last_message: text::opt_text(last_message),
                event_messages: text::texts(event_messages@),
                stdout: stdout@,
                stderr: stderr@,
            },
        }
    }
}

impl RunnerReport {
    /// A copy with the same contents.
    pub fn copy(&self) -> (out: RunnerReport)
        ensures
            out@ == self@,
    {
        match self {
            RunnerReport::Simulated { summary_path } => RunnerReport::Simulated {
                summary_path: summary_path.clone(),
            },
            RunnerReport::CodexCli { command, args, prompt_path, output_path, error_path, last_message_path, last_message, event_messages, stdout, stderr } => RunnerReport::CodexCli {
                command: command.clone(),
                args: text::copy_list(args),
                prompt_path: prompt_path.clone(),
                output_path: output_path.clone(),
                error_path: error_path.clone(),
                last_message_path: last_message_path.clone(),
                last_message: text::copy_opt(last_message),
                event_messages: text::copy_list(event_messages),
                stdout: stdout.clone(),
                stderr: stderr.clone(),
            },
        }
    }
}

impl RunnerReportView {
    /// The name of the runner.
    pub open spec fn runner(self) -> Seq<char> {
        match self {
            RunnerReportView::Simulated { .. } => "simulated"@,
            RunnerReportView::CodexCli { .. } => "codex-cli"@,
        }
    }
}

impl RunnerReport {
    /// The name of the runner.
    pub fn runner(&self) -> (out: &'static str)
        ensures
            out@ == self@.runner(),
    {
        match self {
            RunnerReport::Simulated { .. } => "simulated",
            RunnerReport::CodexCli { .. } => "codex-cli",
        }
    }
}

/// The structured report of one job.
#[derive(Clone, Debug, PartialEq, Eq)]
pub struct ExecutionReport {
    pub runner: String,
    pub runner_report: RunnerReport,
    pub validation_config_source: String,
    pub build: ValidationReport,
    pub test: ValidationReport,
    pub git_status: Vec<String>,
    pub diff_stat: Option<String>,
    pub changed_files: Vec<String>,
    pub commit: Option<CommitRecord>,
    pub execution_intent: ExecutionIntent,
    pub target_kind: JobTargetKind,
    pub target_name: String,
    pub read_only_change_detected: bool,
    pub sandbox: SandboxReport,
}

/// The contents of an [`ExecutionReport`].
pub struct ExecutionReportView {
    pub runner: Seq<char>,
    pub runner_report: RunnerReportView,
    pub validation_config_source: Seq<char>,
    pub build: ValidationReportView,
    pub test: ValidationReportView,
    pub git_status: Seq<Seq<char>>,
    pub diff_stat: Option<Seq<char>>,
    pub changed_files: Seq<Seq<char>>,
    pub commit: Option<CommitRecordView>,
    pub execution_intent: ExecutionIntent,
    pub target_kind: JobTargetKind,
    pub target_name: Seq<char>,
    pub read_only_change_detected: bool,
    pub sandbox: SandboxReportView,
}

impl View for ExecutionReport {
    type V = ExecutionReportView;

    open spec fn view(&self) -> ExecutionReportView {
        ExecutionReportView {
            runner: self.runner@,
            runner_report: self.runner_report@,
            validation_config_source: self.validation_config_source@,
            build: self.build@,
            test: self.test@,
            git_status: text::texts(self.git_status@),
            diff_stat: text::opt_text(self.diff_stat),
            changed_files: text::texts(self.changed_files@),
            commit: (match self.commit {
                Some(inner) => Some(inner@),
                None => None,
            }),
            execution_intent: self.execution_intent,
            target_kind: self.target_kind,
            target_name: self.target_name@,
            read_only_change_detected: self.read_only_change_detected,
            sandbox: self.sandbox@,
        }
    }
}

impl ExecutionReport {
    /// A copy with the same contents.
    pub fn copy(&self) -> (out: ExecutionReport)
        ensures
            out@ == self@,
    {
        ExecutionReport {
            runner: self.runner.clone(),
            runner_report: self.runner_report.copy(),
            validation_config_source: self.validation_config_source.clone(),
            build: self.build.copy(),
            test: self.test.copy(),
            git_status: text::copy_list(&self.git_status),
            diff_stat: text::copy_opt(&self.diff_stat),
            changed_files: text::copy_list(&self.changed_files),
            commit: match &self.commit {
                Some(inner) => Some(inner.copy()),
                None => None,
            },
            execution_intent: self.execution_intent,
            target_kind: self.target_kind,
            target_name: self.target_name.clone(),
            read_only_change_detected: self.read_only_change_detected,
            sandbox: self.sandbox.copy(),
        }
    }
}

/// How a job ended.
#[derive(Clone, Debug, PartialEq, Eq)]
pub struct CommandOutcome {
    pub detail: String,
    pub result: String,
    pub failure_class: Option<String>,
    pub summary_markdown: String,
    pub execution_report: ExecutionReport,
    pub approval_summary: Option<String>,
}

/// The contents of a [`CommandOutcome`].
pub struct CommandOutcomeView {
    pub detail: Seq<char>,
    pub result: Seq<char>,
    pub failure_class: Option<Seq<char>>,
    pub summary_markdown: Seq<char>,
    pub execution_report: ExecutionReportView,
    pub approval_summary: Option<Seq<char>>,
}

impl View for CommandOutcome {
    type V = CommandOutcomeView;

    open spec fn view(&self) -> CommandOutcomeView {
        CommandOutcomeView {
            detail: self.detail@,
            result: self.result@,
            failure_class: text::opt_text(self.failure_class),
            summary_markdown: self.summary_markdown@,
            execution_report: self.execution_report@,
            approval_summary: text::opt_text(self.approval_summary),
        }
    }
}

/// How a helper process ended.
pub enum ProcessRun {
    /// It could not be started or awaited.
    NotRun,
    /// It ran to its end.
    Exited { success: bool, stdout: Vec<u8>, stderr: Vec<u8> },
}

/// A text, or a stand-in where there is none.
pub fn unwrap_text<'a>(value: &'a Option<String>, stand_in: &'a str) -> (out: &'a str)
    ensures
        out@ == text::text_or(text::opt_text(*value), stand_in@),
{
    match value {
        Some(inner) => inner.as_str(),
        None => stand_in,
    }
}

/// What the runner is told about the work it may do.
pub open spec fn guidance(intent: ExecutionIntent) -> Seq<char> {
    match intent {
        ExecutionIntent::WorkspaceChange =>
            "Carry out the requested work, summarize what changed, and leave any execution artifacts ready for review."@,
        ExecutionIntent::ReadOnly =>
            "Inspect and report only. Do not create durable repository changes, do not create commits, and do not ask for push approval. If execution leaves local artifacts behind, call that out in the result."@,
    }
}

/// What the runner is told about the work it may do.
pub fn execution_intent_guidance(intent: &ExecutionIntent) -> (out: &'static str)
    ensures
        out@ == guidance(*intent),
{
    match intent {
        ExecutionIntent::WorkspaceChange => {
            "Carry out the requested work, summarize what changed, and leave any execution artifacts ready for review."
        },
        ExecutionIntent::ReadOnly => {
            "Inspect and report only. Do not create durable repository changes, do not create commits, and do not ask for push approval. If execution leaves local artifacts behind, call that out in the result."
        },
    }
}

/// The request file of a job.
pub open spec fn request_body(dispatch: JobDispatchMessage) -> Seq<char> {
    "# Elowen Job Request\n\n- Job: "@ + dispatch.job_id@ + "\n- Thread: "@ + dispatch.thread_id@
        + "\n- Target kind: "@ + dispatch.target_kind.name() + "\n- Target: "@
        + dispatch.target_name@ + "\n- Branch: "@ + text::text_or(
        text::opt_text(dispatch.branch_name),
        "n/a"@,
    ) + "\n- Base branch: "@ + text::text_or(text::opt_text(dispatch.base_branch), "n/a"@)
        + "\n\n- Execution intent: "@ + dispatch.execution_intent.name()
        + "\n\n## Requested Work\n\n"@ + dispatch.prompt@ + "\n\n## Execution Guidance\n\n"@
        + guidance(dispatch.execution_intent) + "\n"@
}

/// The request file of a job: where it stands in the workspace, and its contents.
pub fn write_job_request_files(
    style: PathStyle,
    dispatch: &JobDispatchMessage,
    worktree_path: &str,
) -> (out: (
    String,
    String,
))
    ensures
        out.0@ == paths::join(style, worktree_path@, "elowen-job-request.md"@),
        out.1@ == request_body(*dispatch),
{
    let path = paths::join_path(style, worktree_path, "elowen-job-request.md");
    let mut body = "# Elowen Job Request\n\n- Job: ".to_owned();
    body.append(&dispatch.job_id);
    body.append("\n- Thread: ");
    body.append(&dispatch.thread_id);
    body.append("\n- Target kind: ");
    body.append(dispatch.target_kind.as_str());
    body.append("\n- Target: ");
    body.append(dispatch.target_name());
    body.append("\n- Branch: ");
    body.append(unwrap_text(&dispatch.branch_name, "n/a"));
    body.append("\n- Base branch: ");
    body.append(unwrap_text(&dispatch.base_branch, "n/a"));
    body.append("\n\n- Execution intent: ");
    body.append(dispatch.execution_intent.as_str());
    body.append("\n\n## Requested Work\n\n");
    body.append(&dispatch.prompt);
    body.append("\n\n## Execution Guidance\n\n");
    body.append(execution_intent_guidance(&dispatch.execution_intent));
    body.append("\n");
    (path, body)
}

/// The summary file of a simulated run.
pub open spec fn simulated_summary(dispatch: JobDispatchMessage) -> Seq<char> {
    "# Simulated Slice 4 Execution\n\n- Job: "@ + dispatch.job_id@ + "\n- Thread: "@
        + dispatch.thread_id@ + "\n- Target kind: "@ + dispatch.target_kind.name()
        + "\n- Target: "@ + dispatch.target_name@ + "\n- Branch: "@ + text::text_or(
        text::opt_text(dispatch.branch_name),
        "n/a"@,
    ) + "\n- Base branch: "@ + text::text_or(text::opt_text(dispatch.base_branch), "n/a"@)
        + "\n- Runner: simulated\n\n## Request\n\n"@ + dispatch.prompt@ + "\n"@
}

/// The summary file of a simulated run: where it stands, its contents, and the report of the run.
pub fn run_simulated_codex_wrapper(
    style: PathStyle,
    dispatch: &JobDispatchMessage,
    sandbox: &SandboxPolicy,
) -> (out: (
    String,
    String,
    RunnerReport,
))
    ensures
        out.0@ == paths::join(style, sandbox.worktree_path@, "elowen-job-summary.md"@),
        out.1@ == simulated_summary(*dispatch),
        out.2@ == (RunnerReportView::Simulated { summary_path: out.0@ }),
{
    let path = paths::join_path(style, &sandbox.worktree_path, "elowen-job-summary.md");
    let mut body = "# Simulated Slice 4 Execution\n\n- Job: ".to_owned();
    body.append(&dispatch.job_id);
    body.append("\n- Thread: ");
    body.append(&dispatch.thread_id);
    body.append("\n- Target kind: ");
    body.append(dispatch.target_kind.as_str());
    body.append("\n- Target: ");
    body.append(dispatch.target_name());
    body.append("\n- Branch: ");
    body.append(unwrap_text(&dispatch.branch_name, "n/a"));
    body.append("\n- Base branch: ");
    body.append(unwrap_text(&dispatch.base_branch, "n/a"));
    body.append("\n- Runner: simulated\n\n## Request\n\n");
    body.append(&dispatch.prompt);
    body.append("\n");
    let report = RunnerReport::Simulated { summary_path: path.clone() };
    (path, body, report)
}

/// The detail of a successful simulated run.
pub const SIMULATED_DETAIL: &'static str = "simulated Codex wrapper completed successfully";

/// The path that a line of `git status --short` speaks of: what follows the two status letters
/// and a space, and of a rename the new name.
pub open spec fn status_path(line: Seq<char>) -> Seq<char> {
    let path = text::trim(text::text_or(text::after_bytes(line, 3), line));
    match text::after_last(path, "->"@) {
        Some(new_path) => text::trim(new_path),
        None => path,
    }
}

/// The path that a line of `git status --short` speaks of.
pub fn normalize_git_status_path(line: &str) -> (out: String)
    ensures
        out@ == status_path(line@),
{
    let path = match text::text_after_bytes(line, 3) {
        Some(rest) => text::trimmed_text(&rest),
        None => text::trimmed_text(line),
    };
    match text::text_after_last(&path, "->") {
        Some(new_path) => text::trimmed_text(&new_path),
        None => path,
    }
}

/// A file that the runtime itself puts into a worktree.
pub open spec fn is_runtime_artifact(path: Seq<char>) -> bool {
    ||| path == ".elowen-job.json"@
    ||| path == "elowen-codex-last-message.txt"@
    ||| path == "elowen-job-request.md"@
    ||| path == "elowen-job-summary.md"@
    ||| path == "elowen-runner-error.log"@
    ||| path == "elowen-runner-output.jsonl"@
    ||| ".elowen-sandbox"@.is_prefix_of(path)
}

/// Whether a file is one that the runtime itself puts into a worktree.
pub fn is_runtime_artifact_path(path: &str) -> (artifact: bool)
    ensures
        artifact == is_runtime_artifact(path@),
{
    text::text_eq(path, ".elowen-job.json") || text::text_eq(path, "elowen-codex-last-message.txt")
        || text::text_eq(path, "elowen-job-request.md") || text::text_eq(
        path,
        "elowen-job-summary.md",
    ) || text::text_eq(path, "elowen-runner-error.log") || text::text_eq(
        path,
        "elowen-runner-output.jsonl",
    ) || text::begins_with(path, ".elowen-sandbox")
}

/// A status line that speaks of the job's own work.
pub open spec fn is_job_status(line: Seq<char>) -> bool {
    text::trim(line).len() > 0 && !is_runtime_artifact(status_path(line))
}

/// The status lines that speak of the job's own work.
pub open spec fn job_status_lines(lines: Seq<Seq<char>>) -> Seq<Seq<char>>
    decreases lines.len(),
{
    if lines.len() == 0 {
        Seq::empty()
    } else {
        let before = job_status_lines(lines.drop_last());
        let line = text::trim_end(lines.last());
        if is_job_status(line) {
            before.push(line)
        } else {
            before
        }
    }
}

/// The paths that status lines speak of.
pub open spec fn status_paths(lines: Seq<Seq<char>>) -> Seq<Seq<char>>
    decreases lines.len(),
{
    if lines.len() == 0 {
        Seq::empty()
    } else {
        let before = status_paths(lines.drop_last());
        let path = status_path(lines.last());
        if path.len() == 0 {
            before
        } else {
            before.push(path)
        }
    }
}

/// The report that the outputs of `git status --short` and `git diff --stat` make up.
pub open spec fn git_report_of(status: Seq<u8>, diff_stat: Seq<u8>) -> GitReportView {
    let status_lines = job_status_lines(text::lines_of(encoding::lossy_text(status)));
    let stat = text::joined(
        text::trimmed_entries(text::lines_of(encoding::lossy_text(diff_stat))),
        "\n"@,
    );
    GitReportView {
        status_lines,
        diff_stat: if stat.len() == 0 {
            None
        } else {
            Some(stat)
        },
        changed_files: status_paths(status_lines),
    }
}

/// The report that the outputs of `git status --short` and `git diff --stat` make up.
pub fn capture_git_report(status: &[u8], diff_stat: &[u8]) -> (report: GitReport)
    ensures
        report@ == git_report_of(status@, diff_stat@),
{
    let lines = text::text_lines(&encoding::text_from_lossy(status));
    let mut status_lines: Vec<String> = Vec::new();
    let mut changed_files: Vec<String> = Vec::new();
    let mut i: usize = 0;
    assert(text::texts(lines@).take(0) == Seq::<Seq<char>>::empty());
    assert(text::texts(status_lines@) == Seq::<Seq<char>>::empty());
    assert(text::texts(changed_files@) == Seq::<Seq<char>>::empty());
    while i < lines.len()
        invariant
            i <= lines.len(),
            text::texts(status_lines@) == job_status_lines(text::texts(lines@).take(i as int)),
            text::texts(changed_files@) == status_paths(text::texts(status_lines@)),
        decreases lines.len() - i,
    {
        assert(text::texts(lines@).take(i + 1).drop_last() == text::texts(lines@).take(i as int));
        assert(text::texts(lines@).take(i + 1).last() == lines@[i as int]@);
        let line = text::trimmed_end(&lines[i]);
        let path = normalize_git_status_path(&line);
        if !text::trimmed_text(&line).as_str().is_empty() && !is_runtime_artifact_path(&path) {
            let ghost before = text::texts(status_lines@);
            push_text(&mut status_lines, line);
            assert(text::texts(status_lines@).drop_last() == before);
            if !path.as_str().is_empty() {
                push_text(&mut changed_files, path);
            }
        }
        i = i + 1;
    }
    assert(text::texts(lines@).take(i as int) == text::texts(lines@));
    let stat_lines = text::trim_entries(&text::text_lines(&encoding::text_from_lossy(diff_stat)));
    let stat = text::join_texts(&stat_lines, "\n");
    let diff_stat = if stat.as_str().is_empty() {
        None
    } else {
        Some(stat)
    };
    GitReport { status_lines, diff_stat, changed_files }
}

/// The report of a job that has no repository.
pub open spec fn no_git_report() -> GitReportView {
    GitReportView {
        status_lines: Seq::empty(),
        diff_stat: None,
        changed_files: Seq::empty(),
    }
}

/// The arguments of `git` that ask for the status of a worktree, and for its diff statistics.
pub fn git_report_args(worktree_path: &str) -> (out: (Vec<String>, Vec<String>))
    ensures
        text::texts(out.0@) == seq!["-C"@, worktree_path@, "status"@, "--short"@],
        text::texts(out.1@) == seq!["-C"@, worktree_path@, "diff"@, "--stat"@],
{
    let mut status: Vec<String> = Vec::new();
    push_text(&mut status, "-C".to_owned());
    push_text(&mut status, worktree_path.to_owned());
    push_text(&mut status, "status".to_owned());
    push_text(&mut status, "--short".to_owned());
    let mut diff: Vec<String> = Vec::new();
    push_text(&mut diff, "-C".to_owned());
    push_text(&mut diff, worktree_path.to_owned());
    push_text(&mut diff, "diff".to_owned());
    push_text(&mut diff, "--stat".to_owned());
    assert(text::texts(status@) == seq!["-C"@, worktree_path@, "status"@, "--short"@]);
    assert(text::texts(diff@) == seq!["-C"@, worktree_path@, "diff"@, "--stat"@]);
    (status, diff)
}

/// The outputs of a helper process in one line.
pub open spec fn output_summary(stdout: Seq<u8>, stderr: Seq<u8>) -> Seq<char> {
    "stdout: "@ + text::truncated(encoding::lossy_text(stdout), 1000) + "; stderr: "@
        + text::truncated(encoding::lossy_text(stderr), 1000)
}

/// The outputs of a helper process in one line.
pub fn summarize_command_output(stdout: &[u8], stderr: &[u8]) -> (out: String)
    ensures
        out@ == output_summary(stdout@, stderr@),
{
    let stdout = text::truncate_text(&encoding::text_from_lossy(stdout), 1000);
    let stderr = text::truncate_text(&encoding::text_from_lossy(stderr), 1000);
    let mut out = "stdout: ".to_owned();
    out.append(&stdout);
    out.append("; stderr: ");
    out.append(&stderr);
    out
}

/// What a process had to say: its errors, else its output.
pub open spec fn process_summary(stdout: Seq<char>, stderr: Seq<char>) -> Seq<char> {
    if text::trim(stderr).len() > 0 {
        text::truncated(text::trim(stderr), 240)
    } else if text::trim(stdout).len() > 0 {
        text::truncated(text::trim(stdout), 240)
    } else {
        "process exited without output"@
    }
}

/// What a process had to say: its errors, else its output.
pub fn summarize_process_output(stdout: &str, stderr: &str) -> (out: String)
    ensures
        out@ == process_summary(stdout@, stderr@),
{
    let stdout = text::trimmed_text(stdout);
    let stderr = text::trimmed_text(stderr);
    if !stderr.as_str().is_empty() {
        text::truncate_text(&stderr, 240)
    } else if !stdout.as_str().is_empty() {
        text::truncate_text(&stdout, 240)
    } else {
        "process exited without output".to_owned()
    }
}

/// The message of a job's commit.
pub open spec fn commit_message(dispatch: JobDispatchMessage) -> Seq<char> {
    "Elowen job "@ + dispatch.short_id@ + ": "@ + text::truncated(text::trim(dispatch.title@), 48)
}

/// The message of a job's commit.
pub fn build_job_commit_message(dispatch: &JobDispatchMessage) -> (out: String)
    ensures
        out@ == commit_message(*dispatch),
{
    let title = text::truncate_text(&text::trimmed_text(&dispatch.title), 48);
    let mut out = "Elowen job ".to_owned();
    out.append(&dispatch.short_id);
    out.append(": ");
    out.append(&title);
    out
}

/// How far the commit of a job has got. In all but the last phase a `git` command is due.
#[derive(Clone, Debug, PartialEq, Eq)]
pub enum CommitPhase {
    /// The changed files are to be staged.
    Staging { changed_files: Vec<String> },
    /// The staged files are to be listed.
    Inspecting,
    /// The commit is to be made.
    Committing { staged_files: Vec<String> },
    /// The revision of the commit is to be read.
    Reading { staged_files: Vec<String> },
    /// Nothing is left to do.
    Finished { commit: Option<CommitRecord> },
}

/// The contents of a [`CommitPhase`].
pub enum CommitPhaseView {
    Staging { changed_files: Seq<Seq<char>> },
    Inspecting,
    Committing { staged_files: Seq<Seq<char>> },
    Reading { staged_files: Seq<Seq<char>> },
    Finished { commit: Option<CommitRecordView> },
}

impl View for CommitPhase {
    type V = CommitPhaseView;

    open spec fn view(&self) -> CommitPhaseView {
        match *self {
            CommitPhase::Staging { changed_files } => CommitPhaseView::Staging {
                changed_files: text::texts(changed_files@),
            },
            CommitPhase::Inspecting => CommitPhaseView::Inspecting,
            CommitPhase::Committing { staged_files } => CommitPhaseView::Committing {
                staged_files: text::texts(staged_files@),
            },
            CommitPhase::Reading { staged_files } => CommitPhaseView::Reading {
                staged_files: text::texts(staged_files@),
            },
            CommitPhase::Finished { commit } => CommitPhaseView::Finished {
                commit: (match commit {
                Some(inner) => Some(inner@),
                None => None,
            }),
            },
        }
    }
}

/// The first phase of a commit: nothing to do where nothing changed.
pub open spec fn first_commit_phase(report: GitReportView) -> CommitPhaseView {
    if report.changed_files.len() == 0 {
        CommitPhaseView::Finished { commit: None }
    } else {
        CommitPhaseView::Staging { changed_files: report.changed_files }
    }
}

/// The first phase of the commit of a job.
pub fn maybe_create_job_commit(git_report: &GitReport) -> (phase: CommitPhase)
    ensures
        phase@ == first_commit_phase(git_report@),
{
    assert(text::texts(git_report.changed_files@).len() == git_report.changed_files.len());
    if git_report.changed_files.len() == 0 {
        CommitPhase::Finished { commit: None }
    } else {
        CommitPhase::Staging { changed_files: text::copy_list(&git_report.changed_files) }
    }
}

/// The arguments of the `git` command that is due in a phase.
pub open spec fn commit_args_of(
    phase: CommitPhaseView,
    worktree: Seq<char>,
    dispatch: JobDispatchMessage,
) -> Option<Seq<Seq<char>>> {
    match phase {
        CommitPhaseView::Staging { changed_files } => Some(
            seq!["-C"@, worktree, "add"@, "--"@] + changed_files,
        ),
        CommitPhaseView::Inspecting => Some(
            seq!["-C"@, worktree, "diff"@, "--cached"@, "--name-only"@],
        ),
        CommitPhaseView::Committing { .. } => Some(
            seq!["-C"@, worktree, "commit"@, "-m"@, commit_message(dispatch)],
        ),
        CommitPhaseView::Reading { .. } => Some(seq!["-C"@, worktree, "rev-parse"@, "HEAD"@]),
        CommitPhaseView::Finished { .. } => None,
    }
}

/// Adds strings to the end of a list.
pub fn extend_texts(list: &mut Vec<String>, more: &Vec<String>)
    ensures
        text::texts(final(list)@) == text::texts(old(list)@) + text::texts(more@),
{
    let ghost before = text::texts(list@);
    let mut i: usize = 0;
    while i < more.len()
        invariant
            i <= more.len(),
            text::texts(list@) == before + text::texts(more@).take(i as int),
        decreases more.len() - i,
    {
        push_text(list, more[i].clone());
        assert(text::texts(more@).take(i + 1) == text::texts(more@).take(i as int).push(
            more@[i as int]@,
        ));
        i = i + 1;
        assert(text::texts(list@) =~= before + text::texts(more@).take(i as int));
    }
    assert(text::texts(more@).take(i as int) == text::texts(more@));
}

/// The arguments of the `git` command that is due in a phase.
pub fn commit_args(phase: &CommitPhase, worktree_path: &str, dispatch: &JobDispatchMessage) -> (out:
    Option<Vec<String>>)
    ensures
        crate::json::opt_texts(out) == commit_args_of(phase@, worktree_path@, *dispatch),
{
    let mut args: Vec<String> = Vec::new();
    push_text(&mut args, "-C".to_owned());
    push_text(&mut args, worktree_path.to_owned());
    match phase {
        CommitPhase::Staging { changed_files } => {
            push_text(&mut args, "add".to_owned());
            push_text(&mut args, "--".to_owned());
            assert(text::texts(args@) == seq!["-C"@, worktree_path@, "add"@, "--"@]);
            extend_texts(&mut args, changed_files);
        },
        CommitPhase::Inspecting => {
            push_text(&mut args, "diff".to_owned());
            push_text(&mut args, "--cached".to_owned());
            push_text(&mut args, "--name-only".to_owned());
            assert(text::texts(args@) == seq![
                "-C"@,
                worktree_path@,
                "diff"@,
                "--cached"@,
                "--name-only"@,
            ]);
        },
        CommitPhase::Committing { .. } => {
            push_text(&mut args, "commit".to_owned());
            push_text(&mut args, "-m".to_owned());
            push_text(&mut args, build_job_commit_message(dispatch));
            assert(text::texts(args@) == seq![
                "-C"@,
                worktree_path@,
                "commit"@,
                "-m"@,
                commit_message(*dispatch),
            ]);
        },
        CommitPhase::Reading { .. } => {
            push_text(&mut args, "rev-parse".to_owned());
            push_text(&mut args, "HEAD".to_owned());
            assert(text::texts(args@) == seq!["-C"@, worktree_path@, "rev-parse"@, "HEAD"@]);
        },
        CommitPhase::Finished { .. } => return None,
    }
    Some(args)
}

/// A revision cut to its first eight characters.
pub open spec fn short_revision(sha: Seq<char>) -> Seq<char> {
    if sha.len() > 8 {
        sha.take(8)
    } else {
        sha
    }
}

/// The record of a commit, once its revision has been read.
pub open spec fn commit_record(
    dispatch: JobDispatchMessage,
    staged_files: Seq<Seq<char>>,
    revision: Seq<u8>,
) -> CommitRecordView {
    let sha = text::trim(encoding::lossy_text(revision));
    CommitRecordView {
        sha,
        short_sha: short_revision(sha),
        message: commit_message(dispatch),
        changed_files: staged_files,
    }
}

/// The phase that follows once the command of a phase has run, or the message of the failure.
pub open spec fn next_commit_phase(
    phase: CommitPhaseView,
    dispatch: JobDispatchMessage,
    run: ProcessRun,
) -> Result<CommitPhaseView, Seq<char>> {
    match phase {
        CommitPhaseView::Staging { .. } => match run {
            ProcessRun::NotRun => Err("failed to stage job changes before commit"@),
            ProcessRun::Exited { success, stdout, stderr } => if success {
                Ok(CommitPhaseView::Inspecting)
            } else {
                Err("git add failed before job commit: "@ + output_summary(stdout@, stderr@))
            },
        },
        CommitPhaseView::Inspecting => match run {
            ProcessRun::NotRun => Err("failed to inspect staged job changes"@),
            ProcessRun::Exited { success, stdout, stderr } => {
                let staged = text::trimmed_entries(text::lines_of(encoding::lossy_text(stdout@)));
                if staged.len() == 0 {
                    Ok(CommitPhaseView::Finished { commit: None })
                } else {
                    Ok(CommitPhaseView::Committing { staged_files: staged })
                }
            },
        },
        CommitPhaseView::Committing { staged_files } => match run {
            ProcessRun::NotRun => Err("failed to create job commit"@),
            ProcessRun::Exited { success, stdout, stderr } => if success {
                Ok(CommitPhaseView::Reading { staged_files })
            } else {
                Err(
                    "git commit failed for job `"@ + dispatch.short_id@ + "`: "@ + output_summary(
                        stdout@,
                        stderr@,
                    ),
                )
            },
        },
        CommitPhaseView::Reading { staged_files } => match run {
            ProcessRun::NotRun => Err("failed to read committed job revision"@),
            ProcessRun::Exited { success, stdout, stderr } => if success {
                Ok(
                    CommitPhaseView::Finished {
                        commit: Some(commit_record(dispatch, staged_files, stdout@)),
                    },
                )
            } else {
                Err("git rev-parse failed after job commit: "@ + output_summary(stdout@, stderr@))
            },
        },
        CommitPhaseView::Finished { .. } => Ok(phase),
    }
}

/// A message followed by the outputs of the process that failed.
fn output_error(message: String, stdout: &Vec<u8>, stderr: &Vec<u8>) -> (error: EdgeError)
    ensures
        error@ == message@ + output_summary(stdout@, stderr@),
{
    let mut full = message;
    full.append(&summarize_command_output(stdout.as_slice(), stderr.as_slice()));
    EdgeError::of(full)
}

/// A revision cut to its first eight characters.
fn shorten_revision(sha: &str) -> (out: String)
    ensures
        out@ == short_revision(sha@),
{
    let chars = text::chars_of(sha);
    if chars.len() > 8 {
        let out = text::string_between(&chars, 0, 8);
        assert(out@ == sha@.take(8));
        out
    } else {
        sha.to_owned()
    }
}

/// The phase that follows once the command of a phase has run.
pub fn advance_commit(phase: CommitPhase, dispatch: &JobDispatchMessage, run: &ProcessRun) -> (out:
    Result<CommitPhase, EdgeError>)
    ensures
        error::outcome(out) == next_commit_phase(phase@, *dispatch, *run),
{
    match phase {
        CommitPhase::Staging { .. } => match run {
            ProcessRun::NotRun => Err(EdgeError::new("failed to stage job changes before commit")),
            ProcessRun::Exited { success, stdout, stderr } => if *success {
                Ok(CommitPhase::Inspecting)
            } else {
                Err(output_error("git add failed before job commit: ".to_owned(), stdout, stderr))
            },
        },
        CommitPhase::Inspecting => match run {
            ProcessRun::NotRun => Err(EdgeError::new("failed to inspect staged job changes")),
            ProcessRun::Exited { success: _, stdout, stderr: _ } => {
                let listing = encoding::text_from_lossy(stdout.as_slice());
                let staged_files = text::trim_entries(&text::text_lines(&listing));
                assert(text::texts(staged_files@).len() == staged_files.len());
                if staged_files.len() == 0 {
                    Ok(CommitPhase::Finished { commit: None })
                } else {
                    Ok(CommitPhase::Committing { staged_files })
                }
            },
        },
        CommitPhase::Committing { staged_files } => match run {
            ProcessRun::NotRun => Err(EdgeError::new("failed to create job commit")),
            ProcessRun::Exited { success, stdout, stderr } => if *success {
                Ok(CommitPhase::Reading { staged_files })
            } else {
                let mut message = "git commit failed for job `".to_owned();
                message.append(&dispatch.short_id);
                message.append("`: ");
                Err(output_error(message, stdout, stderr))
            },
        },
        CommitPhase::Reading { staged_files } => match run {
            ProcessRun::NotRun => Err(EdgeError::new("failed to read committed job revision")),
            ProcessRun::Exited { success, stdout, stderr } => if *success {
                let sha = text::trimmed_text(&encoding::text_from_lossy(stdout.as_slice()));
                let short_sha = shorten_revision(&sha);
                let message = build_job_commit_message(dispatch);
                let commit = CommitRecord { sha, short_sha, message, changed_files: staged_files };
                Ok(CommitPhase::Finished { commit: Some(commit) })
            } else {
                Err(
                    output_error(
                        "git rev-parse failed after job commit: ".to_owned(),
                        stdout,
                        stderr,
                    ),
                )
            },
        },
        CommitPhase::Finished { commit } => Ok(CommitPhase::Finished { commit }),
    }
}

/// The four commands of a commit, run one after another from a phase on.
pub open spec fn commit_run(
    phase: CommitPhaseView,
    dispatch: JobDispatchMessage,
    runs: Seq<ProcessRun>,
) -> Result<CommitPhaseView, Seq<char>>
    decreases runs.len(),
{
    if runs.len() == 0 {
        Ok(phase)
    } else {
        match next_commit_phase(phase, dispatch, runs[0]) {
            Ok(next) => commit_run(next, dispatch, runs.drop_first()),
            Err(message) => Err(message),
        }
    }
}

/// A process that ran to its end and succeeded.
pub open spec fn succeeded(run: ProcessRun) -> bool {
    match run {
        ProcessRun::NotRun => false,
        ProcessRun::Exited { success, .. } => success,
    }
}

/// Every commit is finished after four commands at the latest. A commit is recorded only where
/// files had changed, files were staged, and staging, committing and reading the revision all
/// succeeded; the record then holds exactly what was staged.
pub proof fn recorded_commits_went_through_every_step(
    report: GitReportView,
    dispatch: JobDispatchMessage,
    runs: Seq<ProcessRun>,
)
    requires
        runs.len() == 4,
    ensures
        commit_run(first_commit_phase(report), dispatch, runs) matches Ok(phase) ==> phase is Finished,
        commit_run(first_commit_phase(report), dispatch, runs) matches Ok(
            CommitPhaseView::Finished { commit: Some(record) },
        ) ==> {
            &&& report.changed_files.len() > 0
            &&& succeeded(runs[0])
            &&& runs[1] is Exited
            &&& succeeded(runs[2])
            &&& succeeded(runs[3])
            &&& record.changed_files.len() > 0
            &&& record.changed_files == text::trimmed_entries(
                text::lines_of(encoding::lossy_text(runs[1]->stdout@)),
            )
            &&& record.message == commit_message(dispatch)
            &&& record.sha == text::trim(encoding::lossy_text(runs[3]->stdout@))
            &&& record.short_sha.is_prefix_of(record.sha)
            &&& record.short_sha.len() <= 8
        },
{
    reveal_with_fuel(commit_run, 5);
    let tail = runs.drop_first();
    assert(tail.drop_first().drop_first().drop_first().len() == 0);
    assert(tail[0] == runs[1]);
    assert(tail.drop_first()[0] == runs[2]);
    assert(tail.drop_first().drop_first()[0] == runs[3]);
}

/// Status lines are never about the files of the runtime itself, and neither are the files that a
/// commit is made of.
pub proof fn runtime_artifacts_are_not_reported(lines: Seq<Seq<char>>)
    ensures
        forall|i: int|
            0 <= i < job_status_lines(lines).len() ==> is_job_status(
                #[trigger] job_status_lines(lines)[i],
            ),
        forall|i: int|
            0 <= i < status_paths(job_status_lines(lines)).len() ==> {
                let path = #[trigger] status_paths(job_status_lines(lines))[i];
                path.len() > 0 && !is_runtime_artifact(path)
            },
    decreases lines.len(),
{
    if lines.len() > 0 {
        runtime_artifacts_are_not_reported(lines.drop_last());
        let before = job_status_lines(lines.drop_last());
        let line = text::trim_end(lines.last());
        if is_job_status(line) {
            let all = job_status_lines(lines);
            assert(all == before.push(line));
            assert(all.drop_last() == before);
            assert(all.last() == line);
            let path = status_path(line);
            assert(status_paths(all) == if path.len() == 0 {
                status_paths(before)
            } else {
                status_paths(before).push(path)
            });
        }
    } else {
        assert(job_status_lines(lines).len() == 0);
        assert(status_paths(job_status_lines(lines)).len() == 0);
    }
}

/// A commit is due for a validated change of a repository.
pub open spec fn commit_due(dispatch: JobDispatchMessage, validated: bool) -> bool {
    &&& dispatch.target_kind is Repository
    &&& validated
    &&& dispatch.execution_intent !is ReadOnly
}

/// Whether a job whose validation ended is to be committed.
pub fn commit_is_due(dispatch: &JobDispatchMessage, results: &ValidationResults) -> (due: bool)
    ensures
        due == commit_due(*dispatch, results.overall_success),
{
    let repository = match dispatch.target_kind {
        JobTargetKind::Repository => true,
        JobTargetKind::Capability => false,
    };
    let read_only = match dispatch.execution_intent {
        ExecutionIntent::ReadOnly => true,
        ExecutionIntent::WorkspaceChange => false,
    };
    repository && results.overall_success && !read_only
}

/// Validation that the sandbox cut short.
pub open spec fn sandbox_blocked(results: ValidationResults) -> bool {
    results.build@ is SandboxBlocked || results.test@ is SandboxBlocked
}

/// The failure class of a job, by how its validation ended.
pub open spec fn outcome_failure_class(results: ValidationResults) -> Option<Seq<char>> {
    if results.overall_success {
        None
    } else if sandbox_blocked(results) {
        Some("sandbox"@)
    } else {
        Some("validation"@)
    }
}

/// The two validation statuses in words.
pub open spec fn statuses(results: ValidationResults) -> Seq<char> {
    "(build: "@ + results.build@.status() + ", test: "@ + results.test@.status() + ")"@
}

/// The detail line of a finished job.
pub open spec fn outcome_detail(
    dispatch: JobDispatchMessage,
    results: ValidationResults,
    git: GitReportView,
    commit: Option<CommitRecordView>,
    base_detail: Seq<char>,
) -> Seq<char> {
    if !results.overall_success {
        if sandbox_blocked(results) {
            "sandbox blocked post-execution validation "@ + statuses(results)
        } else {
            "validation failed after Codex execution "@ + statuses(results)
        }
    } else if dispatch.target_kind is Capability {
        base_detail + "; capability execution produced no repository worktree changes"@
    } else if dispatch.execution_intent is ReadOnly && git.changed_files.len() > 0 {
        base_detail + "; read-only mode left "@ + text::decimal(git.changed_files.len())
            + " changed entries uncommitted in the disposable worktree"@
    } else if dispatch.execution_intent is ReadOnly {
        base_detail + "; read-only mode produced no tracked repo changes"@
    } else {
        match commit {
            Some(record) => base_detail + "; created commit "@ + record.short_sha + " for branch "@
                + text::text_or(text::opt_text(dispatch.branch_name), "unknown"@),
            None => base_detail + "; no committed repo changes were detected"@,
        }
    }
}

/// The result word of a job.
pub open spec fn outcome_result(results: ValidationResults) -> Seq<char> {
    if results.overall_success {
        "success"@
    } else {
        "failure"@
    }
}

/// The commit of a job as it stands in its summary.
pub open spec fn commit_line(commit: Option<CommitRecordView>) -> Seq<char> {
    match commit {
        Some(record) => "`"@ + record.short_sha + "` ("@ + record.message + ")"@,
        None => "none"@,
    }
}

/// The summary of a finished job.
pub open spec fn outcome_summary(
    dispatch: JobDispatchMessage,
    results: ValidationResults,
    git: GitReportView,
    commit: Option<CommitRecordView>,
    runner: Seq<char>,
) -> Seq<char> {
    "# Job Summary\n\n- Result: "@ + outcome_result(results) + "\n- Runner: "@ + runner
        + "\n- Target kind: "@ + dispatch.target_kind.name() + "\n- Target: "@
        + dispatch.target_name@ + "\n- Branch: "@ + text::text_or(
        text::opt_text(dispatch.branch_name),
        "n/a"@,
    ) + "\n- Execution intent: "@ + dispatch.execution_intent.name()
        + "\n- Validation config: "@ + results.config_source@ + "\n\n## Request\n\n"@
        + dispatch.prompt@ + "\n\n## Validation\n\n- Build: "@ + results.build@.status()
        + "\n- Test: "@ + results.test@.status() + "\n\n## Commit\n\n- Commit: "@ + commit_line(
        commit,
    ) + "\n\n## Workspace Changes\n\n- Changed entries: "@ + text::decimal(
        git.changed_files.len(),
    ) + "\n- Diff stat: "@ + text::text_or(git.diff_stat, "no tracked diff"@) + "\n"@
}

/// The question put to the operator where a push waits for approval.
pub open spec fn approval_question(
    dispatch: JobDispatchMessage,
    git: GitReportView,
    commit: Option<CommitRecordView>,
) -> Option<Seq<char>> {
    if dispatch.target_kind is Capability || dispatch.execution_intent is ReadOnly {
        None
    } else {
        match commit {
            Some(record) => Some(
                "Approve push for `"@ + dispatch.target_name@ + "` on branch `"@ + text::text_or(
                    text::opt_text(dispatch.branch_name),
                    "unknown"@,
                ) + "` with commit `"@ + record.short_sha
                    + "` after reviewing the generated summary, validation output, and "@
                    + text::decimal(git.changed_files.len()) + " changed entries."@,
            ),
            None => None,
        }
    }
}

/// The commit that counts: one that was made although none was due is not the job's.
pub open spec fn counted_commit(
    dispatch: JobDispatchMessage,
    results: ValidationResults,
    commit: Option<CommitRecordView>,
) -> Option<CommitRecordView> {
    if commit_due(dispatch, results.overall_success) {
        commit
    } else {
        None
    }
}

/// The state of the worktree that counts: a job without a repository has none.
pub open spec fn counted_git(dispatch: JobDispatchMessage, git: GitReportView) -> GitReportView {
    if dispatch.target_kind is Repository {
        git
    } else {
        no_git_report()
    }
}

/// The contents of an optional commit.
pub open spec fn opt_commit(commit: Option<CommitRecord>) -> Option<CommitRecordView> {
    match commit {
        Some(record) => Some(record@),
        None => None,
    }
}

/// How a job ended.
pub open spec fn command_outcome(
    dispatch: JobDispatchMessage,
    sandbox: SandboxPolicy,
    runner: RunnerReportView,
    base_detail: Seq<char>,
    results: ValidationResults,
    git_report: GitReportView,
    made: Option<CommitRecordView>,
) -> CommandOutcomeView {
    let git = counted_git(dispatch, git_report);
    let commit = counted_commit(dispatch, results, made);
    CommandOutcomeView {
        detail: outcome_detail(dispatch, results, git, commit, base_detail),
        result: outcome_result(results),
        failure_class: outcome_failure_class(results),
        summary_markdown: outcome_summary(dispatch, results, git, commit, runner.runner()),
        execution_report: ExecutionReportView {
            runner: runner.runner(),
            runner_report: runner,
            validation_config_source: results.config_source@,
            build: results.build@,
            test: results.test@,
            git_status: git.status_lines,
            diff_stat: git.diff_stat,
            changed_files: git.changed_files,
            commit,
            execution_intent: dispatch.execution_intent,
            target_kind: dispatch.target_kind,
            target_name: dispatch.target_name@,
            read_only_change_detected: dispatch.execution_intent is ReadOnly
                && git.changed_files.len() > 0,
            sandbox: sandbox::report_of(sandbox@),
        },
        approval_summary: approval_question(dispatch, git, commit),
    }
}

/// How a job ended, from what its validation, its worktree and its commit came to. The commit is
/// looked at only where one was due, the worktree only where the job has a repository.
pub fn finalize_command_outcome(
    dispatch: &JobDispatchMessage,
    sandbox: &SandboxPolicy,
    runner: RunnerReport,
    base_detail: &str,
    results: &ValidationResults,
    git_report: GitReport,
    commit: Option<CommitRecord>,
) -> (outcome: CommandOutcome)
    ensures
        outcome@ == command_outcome(
            *dispatch,
            *sandbox,
            runner@,
            base_detail@,
            *results,
            git_report@,
            opt_commit(commit),
        ),
{
    let repository = match dispatch.target_kind {
        JobTargetKind::Repository => true,
        JobTargetKind::Capability => false,
    };
    let read_only = match dispatch.execution_intent {
        ExecutionIntent::ReadOnly => true,
        ExecutionIntent::WorkspaceChange => false,
    };
    let git = if repository {
        git_report
    } else {
        let none = GitReport { status_lines: Vec::new(), diff_stat: None, changed_files: Vec::new() };
        assert(none@.status_lines == no_git_report().status_lines);
        assert(none@.changed_files == no_git_report().changed_files);
        none
    };
    assert(git@ == counted_git(*dispatch, git_report@));
    let commit = if commit_is_due(dispatch, results) {
        commit
    } else {
        None
    };
    let changed: usize = git.changed_files.len();
    assert(git@.changed_files.len() == changed);
    let detail = finish_detail(dispatch, results, changed, &commit, base_detail);
    let result = if results.overall_success {
        "success"
    } else {
        "failure"
    };
    let failure_class = if results.overall_success {
        None
    } else if validation_was_blocked(results) {
        Some("sandbox".to_owned())
    } else {
        Some("validation".to_owned())
    };
    let summary_markdown = finish_summary(dispatch, results, &git, &commit, runner.runner());
    let approval_summary = finish_question(dispatch, changed, &commit);
    let execution_report = ExecutionReport {
        runner: runner.runner().to_owned(),
        runner_report: runner,
        validation_config_source: results.config_source.clone(),
        build: results.build.copy(),
        test: results.test.copy(),
        git_status: git.status_lines,
        diff_stat: git.diff_stat,
        changed_files: git.changed_files,
        commit,
        execution_intent: dispatch.execution_intent,
        target_kind: dispatch.target_kind,
        target_name: dispatch.target_name().to_owned(),
        read_only_change_detected: read_only && changed > 0,
        sandbox: sandbox::sandbox_report_value(sandbox),
    };
    CommandOutcome {
        detail,
        result: result.to_owned(),
        failure_class,
        summary_markdown,
        execution_report,
        approval_summary,
    }
}

/// Whether the sandbox cut validation short.
fn validation_was_blocked(results: &ValidationResults) -> (blocked: bool)
    ensures
        blocked == sandbox_blocked(*results),
{
    let build = match &results.build {
        ValidationReport::SandboxBlocked { .. } => true,
        _ => false,
    };
    let test = match &results.test {
        ValidationReport::SandboxBlocked { .. } => true,
        _ => false,
    };
    build || test
}

/// The detail line of a finished job.
fn finish_detail(
    dispatch: &JobDispatchMessage,
    results: &ValidationResults,
    changed: usize,
    commit: &Option<CommitRecord>,
    base_detail: &str,
) -> (out: String)
    ensures
        forall|git: GitReportView|
            git.changed_files.len() == changed ==> out@ == #[trigger] outcome_detail(
                *dispatch,
                *results,
                git,
                opt_commit(*commit),
                base_detail@,
            ),
{
    if !results.overall_success {
        let mut status = "(build: ".to_owned();
        status.append(validation::validation_status(&results.build));
        status.append(", test: ");
        status.append(validation::validation_status(&results.test));
        status.append(")");
        let mut out = if validation_was_blocked(results) {
            "sandbox blocked post-execution validation ".to_owned()
        } else {
            "validation failed after Codex execution ".to_owned()
        };
        out.append(&status);
        return out;
    }
    let mut out = base_detail.to_owned();
    match (dispatch.target_kind, dispatch.execution_intent) {
        (JobTargetKind::Capability, _) => {
            out.append("; capability execution produced no repository worktree changes");
        },
        (JobTargetKind::Repository, ExecutionIntent::ReadOnly) => {
            if changed > 0 {
                out.append("; read-only mode left ");
                out.append(&text::count_text(changed));
                out.append(" changed entries uncommitted in the disposable worktree");
            } else {
                out.append("; read-only mode produced no tracked repo changes");
            }
        },
        (JobTargetKind::Repository, ExecutionIntent::WorkspaceChange) => match commit {
            Some(record) => {
                out.append("; created commit ");
                out.append(&record.short_sha);
                out.append(" for branch ");
                out.append(unwrap_text(&dispatch.branch_name, "unknown"));
            },
            None => {
                out.append("; no committed repo changes were detected");
            },
        },
    }
    out
}

/// The summary of a finished job.
fn finish_summary(
    dispatch: &JobDispatchMessage,
    results: &ValidationResults,
    git: &GitReport,
    commit: &Option<CommitRecord>,
    runner: &str,
) -> (out: String)
    ensures
        out@ == outcome_summary(*dispatch, *results, git@, opt_commit(*commit), runner@),
{
    let line = match commit {
        Some(record) => {
            let mut line = "`".to_owned();
            line.append(&record.short_sha);
            line.append("` (");
            line.append(&record.message);
            line.append(")");
            line
        },
        None => "none".to_owned(),
    };
    assert(git@.changed_files.len() == git.changed_files.len());
    let mut out = "# Job Summary\n\n- Result: ".to_owned();
    if results.overall_success {
        out.append("success");
    } else {
        out.append("failure");
    }
    out.append("\n- Runner: ");
    out.append(runner);
    out.append("\n- Target kind: ");
    out.append(dispatch.target_kind.as_str());
    out.append("\n- Target: ");
    out.append(dispatch.target_name());
    out.append("\n- Branch: ");
    out.append(unwrap_text(&dispatch.branch_name, "n/a"));
    out.append("\n- Execution intent: ");
    out.append(dispatch.execution_intent.as_str());
    out.append("\n- Validation config: ");
    out.append(&results.config_source);
    out.append("\n\n## Request\n\n");
    out.append(&dispatch.prompt);
    out.append("\n\n## Validation\n\n- Build: ");
    out.append(validation::validation_status(&results.build));
    out.append("\n- Test: ");
    out.append(validation::validation_status(&results.test));
    out.append("\n\n## Commit\n\n- Commit: ");
    out.append(&line);
    out.append("\n\n## Workspace Changes\n\n- Changed entries: ");
    out.append(&text::count_text(git.changed_files.len()));
    out.append("\n- Diff stat: ");
    out.append(unwrap_text(&git.diff_stat, "no tracked diff"));
    out.append("\n");
    out
}

/// The question put to the operator where a push waits for approval.
fn finish_question(
    dispatch: &JobDispatchMessage,
    changed: usize,
    commit: &Option<CommitRecord>,
) -> (out: Option<String>)
    ensures
        forall|git: GitReportView|
            git.changed_files.len() == changed ==> text::opt_text(out)
                == #[trigger] approval_question(*dispatch, git, opt_commit(*commit)),
{
    match (dispatch.target_kind, dispatch.execution_intent, commit) {
        (JobTargetKind::Repository, ExecutionIntent::WorkspaceChange, Some(record)) => {
            let mut out = "Approve push for `".to_owned();
            out.append(dispatch.target_name());
            out.append("` on branch `");
            out.append(unwrap_text(&dispatch.branch_name, "unknown"));
            out.append("` with commit `");
            out.append(&record.short_sha);
            out.append("` after reviewing the generated summary, validation output, and ");
            out.append(&text::count_text(changed));
            out.append(" changed entries.");
            Some(out)
        },
        _ => None,
    }
}

/// A push is asked for only where a validated change of a repository has been committed. A
/// read-only job, a capability and a job that failed validation never ask for one.
pub proof fn only_validated_changes_ask_for_a_push(
    dispatch: JobDispatchMessage,
    sandbox: SandboxPolicy,
    runner: RunnerReportView,
    base_detail: Seq<char>,
    results: ValidationResults,
    git_report: GitReportView,
    made: Option<CommitRecordView>,
)
    ensures
        command_outcome(dispatch, sandbox, runner, base_detail, results, git_report, made).approval_summary
            is Some <==> {
            &&& dispatch.target_kind is Repository
            &&& dispatch.execution_intent is WorkspaceChange
            &&& results.overall_success
            &&& made is Some
        },
{
}

/// A job is reported as failed exactly where its failure has a class, and then without a commit.
pub proof fn failed_jobs_have_a_failure_class(
    dispatch: JobDispatchMessage,
    sandbox: SandboxPolicy,
    runner: RunnerReportView,
    base_detail: Seq<char>,
    results: ValidationResults,
    git_report: GitReportView,
    made: Option<CommitRecordView>,
)
    ensures
        ({
            let outcome = command_outcome(
                dispatch,
                sandbox,
                runner,
                base_detail,
                results,
                git_report,
                made,
            );
            &&& outcome.result == "failure"@ <==> outcome.failure_class is Some
            &&& outcome.result == "failure"@ ==> outcome.execution_report.commit is None
        }),
{
    reveal_strlit("success");
    reveal_strlit("failure");
    assert("success"@[0] != "failure"@[0]);
}

/// Only the guidance of a read-only job forbids commits and pushes.
proof fn lemma_guidance_fits()
    ensures
        guidance(ExecutionIntent::ReadOnly) != guidance(ExecutionIntent::WorkspaceChange),
        text::contains_text(guidance(ExecutionIntent::ReadOnly), "do not create commits"@),
        text::contains_text(
            guidance(ExecutionIntent::ReadOnly),
            "do not ask for push approval"@,
        ),
{
    let strict = guidance(ExecutionIntent::ReadOnly);
    let free = guidance(ExecutionIntent::WorkspaceChange);
    reveal_strlit(
        "Inspect and report only. Do not create durable repository changes, do not create commits, and do not ask for push approval. If execution leaves local artifacts behind, call that out in the result.",
    );
    reveal_strlit(
        "Carry out the requested work, summarize what changed, and leave any execution artifacts ready for review.",
    );
    reveal_strlit("do not create commits");
    reveal_strlit("do not ask for push approval");
    assert(strict.len() != free.len());
    assert(strict.subrange(67, 88) =~= "do not create commits"@);
    assert(text::occurs_at(strict, "do not create commits"@, 67));
    assert(strict.subrange(94, 122) =~= "do not ask for push approval"@);
    assert(text::occurs_at(strict, "do not ask for push approval"@, 94));
}

/// The request that a runner is given names the job and what it is aimed at, and holds the request
/// word for word, with guidance that fits what the job may do.
#[verifier::rlimit(60)]
#[verifier::spinoff_prover]
pub proof fn requests_hold_what_was_asked(dispatch: JobDispatchMessage)
    ensures
        ({
            let told = request_body(dispatch);
            &&& text::contains_text(told, "# Elowen Job Request\n\n- Job: "@ + dispatch.job_id@)
            &&& text::contains_text(told, "\n- Thread: "@ + dispatch.thread_id@)
            &&& text::contains_text(told, "\n- Target kind: "@ + dispatch.target_kind.name())
            &&& text::contains_text(told, "\n- Target: "@ + dispatch.target_name@)
            &&& text::contains_text(
                told,
                "\n- Branch: "@ + text::text_or(text::opt_text(dispatch.branch_name), "n/a"@),
            )
            &&& text::contains_text(
                told,
                "\n- Base branch: "@ + text::text_or(text::opt_text(dispatch.base_branch), "n/a"@),
            )
            &&& text::contains_text(
                told,
                "\n\n- Execution intent: "@ + dispatch.execution_intent.name(),
            )
            &&& text::contains_text(told, "\n\n## Requested Work\n\n"@ + dispatch.prompt@)
            &&& text::contains_text(
                told,
                "\n\n## Execution Guidance\n\n"@ + guidance(dispatch.execution_intent),
            )
        }),
        guidance(dispatch.execution_intent) != guidance(
            if dispatch.execution_intent is ReadOnly {
                ExecutionIntent::WorkspaceChange
            } else {
                ExecutionIntent::ReadOnly
            },
        ),
        text::contains_text(guidance(ExecutionIntent::ReadOnly), "do not create commits"@),
        text::contains_text(
            guidance(ExecutionIntent::ReadOnly),
            "do not ask for push approval"@,
        ),
{
    let said = "# Elowen Job Request\n\n- Job: "@ + dispatch.job_id@;
    text::texts_contain_themselves(said);
    text::labelled_values_are_contained(said, "\n- Thread: "@, dispatch.thread_id@);
    let said = said + "\n- Thread: "@ + dispatch.thread_id@;
    text::labelled_values_are_contained(said, "\n- Target kind: "@, dispatch.target_kind.name());
    let said = said + "\n- Target kind: "@ + dispatch.target_kind.name();
    text::labelled_values_are_contained(said, "\n- Target: "@, dispatch.target_name@);
    let said = said + "\n- Target: "@ + dispatch.target_name@;
    text::labelled_values_are_contained(
        said,
        "\n- Branch: "@,
        text::text_or(text::opt_text(dispatch.branch_name), "n/a"@),
    );
    let said = said + "\n- Branch: "@ + text::text_or(text::opt_text(dispatch.branch_name), "n/a"@);
    text::labelled_values_are_contained(
        said,
        "\n- Base branch: "@,
        text::text_or(text::opt_text(dispatch.base_branch), "n/a"@),
    );
    let said = said + "\n- Base branch: "@ + text::text_or(text::opt_text(dispatch.base_branch), "n/a"@);
    text::labelled_values_are_contained(
        said,
        "\n\n- Execution intent: "@,
        dispatch.execution_intent.name(),
    );
    let said = said + "\n\n- Execution intent: "@ + dispatch.execution_intent.name();
    text::labelled_values_are_contained(said, "\n\n## Requested Work\n\n"@, dispatch.prompt@);
    let said = said + "\n\n## Requested Work\n\n"@ + dispatch.prompt@;
    text::labelled_values_are_contained(
        said,
        "\n\n## Execution Guidance\n\n"@,
        guidance(dispatch.execution_intent),
    );
    let said = said + "\n\n## Execution Guidance\n\n"@ + guidance(dispatch.execution_intent);
    text::containing_grows(said, "\n"@);
    lemma_guidance_fits();
}

/// The summary of a simulated run names the job and holds its request word for word.
#[verifier::rlimit(60)]
#[verifier::spinoff_prover]
pub proof fn simulated_summaries_hold_the_request(dispatch: JobDispatchMessage)
    ensures
        ({
            let told = simulated_summary(dispatch);
            &&& text::contains_text(
                told,
                "# Simulated Slice 4 Execution\n\n- Job: "@ + dispatch.job_id@,
            )
            &&& text::contains_text(told, "\n- Thread: "@ + dispatch.thread_id@)
            &&& text::contains_text(told, "\n- Target kind: "@ + dispatch.target_kind.name())
            &&& text::contains_text(told, "\n- Target: "@ + dispatch.target_name@)
            &&& text::contains_text(
                told,
                "\n- Branch: "@ + text::text_or(text::opt_text(dispatch.branch_name), "n/a"@),
            )
            &&& text::contains_text(
                told,
                "\n- Base branch: "@ + text::text_or(text::opt_text(dispatch.base_branch), "n/a"@),
            )
            &&& text::contains_text(
                told,
                "\n- Runner: simulated\n\n## Request\n\n"@ + dispatch.prompt@,
            )
        }),
{
    let said = "# Simulated Slice 4 Execution\n\n- Job: "@ + dispatch.job_id@;
    text::texts_contain_themselves(said);
    text::labelled_values_are_contained(said, "\n- Thread: "@, dispatch.thread_id@);
    let said = said + "\n- Thread: "@ + dispatch.thread_id@;
    text::labelled_values_are_contained(said, "\n- Target kind: "@, dispatch.target_kind.name());
    let said = said + "\n- Target kind: "@ + dispatch.target_kind.name();
    text::labelled_values_are_contained(said, "\n- Target: "@, dispatch.target_name@);
    let said = said + "\n- Target: "@ + dispatch.target_name@;
    text::labelled_values_are_contained(
        said,
        "\n- Branch: "@,
        text::text_or(text::opt_text(dispatch.branch_name), "n/a"@),
    );
    let said = said + "\n- Branch: "@ + text::text_or(text::opt_text(dispatch.branch_name), "n/a"@);
    text::labelled_values_are_contained(
        said,
        "\n- Base branch: "@,
        text::text_or(text::opt_text(dispatch.base_branch), "n/a"@),
    );
    let said = said + "\n- Base branch: "@ + text::text_or(text::opt_text(dispatch.base_branch), "n/a"@);
    text::labelled_values_are_contained(
        said,
        "\n- Runner: simulated\n\n## Request\n\n"@,
        dispatch.prompt@,
    );
    let said = said + "\n- Runner: simulated\n\n## Request\n\n"@ + dispatch.prompt@;
    text::containing_grows(said, "\n"@);
}

/// The summary of a job tells its result, how it was run, what it was aimed at and asked for, how
/// its validation ended, its commit, and what it left in the worktree.
#[verifier::rlimit(60)]
#[verifier::spinoff_prover]
pub proof fn summaries_tell_the_whole_outcome(
    dispatch: JobDispatchMessage,
    results: ValidationResults,
    git: GitReportView,
    commit: Option<CommitRecordView>,
    runner: Seq<char>,
)
    ensures
        ({
            let told = outcome_summary(dispatch, results, git, commit, runner);
            &&& text::contains_text(told, "# Job Summary\n\n- Result: "@ + outcome_result(results))
            &&& text::contains_text(told, "\n- Runner: "@ + runner)
            &&& text::contains_text(told, "\n- Target kind: "@ + dispatch.target_kind.name())
            &&& text::contains_text(told, "\n- Target: "@ + dispatch.target_name@)
            &&& text::contains_text(
                told,
                "\n- Branch: "@ + text::text_or(text::opt_text(dispatch.branch_name), "n/a"@),
            )
            &&& text::contains_text(
                told,
                "\n- Execution intent: "@ + dispatch.execution_intent.name(),
            )
            &&& text::contains_text(told, "\n- Validation config: "@ + results.config_source@)
            &&& text::contains_text(told, "\n\n## Request\n\n"@ + dispatch.prompt@)
            &&& text::contains_text(
                told,
                "\n\n## Validation\n\n- Build: "@ + results.build@.status(),
            )
            &&& text::contains_text(told, "\n- Test: "@ + results.test@.status())
            &&& text::contains_text(told, "\n\n## Commit\n\n- Commit: "@ + commit_line(commit))
            &&& text::contains_text(
                told,
                "\n\n## Workspace Changes\n\n- Changed entries: "@ + text::decimal(git.changed_files.len()),
            )
            &&& text::contains_text(
                told,
                "\n- Diff stat: "@ + text::text_or(git.diff_stat, "no tracked diff"@),
            )
        }),
        commit is None ==> commit_line(commit) == "none"@,
        commit matches Some(record) ==> {
            &&& text::contains_text(commit_line(commit), record.short_sha)
            &&& text::contains_text(commit_line(commit), record.message)
        },
{
    let said = "# Job Summary\n\n- Result: "@ + outcome_result(results);
    text::texts_contain_themselves(said);
    text::labelled_values_are_contained(said, "\n- Runner: "@, runner);
    let said = said + "\n- Runner: "@ + runner;
    text::labelled_values_are_contained(said, "\n- Target kind: "@, dispatch.target_kind.name());
    let said = said + "\n- Target kind: "@ + dispatch.target_kind.name();
    text::labelled_values_are_contained(said, "\n- Target: "@, dispatch.target_name@);
    let said = said + "\n- Target: "@ + dispatch.target_name@;
    text::labelled_values_are_contained(
        said,
        "\n- Branch: "@,
        text::text_or(text::opt_text(dispatch.branch_name), "n/a"@),
    );
    let said = said + "\n- Branch: "@ + text::text_or(text::opt_text(dispatch.branch_name), "n/a"@);
    text::labelled_values_are_contained(
        said,
        "\n- Execution intent: "@,
        dispatch.execution_intent.name(),
    );
    let said = said + "\n- Execution intent: "@ + dispatch.execution_intent.name();
    text::labelled_values_are_contained(said, "\n- Validation config: "@, results.config_source@);
    let said = said + "\n- Validation config: "@ + results.config_source@;
    text::labelled_values_are_contained(said, "\n\n## Request\n\n"@, dispatch.prompt@);
    let said = said + "\n\n## Request\n\n"@ + dispatch.prompt@;
    text::labelled_values_are_contained(
        said,
        "\n\n## Validation\n\n- Build: "@,
        results.build@.status(),
    );
    let said = said + "\n\n## Validation\n\n- Build: "@ + results.build@.status();
    text::labelled_values_are_contained(said, "\n- Test: "@, results.test@.status());
    let said = said + "\n- Test: "@ + results.test@.status();
    text::labelled_values_are_contained(said, "\n\n## Commit\n\n- Commit: "@, commit_line(commit));
    let said = said + "\n\n## Commit\n\n- Commit: "@ + commit_line(commit);
    text::labelled_values_are_contained(
        said,
        "\n\n## Workspace Changes\n\n- Changed entries: "@,
        text::decimal(git.changed_files.len()),
    );
    let said = said + "\n\n## Workspace Changes\n\n- Changed entries: "@ + text::decimal(git.changed_files.len());
    text::labelled_values_are_contained(
        said,
        "\n- Diff stat: "@,
        text::text_or(git.diff_stat, "no tracked diff"@),
    );
    let said = said + "\n- Diff stat: "@ + text::text_or(git.diff_stat, "no tracked diff"@);
    text::containing_grows(said, "\n"@);
    if let Some(record) = commit {
        let first = "`"@ + record.short_sha;
        text::containing_grows("`"@, record.short_sha);
        text::containing_grows(first, "` ("@);
        text::containing_grows(first + "` ("@, record.message);
        text::containing_grows(first + "` ("@ + record.message, ")"@);
    }
}

/// The question put to the operator names the target, the branch, the commit and how many entries
/// changed.
#[verifier::rlimit(60)]
#[verifier::spinoff_prover]
pub proof fn questions_name_what_is_pushed(
    dispatch: JobDispatchMessage,
    git: GitReportView,
    record: CommitRecordView,
)
    requires
        dispatch.target_kind is Repository,
        dispatch.execution_intent is WorkspaceChange,
    ensures
        approval_question(dispatch, git, Some(record)) is Some,
        ({
            let told = approval_question(dispatch, git, Some(record))->0;
            &&& text::contains_text(told, "Approve push for `"@ + dispatch.target_name@)
            &&& text::contains_text(
                told,
                "` on branch `"@ + text::text_or(text::opt_text(dispatch.branch_name), "unknown"@),
            )
            &&& text::contains_text(told, "` with commit `"@ + record.short_sha)
            &&& text::contains_text(
                told,
                "` after reviewing the generated summary, validation output, and "@ + text::decimal(git.changed_files.len()),
            )
        }),
        approval_question(dispatch, git, None) is None,
{
    let said = "Approve push for `"@ + dispatch.target_name@;
    text::texts_contain_themselves(said);
    text::labelled_values_are_contained(
        said,
        "` on branch `"@,
        text::text_or(text::opt_text(dispatch.branch_name), "unknown"@),
    );
    let said = said + "` on branch `"@ + text::text_or(text::opt_text(dispatch.branch_name), "unknown"@);
    text::labelled_values_are_contained(said, "` with commit `"@, record.short_sha);
    let said = said + "` with commit `"@ + record.short_sha;
    text::labelled_values_are_contained(
        said,
        "` after reviewing the generated summary, validation output, and "@,
        text::decimal(git.changed_files.len()),
    );
    let said = said + "` after reviewing the generated summary, validation output, and "@ + text::decimal(git.changed_files.len());
    text::containing_grows(said, " changed entries."@);
}

/// Everything that changed is staged: behind the `--` stand the changed files of the report, all of
/// them, in order, and nothing else. The words before it name the worktree.
pub proof fn every_changed_file_is_staged(
    report: GitReportView,
    worktree: Seq<char>,
    dispatch: JobDispatchMessage,
)
    ensures
        first_commit_phase(report) is Finished <==> report.changed_files.len() == 0,
        report.changed_files.len() > 0 ==> {
            &&& commit_args_of(first_commit_phase(report), worktree, dispatch) matches Some(words)
            &&& words.len() == 4 + report.changed_files.len()
            &&& words[0] == "-C"@ && words[1] == worktree && words[2] == "add"@ && words[3]
                == "--"@
            &&& forall|i: int|
                0 <= i < report.changed_files.len() ==> words[4 + i]
                    == #[trigger] report.changed_files[i]
        },
        report.changed_files.len() == 0 ==> {
            &&& first_commit_phase(report) == (CommitPhaseView::Finished { commit: None })
            &&& commit_args_of(first_commit_phase(report), worktree, dispatch) is None
        },
{
}

/// A command is due in every phase of a commit but the last, and it is run in the worktree. What is
/// committed bears the message of the job.
pub proof fn commit_commands_run_in_the_worktree(
    phase: CommitPhaseView,
    worktree: Seq<char>,
    dispatch: JobDispatchMessage,
)
    ensures
        commit_args_of(phase, worktree, dispatch) is None <==> phase is Finished,
        commit_args_of(phase, worktree, dispatch) matches Some(words) ==> {
            &&& words.len() >= 4
            &&& words[0] == "-C"@ && words[1] == worktree
            &&& phase matches CommitPhaseView::Staging { changed_files } ==> {
                &&& words.len() == 4 + changed_files.len()
                &&& words[2] == "add"@ && words[3] == "--"@
                &&& forall|i: int|
                    0 <= i < changed_files.len() ==> words[4 + i] == #[trigger] changed_files[i]
            }
            &&& phase is Inspecting ==> words.len() == 5 && words[2] == "diff"@ && words[3]
                == "--cached"@ && words[4] == "--name-only"@
            &&& phase is Committing ==> {
                &&& words.len() == 5 && words[2] == "commit"@ && words[3] == "-m"@
                &&& words[4] == commit_message(dispatch)
            }
            &&& phase is Reading ==> words.len() == 4 && words[2] == "rev-parse"@ && words[3]
                == "HEAD"@
        },
{
}

/// The message of a commit names the job and begins its title; a short title stands there whole.
pub proof fn commit_messages_name_the_job(dispatch: JobDispatchMessage)
    ensures
        ("Elowen job "@ + dispatch.short_id@ + ": "@).is_prefix_of(commit_message(dispatch)),
        text::trim(dispatch.title@).len() <= 48 ==> commit_message(dispatch) == "Elowen job "@
            + dispatch.short_id@ + ": "@ + text::trim(dispatch.title@),
        text::trim(dispatch.title@).len() > 48 ==> (text::trim(dispatch.title@).take(
            48,
        )).is_prefix_of(
            commit_message(dispatch).skip(
                ("Elowen job "@ + dispatch.short_id@ + ": "@).len() as int,
            ),
        ),
{
    let head = "Elowen job "@ + dispatch.short_id@ + ": "@;
    let whole = commit_message(dispatch);
    let title = text::trim(dispatch.title@);
    assert(whole.subrange(0, head.len() as int) =~= head);
    text::trimming_twice_changes_nothing(dispatch.title@);
    let cut = text::truncated(title, 48);
    assert(whole.skip(head.len() as int) =~= cut);
    if title.len() > 48 {
        assert(cut.subrange(0, 48) =~= title.take(48));
    }
}

/// A step of a commit succeeds exactly where its command does; only the listing of the staged files
/// is read however it ended. What was staged is kept to the end: the record holds those files, the
/// revision that was read, its short form and the message that was committed. A failure tells what
/// the command printed.
pub proof fn commit_steps_follow_their_commands(
    phase: CommitPhaseView,
    dispatch: JobDispatchMessage,
    run: ProcessRun,
)
    ensures
        ({
            let next = next_commit_phase(phase, dispatch, run);
            &&& !(phase is Finished) && run is NotRun ==> next is Err
            &&& phase is Staging ==> {
                &&& next is Ok <==> succeeded(run)
                &&& next matches Ok(after) ==> after is Inspecting
            }
            &&& phase is Inspecting ==> {
                &&& next is Ok <==> run is Exited
                &&& run matches ProcessRun::Exited { success, stdout, stderr } ==> {
                    let listed = text::trimmed_entries(
                        text::lines_of(encoding::lossy_text(stdout@)),
                    );
                    &&& next matches Ok(after)
                    &&& listed.len() == 0 ==> after == (CommitPhaseView::Finished { commit: None })
                    &&& listed.len() > 0 ==> after == (CommitPhaseView::Committing {
                        staged_files: listed,
                    })
                }
            }
            &&& phase matches CommitPhaseView::Committing { staged_files } ==> {
                &&& next is Ok <==> succeeded(run)
                &&& next matches Ok(after) ==> after == (CommitPhaseView::Reading { staged_files })
            }
            &&& phase matches CommitPhaseView::Reading { staged_files } ==> {
                &&& next is Ok <==> succeeded(run)
                &&& next matches Ok(after) ==> {
                    &&& after matches CommitPhaseView::Finished { commit: Some(record) }
                    &&& run matches ProcessRun::Exited { success, stdout, stderr }
                    &&& record.sha == text::trim(encoding::lossy_text(stdout@))
                    &&& record.short_sha.is_prefix_of(record.sha)
                    &&& record.short_sha.len() == if record.sha.len() > 8 {
                        8
                    } else {
                        record.sha.len()
                    }
                    &&& record.message == commit_message(dispatch)
                    &&& record.changed_files == staged_files
                }
            }
            &&& phase is Finished ==> next == Ok::<CommitPhaseView, Seq<char>>(phase)
            &&& next matches Err(message) ==> {
                run matches ProcessRun::Exited { success, stdout, stderr } ==> {
                    output_summary(stdout@, stderr@).is_suffix_of(message)
                }
            }
        }),
{
    if let ProcessRun::Exited { success, stdout, stderr } = run {
        let printed = output_summary(stdout@, stderr@);
        let next = next_commit_phase(phase, dispatch, run);
        if let Err(message) = next {
            assert(message.subrange(message.len() - printed.len(), message.len() as int)
                =~= printed);
        }
        if let CommitPhaseView::Reading { staged_files } = phase {
            let sha = text::trim(encoding::lossy_text(stdout@));
            assert(sha.subrange(0, short_revision(sha).len() as int) =~= short_revision(sha));
        }
    }
}

/// What a process printed is summarised with both of its outputs, the errors last.
pub proof fn summaries_tell_both_outputs(stdout: Seq<u8>, stderr: Seq<u8>)
    ensures
        ("stdout: "@ + text::truncated(encoding::lossy_text(stdout), 1000)).is_prefix_of(
            output_summary(stdout, stderr),
        ),
        ("; stderr: "@ + text::truncated(encoding::lossy_text(stderr), 1000)).is_suffix_of(
            output_summary(stdout, stderr),
        ),
{
    let first = "stdout: "@ + text::truncated(encoding::lossy_text(stdout), 1000);
    let second = "; stderr: "@ + text::truncated(encoding::lossy_text(stderr), 1000);
    let whole = output_summary(stdout, stderr);
    assert(whole =~= first + second);
    assert(whole.subrange(0, first.len() as int) =~= first);
    assert(whole.subrange(whole.len() - second.len(), whole.len() as int) =~= second);
}

/// The errors of a process speak for it; its output does where there are none.
pub proof fn errors_speak_first(stdout: Seq<char>, stderr: Seq<char>)
    ensures
        text::trim(stderr).len() > 0 ==> process_summary(stdout, stderr) == text::truncated(
            text::trim(stderr),
            240,
        ),
        text::trim(stderr).len() == 0 && text::trim(stdout).len() > 0 ==> process_summary(
            stdout,
            stderr,
        ) == text::truncated(text::trim(stdout), 240),
        process_summary(stdout, stderr).len() > 0,
{
    reveal_strlit("process exited without output");
    reveal_strlit("...");
    text::trimming_twice_changes_nothing(stderr);
    text::trimming_twice_changes_nothing(stdout);
}

/// No line of the status is lost: every line that is about the work of the job is in the report, in
/// order and as it was printed but for white space behind it, and so is every path. Of the diff
/// statistics there is none exactly where nothing but blank lines was printed.
pub proof fn every_change_is_reported(status: Seq<u8>, diff_stat: Seq<u8>)
    ensures
        ({
            let report = git_report_of(status, diff_stat);
            let lines = text::lines_of(encoding::lossy_text(status));
            &&& forall|k: int|
                0 <= k < lines.len() && is_job_status(text::trim_end(#[trigger] lines[k]))
                    ==> report.status_lines.contains(text::trim_end(lines[k]))
            &&& forall|k: int|
                0 <= k < report.status_lines.len() && status_path(
                    #[trigger] report.status_lines[k],
                ).len() > 0 ==> report.changed_files.contains(status_path(report.status_lines[k]))
            &&& forall|k: int|
                #![trigger report.status_lines[k]]
                0 <= k < report.status_lines.len() ==> exists|j: int|
                    0 <= j < lines.len() && #[trigger] text::trim_end(lines[j])
                        == report.status_lines[k]
            &&& forall|k: int|
                #![trigger report.changed_files[k]]
                0 <= k < report.changed_files.len() ==> exists|j: int|
                    0 <= j < report.status_lines.len() && #[trigger] status_path(
                        report.status_lines[j],
                    ) == report.changed_files[k]
            &&& report.changed_files.len() <= report.status_lines.len() <= lines.len()
            &&& report.diff_stat matches Some(stat) ==> stat == text::joined(
                text::trimmed_entries(text::lines_of(encoding::lossy_text(diff_stat))),
                "\n"@,
            ) && stat.len() > 0
            &&& report.diff_stat is None ==> text::joined(
                text::trimmed_entries(text::lines_of(encoding::lossy_text(diff_stat))),
                "\n"@,
            ).len() == 0
        }),
{
    let lines = text::lines_of(encoding::lossy_text(status));
    lemma_status_lines_are_kept(lines);
    lemma_status_paths_are_kept(job_status_lines(lines));
}

/// The lines about a job's work are kept.
proof fn lemma_status_lines_are_kept(lines: Seq<Seq<char>>)
    ensures
        forall|k: int|
            0 <= k < lines.len() && is_job_status(text::trim_end(#[trigger] lines[k]))
                ==> job_status_lines(lines).contains(text::trim_end(lines[k])),
        forall|k: int|
            #![trigger job_status_lines(lines)[k]]
            0 <= k < job_status_lines(lines).len() ==> exists|j: int|
                0 <= j < lines.len() && #[trigger] text::trim_end(lines[j]) == job_status_lines(
                    lines,
                )[k],
        job_status_lines(lines).len() <= lines.len(),
    decreases lines.len(),
{
    if lines.len() > 0 {
        let shorter = lines.drop_last();
        lemma_status_lines_are_kept(shorter);
        let before = job_status_lines(shorter);
        let all = job_status_lines(lines);
        assert forall|k: int|
            0 <= k < lines.len() && is_job_status(
                text::trim_end(#[trigger] lines[k]),
            ) implies all.contains(text::trim_end(lines[k])) by {
            if k < shorter.len() {
                assert(shorter[k] == lines[k]);
                let at = choose|at: int|
                    0 <= at < before.len() && before[at] == text::trim_end(lines[k]);
                assert(all[at] == text::trim_end(lines[k]));
            } else {
                assert(all[all.len() - 1] == text::trim_end(lines[k]));
            }
        }
        assert forall|k: int| #![trigger all[k]] 0 <= k < all.len() implies exists|j: int|
            0 <= j < lines.len() && #[trigger] text::trim_end(lines[j]) == all[k] by {
            if k < before.len() {
                let j = choose|j: int|
                    0 <= j < shorter.len() && #[trigger] text::trim_end(shorter[j]) == before[k];
                assert(text::trim_end(lines[j]) == all[k]);
            } else {
                assert(text::trim_end(lines[lines.len() - 1]) == all[k]);
            }
        }
    }
}

/// The paths in status lines are kept.
proof fn lemma_status_paths_are_kept(lines: Seq<Seq<char>>)
    ensures
        forall|k: int|
            0 <= k < lines.len() && status_path(#[trigger] lines[k]).len() > 0 ==> status_paths(
                lines,
            ).contains(status_path(lines[k])),
        forall|k: int|
            #![trigger status_paths(lines)[k]]
            0 <= k < status_paths(lines).len() ==> exists|j: int|
                0 <= j < lines.len() && #[trigger] status_path(lines[j]) == status_paths(lines)[k],
        status_paths(lines).len() <= lines.len(),
    decreases lines.len(),
{
    if lines.len() > 0 {
        let shorter = lines.drop_last();
        lemma_status_paths_are_kept(shorter);
        let before = status_paths(shorter);
        let all = status_paths(lines);
        assert forall|k: int|
            0 <= k < lines.len() && status_path(#[trigger] lines[k]).len()
                > 0 implies all.contains(status_path(lines[k])) by {
            if k < shorter.len() {
                assert(shorter[k] == lines[k]);
                let at = choose|at: int|
                    0 <= at < before.len() && before[at] == status_path(lines[k]);
                assert(all[at] == status_path(lines[k]));
            } else {
                assert(all[all.len() - 1] == status_path(lines[k]));
            }
        }
        assert forall|k: int| #![trigger all[k]] 0 <= k < all.len() implies exists|j: int|
            0 <= j < lines.len() && #[trigger] status_path(lines[j]) == all[k] by {
            if k < before.len() {
                let j = choose|j: int|
                    0 <= j < shorter.len() && #[trigger] status_path(shorter[j]) == before[k];
                assert(status_path(lines[j]) == all[k]);
            } else {
                assert(status_path(lines[lines.len() - 1]) == all[k]);
            }
        }
    }
}

/// The outcome of a job says what became of it: it succeeded exactly where its validation did, and
/// a failure is one of the sandbox where that cut the validation short, else one of the
/// validation. The report repeats what was validated, found and committed, field by field.
pub proof fn outcomes_repeat_what_happened(
    dispatch: JobDispatchMessage,
    sandbox: SandboxPolicy,
    runner: RunnerReportView,
    base_detail: Seq<char>,
    results: ValidationResults,
    git_report: GitReportView,
    made: Option<CommitRecordView>,
)
    ensures
        ({
            let outcome = command_outcome(
                dispatch,
                sandbox,
                runner,
                base_detail,
                results,
                git_report,
                made,
            );
            let told = outcome.execution_report;
            let blocked = results.build@ is SandboxBlocked || results.test@ is SandboxBlocked;
            let repository = dispatch.target_kind is Repository;
            let read_only = dispatch.execution_intent is ReadOnly;
            &&& outcome.result == if results.overall_success {
                "success"@
            } else {
                "failure"@
            }
            &&& outcome.failure_class is None <==> results.overall_success
            &&& !results.overall_success && blocked ==> outcome.failure_class == Some("sandbox"@)
            &&& !results.overall_success && !blocked ==> outcome.failure_class == Some(
                "validation"@,
            )
            &&& told.runner_report == runner
            &&& told.runner == match runner {
                RunnerReportView::Simulated { .. } => "simulated"@,
                RunnerReportView::CodexCli { .. } => "codex-cli"@,
            }
            &&& told.validation_config_source == results.config_source@
            &&& told.build == results.build@
            &&& told.test == results.test@
            &&& repository ==> told.git_status == git_report.status_lines && told.diff_stat
                == git_report.diff_stat && told.changed_files == git_report.changed_files
            &&& !repository ==> told.git_status.len() == 0 && told.diff_stat is None
                && told.changed_files.len() == 0
            &&& told.commit == if repository && results.overall_success && !read_only {
                made
            } else {
                None
            }
            &&& told.execution_intent == dispatch.execution_intent
            &&& told.target_kind == dispatch.target_kind
            &&& told.target_name == dispatch.target_name@
            &&& told.read_only_change_detected <==> repository && read_only
                && git_report.changed_files.len() > 0
            &&& told.sandbox.worktree_path == sandbox.worktree_path@
            &&& told.sandbox.mode == sandbox.mode.name()
            &&& told.sandbox == sandbox::report_of(sandbox@)
        }),
{
}

/// The detail of a job begins with that of its run where it succeeded, and otherwise tells both
/// statuses of its validation. A commit is named in it, with its branch.
pub proof fn details_say_what_came_of_it(
    dispatch: JobDispatchMessage,
    results: ValidationResults,
    git: GitReportView,
    commit: Option<CommitRecordView>,
    base_detail: Seq<char>,
)
    ensures
        ({
            let detail = outcome_detail(dispatch, results, git, commit, base_detail);
            let blocked = results.build@ is SandboxBlocked || results.test@ is SandboxBlocked;
            let change = dispatch.target_kind is Repository
                && dispatch.execution_intent is WorkspaceChange;
            &&& results.overall_success ==> base_detail.is_prefix_of(detail)
            &&& !results.overall_success ==> {
                &&& text::contains_text(detail, "(build: "@ + results.build@.status())
                &&& text::contains_text(detail, ", test: "@ + results.test@.status())
                &&& blocked ==> "sandbox blocked post-execution validation "@.is_prefix_of(detail)
                &&& !blocked ==> "validation failed after Codex execution "@.is_prefix_of(detail)
            }
            &&& results.overall_success && dispatch.target_kind is Capability ==> detail
                == base_detail
                + "; capability execution produced no repository worktree changes"@
            &&& results.overall_success && dispatch.target_kind is Repository
                && dispatch.execution_intent is ReadOnly ==> {
                &&& text::contains_text(detail, "; read-only mode "@)
                    || git.changed_files.len() == 0
                &&& git.changed_files.len() > 0 ==> text::contains_text(
                    detail,
                    text::decimal(git.changed_files.len()),
                )
                &&& git.changed_files.len() == 0 ==> detail == base_detail
                    + "; read-only mode produced no tracked repo changes"@
            }
            &&& results.overall_success && change ==> match commit {
                Some(record) => {
                    &&& text::contains_text(detail, "; created commit "@ + record.short_sha)
                    &&& (" for branch "@ + text::text_or(
                        text::opt_text(dispatch.branch_name),
                        "unknown"@,
                    )).is_suffix_of(detail)
                },
                None => detail == base_detail + "; no committed repo changes were detected"@,
            }
        }),
{
    let detail = outcome_detail(dispatch, results, git, commit, base_detail);
    let blocked = results.build@ is SandboxBlocked || results.test@ is SandboxBlocked;
    if !results.overall_success {
        let head = if blocked {
            "sandbox blocked post-execution validation "@
        } else {
            "validation failed after Codex execution "@
        };
        let build = "(build: "@ + results.build@.status();
        let test = ", test: "@ + results.test@.status();
        assert(detail =~= head + build + (test + ")"@));
        text::parts_are_contained(head, build, test + ")"@);
        assert(detail =~= (head + build) + test + ")"@);
        text::parts_are_contained(head + build, test, ")"@);
        assert(detail.subrange(0, head.len() as int) =~= head);
    } else {
        assert(detail.subrange(0, base_detail.len() as int) =~= base_detail);
        if dispatch.target_kind is Repository && dispatch.execution_intent is ReadOnly {
            if git.changed_files.len() > 0 {
                let count = text::decimal(git.changed_files.len());
                let tail = " changed entries uncommitted in the disposable worktree"@;
                reveal_strlit("; read-only mode left ");
                reveal_strlit("; read-only mode ");
                let left = "; read-only mode left "@;
                let short = "; read-only mode "@;
                text::parts_are_contained(base_detail + left, count, tail);
                assert(left =~= short + left.skip(short.len() as int));
                assert(detail =~= base_detail + short + (left.skip(short.len() as int) + count
                    + tail));
                text::parts_are_contained(
                    base_detail,
                    short,
                    left.skip(short.len() as int) + count + tail,
                );
            }
        } else if dispatch.target_kind is Repository {
            if let Some(record) = commit {
                let made = "; created commit "@ + record.short_sha;
                let branch = " for branch "@ + text::text_or(
                    text::opt_text(dispatch.branch_name),
                    "unknown"@,
                );
                assert(detail =~= base_detail + made + branch);
                text::parts_are_contained(base_detail, made, branch);
                assert(detail.subrange(detail.len() - branch.len(), detail.len() as int)
                    =~= branch);
            }
        }
    }
}

/// The files of the runtime itself are told from those of a job by their names.
pub proof fn runtime_files_are_known_by_name(path: Seq<char>)
    ensures
        is_runtime_artifact(path) <==> {
            ||| seq![
                ".elowen-job.json"@,
                "elowen-codex-last-message.txt"@,
                "elowen-job-request.md"@,
                "elowen-job-summary.md"@,
                "elowen-runner-error.log"@,
                "elowen-runner-output.jsonl"@,
            ].contains(path)
            ||| ".elowen-sandbox"@.is_prefix_of(path)
        },
{
    let own = seq![
        ".elowen-job.json"@,
        "elowen-codex-last-message.txt"@,
        "elowen-job-request.md"@,
        "elowen-job-summary.md"@,
        "elowen-runner-error.log"@,
        "elowen-runner-output.jsonl"@,
    ];
    assert(own[0] == ".elowen-job.json"@ && own[1] == "elowen-codex-last-message.txt"@);
    assert(own[2] == "elowen-job-request.md"@ && own[3] == "elowen-job-summary.md"@);
    assert(own[4] == "elowen-runner-error.log"@ && own[5] == "elowen-runner-output.jsonl"@);
    if own.contains(path) {
        let i = choose|i: int| 0 <= i < own.len() && own[i] == path;
        assert(i == 0 || i == 1 || i == 2 || i == 3 || i == 4 || i == 5);
    }
}

/// A commit is due exactly for work on a repository that was validated and was meant to change it.
pub proof fn only_validated_changes_are_committed(dispatch: JobDispatchMessage, validated: bool)
    ensures
        commit_due(dispatch, validated) ==> validated,
        commit_due(dispatch, validated) ==> dispatch.target_kind is Repository,
        commit_due(dispatch, validated) ==> dispatch.execution_intent is WorkspaceChange,
        validated && dispatch.target_kind is Repository
            && dispatch.execution_intent is WorkspaceChange ==> commit_due(dispatch, validated),
{
}

/// An outcome carries the summary of its own result, and a push is asked for exactly where a change
/// to a repository was validated and committed.
pub proof fn outcomes_ask_for_the_push_of_their_commit(
    dispatch: JobDispatchMessage,
    sandbox: SandboxPolicy,
    runner: RunnerReportView,
    base_detail: Seq<char>,
    results: ValidationResults,
    git_report: GitReportView,
    made: Option<CommitRecordView>,
)
    ensures
        ({
            let outcome = command_outcome(
                dispatch,
                sandbox,
                runner,
                base_detail,
                results,
                git_report,
                made,
            );
            let told = outcome.execution_report;
            let change = dispatch.target_kind is Repository
                && dispatch.execution_intent is WorkspaceChange;
            &&& text::contains_text(
                outcome.summary_markdown,
                "# Job Summary\n\n- Result: "@ + outcome.result,
            )
            &&& text::contains_text(outcome.summary_markdown, "\n- Runner: "@ + told.runner)
            &&& text::contains_text(
                outcome.summary_markdown,
                "\n\n## Request\n\n"@ + dispatch.prompt@,
            )
            &&& text::contains_text(
                outcome.summary_markdown,
                "\n\n## Workspace Changes\n\n- Changed entries: "@ + text::decimal(
                    told.changed_files.len(),
                ),
            )
            &&& text::contains_text(
                outcome.summary_markdown,
                "\n\n## Commit\n\n- Commit: "@ + commit_line(told.commit),
            )
            &&& outcome.approval_summary is Some <==> change && results.overall_success
                && made is Some
            &&& outcome.approval_summary matches Some(question) ==> {
                &&& text::contains_text(question, "Approve push for `"@ + dispatch.target_name@)
                &&& text::contains_text(question, "` with commit `"@ + made->0.short_sha)
            }
        }),
{
    let git = counted_git(dispatch, git_report);
    let commit = counted_commit(dispatch, results, made);
    summaries_tell_the_whole_outcome(dispatch, results, git, commit, runner.runner());
    if let Some(record) = commit {
        if dispatch.target_kind is Repository && dispatch.execution_intent is WorkspaceChange {
            questions_name_what_is_pushed(dispatch, git, record);
        }
    }
}

/// A line of the status names its path behind its first three bytes. Of a file that was renamed it is
/// the new name, behind the last arrow.
pub proof fn status_lines_name_their_path(flags: Seq<char>, path: Seq<char>)
    requires
        text::byte_count(flags) == 3,
    ensures
        !text::contains_text(text::trim(path), "->"@) ==> status_path(flags + path) == text::trim(
            path,
        ),
        text::contains_text(text::trim(path), "->"@) ==> exists|at: int|
            #![trigger text::occurs_at(text::trim(path), "->"@, at)]
            {
                &&& text::occurs_at(text::trim(path), "->"@, at)
                &&& forall|later: int|
                    later > at ==> !#[trigger] text::occurs_at(text::trim(path), "->"@, later)
                &&& status_path(flags + path) == text::trim(text::trim(path).skip(at + 2))
            },
{
    text::skipped_bytes_are_counted(flags, path);
    let named = text::trim(path);
    text::the_last_occurrence_is_the_last(named, "->"@);
    reveal_strlit("->");
    if let Some(rest) = text::after_last(named, "->"@) {
        let at = named.len() - rest.len() - 2;
        assert(text::occurs_at(named, "->"@, at));
        assert(status_path(flags + path) == text::trim(named.skip(at + 2)));
    }
}

/// What a job is told to do goes by its intent.
pub proof fn guidance_goes_by_the_intent(intent: ExecutionIntent)
    ensures
        intent is WorkspaceChange ==> guidance(intent)
            == "Carry out the requested work, summarize what changed, and leave any execution artifacts ready for review."@,
        intent is ReadOnly ==> guidance(intent)
            == "Inspect and report only. Do not create durable repository changes, do not create commits, and do not ask for push approval. If execution leaves local artifacts behind, call that out in the result."@,
        process_summary(Seq::empty(), Seq::empty()) == "process exited without output"@,
        no_git_report().status_lines.len() == 0,
        no_git_report().changed_files.len() == 0,
        no_git_report().diff_stat is None,
{
}

/// A step of a commit that fails says which, and what was printed where the command ran.
pub proof fn failed_commits_say_which_step(
    phase: CommitPhaseView,
    dispatch: JobDispatchMessage,
    run: ProcessRun,
)
    ensures
        next_commit_phase(phase, dispatch, run) matches Err(message) ==> match run {
            ProcessRun::NotRun => {
                &&& phase is Staging ==> message == "failed to stage job changes before commit"@
                &&& phase is Inspecting ==> message == "failed to inspect staged job changes"@
                &&& phase is Committing ==> message == "failed to create job commit"@
                &&& phase is Reading ==> message == "failed to read committed job revision"@
            },
            ProcessRun::Exited { success, stdout, stderr } => {
                let printed = output_summary(stdout@, stderr@);
                &&& phase is Staging ==> message == "git add failed before job commit: "@ + printed
                &&& phase is Committing ==> message == "git commit failed for job `"@
                    + dispatch.short_id@ + "`: "@ + printed
                &&& phase is Reading ==> message == "git rev-parse failed after job commit: "@
                    + printed
            },
        },
{
}

/// A commit is shown with its short revision and its message.
pub proof fn commits_are_shown_by_their_revision(record: CommitRecordView)
    ensures
        commit_line(Some(record)) == "`"@ + record.short_sha + "` ("@ + record.message + ")"@,
        commit_line(None) == "none"@,
{
}

/// What is shown of a value is what it holds, field by field.
pub proof fn what_is_held_is_shown(
    commit_record: CommitRecord,
    git_report: GitReport,
    execution_report: ExecutionReport,
    command_outcome: CommandOutcome,
)
    ensures
        commit_record@.sha == commit_record.sha@,
        commit_record@.short_sha == commit_record.short_sha@,
        commit_record@.message == commit_record.message@,
        commit_record@.changed_files == text::texts(commit_record.changed_files@),
        git_report@.status_lines == text::texts(git_report.status_lines@),
        git_report@.diff_stat == text::opt_text(git_report.diff_stat),
        git_report@.changed_files == text::texts(git_report.changed_files@),
        execution_report@.runner == execution_report.runner@,
        execution_report@.runner_report == execution_report.runner_report@,
        execution_report@.validation_config_source == execution_report.validation_config_source@,
        execution_report@.build == execution_report.build@,
        execution_report@.test == execution_report.test@,
        execution_report@.git_status == text::texts(execution_report.git_status@),
        execution_report@.diff_stat == text::opt_text(execution_report.diff_stat),
        execution_report@.changed_files == text::texts(execution_report.changed_files@),
        execution_report@.commit == (match execution_report.commit { Some(inner) => Some(inner@), None => None, }),
        execution_report@.execution_intent == execution_report.execution_intent,
        execution_report@.target_kind == execution_report.target_kind,
        execution_report@.target_name == execution_report.target_name@,
        execution_report@.read_only_change_detected == execution_report.read_only_change_detected,
        execution_report@.sandbox == execution_report.sandbox@,
        command_outcome@.detail == command_outcome.detail@,
        command_outcome@.result == command_outcome.result@,
        command_outcome@.failure_class == text::opt_text(command_outcome.failure_class),
        command_outcome@.summary_markdown == command_outcome.summary_markdown@,
        command_outcome@.execution_report == command_outcome.execution_report@,
        command_outcome@.approval_summary == text::opt_text(command_outcome.approval_summary),
{
}

/// What is shown of a value is its kind and what it holds.
pub proof fn kinds_are_shown_with_what_they_hold(
    runner_report: RunnerReport,
    commit_phase: CommitPhase,
)
    ensures
        runner_report matches RunnerReport::Simulated { summary_path } ==> runner_report@ == (RunnerReportView::Simulated {
            summary_path: summary_path@,
        }),
        runner_report matches RunnerReport::CodexCli {
            command,
            args,
            prompt_path,
            output_path,
            error_path,
            last_message_path,
            last_message,
            event_messages,
            stdout,
            stderr,
        } ==> runner_report@ == (RunnerReportView::CodexCli {
            command: command@,
            args: text::texts(args@),
            prompt_path: prompt_path@,
            output_path: output_path@,
            error_path: error_path@,
            last_message_path: last_message_path@,
            last_message: text::opt_text(last_message),
            event_messages: text::texts(event_messages@),
            stdout: stdout@,
            stderr: stderr@,
        }),
        commit_phase matches CommitPhase::Staging { changed_files } ==> commit_phase@ == (CommitPhaseView::Staging {
            changed_files: text::texts(changed_files@),
        }),
        commit_phase is Inspecting ==> commit_phase@ == (CommitPhaseView::Inspecting),
        commit_phase matches CommitPhase::Committing { staged_files } ==> commit_phase@ == (CommitPhaseView::Committing {
            staged_files: text::texts(staged_files@),
        }),
        commit_phase matches CommitPhase::Reading { staged_files } ==> commit_phase@ == (CommitPhaseView::Reading {
            staged_files: text::texts(staged_files@),
        }),
        commit_phase matches CommitPhase::Finished { commit } ==> commit_phase@ == (CommitPhaseView::Finished {
            commit: (match commit { Some(inner) => Some(inner@), None => None, }),
        }),
{
}

/// A line of the status is about the work of the job exactly where it is not blank and does not name
/// a file of the runtime itself; no other line is reported.
pub proof fn only_the_work_of_the_job_is_reported(
    status: Seq<u8>,
    diff_stat: Seq<u8>,
    line: Seq<char>,
)
    ensures
        is_job_status(line) <==> text::trim(line).len() > 0 && !is_runtime_artifact(
            status_path(line),
        ),
        forall|k: int|
            0 <= k < git_report_of(status, diff_stat).status_lines.len() ==> is_job_status(
                #[trigger] git_report_of(status, diff_stat).status_lines[k],
            ),
        forall|k: int|
            0 <= k < git_report_of(status, diff_stat).changed_files.len() ==> (
            #[trigger] git_report_of(status, diff_stat).changed_files[k]).len() > 0,
{
    let lines = text::lines_of(encoding::lossy_text(status));
    lemma_reported_lines_are_job_status(lines);
    lemma_reported_paths_are_named(job_status_lines(lines));
}

/// Every line that is kept is about the work of the job.
proof fn lemma_reported_lines_are_job_status(lines: Seq<Seq<char>>)
    ensures
        forall|k: int|
            0 <= k < job_status_lines(lines).len() ==> is_job_status(
                #[trigger] job_status_lines(lines)[k],
            ),
    decreases lines.len(),
{
    if lines.len() > 0 {
        lemma_reported_lines_are_job_status(lines.drop_last());
        let before = job_status_lines(lines.drop_last());
        assert forall|k: int| 0 <= k < job_status_lines(lines).len() implies is_job_status(
            #[trigger] job_status_lines(lines)[k],
        ) by {
            if k < before.len() {
                assert(job_status_lines(lines)[k] == before[k]);
            }
        }
    }
}

/// Every path that is kept is one.
proof fn lemma_reported_paths_are_named(lines: Seq<Seq<char>>)
    ensures
        forall|k: int|
            0 <= k < status_paths(lines).len() ==> (#[trigger] status_paths(lines)[k]).len() > 0,
    decreases lines.len(),
{
    if lines.len() > 0 {
        lemma_reported_paths_are_named(lines.drop_last());
        let before = status_paths(lines.drop_last());
        assert forall|k: int| 0 <= k < status_paths(lines).len() implies (
        #[trigger] status_paths(lines)[k]).len() > 0 by {
            if k < before.len() {
                assert(status_paths(lines)[k] == before[k]);
            }
        }
    }
}

} // verus!
