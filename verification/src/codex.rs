//! The Codex command line: its arguments, its environment, and what a run of it came to.

use vstd::prelude::*;

use crate::config;
use crate::contracts::{JobDispatchMessage, JobTargetKind};
use crate::encoding;
use crate::error;
use crate::error::EdgeError;
use crate::execution::{RunnerReport, RunnerReportView};
use crate::json;
use crate::paths;
use crate::paths::PathStyle;
use crate::sandbox;
use crate::sandbox::{EnvVar, EnvVarView, SandboxPolicy};
use crate::text;
use crate::text::push_text;

verus! {

/// A word that would turn the command line into another Codex command.
pub open spec fn is_codex_command(arg: Seq<char>) -> bool {
    ||| arg == "exec"@
    ||| arg == "e"@
    ||| arg == "-"@
    ||| arg == "review"@
    ||| arg == "resume"@
}

/// A flag that names the working directory or the output file.
pub open spec fn is_managed_flag(arg: Seq<char>) -> bool {
    ||| arg == "-C"@
    ||| arg == "--cd"@
    ||| arg == "-o"@
    ||| arg == "--output-last-message"@
}

/// A flag that sets the working directory or the output file in one word.
pub open spec fn is_managed_setting(arg: Seq<char>) -> bool {
    "--cd="@.is_prefix_of(arg) || "--output-last-message="@.is_prefix_of(arg)
}

/// Whether an extra argument may be handed to Codex.
pub open spec fn codex_arg_check(arg: Seq<char>) -> Result<(), Seq<char>> {
    let normalized = text::trim(arg);
    if normalized.len() == 0 {
        Ok(())
    } else if is_codex_command(normalized) {
        Err(
            "ELOWEN_CODEX_ARGS_JSON should contain extra Codex exec flags only; remove `"@
                + normalized + "`"@,
        )
    } else if is_managed_flag(normalized) {
        Err(
            "ELOWEN_CODEX_ARGS_JSON must not include `"@ + normalized
                + "` because elowen-edge manages the working directory and output paths"@,
        )
    } else if is_managed_setting(normalized) {
        Err(
            "ELOWEN_CODEX_ARGS_JSON must not override Codex working directory or output file paths"@,
        )
    } else {
        Ok(())
    }
}

/// Whether extra arguments may be handed to Codex: the first that may not decides.
pub open spec fn codex_args_check(args: Seq<Seq<char>>) -> Result<(), Seq<char>>
    decreases args.len(),
{
    if args.len() == 0 {
        Ok(())
    } else {
        match codex_args_check(args.drop_last()) {
            Err(message) => Err(message),
            Ok(_) => codex_arg_check(args.last()),
        }
    }
}

/// Whether an extra argument may be handed to Codex.
fn check_codex_arg(arg: &str) -> (out: Result<(), EdgeError>)
    ensures
        error::verdict(out) == codex_arg_check(arg@),
{
    let normalized = text::trimmed_text(arg);
    if normalized.as_str().is_empty() {
        return Ok(());
    }
    if text::text_eq(&normalized, "exec") || text::text_eq(&normalized, "e") || text::text_eq(
        &normalized,
        "-",
    ) || text::text_eq(&normalized, "review") || text::text_eq(&normalized, "resume") {
        let mut message =
            "ELOWEN_CODEX_ARGS_JSON should contain extra Codex exec flags only; remove `".to_owned();
        message.append(&normalized);
        message.append("`");
        return Err(EdgeError::of(message));
    }
    if text::text_eq(&normalized, "-C") || text::text_eq(&normalized, "--cd") || text::text_eq(
        &normalized,
        "-o",
    ) || text::text_eq(&normalized, "--output-last-message") {
        let mut message = "ELOWEN_CODEX_ARGS_JSON must not include `".to_owned();
        message.append(&normalized);
        message.append(
            "` because elowen-edge manages the working directory and output paths",
        );
        return Err(EdgeError::of(message));
    }
    if text::begins_with(&normalized, "--cd=") || text::begins_with(
        &normalized,
        "--output-last-message=",
    ) {
        return Err(
            EdgeError::new(
                "ELOWEN_CODEX_ARGS_JSON must not override Codex working directory or output file paths",
            ),
        );
    }
    Ok(())
}

/// A refused argument decides over all that follow it.
proof fn lemma_first_refusal_decides(args: Seq<Seq<char>>, upto: int)
    requires
        0 <= upto <= args.len(),
        codex_args_check(args.take(upto)) is Err,
    ensures
        codex_args_check(args) == codex_args_check(args.take(upto)),
    decreases args.len() - upto,
{
    if upto == args.len() {
        assert(args.take(upto) == args);
    } else {
        assert(args.take(upto + 1).drop_last() == args.take(upto));
        lemma_first_refusal_decides(args, upto + 1);
    }
}

/// Whether extra arguments may be handed to Codex.
pub fn validate_codex_args(args: &Vec<String>) -> (out: Result<(), EdgeError>)
    ensures
        error::verdict(out) == codex_args_check(text::texts(args@)),
{
    let mut i: usize = 0;
    assert(text::texts(args@).take(0) == Seq::<Seq<char>>::empty());
    while i < args.len()
        invariant
            i <= args.len(),
            codex_args_check(text::texts(args@).take(i as int)) == Ok::<(), Seq<char>>(()),
        decreases args.len() - i,
    {
        assert(text::texts(args@).take(i + 1).drop_last() == text::texts(args@).take(i as int));
        assert(text::texts(args@).take(i + 1).last() == args@[i as int]@);
        match check_codex_arg(&args[i]) {
            Err(error) => {
                proof {
                    lemma_first_refusal_decides(text::texts(args@), i + 1);
                }
                return Err(error);
            },
            Ok(_) => {},
        }
        i = i + 1;
    }
    assert(text::texts(args@).take(i as int) == text::texts(args@));
    Ok(())
}

/// A flag that every run of Codex is given anyway.
pub open spec fn is_redundant(arg: Seq<char>) -> bool {
    text::trim(arg) == "--json"@ || text::trim(arg) == "--ephemeral"@
}

/// Whether a flag is one that every run of Codex is given anyway.
pub fn is_redundant_codex_arg(arg: &str) -> (redundant: bool)
    ensures
        redundant == is_redundant(arg@),
{
    let normalized = text::trimmed_text(arg);
    text::text_eq(&normalized, "--json") || text::text_eq(&normalized, "--ephemeral")
}

/// The extra arguments without those that every run is given anyway.
pub open spec fn extra_args(args: Seq<Seq<char>>) -> Seq<Seq<char>>
    decreases args.len(),
{
    if args.len() == 0 {
        Seq::empty()
    } else if is_redundant(args.last()) {
        extra_args(args.drop_last())
    } else {
        extra_args(args.drop_last()).push(args.last())
    }
}

/// The arguments of a Codex run, or the message of their refusal.
pub open spec fn exec_args(
    codex_args: Seq<Seq<char>>,
    worktree: Seq<char>,
    last_message: Seq<char>,
) -> Result<Seq<Seq<char>>, Seq<char>> {
    match codex_args_check(codex_args) {
        Err(message) => Err(message),
        Ok(_) => Ok(
            seq!["exec"@, "--json"@, "--ephemeral"@, "-C"@, worktree, "-o"@, last_message]
                + extra_args(codex_args) + seq!["-"@],
        ),
    }
}

/// The arguments of a Codex run.
pub fn build_codex_exec_args(
    codex_args: &Vec<String>,
    worktree_path: &str,
    last_message_path: &str,
) -> (out: Result<Vec<String>, EdgeError>)
    ensures
        error::list_outcome(out) == exec_args(
            text::texts(codex_args@),
            worktree_path@,
            last_message_path@,
        ),
{
    match validate_codex_args(codex_args) {
        Err(error) => return Err(error),
        Ok(_) => {},
    }
    let ghost fixed = seq![
        "exec"@,
        "--json"@,
        "--ephemeral"@,
        "-C"@,
        worktree_path@,
        "-o"@,
        last_message_path@,
    ];
    let mut args: Vec<String> = Vec::new();
    push_text(&mut args, "exec".to_owned());
    push_text(&mut args, "--json".to_owned());
    push_text(&mut args, "--ephemeral".to_owned());
    push_text(&mut args, "-C".to_owned());
    push_text(&mut args, worktree_path.to_owned());
    push_text(&mut args, "-o".to_owned());
    push_text(&mut args, last_message_path.to_owned());
    assert(text::texts(args@) == fixed);
    let mut i: usize = 0;
    assert(text::texts(codex_args@).take(0) == Seq::<Seq<char>>::empty());
    assert(fixed + Seq::<Seq<char>>::empty() == fixed);
    while i < codex_args.len()
        invariant
            i <= codex_args.len(),
            text::texts(args@) == fixed + extra_args(text::texts(codex_args@).take(i as int)),
        decreases codex_args.len() - i,
    {
        let ghost upto = text::texts(codex_args@).take(i + 1);
        assert(upto.drop_last() == text::texts(codex_args@).take(i as int));
        assert(upto.last() == codex_args@[i as int]@);
        if !is_redundant_codex_arg(&codex_args[i]) {
            push_text(&mut args, codex_args[i].clone());
            assert(text::texts(args@) == fixed + extra_args(upto));
        }
        i = i + 1;
    }
    assert(text::texts(codex_args@).take(i as int) == text::texts(codex_args@));
    push_text(&mut args, "-".to_owned());
    assert(text::texts(args@) == fixed + extra_args(text::texts(codex_args@)) + seq!["-"@]);
    Ok(args)
}

/// Extra arguments that are handed on never name another Codex command, never name the working
/// directory or the output file, and repeat none of the flags that every run is given.
pub proof fn extra_args_stay_extra(args: Seq<Seq<char>>)
    requires
        codex_args_check(args) is Ok,
    ensures
        forall|i: int|
            0 <= i < extra_args(args).len() ==> {
                let arg = text::trim(#[trigger] extra_args(args)[i]);
                &&& arg.len() > 0 ==> !is_codex_command(arg) && !is_managed_flag(arg)
                    && !is_managed_setting(arg)
                &&& arg != "--json"@
                &&& arg != "--ephemeral"@
            },
    decreases args.len(),
{
    if args.len() > 0 {
        let before = extra_args(args.drop_last());
        extra_args_stay_extra(args.drop_last());
        assert forall|i: int| 0 <= i < extra_args(args).len() implies {
            let arg = text::trim(#[trigger] extra_args(args)[i]);
            &&& arg.len() > 0 ==> !is_codex_command(arg) && !is_managed_flag(arg)
                && !is_managed_setting(arg)
            &&& arg != "--json"@
            &&& arg != "--ephemeral"@
        } by {
            if i < before.len() {
                assert(extra_args(args)[i] == before[i]);
            } else {
                assert(extra_args(args)[i] == args.last());
                assert(codex_arg_check(args.last()) is Ok);
            }
        }
    }
}

/// The files of a Codex run.
#[derive(Clone, Debug, PartialEq, Eq)]
pub struct CodexPaths {
    pub prompt_path: String,
    pub output_path: String,
    pub error_path: String,
    pub last_message_path: String,
}

/// The contents of a [`CodexPaths`].
pub struct CodexPathsView {
    pub prompt_path: Seq<char>,
    pub output_path: Seq<char>,
    pub error_path: Seq<char>,
    pub last_message_path: Seq<char>,
}

impl View for CodexPaths {
    type V = CodexPathsView;

    open spec fn view(&self) -> CodexPathsView {
        CodexPathsView {
            prompt_path: self.prompt_path@,
            output_path: self.output_path@,
            error_path: self.error_path@,
            last_message_path: self.last_message_path@,
        }
    }
}

impl CodexPaths {
    /// A copy with the same contents.
    pub fn copy(&self) -> (out: CodexPaths)
        ensures
            out@ == self@,
    {
        CodexPaths {
            prompt_path: self.prompt_path.clone(),
            output_path: self.output_path.clone(),
            error_path: self.error_path.clone(),
            last_message_path: self.last_message_path.clone(),
        }
    }
}

/// The files of a Codex run in a worktree.
pub open spec fn paths_in(style: PathStyle, worktree: Seq<char>) -> CodexPathsView {
    CodexPathsView {
        prompt_path: paths::join(style, worktree, "elowen-job-request.md"@),
        output_path: paths::join(style, worktree, "elowen-runner-output.jsonl"@),
        error_path: paths::join(style, worktree, "elowen-runner-error.log"@),
        last_message_path: paths::join(style, worktree, "elowen-codex-last-message.txt"@),
    }
}

/// The files of a Codex run in a worktree.
pub fn codex_paths(style: PathStyle, worktree_path: &str) -> (out: CodexPaths)
    ensures
        out@ == paths_in(style, worktree_path@),
{
    CodexPaths {
        prompt_path: paths::join_path(style, worktree_path, "elowen-job-request.md"),
        output_path: paths::join_path(style, worktree_path, "elowen-runner-output.jsonl"),
        error_path: paths::join_path(style, worktree_path, "elowen-runner-error.log"),
        last_message_path: paths::join_path(style, worktree_path, "elowen-codex-last-message.txt"),
    }
}

/// The variable of an optional value.
pub open spec fn optional_var(name: Seq<char>, value: Option<Seq<char>>) -> Seq<EnvVarView> {
    match value {
        Some(inner) => seq![sandbox::env_var(name, inner)],
        None => Seq::empty(),
    }
}

/// The variables that describe a job to Codex before the sandbox is applied.
pub open spec fn job_variables(
    dispatch: JobDispatchMessage,
    policy: SandboxPolicy,
) -> Seq<EnvVarView> {
    seq![
        sandbox::env_var("ELOWEN_JOB_ID"@, dispatch.job_id@),
        sandbox::env_var("ELOWEN_JOB_SHORT_ID"@, dispatch.short_id@),
        sandbox::env_var("ELOWEN_THREAD_ID"@, dispatch.thread_id@),
        sandbox::env_var("ELOWEN_JOB_TITLE"@, dispatch.title@),
        sandbox::env_var("ELOWEN_WORKTREE_PATH"@, policy.worktree_path@),
        sandbox::env_var("ELOWEN_REQUEST_TEXT"@, dispatch.prompt@),
    ]
}

/// The variables that describe the target of a job to Codex.
pub open spec fn target_variables(dispatch: JobDispatchMessage) -> Seq<EnvVarView> {
    let repo_name = if dispatch.target_kind is Repository {
        Some(dispatch.target_name@)
    } else {
        None
    };
    let capability = if dispatch.target_kind is Capability {
        Some(dispatch.target_name@)
    } else {
        None
    };
    seq![sandbox::env_var("ELOWEN_JOB_TARGET_KIND"@, dispatch.target_kind.name())] + optional_var(
        "ELOWEN_REPO_NAME"@,
        repo_name,
    ) + optional_var("ELOWEN_BRANCH_NAME"@, text::opt_text(dispatch.branch_name)) + optional_var(
        "ELOWEN_BASE_BRANCH"@,
        text::opt_text(dispatch.base_branch),
    ) + optional_var("ELOWEN_CAPABILITY_NAME"@, capability)
}

/// The environment of a Codex run.
pub open spec fn environment_for(
    style: PathStyle,
    dispatch: JobDispatchMessage,
    policy: SandboxPolicy,
) -> Seq<
    EnvVarView,
> {
    job_variables(
        dispatch,
        policy,
    ) + sandbox::environment_of(style, policy@) + target_variables(dispatch)
}

/// Adds the variable of an optional value.
fn push_optional(list: &mut Vec<EnvVar>, name: &str, value: &Option<String>)
    ensures
        sandbox::env_views(final(list)@) == sandbox::env_views(old(list)@) + optional_var(
            name@,
            text::opt_text(*value),
        ),
{
    match value {
        Some(inner) => {
            let ghost before = sandbox::env_views(list@);
            sandbox::push_env(list, name, inner);
            assert(sandbox::env_views(list@) == before + seq![sandbox::env_var(name@, inner@)]);
        },
        None => {
            assert(sandbox::env_views(list@) == sandbox::env_views(list@)
                + Seq::<EnvVarView>::empty());
        },
    }
}

/// The environment of a Codex run.
pub fn codex_environment(
    style: PathStyle,
    dispatch: &JobDispatchMessage,
    policy: &SandboxPolicy,
) -> (out: Vec<EnvVar>)
    ensures
        sandbox::env_views(out@) == environment_for(style, *dispatch, *policy),
{
    let mut list: Vec<EnvVar> = Vec::new();
    sandbox::push_env(&mut list, "ELOWEN_JOB_ID", &dispatch.job_id);
    sandbox::push_env(&mut list, "ELOWEN_JOB_SHORT_ID", &dispatch.short_id);
    sandbox::push_env(&mut list, "ELOWEN_THREAD_ID", &dispatch.thread_id);
    sandbox::push_env(&mut list, "ELOWEN_JOB_TITLE", &dispatch.title);
    sandbox::push_env(&mut list, "ELOWEN_WORKTREE_PATH", &policy.worktree_path);
    sandbox::push_env(&mut list, "ELOWEN_REQUEST_TEXT", &dispatch.prompt);
    assert(sandbox::env_views(list@) == job_variables(*dispatch, *policy));
    sandbox::apply_sandbox_environment(style, &mut list, policy);
    let ghost confined = sandbox::env_views(list@);
    let (repo_name, capability) = match dispatch.target_kind {
        JobTargetKind::Repository => (Some(dispatch.target_name().to_owned()), None),
        JobTargetKind::Capability => (None, Some(dispatch.target_name().to_owned())),
    };
    sandbox::push_env(&mut list, "ELOWEN_JOB_TARGET_KIND", dispatch.target_kind.as_str());
    push_optional(&mut list, "ELOWEN_REPO_NAME", &repo_name);
    push_optional(&mut list, "ELOWEN_BRANCH_NAME", &dispatch.branch_name);
    push_optional(&mut list, "ELOWEN_BASE_BRANCH", &dispatch.base_branch);
    push_optional(&mut list, "ELOWEN_CAPABILITY_NAME", &capability);
    assert(sandbox::env_views(list@) == confined + target_variables(*dispatch));
    list
}

/// A Codex run as it is started.
#[derive(Clone, Debug, PartialEq, Eq)]
pub struct CodexLaunch {
    pub command: String,
    pub args: Vec<String>,
    pub working_dir: String,
    pub environment: Vec<EnvVar>,
}

/// The contents of a [`CodexLaunch`].
pub struct CodexLaunchView {
    pub command: Seq<char>,
    pub args: Seq<Seq<char>>,
    pub working_dir: Seq<char>,
    pub environment: Seq<EnvVarView>,
}

impl View for CodexLaunch {
    type V = CodexLaunchView;

    open spec fn view(&self) -> CodexLaunchView {
        CodexLaunchView {
            command: self.command@,
            args: text::texts(self.args@),
            working_dir: self.working_dir@,
            environment: self.environment@.map_values(|item: EnvVar| item@),
        }
    }
}

/// How a Codex run is started, or the message of its refusal.
pub open spec fn codex_launch_of(
    style: PathStyle,
    dispatch: JobDispatchMessage,
    policy: SandboxPolicy,
    command: Seq<char>,
    codex_args: Seq<Seq<char>>,
    resolved_worktree: Option<Seq<char>>,
) -> Result<CodexLaunchView, Seq<char>> {
    let worktree = policy.worktree_path@;
    match exec_args(codex_args, worktree, paths_in(style, worktree).last_message_path) {
        Err(message) => Err(message),
        Ok(args) => match sandbox::contained_path(
            style,
            worktree,
            worktree,
            "Codex working directory"@,
            resolved_worktree,
            resolved_worktree,
        ) {
            Err(message) => Err(message),
            Ok(working_dir) => Ok(
                CodexLaunchView {
                    command,
                    args,
                    working_dir,
                    environment: environment_for(style, dispatch, policy),
                },
            ),
        },
    }
}

/// How a Codex run is started. `resolved_worktree` is what the worktree resolves to on disk.
pub fn prepare_codex_launch(
    style: PathStyle,
    dispatch: &JobDispatchMessage,
    policy: &SandboxPolicy,
    command: &str,
    codex_args: &Vec<String>,
    resolved_worktree: &Option<String>,
) -> (out: Result<CodexLaunch, EdgeError>)
    ensures
        error::outcome(out) == codex_launch_of(
            style,
            *dispatch,
            *policy,
            command@,
            text::texts(codex_args@),
            text::opt_text(*resolved_worktree),
        ),
{
    let files = codex_paths(style, &policy.worktree_path);
    let args = match build_codex_exec_args(
        codex_args,
        &policy.worktree_path,
        &files.last_message_path,
    ) {
        Ok(args) => args,
        Err(error) => return Err(error),
    };
    let working_dir = match sandbox::enforce_worktree_containment(
        style,
        &policy.worktree_path,
        &policy.worktree_path,
        "Codex working directory",
        text::copy_opt(resolved_worktree),
        text::copy_opt(resolved_worktree),
    ) {
        Ok(path) => path,
        Err(error) => return Err(error),
    };
    let environment = codex_environment(style, dispatch, policy);
    Ok(CodexLaunch { command: command.to_owned(), args, working_dir, environment })
}

/// Codex is started where its arguments are admitted and the worktree can be resolved, and nowhere
/// else. It then runs in the worktree, is told to work there, leaves its last message there, and
/// reads its prompt from its input.
pub proof fn codex_runs_in_its_worktree(
    style: PathStyle,
    dispatch: JobDispatchMessage,
    policy: SandboxPolicy,
    command: Seq<char>,
    codex_args: Seq<Seq<char>>,
    resolved_worktree: Option<Seq<char>>,
)
    ensures
        codex_launch_of(style, dispatch, policy, command, codex_args, resolved_worktree) is Ok
            <==> codex_args_check(codex_args) is Ok && resolved_worktree is Some,
        codex_launch_of(
            style,
            dispatch,
            policy,
            command,
            codex_args,
            resolved_worktree,
        ) matches Ok(launch)
            ==> {
            &&& Some(launch.working_dir) == resolved_worktree
            &&& launch.args.take(7) == seq![
                "exec"@,
                "--json"@,
                "--ephemeral"@,
                "-C"@,
                policy.worktree_path@,
                "-o"@,
                paths_in(style, policy.worktree_path@).last_message_path,
            ]
            &&& launch.args.last() == "-"@
        },
{
    match resolved_worktree {
        Some(path) => assert(paths::lies_within(style, path, path)),
        None => {},
    }
}

/// How far a Codex run got.
pub enum CodexRun {
    /// The request could not be read.
    PromptNotRead,
    /// The run was refused before it started.
    Refused { error: EdgeError },
    /// The command could not be started.
    NotStarted,
    /// The command had no input to write to.
    NoInput,
    /// The request could not be sent.
    PromptNotSent,
    /// The command could not be awaited.
    NotAwaited,
    /// The output could not be written down.
    OutputNotWritten,
    /// The errors could not be written down.
    ErrorsNotWritten,
    /// The command ran to its end.
    Exited {
        args: Vec<String>,
        success: bool,
        status: String,
        stdout: Vec<u8>,
        stderr: Vec<u8>,
        last_message: Option<String>,
    },
}

/// The message that a line of Codex output carries, if it is one of the agent's.
pub open spec fn agent_message(line: Seq<char>) -> Option<Seq<char>> {
    if json::json_member_text(line, "item"@, "type"@) == Some("agent_message"@) {
        match json::json_member_text(line, "item"@, "text"@) {
            Some(message) => Some(text::truncated(message, 1000)),
            None => None,
        }
    } else {
        None
    }
}

/// The messages of the agent among lines of Codex output.
pub open spec fn agent_messages(lines: Seq<Seq<char>>) -> Seq<Seq<char>>
    decreases lines.len(),
{
    if lines.len() == 0 {
        Seq::empty()
    } else {
        let before = agent_messages(lines.drop_last());
        match agent_message(lines.last()) {
            Some(message) => before.push(message),
            None => before,
        }
    }
}

/// The message that a line carries, given the two members of its item.
pub fn agent_message_of(kind: &Option<String>, message: &Option<String>) -> (out: Option<String>)
    ensures
        text::opt_text(out) == (match (text::opt_text(*kind), text::opt_text(*message)) {
            (Some(word), Some(body)) => if word == "agent_message"@ {
                Some(text::truncated(body, 1000))
            } else {
                None
            },
            _ => None,
        }),
{
    match (kind, message) {
        (Some(word), Some(body)) => if text::text_eq(word, "agent_message") {
            Some(text::truncate_text(body, 1000))
        } else {
            None
        },
        _ => None,
    }
}

/// The messages of the agent in the output of Codex.
pub fn extract_codex_event_messages(stdout: &[u8]) -> (out: Vec<String>)
    ensures
        text::texts(out@) == agent_messages(text::lines_of(encoding::lossy_text(stdout@))),
{
    let lines = text::text_lines(&encoding::text_from_lossy(stdout));
    let mut out: Vec<String> = Vec::new();
    let mut i: usize = 0;
    assert(text::texts(lines@).take(0) == Seq::<Seq<char>>::empty());
    assert(text::texts(out@) == Seq::<Seq<char>>::empty());
    while i < lines.len()
        invariant
            i <= lines.len(),
            text::texts(out@) == agent_messages(text::texts(lines@).take(i as int)),
        decreases lines.len() - i,
    {
        assert(text::texts(lines@).take(i + 1).drop_last() == text::texts(lines@).take(i as int));
        assert(text::texts(lines@).take(i + 1).last() == lines@[i as int]@);
        let kind = json::member_text(&lines[i], "item", "type");
        let message = json::member_text(&lines[i], "item", "text");
        match agent_message_of(&kind, &message) {
            Some(found) => push_text(&mut out, found),
            None => {},
        }
        i = i + 1;
    }
    assert(text::texts(lines@).take(i as int) == text::texts(lines@));
    out
}

/// What a Codex run came to: its report, or the message of its failure.
pub open spec fn codex_result(
    style: PathStyle,
    policy: SandboxPolicy,
    command: Seq<char>,
    run: CodexRun,
) -> Result<RunnerReportView, Seq<char>> {
    let files = paths_in(style, policy.worktree_path@);
    match run {
        CodexRun::PromptNotRead => Err("failed to read "@ + files.prompt_path),
        CodexRun::Refused { error } => Err(error@),
        CodexRun::NotStarted => Err("failed to start Codex CLI `"@ + command + "`"@),
        CodexRun::NoInput => Err("failed to open stdin for Codex CLI process"@),
        CodexRun::PromptNotSent => Err("failed to send prompt to Codex CLI"@),
        CodexRun::NotAwaited => Err("failed while waiting for Codex CLI `"@ + command + "`"@),
        CodexRun::OutputNotWritten => Err("failed to write "@ + files.output_path),
        CodexRun::ErrorsNotWritten => Err("failed to write "@ + files.error_path),
        CodexRun::Exited { args, success, status, stdout, stderr, last_message } => if success {
            Ok(
                RunnerReportView::CodexCli {
                    command,
                    args: text::texts(args@),
                    prompt_path: files.prompt_path,
                    output_path: files.output_path,
                    error_path: files.error_path,
                    last_message_path: files.last_message_path,
                    last_message: config::trimmed_value(text::opt_text(last_message)),
                    event_messages: agent_messages(
                        text::lines_of(encoding::lossy_text(stdout@)),
                    ),
                    stdout: text::truncated(encoding::lossy_text(stdout@), 4000),
                    stderr: text::truncated(encoding::lossy_text(stderr@), 4000),
                },
            )
        } else {
            Err(
                "Codex CLI failed with status "@ + status@ + ". See "@ + files.output_path
                    + " and "@ + files.error_path,
            )
        },
    }
}

/// A message with a command in backquotes.
fn about_command(message: &str, command: &str) -> (error: EdgeError)
    ensures
        error@ == message@ + command@ + "`"@,
{
    let mut full = message.to_owned();
    full.append(command);
    full.append("`");
    EdgeError::of(full)
}

/// A message with a path behind it.
fn about_path(message: &str, path: &str) -> (error: EdgeError)
    ensures
        error@ == message@ + path@,
{
    let mut full = message.to_owned();
    full.append(path);
    EdgeError::of(full)
}

/// What a Codex run came to.
pub fn run_codex_cli(
    style: PathStyle,
    policy: &SandboxPolicy,
    command: &str,
    run: CodexRun,
) -> (out: Result<
    RunnerReport,
    EdgeError,
>)
    ensures
        error::outcome(out) == codex_result(style, *policy, command@, run),
{
    let files = codex_paths(style, &policy.worktree_path);
    match run {
        CodexRun::PromptNotRead => Err(about_path("failed to read ", &files.prompt_path)),
        CodexRun::Refused { error } => Err(error),
        CodexRun::NotStarted => Err(about_command("failed to start Codex CLI `", command)),
        CodexRun::NoInput => Err(EdgeError::new("failed to open stdin for Codex CLI process")),
        CodexRun::PromptNotSent => Err(EdgeError::new("failed to send prompt to Codex CLI")),
        CodexRun::NotAwaited => Err(about_command("failed while waiting for Codex CLI `", command)),
        CodexRun::OutputNotWritten => Err(about_path("failed to write ", &files.output_path)),
        CodexRun::ErrorsNotWritten => Err(about_path("failed to write ", &files.error_path)),
        CodexRun::Exited { args, success, status, stdout, stderr, last_message } => {
            if !success {
                let mut message = "Codex CLI failed with status ".to_owned();
                message.append(&status);
                message.append(". See ");
                message.append(&files.output_path);
                message.append(" and ");
                message.append(&files.error_path);
                return Err(EdgeError::of(message));
            }
            let event_messages = extract_codex_event_messages(stdout.as_slice());
            let out_text = encoding::text_from_lossy(stdout.as_slice());
            let err_text = encoding::text_from_lossy(stderr.as_slice());
            Ok(
                RunnerReport::CodexCli {
                    command: command.to_owned(),
                    args,
                    prompt_path: files.prompt_path,
                    output_path: files.output_path,
                    error_path: files.error_path,
                    last_message_path: files.last_message_path,
                    last_message: config::trimmed(&last_message),
                    event_messages,
                    stdout: text::truncate_text(&out_text, 4000),
                    stderr: text::truncate_text(&err_text, 4000),
                },
            )
        },
    }
}

/// The detail of a successful Codex run.
pub fn codex_detail(command: &str) -> (out: String)
    ensures
        out@ == "Codex CLI `"@ + command@ + "` completed successfully"@,
{
    let mut out = "Codex CLI `".to_owned();
    out.append(command);
    out.append("` completed successfully");
    out
}

/// The command whose version is asked for before the first job, or the message of its refusal.
/// Without a configured command there is nothing to ask.
pub open spec fn preflight_command(
    style: PathStyle,
    command: Option<Seq<char>>,
    codex_args: Seq<Seq<char>>,
) -> Result<Option<Seq<char>>, Seq<char>> {
    match command {
        None => Ok(None),
        Some(program) => match codex_args_check(codex_args) {
            Err(message) => Err(message),
            Ok(_) => if sandbox::is_shell(style, program) {
                Err(
                    sandbox::sandbox_message(
                        "configured Codex command `"@ + program
                            + "` is not allowed; point ELOWEN_CODEX_COMMAND at the Codex binary directly"@,
                    ),
                )
            } else {
                Ok(Some(program))
            },
        },
    }
}

/// The command whose version is asked for before the first job.
pub fn preflight_codex_runner(
    style: PathStyle,
    command: &Option<String>,
    codex_args: &Vec<String>,
) -> (out: Result<
    Option<String>,
    EdgeError,
>)
    ensures
        (match out {
            Ok(program) => Ok::<Option<Seq<char>>, Seq<char>>(text::opt_text(program)),
            Err(error) => Err::<Option<Seq<char>>, Seq<char>>(error@),
        }) == preflight_command(style, text::opt_text(*command), text::texts(codex_args@)),
{
    let program = match command {
        Some(program) => program,
        None => return Ok(None),
    };
    match validate_codex_args(codex_args) {
        Err(error) => return Err(error),
        Ok(_) => {},
    }
    if sandbox::is_disallowed_validation_program(style, program) {
        let mut message = "configured Codex command `".to_owned();
        message.append(program);
        message.append(
            "` is not allowed; point ELOWEN_CODEX_COMMAND at the Codex binary directly",
        );
        return Err(sandbox::sandbox_error(&message));
    }
    Ok(Some(program.clone()))
}

/// How the question for the version of Codex was answered.
pub enum VersionRun {
    /// The command could not be started.
    NotStarted,
    /// The command ran to its end.
    Exited { success: bool, status: String, stdout: Vec<u8> },
}

/// The version of Codex, or the message of the failure to learn it.
pub open spec fn codex_version(command: Seq<char>, run: VersionRun) -> Result<Seq<char>, Seq<char>> {
    match run {
        VersionRun::NotStarted => Err("failed to start configured Codex CLI `"@ + command + "`"@),
        VersionRun::Exited { success, status, stdout } => if success {
            Ok(text::truncated(encoding::lossy_text(stdout@), 200))
        } else {
            Err(
                "configured Codex CLI `"@ + command + "` failed preflight with status "@ + status@,
            )
        },
    }
}

/// The version of Codex.
pub fn preflight_version(command: &str, run: &VersionRun) -> (out: Result<String, EdgeError>)
    ensures
        error::outcome(out) == codex_version(command@, *run),
{
    match run {
        VersionRun::NotStarted => Err(
            about_command("failed to start configured Codex CLI `", command),
        ),
        VersionRun::Exited { success, status, stdout } => {
            if *success {
                let said = encoding::text_from_lossy(stdout.as_slice());
                return Ok(text::truncate_text(&said, 200));
            }
            let mut message = "configured Codex CLI `".to_owned();
            message.append(command);
            message.append("` failed preflight with status ");
            message.append(status);
            Err(EdgeError::of(message))
        },
    }
}

/// A run of Codex succeeds exactly where the command ran to its end and reported success. Its report
/// then has a last message if and only if one was read and is not blank, and it is that one, trimmed.
/// It tells the command and its arguments, the files of the run, and what was printed.
pub proof fn reports_tell_what_codex_said(
    style: PathStyle,
    policy: SandboxPolicy,
    command: Seq<char>,
    run: CodexRun,
)
    ensures
        codex_result(style, policy, command, run) is Ok <==> run is Exited && run->success,
        codex_result(style, policy, command, run) matches Ok(report) ==> {
            &&& run matches CodexRun::Exited { args, success, status, stdout, stderr, last_message }
            &&& report matches RunnerReportView::CodexCli {
                command: told_command,
                args: told_args,
                prompt_path,
                output_path,
                error_path,
                last_message_path,
                last_message: told_message,
                event_messages,
                stdout: told_stdout,
                stderr: told_stderr,
            }
            &&& told_command == command
            &&& told_args.len() == args@.len()
            &&& forall|i: int| 0 <= i < args@.len() ==> #[trigger] told_args[i] == args@[i]@
            &&& told_message is Some <==> last_message is Some && text::trim(
                last_message->0@,
            ).len() > 0
            &&& told_message is Some ==> told_message->0 == text::trim(last_message->0@)
            &&& prompt_path == paths::join(style, policy.worktree_path@, "elowen-job-request.md"@)
            &&& output_path == paths::join(
                style,
                policy.worktree_path@,
                "elowen-runner-output.jsonl"@,
            )
            &&& error_path == paths::join(style, policy.worktree_path@, "elowen-runner-error.log"@)
            &&& last_message_path == paths::join(
                style,
                policy.worktree_path@,
                "elowen-codex-last-message.txt"@,
            )
            &&& told_stdout == text::truncated(encoding::lossy_text(stdout@), 4000)
            &&& told_stderr == text::truncated(encoding::lossy_text(stderr@), 4000)
            &&& event_messages == agent_messages(text::lines_of(encoding::lossy_text(stdout@)))
        },
{
}

/// A run that fails tells where: the file that could not be read or written, the command that could
/// not be started or awaited, or its status and the files to look into. A refusal is passed on.
pub proof fn failed_runs_tell_where(
    style: PathStyle,
    policy: SandboxPolicy,
    command: Seq<char>,
    run: CodexRun,
)
    ensures
        codex_result(style, policy, command, run) matches Err(message) ==> {
            let worktree = policy.worktree_path@;
            let output = paths::join(style, worktree, "elowen-runner-output.jsonl"@);
            let errors = paths::join(style, worktree, "elowen-runner-error.log"@);
            &&& run is PromptNotRead ==> paths::join(
                style,
                worktree,
                "elowen-job-request.md"@,
            ).is_suffix_of(message)
            &&& run matches CodexRun::Refused { error } ==> message == error@
            &&& run is NotStarted || run is NotAwaited ==> text::contains_text(message, command)
            &&& run is OutputNotWritten ==> output.is_suffix_of(message)
            &&& run is ErrorsNotWritten ==> errors.is_suffix_of(message)
            &&& run matches CodexRun::Exited { status, .. } ==> {
                &&& ("Codex CLI failed with status "@ + status@).is_prefix_of(message)
                &&& text::contains_text(message, output)
                &&& errors.is_suffix_of(message)
            }
        },
{
    if let Err(message) = codex_result(style, policy, command, run) {
        let files = paths_in(style, policy.worktree_path@);
        text::parts_begin_and_end("failed to read "@, files.prompt_path);
        text::parts_begin_and_end("failed to write "@, files.output_path);
        text::parts_begin_and_end("failed to write "@, files.error_path);
        text::parts_are_contained("failed to start Codex CLI `"@, command, "`"@);
        text::parts_are_contained("failed while waiting for Codex CLI `"@, command, "`"@);
        if let CodexRun::Exited { status, .. } = run {
            let head = "Codex CLI failed with status "@ + status@;
            let tail = " and "@ + files.error_path;
            assert(message =~= head + (". See "@ + files.output_path + tail));
            text::parts_begin_and_end(head, ". See "@ + files.output_path + tail);
            assert(message =~= (head + ". See "@) + files.output_path + tail);
            text::parts_are_contained(head + ". See "@, files.output_path, tail);
            text::parts_begin_and_end(
                head + ". See "@ + files.output_path + " and "@,
                files.error_path,
            );
        }
    }
}

/// The messages of the agent are all told, in order: each line that carries one gives it, and the
/// others give none.
pub proof fn every_agent_message_is_told(lines: Seq<Seq<char>>, line: Seq<char>)
    ensures
        ({
            let kind = json::json_member_text(line, "item"@, "type"@);
            let message = json::json_member_text(line, "item"@, "text"@);
            &&& kind == Some("agent_message"@) && message is Some ==> agent_messages(
                lines.push(line),
            ) == agent_messages(lines).push(text::truncated(message->0, 1000))
            &&& kind != Some("agent_message"@) || message is None ==> agent_messages(
                lines.push(line),
            ) == agent_messages(lines)
        }),
        agent_messages(Seq::empty()).len() == 0,
{
    assert(lines.push(line).drop_last() =~= lines);
    assert(lines.push(line).last() == line);
}

/// Codex is told what to do in a fixed order: the command, its format, the worktree, the file of its
/// last message, the extra arguments as they were configured, and its input last.
pub proof fn codex_is_told_what_to_do(
    codex_args: Seq<Seq<char>>,
    worktree: Seq<char>,
    last_message: Seq<char>,
    i: int,
)
    requires
        codex_args_check(codex_args) is Ok,
    ensures
        exec_args(codex_args, worktree, last_message) matches Ok(words) && {
            &&& words.len() >= 8
            &&& words[0] == "exec"@
            &&& words[1] == "--json"@
            &&& words[2] == "--ephemeral"@
            &&& words[3] == "-C"@
            &&& words[4] == worktree
            &&& words[5] == "-o"@
            &&& words[6] == last_message
            &&& words.last() == "-"@
            &&& words.subrange(7, words.len() - 1) == extra_args(codex_args)
        },
        0 <= i < codex_args.len() && text::trim(codex_args[i]) != "--json"@ && text::trim(
            codex_args[i],
        ) != "--ephemeral"@ ==> extra_args(codex_args).contains(codex_args[i]),
{
    let fixed = seq!["exec"@, "--json"@, "--ephemeral"@, "-C"@, worktree, "-o"@, last_message];
    let words = fixed + extra_args(codex_args) + seq!["-"@];
    assert(words.subrange(7, words.len() - 1) =~= extra_args(codex_args));
    lemma_other_args_are_kept(codex_args);
}

/// Arguments that repeat no flag of every run are kept.
proof fn lemma_other_args_are_kept(args: Seq<Seq<char>>)
    ensures
        forall|i: int|
            0 <= i < args.len() && !is_redundant(#[trigger] args[i]) ==> extra_args(args).contains(
                args[i],
            ),
    decreases args.len(),
{
    if args.len() > 0 {
        let shorter = args.drop_last();
        let before = extra_args(shorter);
        let all = extra_args(args);
        lemma_other_args_are_kept(shorter);
        assert forall|i: int| 0 <= i < args.len() && !is_redundant(#[trigger] args[i]) implies
            all.contains(args[i]) by {
            if i < shorter.len() {
                assert(shorter[i] == args[i]);
                let at = choose|at: int| 0 <= at < before.len() && before[at] == args[i];
                assert(all[at] == args[i]);
            } else {
                assert(all[all.len() - 1] == args[i]);
            }
        }
    }
}

/// One argument out of place refuses them all, and arguments that are all in place are admitted.
pub proof fn one_refused_argument_refuses_all(args: Seq<Seq<char>>)
    ensures
        codex_args_check(args) is Ok <==> forall|i: int|
            0 <= i < args.len() ==> codex_arg_check(#[trigger] args[i]) is Ok,
        codex_args_check(args) matches Err(message) ==> exists|i: int|
            0 <= i < args.len() && codex_arg_check(#[trigger] args[i]) == Err::<(), Seq<char>>(
                message,
            ),
    decreases args.len(),
{
    if args.len() > 0 {
        let shorter = args.drop_last();
        one_refused_argument_refuses_all(shorter);
        if forall|i: int| 0 <= i < args.len() ==> codex_arg_check(#[trigger] args[i]) is Ok {
            assert forall|i: int| 0 <= i < shorter.len() implies codex_arg_check(
                #[trigger] shorter[i],
            ) is Ok by {
                assert(shorter[i] == args[i]);
            }
            assert(codex_arg_check(args[args.len() - 1]) is Ok);
        }
        if codex_args_check(args) is Ok {
            assert forall|i: int| 0 <= i < args.len() implies codex_arg_check(
                #[trigger] args[i],
            ) is Ok by {
                if i < shorter.len() {
                    assert(shorter[i] == args[i]);
                }
            }
        }
        if let Err(message) = codex_args_check(args) {
            if codex_args_check(shorter) is Err {
                let i = choose|i: int|
                    0 <= i < shorter.len() && codex_arg_check(#[trigger] shorter[i]) == Err::<
                        (),
                        Seq<char>,
                    >(message);
                assert(codex_arg_check(args[i]) == Err::<(), Seq<char>>(message));
            } else {
                assert(codex_arg_check(args[args.len() - 1]) == Err::<(), Seq<char>>(message));
            }
        }
    }
}

/// An argument is refused exactly where, trimmed, it is a command, a flag that the runtime sets
/// itself, or a setting of one of those.
pub proof fn arguments_are_refused_by_name(arg: Seq<char>)
    ensures
        ({
            let word = text::trim(arg);
            codex_arg_check(arg) is Err <==> {
                ||| seq!["exec"@, "e"@, "-"@, "review"@, "resume"@].contains(word)
                ||| seq!["-C"@, "--cd"@, "-o"@, "--output-last-message"@].contains(word)
                ||| "--cd="@.is_prefix_of(word)
                ||| "--output-last-message="@.is_prefix_of(word)
            }
        }),
{
    let word = text::trim(arg);
    let commands = seq!["exec"@, "e"@, "-"@, "review"@, "resume"@];
    let flags = seq!["-C"@, "--cd"@, "-o"@, "--output-last-message"@];
    assert(commands[0] == "exec"@ && commands[1] == "e"@ && commands[2] == "-"@);
    assert(commands[3] == "review"@ && commands[4] == "resume"@);
    assert(flags[0] == "-C"@ && flags[1] == "--cd"@ && flags[2] == "-o"@);
    assert(flags[3] == "--output-last-message"@);
    assert("exec"@.len() == 4 && "e"@.len() == 1 && "-"@.len() == 1 && "review"@.len() == 6) by {
        reveal_strlit("exec");
        reveal_strlit("e");
        reveal_strlit("-");
        reveal_strlit("review");
    }
    assert("resume"@.len() == 6 && "-C"@.len() == 2 && "--cd"@.len() == 4 && "-o"@.len() == 2) by {
        reveal_strlit("resume");
        reveal_strlit("-C");
        reveal_strlit("--cd");
        reveal_strlit("-o");
    }
    assert("--output-last-message"@.len() == 21 && "--cd="@.len() == 5
        && "--output-last-message="@.len() == 22) by {
        reveal_strlit("--output-last-message");
        reveal_strlit("--cd=");
        reveal_strlit("--output-last-message=");
    }
}

/// A command or a flag that is refused is named in the refusal.
pub proof fn refused_arguments_are_named(arg: Seq<char>)
    ensures
        codex_arg_check(arg) matches Err(message) ==> ({
            ||| is_codex_command(text::trim(arg))
            ||| is_managed_flag(text::trim(arg))
        } ==> text::contains_text(message, text::trim(arg))),
{
    let word = text::trim(arg);
    text::parts_are_contained(
        "ELOWEN_CODEX_ARGS_JSON should contain extra Codex exec flags only; remove `"@,
        word,
        "`"@,
    );
    text::parts_are_contained(
        "ELOWEN_CODEX_ARGS_JSON must not include `"@,
        word,
        "` because elowen-edge manages the working directory and output paths"@,
    );
}

/// Codex is told about its job: each part of the dispatch is in its environment under its name, the
/// branches where there are any, and the target under the name of its kind. What the sandbox sets
/// is there too, and stands behind what is told of the job.
pub proof fn codex_is_told_about_its_job(
    style: PathStyle,
    dispatch: JobDispatchMessage,
    policy: SandboxPolicy,
)
    ensures
        ({
            let environment = environment_for(style, dispatch, policy);
            let sandboxed = sandbox::environment_of(style, policy@);
            let repository = dispatch.target_kind is Repository;
            &&& environment.contains(sandbox::env_var("ELOWEN_JOB_ID"@, dispatch.job_id@))
            &&& environment.contains(sandbox::env_var("ELOWEN_JOB_SHORT_ID"@, dispatch.short_id@))
            &&& environment.contains(sandbox::env_var("ELOWEN_THREAD_ID"@, dispatch.thread_id@))
            &&& environment.contains(sandbox::env_var("ELOWEN_JOB_TITLE"@, dispatch.title@))
            &&& environment.contains(
                sandbox::env_var("ELOWEN_WORKTREE_PATH"@, policy.worktree_path@),
            )
            &&& environment.contains(sandbox::env_var("ELOWEN_REQUEST_TEXT"@, dispatch.prompt@))
            &&& environment.contains(
                sandbox::env_var("ELOWEN_JOB_TARGET_KIND"@, dispatch.target_kind.name()),
            )
            &&& repository ==> environment.contains(
                sandbox::env_var("ELOWEN_REPO_NAME"@, dispatch.target_name@),
            )
            &&& !repository ==> environment.contains(
                sandbox::env_var("ELOWEN_CAPABILITY_NAME"@, dispatch.target_name@),
            )
            &&& dispatch.branch_name matches Some(branch) ==> environment.contains(
                sandbox::env_var("ELOWEN_BRANCH_NAME"@, branch@),
            )
            &&& dispatch.base_branch matches Some(branch) ==> environment.contains(
                sandbox::env_var("ELOWEN_BASE_BRANCH"@, branch@),
            )
            &&& forall|i: int|
                0 <= i < sandboxed.len() ==> environment[6 + i] == #[trigger] sandboxed[i]
            &&& environment.len() == 8 + sandboxed.len() + (if dispatch.branch_name is Some {
                1int
            } else {
                0
            }) + (if dispatch.base_branch is Some {
                1int
            } else {
                0
            })
        }),
{
    let job = job_variables(dispatch, policy);
    let sandboxed = sandbox::environment_of(style, policy@);
    let target = target_variables(dispatch);
    let environment = environment_for(style, dispatch, policy);
    assert(environment =~= job + sandboxed + target);
    assert(environment[0] == job[0] && environment[1] == job[1] && environment[2] == job[2]);
    assert(environment[3] == job[3] && environment[4] == job[4] && environment[5] == job[5]);
    assert forall|k: int| 0 <= k < target.len() implies environment.contains(
        #[trigger] target[k],
    ) by {
        assert(environment[6 + sandboxed.len() + k] == target[k]);
    }
    let named = sandbox::env_var("ELOWEN_JOB_TARGET_KIND"@, dispatch.target_kind.name());
    assert(target[0] == named);
    let repo = if dispatch.target_kind is Repository {
        1int
    } else {
        0
    };
    if dispatch.target_kind is Repository {
        assert(target[1] == sandbox::env_var("ELOWEN_REPO_NAME"@, dispatch.target_name@));
    } else {
        assert(target.last() == sandbox::env_var(
            "ELOWEN_CAPABILITY_NAME"@,
            dispatch.target_name@,
        ));
        assert(target[target.len() - 1] == target.last());
    }
    let branches = if dispatch.branch_name is Some {
        1int
    } else {
        0
    };
    if let Some(branch) = dispatch.branch_name {
        assert(target[1 + repo] == sandbox::env_var("ELOWEN_BRANCH_NAME"@, branch@));
    }
    if let Some(branch) = dispatch.base_branch {
        assert(target[1 + repo + branches] == sandbox::env_var("ELOWEN_BASE_BRANCH"@, branch@));
    }
}

/// What is started is the configured command, with the environment of the job.
pub proof fn the_configured_command_is_started(
    style: PathStyle,
    dispatch: JobDispatchMessage,
    policy: SandboxPolicy,
    command: Seq<char>,
    codex_args: Seq<Seq<char>>,
    resolved_worktree: Option<Seq<char>>,
)
    ensures
        codex_launch_of(
            style,
            dispatch,
            policy,
            command,
            codex_args,
            resolved_worktree,
        ) matches Ok(launch)
            ==> {
            &&& launch.command == command
            &&& launch.environment == environment_for(style, dispatch, policy)
            &&& launch.args.subrange(7, launch.args.len() - 1) == extra_args(codex_args)
        },
{
    if codex_args_check(codex_args) is Ok {
        codex_is_told_what_to_do(
            codex_args,
            policy.worktree_path@,
            paths_in(style, policy.worktree_path@).last_message_path,
            0,
        );
    }
}

/// Codex is asked for its version exactly where one is configured, its arguments are admitted, and
/// it is no shell; a shell is named in the refusal.
pub proof fn only_codex_itself_is_asked(
    style: PathStyle,
    command: Option<Seq<char>>,
    codex_args: Seq<Seq<char>>,
)
    ensures
        command is None ==> preflight_command(style, command, codex_args) == Ok::<
            Option<Seq<char>>,
            Seq<char>,
        >(None),
        command matches Some(program) ==> {
            &&& preflight_command(style, command, codex_args) is Ok <==> codex_args_check(
                codex_args,
            ) is Ok && !sandbox::is_shell(style, program)
            &&& preflight_command(style, command, codex_args) matches Ok(asked) ==> asked == Some(
                program,
            )
            &&& codex_args_check(codex_args) matches Err(message) ==> preflight_command(
                style,
                command,
                codex_args,
            ) == Err::<Option<Seq<char>>, Seq<char>>(message)
        },
{
}

/// Codex is there exactly where it was started and reported success; its version is what it printed.
pub proof fn versions_are_what_was_printed(command: Seq<char>, run: VersionRun)
    ensures
        codex_version(command, run) is Ok <==> run is Exited && run->success,
        codex_version(command, run) matches Ok(version) ==> version == text::truncated(
            encoding::lossy_text(run->stdout@),
            200,
        ),
        codex_version(command, run) matches Err(message) ==> {
            &&& text::contains_text(message, command)
            &&& run is Exited ==> run->status@.is_suffix_of(message)
        },
{
    text::parts_are_contained("failed to start configured Codex CLI `"@, command, "`"@);
    if let VersionRun::Exited { success, status, stdout } = run {
        let tail = "` failed preflight with status "@;
        let head = "configured Codex CLI `"@ + command + tail;
        text::parts_are_contained("configured Codex CLI `"@, command, tail);
        text::containing_grows(head, status@);
        text::parts_begin_and_end(head, status@);
    }
}

/// A run that fails says in words where.
pub proof fn failed_runs_say_where(
    style: PathStyle,
    policy: SandboxPolicy,
    command: Seq<char>,
    run: CodexRun,
)
    ensures
        codex_result(style, policy, command, run) matches Err(message) ==> {
            let files = paths_in(style, policy.worktree_path@);
            &&& run is PromptNotRead ==> message == "failed to read "@ + files.prompt_path
            &&& run is NotStarted ==> message == "failed to start Codex CLI `"@ + command + "`"@
            &&& run is NoInput ==> message == "failed to open stdin for Codex CLI process"@
            &&& run is PromptNotSent ==> message == "failed to send prompt to Codex CLI"@
            &&& run is NotAwaited ==> message == "failed while waiting for Codex CLI `"@ + command
                + "`"@
            &&& run is OutputNotWritten ==> message == "failed to write "@ + files.output_path
            &&& run is ErrorsNotWritten ==> message == "failed to write "@ + files.error_path
            &&& run matches CodexRun::Exited { status, .. } ==> message
                == "Codex CLI failed with status "@ + status@ + ". See "@ + files.output_path
                + " and "@ + files.error_path
        },
{
}

/// An argument or a command that is refused is refused in words that name it.
pub proof fn refusals_say_what_is_wrong(
    style: PathStyle,
    arg: Seq<char>,
    program: Seq<char>,
    run: VersionRun,
)
    ensures
        codex_arg_check(arg) matches Err(message) ==> {
            let word = text::trim(arg);
            &&& is_codex_command(word) ==> message
                == "ELOWEN_CODEX_ARGS_JSON should contain extra Codex exec flags only; remove `"@
                + word + "`"@
            &&& !is_codex_command(word) && is_managed_flag(word) ==> message
                == "ELOWEN_CODEX_ARGS_JSON must not include `"@ + word
                + "` because elowen-edge manages the working directory and output paths"@
            &&& !is_codex_command(word) && !is_managed_flag(word) ==> message
                == "ELOWEN_CODEX_ARGS_JSON must not override Codex working directory or output file paths"@
        },
        preflight_command(style, Some(program), Seq::empty()) matches Err(message) ==> message
            == "sandbox blocked: "@ + ("configured Codex command `"@ + program
            + "` is not allowed; point ELOWEN_CODEX_COMMAND at the Codex binary directly"@),
        codex_version(program, run) matches Err(message) ==> match run {
            VersionRun::NotStarted => message == "failed to start configured Codex CLI `"@ + program
                + "`"@,
            VersionRun::Exited { status, .. } => message == "configured Codex CLI `"@ + program
                + "` failed preflight with status "@ + status@,
        },
{
}

/// What is shown of a value is what it holds, field by field.
pub proof fn what_is_held_is_shown(
    codex_paths: CodexPaths,
    codex_launch: CodexLaunch,
)
    ensures
        codex_paths@.prompt_path == codex_paths.prompt_path@,
        codex_paths@.output_path == codex_paths.output_path@,
        codex_paths@.error_path == codex_paths.error_path@,
        codex_paths@.last_message_path == codex_paths.last_message_path@,
        codex_launch@.command == codex_launch.command@,
        codex_launch@.args == text::texts(codex_launch.args@),
        codex_launch@.working_dir == codex_launch.working_dir@,
        codex_launch@.environment == codex_launch.environment@.map_values(|item: EnvVar| item@),
{
}

} // verus!
