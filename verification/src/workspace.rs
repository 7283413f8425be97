//! The workspace of a job: a git worktree of its repository, or a plain directory for a
//! capability.

use vstd::prelude::*;

use crate::approval;
use crate::contracts::{JobDispatchMessage, JobTargetKind};
use crate::error;
use crate::error::EdgeError;
use crate::execution;
use crate::execution::ProcessRun;
use crate::paths;
use crate::paths::PathStyle;
use crate::text;
use crate::text::push_text;

verus! {

/// A repository root that a worktree can be made from, or the message of its refusal.
pub open spec fn repo_root_check(
    repo_name: Seq<char>,
    exists: bool,
    is_dir: bool,
    has_git: bool,
) -> Result<(), Seq<char>> {
    if !exists {
        Err("workspace repository `"@ + repo_name + "` was not found"@)
    } else if !is_dir {
        Err("workspace repository `"@ + repo_name + "` is not a directory"@)
    } else if !has_git {
        Err("workspace repository `"@ + repo_name + "` is not a git checkout"@)
    } else {
        Ok(())
    }
}

/// Whether a worktree can be made from a repository root, by what is there on disk.
pub fn ensure_repo_root(repo_name: &str, exists: bool, is_dir: bool, has_git: bool) -> (out: Result<
    (),
    EdgeError,
>)
    ensures
        error::verdict(out) == repo_root_check(repo_name@, exists, is_dir, has_git),
{
    let mut message = "workspace repository `".to_owned();
    message.append(repo_name);
    if !exists {
        message.append("` was not found");
    } else if !is_dir {
        message.append("` is not a directory");
    } else if !has_git {
        message.append("` is not a git checkout");
    } else {
        return Ok(());
    }
    Err(EdgeError::of(message))
}

/// The directory that holds the workspaces of a job's target.
pub open spec fn workspace_parent(
    style: PathStyle,
    dispatch: JobDispatchMessage,
    worktree_root: Seq<char>,
) -> Seq<
    char,
> {
    if dispatch.target_kind is Repository {
        paths::join(style, worktree_root, dispatch.target_name@)
    } else {
        paths::join(style, worktree_root, "_capability"@)
    }
}

/// The workspace of a job.
pub open spec fn workspace_path(
    style: PathStyle,
    dispatch: JobDispatchMessage,
    worktree_root: Seq<char>,
) -> Seq<
    char,
> {
    paths::join(style, workspace_parent(style, dispatch, worktree_root), dispatch.short_id@)
}

/// The directory that holds the workspaces of a job's target.
pub fn parent_of_workspace(
    style: PathStyle,
    dispatch: &JobDispatchMessage,
    worktree_root: &str,
) -> (out: String)
    ensures
        out@ == workspace_parent(style, *dispatch, worktree_root@),
{
    match dispatch.target_kind {
        JobTargetKind::Repository => paths::join_path(style, worktree_root, dispatch.target_name()),
        JobTargetKind::Capability => paths::join_path(style, worktree_root, "_capability"),
    }
}

/// The workspace of a job.
pub fn path_of_workspace(
    style: PathStyle,
    dispatch: &JobDispatchMessage,
    worktree_root: &str,
) -> (out: String)
    ensures
        out@ == workspace_path(style, *dispatch, worktree_root@),
{
    paths::join_path(
        style,
        &parent_of_workspace(style, dispatch, worktree_root),
        &dispatch.short_id,
    )
}

/// A push looks for the worktree of a repository job where the job put it.
pub proof fn pushes_find_the_worktree(
    style: PathStyle,
    dispatch: JobDispatchMessage,
    worktree_root: Seq<char>,
)
    requires
        dispatch.target_kind is Repository,
    ensures
        workspace_path(style, dispatch, worktree_root) == approval::worktree_of(
            style,
            worktree_root,
            dispatch.target_name@,
            dispatch.short_id@,
        ),
{
}

/// What the creation of a workspace waits for.
#[derive(Clone, Debug, PartialEq, Eq)]
pub enum WorkspacePhase {
    /// The repository is being looked for.
    Locating { branch: String, base: String },
    /// The repository is being looked at.
    Inspecting { branch: String, base: String, repo_root: String },
    /// The directory above the worktree is being created.
    CreatingParent { branch: String, base: String, repo_root: String },
    /// A former worktree is being looked for.
    Checking { branch: String, base: String, repo_root: String },
    /// A former worktree is being removed.
    Clearing { branch: String, base: String, repo_root: String },
    /// The worktree is being added.
    Adding,
    /// The directory above a capability workspace is being created.
    CreatingHall,
    /// A former capability workspace is being looked for.
    CheckingRoom,
    /// A former capability workspace is being removed.
    ClearingRoom,
    /// The capability workspace is being created.
    CreatingRoom,
    /// The request of the job is being written.
    WritingRequest,
    /// The metadata of the job are being written.
    WritingMetadata,
    /// Nothing: the creation has ended.
    Ended,
}

/// The contents of a [`WorkspacePhase`].
pub enum WorkspacePhaseView {
    Locating { branch: Seq<char>, base: Seq<char> },
    Inspecting { branch: Seq<char>, base: Seq<char>, repo_root: Seq<char> },
    CreatingParent { branch: Seq<char>, base: Seq<char>, repo_root: Seq<char> },
    Checking { branch: Seq<char>, base: Seq<char>, repo_root: Seq<char> },
    Clearing { branch: Seq<char>, base: Seq<char>, repo_root: Seq<char> },
    Adding,
    CreatingHall,
    CheckingRoom,
    ClearingRoom,
    CreatingRoom,
    WritingRequest,
    WritingMetadata,
    Ended,
}

impl View for WorkspacePhase {
    type V = WorkspacePhaseView;

    open spec fn view(&self) -> WorkspacePhaseView {
        match *self {
            WorkspacePhase::Locating { branch, base } => WorkspacePhaseView::Locating {
                branch: branch@,
                base: base@,
            },
            WorkspacePhase::Inspecting { branch, base, repo_root } => WorkspacePhaseView::Inspecting {
                branch: branch@,
                base: base@,
                repo_root: repo_root@,
            },
            WorkspacePhase::CreatingParent { branch, base, repo_root } => WorkspacePhaseView::CreatingParent {
                branch: branch@,
                base: base@,
                repo_root: repo_root@,
            },
            WorkspacePhase::Checking { branch, base, repo_root } => WorkspacePhaseView::Checking {
                branch: branch@,
                base: base@,
                repo_root: repo_root@,
            },
            WorkspacePhase::Clearing { branch, base, repo_root } => WorkspacePhaseView::Clearing {
                branch: branch@,
                base: base@,
                repo_root: repo_root@,
            },
            WorkspacePhase::Adding => WorkspacePhaseView::Adding,
            WorkspacePhase::CreatingHall => WorkspacePhaseView::CreatingHall,
            WorkspacePhase::CheckingRoom => WorkspacePhaseView::CheckingRoom,
            WorkspacePhase::ClearingRoom => WorkspacePhaseView::ClearingRoom,
            WorkspacePhase::CreatingRoom => WorkspacePhaseView::CreatingRoom,
            WorkspacePhase::WritingRequest => WorkspacePhaseView::WritingRequest,
            WorkspacePhase::WritingMetadata => WorkspacePhaseView::WritingMetadata,
            WorkspacePhase::Ended => WorkspacePhaseView::Ended,
        }
    }
}

/// What is to be done next for a workspace.
#[derive(Clone, Debug, PartialEq, Eq)]
pub enum WorkspaceAction {
    /// A repository is to be looked for.
    Locate { repo_name: String },
    /// A repository root is to be looked at.
    Inspect { repo_root: String },
    /// A directory is to be created, with those above it.
    CreateDirectory { path: String },
    /// A path is to be looked for.
    Check { path: String },
    /// `git` is to be run with these arguments, and then the directory removed.
    RemoveWorktree { args: Vec<String>, path: String },
    /// A directory is to be removed.
    RemoveDirectory { path: String },
    /// `git` is to be run with these arguments.
    AddWorktree { args: Vec<String> },
    /// A file is to be written.
    WriteFile { path: String, body: String },
    /// The metadata of the job are to be written to a file.
    WriteMetadata { path: String },
    /// The workspace is ready.
    Finish { path: String },
    /// The workspace cannot be created.
    BreakOff { error: String },
    /// Nothing: what was reported is not what the workspace waits for.
    Wait,
}

/// The contents of a [`WorkspaceAction`].
pub enum WorkspaceActionView {
    Locate { repo_name: Seq<char> },
    Inspect { repo_root: Seq<char> },
    CreateDirectory { path: Seq<char> },
    Check { path: Seq<char> },
    RemoveWorktree { args: Seq<Seq<char>>, path: Seq<char> },
    RemoveDirectory { path: Seq<char> },
    AddWorktree { args: Seq<Seq<char>> },
    WriteFile { path: Seq<char>, body: Seq<char> },
    WriteMetadata { path: Seq<char> },
    Finish { path: Seq<char> },
    BreakOff { error: Seq<char> },
    Wait,
}

impl View for WorkspaceAction {
    type V = WorkspaceActionView;

    open spec fn view(&self) -> WorkspaceActionView {
        match *self {
            WorkspaceAction::Locate { repo_name } => WorkspaceActionView::Locate {
                repo_name: repo_name@,
            },
            WorkspaceAction::Inspect { repo_root } => WorkspaceActionView::Inspect {
                repo_root: repo_root@,
            },
            WorkspaceAction::CreateDirectory { path } => WorkspaceActionView::CreateDirectory {
                path: path@,
            },
            WorkspaceAction::Check { path } => WorkspaceActionView::Check {
                path: path@,
            },
            WorkspaceAction::RemoveWorktree { args, path } => WorkspaceActionView::RemoveWorktree {
                args: text::texts(args@),
                path: path@,
            },
            WorkspaceAction::RemoveDirectory { path } => WorkspaceActionView::RemoveDirectory {
                path: path@,
            },
            WorkspaceAction::AddWorktree { args } => WorkspaceActionView::AddWorktree {
                args: text::texts(args@),
            },
            WorkspaceAction::WriteFile { path, body } => WorkspaceActionView::WriteFile {
                path: path@,
                body: body@,
            },
            WorkspaceAction::WriteMetadata { path } => WorkspaceActionView::WriteMetadata {
                path: path@,
            },
            WorkspaceAction::Finish { path } => WorkspaceActionView::Finish {
                path: path@,
            },
            WorkspaceAction::BreakOff { error } => WorkspaceActionView::BreakOff {
                error: error@,
            },
            WorkspaceAction::Wait => WorkspaceActionView::Wait,
        }
    }
}

/// How the writing of a file ended.
#[derive(Clone, Copy, Debug, PartialEq, Eq, Structural)]
pub enum WriteResult {
    /// The file was written.
    Written,
    /// Its contents could not be put into words.
    NotSerialized,
    /// It could not be created.
    NotCreated,
    /// It could not be filled.
    NotWritten,
}

/// What was done for a workspace.
pub enum WorkspaceInput {
    /// The repository was found.
    Located { repo_root: String },
    /// The repository was not found.
    NotLocated { error: EdgeError },
    /// The repository root was looked at.
    Inspected { exists: bool, is_dir: bool, has_git: bool },
    /// The directory was created, or could not be.
    DirectoryCreated { created: bool },
    /// The path was looked for.
    Checked { exists: bool },
    /// What stood in the way was removed, as far as it could be.
    Cleared,
    /// The worktree was added, or could not be.
    Added { run: ProcessRun },
    /// The file was written, or could not be.
    FileWritten { result: WriteResult },
}

/// The end of a creation that failed.
pub open spec fn broken(error: Seq<char>) -> (WorkspacePhaseView, WorkspaceActionView) {
    (WorkspacePhaseView::Ended, WorkspaceActionView::BreakOff { error })
}

/// The first step towards a workspace.
pub open spec fn first_workspace_step(
    style: PathStyle,
    dispatch: JobDispatchMessage,
    worktree_root: Seq<char>,
) -> (WorkspacePhaseView, WorkspaceActionView) {
    match dispatch.target_kind {
        JobTargetKind::Repository => match (
            text::opt_text(dispatch.branch_name),
            text::opt_text(dispatch.base_branch),
        ) {
            (None, _) => broken("repository dispatch is missing branch_name"@),
            (Some(_), None) => broken("repository dispatch is missing base_branch"@),
            (Some(branch), Some(base)) => (
                WorkspacePhaseView::Locating { branch, base },
                WorkspaceActionView::Locate { repo_name: dispatch.target_name@ },
            ),
        },
        JobTargetKind::Capability => (
            WorkspacePhaseView::CreatingHall,
            WorkspaceActionView::CreateDirectory { path: workspace_parent(
                style,
                dispatch,
                worktree_root,
            ) },
        ),
    }
}

/// The end of a creation that failed.
fn break_off(error: String) -> (step: (WorkspacePhase, WorkspaceAction))
    ensures
        (step.0@, step.1@) == broken(error@),
{
    (WorkspacePhase::Ended, WorkspaceAction::BreakOff { error })
}

/// The first step towards the workspace of a job.
pub fn create_execution_workspace(
    style: PathStyle,
    dispatch: &JobDispatchMessage,
    worktree_root: &str,
) -> (step: (
    WorkspacePhase,
    WorkspaceAction,
))
    ensures
        (step.0@, step.1@) == first_workspace_step(style, *dispatch, worktree_root@),
{
    match dispatch.target_kind {
        JobTargetKind::Repository => match (&dispatch.branch_name, &dispatch.base_branch) {
            (None, _) => break_off("repository dispatch is missing branch_name".to_owned()),
            (Some(_), None) => break_off("repository dispatch is missing base_branch".to_owned()),
            (Some(branch), Some(base)) => (
                WorkspacePhase::Locating { branch: branch.clone(), base: base.clone() },
                WorkspaceAction::Locate { repo_name: dispatch.target_name().to_owned() },
            ),
        },
        JobTargetKind::Capability => (
            WorkspacePhase::CreatingHall,
            WorkspaceAction::CreateDirectory { path: parent_of_workspace(
                style,
                dispatch,
                worktree_root,
            ) },
        ),
    }
}

/// The arguments of the `git` command that adds a worktree.
pub open spec fn add_args(
    repo_root: Seq<char>,
    branch: Seq<char>,
    path: Seq<char>,
    base: Seq<char>,
) -> Seq<Seq<char>> {
    seq!["-C"@, repo_root, "worktree"@, "add"@, "--force"@, "-B"@, branch, path, base]
}

/// The arguments of the `git` command that removes a worktree.
pub open spec fn remove_args(repo_root: Seq<char>, path: Seq<char>) -> Seq<Seq<char>> {
    seq!["-C"@, repo_root, "worktree"@, "remove"@, "--force"@, path]
}

/// The step at which the worktree is added.
pub open spec fn adding_step(
    style: PathStyle,
    dispatch: JobDispatchMessage,
    worktree_root: Seq<char>,
    branch: Seq<char>,
    base: Seq<char>,
    repo_root: Seq<char>,
) -> (WorkspacePhaseView, WorkspaceActionView) {
    (
        WorkspacePhaseView::Adding,
        WorkspaceActionView::AddWorktree {
            args: add_args(repo_root, branch, workspace_path(style, dispatch, worktree_root), base),
        },
    )
}

/// The step at which the capability workspace is created.
pub open spec fn room_step(
    style: PathStyle,
    dispatch: JobDispatchMessage,
    worktree_root: Seq<char>,
) -> (
    WorkspacePhaseView,
    WorkspaceActionView,
) {
    (
        WorkspacePhaseView::CreatingRoom,
        WorkspaceActionView::CreateDirectory { path: workspace_path(
            style,
            dispatch,
            worktree_root,
        ) },
    )
}

/// The step at which the request is written.
pub open spec fn request_step(
    style: PathStyle,
    dispatch: JobDispatchMessage,
    worktree_root: Seq<char>,
) -> (
    WorkspacePhaseView,
    WorkspaceActionView,
) {
    (
        WorkspacePhaseView::WritingRequest,
        WorkspaceActionView::WriteFile {
            path: paths::join(
                style,
                workspace_path(style, dispatch, worktree_root),
                "elowen-job-request.md"@,
            ),
            body: execution::request_body(dispatch),
        },
    )
}

/// Where the metadata of a job are written.
pub open spec fn metadata_path(
    style: PathStyle,
    dispatch: JobDispatchMessage,
    worktree_root: Seq<char>,
) -> Seq<char> {
    paths::join(style, workspace_path(style, dispatch, worktree_root), ".elowen-job.json"@)
}

/// The step that follows the creation of a directory.
pub open spec fn after_directory(
    style: PathStyle,
    dispatch: JobDispatchMessage,
    worktree_root: Seq<char>,
    phase: WorkspacePhaseView,
    created: bool,
) -> (WorkspacePhaseView, WorkspaceActionView) {
    let parent = workspace_parent(style, dispatch, worktree_root);
    let path = workspace_path(style, dispatch, worktree_root);
    match phase {
        WorkspacePhaseView::CreatingParent { branch, base, repo_root } => if created {
            (
                WorkspacePhaseView::Checking { branch, base, repo_root },
                WorkspaceActionView::Check { path },
            )
        } else {
            broken("failed to create worktree parent "@ + parent)
        },
        WorkspacePhaseView::CreatingHall => if created {
            (WorkspacePhaseView::CheckingRoom, WorkspaceActionView::Check { path })
        } else {
            broken("failed to create capability workspace parent "@ + parent)
        },
        WorkspacePhaseView::CreatingRoom => if created {
            request_step(style, dispatch, worktree_root)
        } else {
            broken("failed to create "@ + path)
        },
        _ => (phase, WorkspaceActionView::Wait),
    }
}

/// The step that follows the writing of a file.
pub open spec fn after_file(
    style: PathStyle,
    dispatch: JobDispatchMessage,
    worktree_root: Seq<char>,
    phase: WorkspacePhaseView,
    result: WriteResult,
) -> (WorkspacePhaseView, WorkspaceActionView) {
    let request = paths::join(
        style,
        workspace_path(style, dispatch, worktree_root),
        "elowen-job-request.md"@,
    );
    let metadata = metadata_path(style, dispatch, worktree_root);
    match phase {
        WorkspacePhaseView::WritingRequest => if result is Written {
            (
                WorkspacePhaseView::WritingMetadata,
                WorkspaceActionView::WriteMetadata { path: metadata },
            )
        } else {
            broken("failed to write "@ + request)
        },
        WorkspacePhaseView::WritingMetadata => match result {
            WriteResult::Written => (
                WorkspacePhaseView::Ended,
                WorkspaceActionView::Finish { path: workspace_path(
                    style,
                    dispatch,
                    worktree_root,
                ) },
            ),
            WriteResult::NotSerialized => broken("failed to serialize job metadata"@),
            WriteResult::NotCreated => broken("failed to create "@ + metadata),
            WriteResult::NotWritten => broken("failed to write "@ + metadata),
        },
        _ => (phase, WorkspaceActionView::Wait),
    }
}

/// The step that follows what was done for a workspace.
pub open spec fn next_workspace_step(
    style: PathStyle,
    dispatch: JobDispatchMessage,
    worktree_root: Seq<char>,
    phase: WorkspacePhaseView,
    input: WorkspaceInput,
) -> (WorkspacePhaseView, WorkspaceActionView) {
    match (phase, input) {
        (WorkspacePhaseView::Locating { branch, base }, WorkspaceInput::Located { repo_root }) => (
            WorkspacePhaseView::Inspecting { branch, base, repo_root: repo_root@ },
            WorkspaceActionView::Inspect { repo_root: repo_root@ },
        ),
        (WorkspacePhaseView::Locating { .. }, WorkspaceInput::NotLocated { error }) => broken(
            error@,
        ),
        (
            WorkspacePhaseView::Inspecting { branch, base, repo_root },
            WorkspaceInput::Inspected { exists, is_dir, has_git },
        ) => match repo_root_check(dispatch.target_name@, exists, is_dir, has_git) {
            Err(message) => broken(message),
            Ok(_) => (
                WorkspacePhaseView::CreatingParent { branch, base, repo_root },
                WorkspaceActionView::CreateDirectory {
                    path: workspace_parent(style, dispatch, worktree_root),
                },
            ),
        },
        (_, WorkspaceInput::DirectoryCreated { created }) => after_directory(
            style,
            dispatch,
            worktree_root,
            phase,
            created,
        ),
        (
            WorkspacePhaseView::Checking { branch, base, repo_root },
            WorkspaceInput::Checked { exists },
        ) => if exists {
            let path = workspace_path(style, dispatch, worktree_root);
            (
                WorkspacePhaseView::Clearing { branch, base, repo_root },
                WorkspaceActionView::RemoveWorktree { args: remove_args(repo_root, path), path },
            )
        } else {
            adding_step(style, dispatch, worktree_root, branch, base, repo_root)
        },
        (WorkspacePhaseView::Clearing { branch, base, repo_root }, WorkspaceInput::Cleared) =>
            adding_step(style, dispatch, worktree_root, branch, base, repo_root),
        (WorkspacePhaseView::Adding, WorkspaceInput::Added { run }) => match run {
            ProcessRun::NotRun => broken(
                "failed to create worktree for "@ + dispatch.target_name@,
            ),
            ProcessRun::Exited { success, stdout, stderr } => if success {
                request_step(style, dispatch, worktree_root)
            } else {
                broken(
                    "git worktree add failed: "@ + execution::output_summary(stdout@, stderr@),
                )
            },
        },
        (WorkspacePhaseView::CheckingRoom, WorkspaceInput::Checked { exists }) => if exists {
            (
                WorkspacePhaseView::ClearingRoom,
                WorkspaceActionView::RemoveDirectory {
                    path: workspace_path(style, dispatch, worktree_root),
                },
            )
        } else {
            room_step(style, dispatch, worktree_root)
        },
        (WorkspacePhaseView::ClearingRoom, WorkspaceInput::Cleared) => room_step(
            style,
            dispatch,
            worktree_root,
        ),
        (_, WorkspaceInput::FileWritten { result }) => after_file(
            style,
            dispatch,
            worktree_root,
            phase,
            result,
        ),
        _ => (phase, WorkspaceActionView::Wait),
    }
}

/// The step at which the worktree is added.
fn create_worktree(
    style: PathStyle,
    dispatch: &JobDispatchMessage,
    worktree_root: &str,
    branch: String,
    base: String,
    repo_root: String,
) -> (step: (WorkspacePhase, WorkspaceAction))
    ensures
        (step.0@, step.1@) == adding_step(
            style,
            *dispatch,
            worktree_root@,
            branch@,
            base@,
            repo_root@,
        ),
{
    let ghost wanted = add_args(
        repo_root@,
        branch@,
        workspace_path(style, *dispatch, worktree_root@),
        base@,
    );
    let mut args: Vec<String> = Vec::new();
    push_text(&mut args, "-C".to_owned());
    push_text(&mut args, repo_root);
    push_text(&mut args, "worktree".to_owned());
    push_text(&mut args, "add".to_owned());
    push_text(&mut args, "--force".to_owned());
    push_text(&mut args, "-B".to_owned());
    push_text(&mut args, branch);
    push_text(&mut args, path_of_workspace(style, dispatch, worktree_root));
    push_text(&mut args, base);
    assert(text::texts(args@) == wanted);
    (WorkspacePhase::Adding, WorkspaceAction::AddWorktree { args })
}

/// The step at which the capability workspace is created.
fn create_capability_workspace(
    style: PathStyle,
    dispatch: &JobDispatchMessage,
    worktree_root: &str,
) -> (step: (
    WorkspacePhase,
    WorkspaceAction,
))
    ensures
        (step.0@, step.1@) == room_step(style, *dispatch, worktree_root@),
{
    (
        WorkspacePhase::CreatingRoom,
        WorkspaceAction::CreateDirectory { path: path_of_workspace(
            style,
            dispatch,
            worktree_root,
        ) },
    )
}

/// The step at which the request is written.
fn write_request(style: PathStyle, dispatch: &JobDispatchMessage, worktree_root: &str) -> (step: (
    WorkspacePhase,
    WorkspaceAction,
))
    ensures
        (step.0@, step.1@) == request_step(style, *dispatch, worktree_root@),
{
    let workspace = path_of_workspace(style, dispatch, worktree_root);
    let (path, body) = execution::write_job_request_files(style, dispatch, &workspace);
    (WorkspacePhase::WritingRequest, WorkspaceAction::WriteFile { path, body })
}

/// The step that follows the creation of a directory.
fn step_after_directory(
    style: PathStyle,
    dispatch: &JobDispatchMessage,
    worktree_root: &str,
    phase: WorkspacePhase,
    created: bool,
) -> (step: (WorkspacePhase, WorkspaceAction))
    ensures
        (step.0@, step.1@) == after_directory(style, *dispatch, worktree_root@, phase@, created),
{
    let parent = parent_of_workspace(style, dispatch, worktree_root);
    let path = path_of_workspace(style, dispatch, worktree_root);
    match phase {
        WorkspacePhase::CreatingParent { branch, base, repo_root } => if created {
            (
                WorkspacePhase::Checking { branch, base, repo_root },
                WorkspaceAction::Check { path },
            )
        } else {
            break_off(text::message_about("failed to create worktree parent ", &parent))
        },
        WorkspacePhase::CreatingHall => if created {
            (WorkspacePhase::CheckingRoom, WorkspaceAction::Check { path })
        } else {
            break_off(text::message_about("failed to create capability workspace parent ", &parent))
        },
        WorkspacePhase::CreatingRoom => if created {
            write_request(style, dispatch, worktree_root)
        } else {
            break_off(text::message_about("failed to create ", &path))
        },
        other => (other, WorkspaceAction::Wait),
    }
}

/// The step that follows the writing of a file.
fn step_after_file(
    style: PathStyle,
    dispatch: &JobDispatchMessage,
    worktree_root: &str,
    phase: WorkspacePhase,
    result: WriteResult,
) -> (step: (WorkspacePhase, WorkspaceAction))
    ensures
        (step.0@, step.1@) == after_file(style, *dispatch, worktree_root@, phase@, result),
{
    let workspace = path_of_workspace(style, dispatch, worktree_root);
    let request = paths::join_path(style, &workspace, "elowen-job-request.md");
    let metadata = paths::join_path(style, &workspace, ".elowen-job.json");
    match phase {
        WorkspacePhase::WritingRequest => match result {
            WriteResult::Written => (
                WorkspacePhase::WritingMetadata,
                WorkspaceAction::WriteMetadata { path: metadata },
            ),
            _ => break_off(text::message_about("failed to write ", &request)),
        },
        WorkspacePhase::WritingMetadata => match result {
            WriteResult::Written => (
                WorkspacePhase::Ended,
                WorkspaceAction::Finish { path: workspace },
            ),
            WriteResult::NotSerialized => break_off("failed to serialize job metadata".to_owned()),
            WriteResult::NotCreated => break_off(text::message_about("failed to create ", &metadata)),
            WriteResult::NotWritten => break_off(text::message_about("failed to write ", &metadata)),
        },
        other => (other, WorkspaceAction::Wait),
    }
}

/// The step that follows what was done for the workspace of a job.
pub fn advance_workspace(
    style: PathStyle,
    dispatch: &JobDispatchMessage,
    worktree_root: &str,
    phase: WorkspacePhase,
    input: WorkspaceInput,
) -> (step: (WorkspacePhase, WorkspaceAction))
    ensures
        (step.0@, step.1@) == next_workspace_step(style, *dispatch, worktree_root@, phase@, input),
{
    match (phase, input) {
        (WorkspacePhase::Locating { branch, base }, WorkspaceInput::Located { repo_root }) => {
            let again = repo_root.clone();
            (
                WorkspacePhase::Inspecting { branch, base, repo_root },
                WorkspaceAction::Inspect { repo_root: again },
            )
        },
        (WorkspacePhase::Locating { .. }, WorkspaceInput::NotLocated { error }) => break_off(
            error.message,
        ),
        (
            WorkspacePhase::Inspecting { branch, base, repo_root },
            WorkspaceInput::Inspected { exists, is_dir, has_git },
        ) => match ensure_repo_root(dispatch.target_name(), exists, is_dir, has_git) {
            Err(error) => break_off(error.message),
            Ok(_) => (
                WorkspacePhase::CreatingParent { branch, base, repo_root },
                WorkspaceAction::CreateDirectory {
                    path: parent_of_workspace(style, dispatch, worktree_root),
                },
            ),
        },
        (phase, WorkspaceInput::DirectoryCreated { created }) => step_after_directory(
            style,
            dispatch,
            worktree_root,
            phase,
            created,
        ),
        (
            WorkspacePhase::Checking { branch, base, repo_root },
            WorkspaceInput::Checked { exists },
        ) => {
            if !exists {
                return create_worktree(style, dispatch, worktree_root, branch, base, repo_root);
            }
            let path = path_of_workspace(style, dispatch, worktree_root);
            let mut args: Vec<String> = Vec::new();
            push_text(&mut args, "-C".to_owned());
            push_text(&mut args, repo_root.clone());
            push_text(&mut args, "worktree".to_owned());
            push_text(&mut args, "remove".to_owned());
            push_text(&mut args, "--force".to_owned());
            push_text(&mut args, path.clone());
            assert(text::texts(args@) == remove_args(repo_root@, path@));
            (
                WorkspacePhase::Clearing { branch, base, repo_root },
                WorkspaceAction::RemoveWorktree { args, path },
            )
        },
        (WorkspacePhase::Clearing { branch, base, repo_root }, WorkspaceInput::Cleared) =>
            create_worktree(style, dispatch, worktree_root, branch, base, repo_root),
        (WorkspacePhase::Adding, WorkspaceInput::Added { run }) => match run {
            ProcessRun::NotRun => break_off(
                text::message_about("failed to create worktree for ", dispatch.target_name()),
            ),
            ProcessRun::Exited { success, stdout, stderr } => if success {
                write_request(style, dispatch, worktree_root)
            } else {
                let summary = execution::summarize_command_output(
                    stdout.as_slice(),
                    stderr.as_slice(),
                );
                break_off(text::message_about("git worktree add failed: ", &summary))
            },
        },
        (WorkspacePhase::CheckingRoom, WorkspaceInput::Checked { exists }) => if exists {
            (
                WorkspacePhase::ClearingRoom,
                WorkspaceAction::RemoveDirectory {
                    path: path_of_workspace(style, dispatch, worktree_root),
                },
            )
        } else {
            create_capability_workspace(style, dispatch, worktree_root)
        },
        (WorkspacePhase::ClearingRoom, WorkspaceInput::Cleared) => create_capability_workspace(
            style,
            dispatch,
            worktree_root,
        ),
        (phase, WorkspaceInput::FileWritten { result }) => step_after_file(
            style,
            dispatch,
            worktree_root,
            phase,
            result,
        ),
        (other, _) => (other, WorkspaceAction::Wait),
    }
}

/// Whatever is removed to make room for a workspace is what stood at the place of that workspace,
/// and a workspace that is ready stands at its own place.
pub proof fn only_the_own_place_is_cleared(
    style: PathStyle,
    dispatch: JobDispatchMessage,
    worktree_root: Seq<char>,
    phase: WorkspacePhaseView,
    input: WorkspaceInput,
)
    ensures
        ({
            let action = next_workspace_step(style, dispatch, worktree_root, phase, input).1;
            let place = workspace_path(style, dispatch, worktree_root);
            &&& action matches WorkspaceActionView::RemoveWorktree { args, path } ==> {
                &&& path == place
                &&& args.last() == place
            }
            &&& action matches WorkspaceActionView::RemoveDirectory { path } ==> path == place
            &&& action matches WorkspaceActionView::Finish { path } ==> path == place
        }),
{
}

/// A workspace stands below the worktree root, under the repository or among the capability
/// workspaces, and bears the short name of its job.
pub proof fn workspaces_are_kept_apart(
    style: PathStyle,
    dispatch: JobDispatchMessage,
    worktree_root: Seq<char>,
)
    ensures
        ({
            let parent = workspace_parent(style, dispatch, worktree_root);
            &&& dispatch.target_kind is Repository ==> parent == paths::join(
                style,
                worktree_root,
                dispatch.target_name@,
            )
            &&& dispatch.target_kind is Capability ==> parent == paths::join(
                style,
                worktree_root,
                "_capability"@,
            )
            &&& workspace_path(style, dispatch, worktree_root) == paths::join(
                style,
                parent,
                dispatch.short_id@,
            )
            &&& metadata_path(style, dispatch, worktree_root) == paths::join(
                style,
                paths::join(style, parent, dispatch.short_id@),
                ".elowen-job.json"@,
            )
        }),
{
}

/// A repository is taken exactly where it exists, is a directory and is a checkout. A refusal names
/// it.
pub proof fn only_checkouts_are_taken(
    repo_name: Seq<char>,
    exists: bool,
    is_dir: bool,
    has_git: bool,
)
    ensures
        repo_root_check(repo_name, exists, is_dir, has_git) is Ok <==> exists && is_dir && has_git,
        repo_root_check(repo_name, exists, is_dir, has_git) matches Err(message) ==> {
            &&& ("workspace repository `"@ + repo_name).is_prefix_of(message)
            &&& !exists ==> "` was not found"@.is_suffix_of(message)
            &&& exists && !is_dir ==> "` is not a directory"@.is_suffix_of(message)
            &&& exists && is_dir ==> "` is not a git checkout"@.is_suffix_of(message)
        },
{
    let head = "workspace repository `"@ + repo_name;
    text::parts_begin_and_end(head, "` was not found"@);
    text::parts_begin_and_end(head, "` is not a directory"@);
    text::parts_begin_and_end(head, "` is not a git checkout"@);
}

/// A workspace for a repository begins with the repository that the job names, once both branches
/// are known; one for a capability begins with its directory.
pub proof fn workspaces_begin_with_their_target(
    style: PathStyle,
    dispatch: JobDispatchMessage,
    worktree_root: Seq<char>,
)
    ensures
        ({
            let (phase, action) = first_workspace_step(style, dispatch, worktree_root);
            &&& action is BreakOff <==> dispatch.target_kind is Repository && (
            dispatch.branch_name is None || dispatch.base_branch is None)
            &&& action is BreakOff ==> phase is Ended
            &&& dispatch.target_kind is Repository && dispatch.branch_name is Some
                && dispatch.base_branch is Some ==> {
                &&& phase == (WorkspacePhaseView::Locating {
                    branch: dispatch.branch_name->0@,
                    base: dispatch.base_branch->0@,
                })
                &&& action == (WorkspaceActionView::Locate { repo_name: dispatch.target_name@ })
            }
            &&& dispatch.target_kind is Capability ==> {
                &&& phase is CreatingHall
                &&& action == (WorkspaceActionView::CreateDirectory {
                    path: workspace_parent(style, dispatch, worktree_root),
                })
            }
        }),
{
}

/// A worktree is made by `git` in the repository that was found: on the branch of the job, from its
/// base, at its own place. A former one is removed from there first.
pub proof fn worktrees_are_made_from_their_base(
    style: PathStyle,
    dispatch: JobDispatchMessage,
    worktree_root: Seq<char>,
    branch: Seq<char>,
    base: Seq<char>,
    repo_root: Seq<char>,
    exists: bool,
)
    ensures
        ({
            let place = workspace_path(style, dispatch, worktree_root);
            let checked = next_workspace_step(
                style,
                dispatch,
                worktree_root,
                WorkspacePhaseView::Checking { branch, base, repo_root },
                WorkspaceInput::Checked { exists },
            );
            let cleared = next_workspace_step(
                style,
                dispatch,
                worktree_root,
                WorkspacePhaseView::Clearing { branch, base, repo_root },
                WorkspaceInput::Cleared,
            );
            &&& exists ==> {
                &&& checked.0 == (WorkspacePhaseView::Clearing { branch, base, repo_root })
                &&& checked.1 matches WorkspaceActionView::RemoveWorktree { args, path }
                &&& path == place
                &&& args == seq!["-C"@, repo_root, "worktree"@, "remove"@, "--force"@, place]
            }
            &&& !exists ==> checked == cleared
            &&& cleared.0 is Adding
            &&& cleared.1 matches WorkspaceActionView::AddWorktree { args }
            &&& args == seq![
                "-C"@,
                repo_root,
                "worktree"@,
                "add"@,
                "--force"@,
                "-B"@,
                branch,
                place,
                base,
            ]
        }),
{
}

/// A workspace is made step by step, and its branches and its repository are kept until the worktree
/// is added. Every failure breaks it off with a message that tells what failed.
pub proof fn workspaces_are_made_step_by_step(
    style: PathStyle,
    dispatch: JobDispatchMessage,
    worktree_root: Seq<char>,
    phase: WorkspacePhaseView,
    input: WorkspaceInput,
)
    ensures
        ({
            let (next, action) = next_workspace_step(
                style,
                dispatch,
                worktree_root,
                phase,
                input,
            );
            let parent = workspace_parent(style, dispatch, worktree_root);
            let place = workspace_path(style, dispatch, worktree_root);
            &&& action is BreakOff || action is Finish ==> next is Ended
            &&& action is Wait ==> next == phase
            &&& action is Finish <==> phase is WritingMetadata && input is FileWritten
                && input->result is Written
            &&& phase matches WorkspacePhaseView::Locating { branch, base } ==> {
                &&& input matches WorkspaceInput::Located { repo_root } ==> next == (
                WorkspacePhaseView::Inspecting { branch, base, repo_root: repo_root@ }) && action
                    == (WorkspaceActionView::Inspect { repo_root: repo_root@ })
                &&& input matches WorkspaceInput::NotLocated { error } ==> action == (
                WorkspaceActionView::BreakOff { error: error@ })
            }
            &&& phase matches WorkspacePhaseView::Inspecting { branch, base, repo_root } ==> (input
                matches WorkspaceInput::Inspected { exists, is_dir, has_git } ==> if exists
                && is_dir && has_git {
                next == (WorkspacePhaseView::CreatingParent { branch, base, repo_root }) && action
                    == (WorkspaceActionView::CreateDirectory { path: parent })
            } else {
                action is BreakOff
            })
            &&& input matches WorkspaceInput::DirectoryCreated { created } ==> {
                &&& phase matches WorkspacePhaseView::CreatingParent { branch, base, repo_root }
                    ==> if created {
                    next == (WorkspacePhaseView::Checking { branch, base, repo_root }) && action
                        == (WorkspaceActionView::Check { path: place })
                } else {
                    action is BreakOff && parent.is_suffix_of(action->BreakOff_error)
                }
                &&& phase is CreatingHall ==> if created {
                    next is CheckingRoom && action == (WorkspaceActionView::Check { path: place })
                } else {
                    action is BreakOff && parent.is_suffix_of(action->BreakOff_error)
                }
                &&& phase is CreatingRoom ==> if created {
                    next is WritingRequest && action is WriteFile
                } else {
                    action is BreakOff && place.is_suffix_of(action->BreakOff_error)
                }
            }
            &&& phase is Adding ==> (input matches WorkspaceInput::Added { run } ==> {
                &&& run is Exited && run->success ==> next is WritingRequest && action is WriteFile
                &&& run is NotRun ==> action is BreakOff && dispatch.target_name@.is_suffix_of(
                    action->BreakOff_error,
                )
                &&& run is Exited && !run->success ==> action is BreakOff
                    && execution::output_summary(run->stdout@, run->stderr@).is_suffix_of(
                    action->BreakOff_error,
                )
            })
            &&& phase is CheckingRoom ==> (input matches WorkspaceInput::Checked { exists }
                ==> if exists {
                next is ClearingRoom && action == (WorkspaceActionView::RemoveDirectory {
                    path: place,
                })
            } else {
                next is CreatingRoom && action == (WorkspaceActionView::CreateDirectory {
                    path: place,
                })
            })
            &&& phase is ClearingRoom && input is Cleared ==> next is CreatingRoom && action == (
            WorkspaceActionView::CreateDirectory { path: place })
            &&& action matches WorkspaceActionView::WriteFile { path, body } ==> {
                &&& path == paths::join(style, place, "elowen-job-request.md"@)
                &&& body == execution::request_body(dispatch)
            }
            &&& input matches WorkspaceInput::FileWritten { result } ==> {
                &&& phase is WritingRequest ==> if result is Written {
                    next is WritingMetadata && action == (WorkspaceActionView::WriteMetadata {
                        path: metadata_path(style, dispatch, worktree_root),
                    })
                } else {
                    action is BreakOff && paths::join(
                        style,
                        place,
                        "elowen-job-request.md"@,
                    ).is_suffix_of(action->BreakOff_error)
                }
                &&& phase is WritingMetadata ==> {
                    &&& result is Written ==> action == (WorkspaceActionView::Finish { path: place })
                    &&& !(result is Written) ==> action is BreakOff
                    &&& result is NotCreated || result is NotWritten ==> metadata_path(
                        style,
                        dispatch,
                        worktree_root,
                    ).is_suffix_of(action->BreakOff_error)
                }
            }
            &&& phase is Ended ==> next is Ended && action is Wait
        }),
{
    let parent = workspace_parent(style, dispatch, worktree_root);
    let place = workspace_path(style, dispatch, worktree_root);
    let metadata = metadata_path(style, dispatch, worktree_root);
    text::parts_begin_and_end("failed to create worktree parent "@, parent);
    text::parts_begin_and_end("failed to create capability workspace parent "@, parent);
    text::parts_begin_and_end("failed to create "@, place);
    text::parts_begin_and_end("failed to create "@, metadata);
    text::parts_begin_and_end("failed to write "@, metadata);
    text::parts_begin_and_end(
        "failed to write "@,
        paths::join(style, place, "elowen-job-request.md"@),
    );
    text::parts_begin_and_end("failed to create worktree for "@, dispatch.target_name@);
    if let WorkspaceInput::Added { run: ProcessRun::Exited { success, stdout, stderr } } = input {
        text::parts_begin_and_end(
            "git worktree add failed: "@,
            execution::output_summary(stdout@, stderr@),
        );
    }
}

/// A workspace that cannot be made says why.
pub proof fn broken_workspaces_say_why(
    style: PathStyle,
    dispatch: JobDispatchMessage,
    worktree_root: Seq<char>,
    phase: WorkspacePhaseView,
    input: WorkspaceInput,
)
    ensures
        first_workspace_step(style, dispatch, worktree_root).1 matches WorkspaceActionView::BreakOff {
            error,
        } ==> {
            &&& dispatch.branch_name is None ==> error
                == "repository dispatch is missing branch_name"@
            &&& dispatch.branch_name is Some ==> error
                == "repository dispatch is missing base_branch"@
        },
        next_workspace_step(
            style,
            dispatch,
            worktree_root,
            phase,
            input,
        ).1 matches WorkspaceActionView::BreakOff { error } ==> {
            let parent = workspace_parent(style, dispatch, worktree_root);
            let place = workspace_path(style, dispatch, worktree_root);
            &&& input is DirectoryCreated && phase is CreatingParent ==> error
                == "failed to create worktree parent "@ + parent
            &&& input is DirectoryCreated && phase is CreatingHall ==> error
                == "failed to create capability workspace parent "@ + parent
            &&& input is DirectoryCreated && phase is CreatingRoom ==> error
                == "failed to create "@ + place
            &&& phase is Adding ==> (input matches WorkspaceInput::Added { run } ==> match run {
                ProcessRun::NotRun => error == "failed to create worktree for "@
                    + dispatch.target_name@,
                ProcessRun::Exited { success, stdout, stderr } => error
                    == "git worktree add failed: "@ + execution::output_summary(stdout@, stderr@),
            })
            &&& phase is WritingRequest ==> error == "failed to write "@ + paths::join(
                style,
                place,
                "elowen-job-request.md"@,
            )
            &&& phase is WritingMetadata ==> (input matches WorkspaceInput::FileWritten { result }
                ==> {
                let metadata = metadata_path(style, dispatch, worktree_root);
                &&& result is NotSerialized ==> error == "failed to serialize job metadata"@
                &&& result is NotCreated ==> error == "failed to create "@ + metadata
                &&& result is NotWritten ==> error == "failed to write "@ + metadata
            })
        },
{
}

} // verus!
