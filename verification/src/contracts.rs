//! Messages exchanged with the orchestrator.

use vstd::prelude::*;

use crate::execution::{ExecutionReport, ExecutionReportView};
use crate::text;
use crate::timestamp::Timestamp;

verus! {

/// Whether a job may change the workspace it runs in.
#[derive(Clone, Copy, Debug, PartialEq, Eq, Structural)]
pub enum ExecutionIntent {
    WorkspaceChange,
    ReadOnly,
}

impl ExecutionIntent {
    /// The wire name of the intent.
    pub open spec fn name(self) -> Seq<char> {
        match self {
            ExecutionIntent::WorkspaceChange => "workspace_change"@,
            ExecutionIntent::ReadOnly => "read_only"@,
        }
    }

    /// The wire name of the intent.
    pub fn as_str(&self) -> (out: &'static str)
        ensures
            out@ == self.name(),
    {
        match self {
            ExecutionIntent::WorkspaceChange => "workspace_change",
            ExecutionIntent::ReadOnly => "read_only",
        }
    }
}

/// What a job is aimed at.
#[derive(Clone, Copy, Debug, PartialEq, Eq, Structural)]
pub enum JobTargetKind {
    Repository,
    Capability,
}

impl JobTargetKind {
    /// The wire name of the target kind.
    pub open spec fn name(self) -> Seq<char> {
        match self {
            JobTargetKind::Repository => "repository"@,
            JobTargetKind::Capability => "capability"@,
        }
    }

    /// The wire name of the target kind.
    pub fn as_str(&self) -> (out: &'static str)
        ensures
            out@ == self.name(),
    {
        match self {
            JobTargetKind::Repository => "repository",
            JobTargetKind::Capability => "capability",
        }
    }
}

/// Why a device presents its trust proof.
#[derive(Clone, Copy, Debug, PartialEq, Eq, Structural)]
pub enum RegistrationTrustIntent {
    Enroll,
    Rotate,
}

/// A job sent to this device.
#[derive(Clone, Debug, PartialEq, Eq)]
pub struct JobDispatchMessage {
    pub job_id: String,
    pub short_id: String,
    pub correlation_id: String,
    pub thread_id: String,
    pub title: String,
    pub device_id: String,
    pub target_kind: JobTargetKind,
    /// The repository or the capability that the job is aimed at.
    pub target_name: String,
    pub base_branch: Option<String>,
    pub branch_name: Option<String>,
    pub prompt: String,
    pub execution_intent: ExecutionIntent,
    pub dispatched_at: Timestamp,
}

impl JobDispatchMessage {
    /// The repository or the capability that the job is aimed at.
    pub fn target_name(&self) -> (out: &str)
        ensures
            out@ == self.target_name@,
    {
        self.target_name.as_str()
    }
}

/// An approval of an action that a finished job asked for.
#[derive(Clone, Debug, PartialEq, Eq)]
pub struct JobApprovalCommand {
    pub approval_id: String,
    pub job_id: String,
    pub short_id: String,
    pub correlation_id: String,
    pub device_id: String,
    pub action_type: String,
    pub target_name: Option<String>,
    pub branch_name: Option<String>,
}

/// Structured facts attached to a lifecycle event.
#[derive(Clone, Debug, PartialEq, Eq)]
pub enum EventPayload {
    /// The job that keeps the device busy.
    ActiveJob { active_job_id: String },
    /// What an accepted job is aimed at.
    Target { target_kind: JobTargetKind, target_name: String, branch_name: Option<String>, base_branch: Option<String> },
    /// The report of a finished job.
    Completed { summary_markdown: String, execution_report: ExecutionReport, push_required: bool },
    /// The action that waits for approval.
    ApprovalRequest { action_type: String, summary: String },
    /// The approved push that failed.
    PushFailed { approval_id: String, action_type: String, branch_name: Option<String> },
    /// The approved push that has begun.
    PushStarted { approval_id: String, action_type: String, branch_name: Option<String>, remote: String },
    /// The approved push that succeeded.
    PushCompleted { approval_id: String, action_type: String, branch_name: Option<String>, remote: String, stdout: String, stderr: String },
}

/// The contents of an [`EventPayload`].
pub enum EventPayloadView {
    ActiveJob { active_job_id: Seq<char> },
    Target { target_kind: JobTargetKind, target_name: Seq<char>, branch_name: Option<Seq<char>>, base_branch: Option<Seq<char>> },
    Completed { summary_markdown: Seq<char>, execution_report: ExecutionReportView, push_required: bool },
    ApprovalRequest { action_type: Seq<char>, summary: Seq<char> },
    PushFailed { approval_id: Seq<char>, action_type: Seq<char>, branch_name: Option<Seq<char>> },
    PushStarted { approval_id: Seq<char>, action_type: Seq<char>, branch_name: Option<Seq<char>>, remote: Seq<char> },
    PushCompleted { approval_id: Seq<char>, action_type: Seq<char>, branch_name: Option<Seq<char>>, remote: Seq<char>, stdout: Seq<char>, stderr: Seq<char> },
}

impl View for EventPayload {
    type V = EventPayloadView;

    open spec fn view(&self) -> EventPayloadView {
        match *self {
            EventPayload::ActiveJob { active_job_id } => EventPayloadView::ActiveJob {
                active_job_id: active_job_id@,
            },
            EventPayload::Target { target_kind, target_name, branch_name, base_branch } => EventPayloadView::Target {
                target_kind: target_kind,
                target_name: target_name@,
                branch_name: text::opt_text(branch_name),
                base_branch: text::opt_text(base_branch),
            },
            EventPayload::Completed { summary_markdown, execution_report, push_required } => EventPayloadView::Completed {
                summary_markdown: summary_markdown@,
                execution_report: execution_report@,
                push_required: push_required,
            },
            EventPayload::ApprovalRequest { action_type, summary } => EventPayloadView::ApprovalRequest {
                action_type: action_type@,
                summary: summary@,
            },
            EventPayload::PushFailed { approval_id, action_type, branch_name } => EventPayloadView::PushFailed {
                approval_id: approval_id@,
                action_type: action_type@,
                branch_name: text::opt_text(branch_name),
            },
            EventPayload::PushStarted { approval_id, action_type, branch_name, remote } => EventPayloadView::PushStarted {
                approval_id: approval_id@,
                action_type: action_type@,
                branch_name: text::opt_text(branch_name),
                remote: remote@,
            },
            EventPayload::PushCompleted { approval_id, action_type, branch_name, remote, stdout, stderr } => EventPayloadView::PushCompleted {
                approval_id: approval_id@,
                action_type: action_type@,
                branch_name: text::opt_text(branch_name),
                remote: remote@,
                stdout: stdout@,
                stderr: stderr@,
            },
        }
    }
}

/// A step in the life of a job, reported to the orchestrator.
#[derive(Clone, Debug, PartialEq, Eq)]
pub struct JobLifecycleEvent {
    pub job_id: String,
    pub correlation_id: String,
    pub device_id: String,
    pub event_type: String,
    pub status: Option<String>,
    pub result: Option<String>,
    pub failure_class: Option<String>,
    pub worktree_path: Option<String>,
    pub detail: Option<String>,
    pub payload: Option<EventPayload>,
    pub created_at: Timestamp,
}

/// The contents of a [`JobLifecycleEvent`].
pub struct JobLifecycleEventView {
    pub job_id: Seq<char>,
    pub correlation_id: Seq<char>,
    pub device_id: Seq<char>,
    pub event_type: Seq<char>,
    pub status: Option<Seq<char>>,
    pub result: Option<Seq<char>>,
    pub failure_class: Option<Seq<char>>,
    pub worktree_path: Option<Seq<char>>,
    pub detail: Option<Seq<char>>,
    pub payload: Option<EventPayloadView>,
    pub created_at: Timestamp,
}

impl View for JobLifecycleEvent {
    type V = JobLifecycleEventView;

    open spec fn view(&self) -> JobLifecycleEventView {
        JobLifecycleEventView {
            job_id: self.job_id@,
            correlation_id: self.correlation_id@,
            device_id: self.device_id@,
            event_type: self.event_type@,
            status: text::opt_text(self.status),
            result: text::opt_text(self.result),
            failure_class: text::opt_text(self.failure_class),
            worktree_path: text::opt_text(self.worktree_path),
            detail: text::opt_text(self.detail),
            payload: (match self.payload {
                Some(inner) => Some(inner@),
                None => None,
            }),
            created_at: self.created_at,
        }
    }
}

/// A question whether this device can take a job.
#[derive(Clone, Debug, PartialEq, Eq)]
pub struct AvailabilityProbeMessage {
    pub probe_id: String,
    pub job_id: Option<String>,
    pub device_id: String,
    pub sent_at: Timestamp,
}

/// The answer to an availability probe.
#[derive(Clone, Debug, PartialEq, Eq)]
pub struct AvailabilitySnapshot {
    pub probe_id: String,
    pub job_id: Option<String>,
    pub device_id: String,
    pub available: bool,
    pub reason: String,
    pub responded_at: Timestamp,
}

/// The contents of an [`AvailabilitySnapshot`].
pub struct AvailabilitySnapshotView {
    pub probe_id: Seq<char>,
    pub job_id: Option<Seq<char>>,
    pub device_id: Seq<char>,
    pub available: bool,
    pub reason: Seq<char>,
    pub responded_at: Timestamp,
}

impl View for AvailabilitySnapshot {
    type V = AvailabilitySnapshotView;

    open spec fn view(&self) -> AvailabilitySnapshotView {
        AvailabilitySnapshotView {
            probe_id: self.probe_id@,
            job_id: text::opt_text(self.job_id),
            device_id: self.device_id@,
            available: self.available,
            reason: self.reason@,
            responded_at: self.responded_at,
        }
    }
}

/// A repository that this device can work on.
#[derive(Clone, Debug, PartialEq, Eq)]
pub struct DeviceRepository {
    pub name: String,
    pub branches: Vec<String>,
}

/// The contents of a [`DeviceRepository`].
pub struct DeviceRepositoryView {
    pub name: Seq<char>,
    pub branches: Seq<Seq<char>>,
}

impl View for DeviceRepository {
    type V = DeviceRepositoryView;

    open spec fn view(&self) -> DeviceRepositoryView {
        DeviceRepositoryView {
            name: self.name@,
            branches: text::texts(self.branches@),
        }
    }
}

impl DeviceRepository {
    /// A copy with the same contents.
    pub fn copy(&self) -> (out: DeviceRepository)
        ensures
            out@ == self@,
    {
        DeviceRepository {
            name: self.name.clone(),
            branches: text::copy_list(&self.branches),
        }
    }
}

/// A challenge that the orchestrator signed for a registration.
#[derive(Clone, Debug, PartialEq, Eq)]
pub struct RegistrationChallengeResponse {
    pub challenge_id: String,
    pub challenge: String,
    pub issued_at: Timestamp,
    pub orchestrator_key_id: Option<String>,
    pub orchestrator_public_key: String,
    pub signature: String,
}

/// The proof that this device holds its key and accepts the orchestrator.
#[derive(Clone, Debug, PartialEq, Eq)]
pub struct DeviceRegistrationTrustProof {
    pub trusted_orchestrator_public_keys: Vec<String>,
    pub trusted_orchestrator_key_ids: Option<Vec<String>>,
    pub orchestrator_key_id: String,
    pub orchestrator_challenge_id: String,
    pub orchestrator_challenge: String,
    pub orchestrator_challenge_issued_at: Timestamp,
    pub orchestrator_public_key: String,
    pub orchestrator_signature: String,
    pub edge_public_key: String,
    pub edge_signature: String,
    pub registration_intent: RegistrationTrustIntent,
    pub previous_edge_public_key: Option<String>,
    pub previous_edge_signature: Option<String>,
    pub reenrollment_kind: Option<String>,
}

/// The contents of a [`DeviceRegistrationTrustProof`].
pub struct DeviceRegistrationTrustProofView {
    pub trusted_orchestrator_public_keys: Seq<Seq<char>>,
    pub trusted_orchestrator_key_ids: Option<Seq<Seq<char>>>,
    pub orchestrator_key_id: Seq<char>,
    pub orchestrator_challenge_id: Seq<char>,
    pub orchestrator_challenge: Seq<char>,
    pub orchestrator_challenge_issued_at: Timestamp,
    pub orchestrator_public_key: Seq<char>,
    pub orchestrator_signature: Seq<char>,
    pub edge_public_key: Seq<char>,
    pub edge_signature: Seq<char>,
    pub registration_intent: RegistrationTrustIntent,
    pub previous_edge_public_key: Option<Seq<char>>,
    pub previous_edge_signature: Option<Seq<char>>,
    pub reenrollment_kind: Option<Seq<char>>,
}

impl View for DeviceRegistrationTrustProof {
    type V = DeviceRegistrationTrustProofView;

    open spec fn view(&self) -> DeviceRegistrationTrustProofView {
        DeviceRegistrationTrustProofView {
            trusted_orchestrator_public_keys: text::texts(self.trusted_orchestrator_public_keys@),
            trusted_orchestrator_key_ids: crate::json::opt_texts(
                self.trusted_orchestrator_key_ids,
            ),
            orchestrator_key_id: self.orchestrator_key_id@,
            orchestrator_challenge_id: self.orchestrator_challenge_id@,
            orchestrator_challenge: self.orchestrator_challenge@,
            orchestrator_challenge_issued_at: self.orchestrator_challenge_issued_at,
            orchestrator_public_key: self.orchestrator_public_key@,
            orchestrator_signature: self.orchestrator_signature@,
            edge_public_key: self.edge_public_key@,
            edge_signature: self.edge_signature@,
            registration_intent: self.registration_intent,
            previous_edge_public_key: text::opt_text(self.previous_edge_public_key),
            previous_edge_signature: text::opt_text(self.previous_edge_signature),
            reenrollment_kind: text::opt_text(self.reenrollment_kind),
        }
    }
}

/// The registration of this device with the orchestrator.
#[derive(Clone, Debug, PartialEq, Eq)]
pub struct RegisterDeviceRequest {
    pub name: String,
    pub primary_flag: bool,
    pub allowed_repos: Vec<String>,
    pub allowed_repo_roots: Vec<String>,
    pub hidden_repos: Vec<String>,
    pub excluded_repo_paths: Vec<String>,
    pub discovered_repos: Vec<String>,
    pub repositories: Vec<DeviceRepository>,
    pub capabilities: Vec<String>,
    pub trust: Option<DeviceRegistrationTrustProof>,
}

/// The contents of a [`RegisterDeviceRequest`].
pub struct RegisterDeviceRequestView {
    pub name: Seq<char>,
    pub primary_flag: bool,
    pub allowed_repos: Seq<Seq<char>>,
    pub allowed_repo_roots: Seq<Seq<char>>,
    pub hidden_repos: Seq<Seq<char>>,
    pub excluded_repo_paths: Seq<Seq<char>>,
    pub discovered_repos: Seq<Seq<char>>,
    pub repositories: Seq<DeviceRepositoryView>,
    pub capabilities: Seq<Seq<char>>,
    pub trust: Option<DeviceRegistrationTrustProofView>,
}

impl View for RegisterDeviceRequest {
    type V = RegisterDeviceRequestView;

    open spec fn view(&self) -> RegisterDeviceRequestView {
        RegisterDeviceRequestView {
            name: self.name@,
            primary_flag: self.primary_flag,
            allowed_repos: text::texts(self.allowed_repos@),
            allowed_repo_roots: text::texts(self.allowed_repo_roots@),
            hidden_repos: text::texts(self.hidden_repos@),
            excluded_repo_paths: text::texts(self.excluded_repo_paths@),
            discovered_repos: text::texts(self.discovered_repos@),
            repositories: self.repositories@.map_values(|item: DeviceRepository| item@),
            capabilities: text::texts(self.capabilities@),
            trust: (match self.trust {
                Some(inner) => Some(inner@),
                None => None,
            }),
        }
    }
}

/// The names that stand for intents and kinds of targets are told apart.
pub proof fn names_are_told_apart(
    intent: ExecutionIntent,
    other: ExecutionIntent,
    kind: JobTargetKind,
    another: JobTargetKind,
)
    ensures
        intent.name() == other.name() <==> intent == other,
        kind.name() == another.name() <==> kind == another,
        intent.name() == "read_only"@ <==> intent is ReadOnly,
        intent.name() == "workspace_change"@ <==> intent is WorkspaceChange,
        kind.name() == "repository"@ <==> kind is Repository,
        kind.name() == "capability"@ <==> kind is Capability,
{
    reveal_strlit("workspace_change");
    reveal_strlit("read_only");
    reveal_strlit("repository");
    reveal_strlit("capability");
    assert("workspace_change"@.len() == 16 && "read_only"@.len() == 9);
    assert("repository"@[0] == 'r' && "capability"@[0] == 'c');
}

/// What is shown of a value is what it holds, field by field.
pub proof fn what_is_held_is_shown(
    job_lifecycle_event: JobLifecycleEvent,
    availability_snapshot: AvailabilitySnapshot,
    device_repository: DeviceRepository,
    device_registration_trust_proof: DeviceRegistrationTrustProof,
    register_device_request: RegisterDeviceRequest,
)
    ensures
        job_lifecycle_event@.job_id == job_lifecycle_event.job_id@,
        job_lifecycle_event@.correlation_id == job_lifecycle_event.correlation_id@,
        job_lifecycle_event@.device_id == job_lifecycle_event.device_id@,
        job_lifecycle_event@.event_type == job_lifecycle_event.event_type@,
        job_lifecycle_event@.status == text::opt_text(job_lifecycle_event.status),
        job_lifecycle_event@.result == text::opt_text(job_lifecycle_event.result),
        job_lifecycle_event@.failure_class == text::opt_text(job_lifecycle_event.failure_class),
        job_lifecycle_event@.worktree_path == text::opt_text(job_lifecycle_event.worktree_path),
        job_lifecycle_event@.detail == text::opt_text(job_lifecycle_event.detail),
        job_lifecycle_event@.payload == (match job_lifecycle_event.payload { Some(inner) => Some(inner@), None => None, }),
        job_lifecycle_event@.created_at == job_lifecycle_event.created_at,
        availability_snapshot@.probe_id == availability_snapshot.probe_id@,
        availability_snapshot@.job_id == text::opt_text(availability_snapshot.job_id),
        availability_snapshot@.device_id == availability_snapshot.device_id@,
        availability_snapshot@.available == availability_snapshot.available,
        availability_snapshot@.reason == availability_snapshot.reason@,
        availability_snapshot@.responded_at == availability_snapshot.responded_at,
        device_repository@.name == device_repository.name@,
        device_repository@.branches == text::texts(device_repository.branches@),
        device_registration_trust_proof@.trusted_orchestrator_public_keys == text::texts(device_registration_trust_proof.trusted_orchestrator_public_keys@),
        device_registration_trust_proof@.trusted_orchestrator_key_ids == crate::json::opt_texts( device_registration_trust_proof.trusted_orchestrator_key_ids, ),
        device_registration_trust_proof@.orchestrator_key_id == device_registration_trust_proof.orchestrator_key_id@,
        device_registration_trust_proof@.orchestrator_challenge_id == device_registration_trust_proof.orchestrator_challenge_id@,
        device_registration_trust_proof@.orchestrator_challenge == device_registration_trust_proof.orchestrator_challenge@,
        device_registration_trust_proof@.orchestrator_challenge_issued_at == device_registration_trust_proof.orchestrator_challenge_issued_at,
        device_registration_trust_proof@.orchestrator_public_key == device_registration_trust_proof.orchestrator_public_key@,
        device_registration_trust_proof@.orchestrator_signature == device_registration_trust_proof.orchestrator_signature@,
        device_registration_trust_proof@.edge_public_key == device_registration_trust_proof.edge_public_key@,
        device_registration_trust_proof@.edge_signature == device_registration_trust_proof.edge_signature@,
        device_registration_trust_proof@.registration_intent == device_registration_trust_proof.registration_intent,
        device_registration_trust_proof@.previous_edge_public_key == text::opt_text(device_registration_trust_proof.previous_edge_public_key),
        device_registration_trust_proof@.previous_edge_signature == text::opt_text(device_registration_trust_proof.previous_edge_signature),
        device_registration_trust_proof@.reenrollment_kind == text::opt_text(device_registration_trust_proof.reenrollment_kind),
        register_device_request@.name == register_device_request.name@,
        register_device_request@.primary_flag == register_device_request.primary_flag,
        register_device_request@.allowed_repos == text::texts(register_device_request.allowed_repos@),
        register_device_request@.allowed_repo_roots == text::texts(register_device_request.allowed_repo_roots@),
        register_device_request@.hidden_repos == text::texts(register_device_request.hidden_repos@),
        register_device_request@.excluded_repo_paths == text::texts(register_device_request.excluded_repo_paths@),
        register_device_request@.discovered_repos == text::texts(register_device_request.discovered_repos@),
        register_device_request@.repositories == register_device_request.repositories@.map_values(|item: DeviceRepository| item@),
        register_device_request@.capabilities == text::texts(register_device_request.capabilities@),
        register_device_request@.trust == (match register_device_request.trust { Some(inner) => Some(inner@), None => None, }),
{
}

/// What is shown of a value is its kind and what it holds.
pub proof fn kinds_are_shown_with_what_they_hold(
    event_payload: EventPayload,
)
    ensures
        event_payload matches EventPayload::ActiveJob { active_job_id } ==> event_payload@ == (EventPayloadView::ActiveJob {
            active_job_id: active_job_id@,
        }),
        event_payload matches EventPayload::Target {
            target_kind,
            target_name,
            branch_name,
            base_branch,
        } ==> event_payload@ == (EventPayloadView::Target {
            target_kind: target_kind,
            target_name: target_name@,
            branch_name: text::opt_text(branch_name),
            base_branch: text::opt_text(base_branch),
        }),
        event_payload matches EventPayload::Completed {
            summary_markdown,
            execution_report,
            push_required,
        } ==> event_payload@ == (EventPayloadView::Completed {
            summary_markdown: summary_markdown@,
            execution_report: execution_report@,
            push_required: push_required,
        }),
        event_payload matches EventPayload::ApprovalRequest { action_type, summary } ==> event_payload@ == (EventPayloadView::ApprovalRequest {
            action_type: action_type@,
            summary: summary@,
        }),
        event_payload matches EventPayload::PushFailed {
            approval_id,
            action_type,
            branch_name,
        } ==> event_payload@ == (EventPayloadView::PushFailed {
            approval_id: approval_id@,
            action_type: action_type@,
            branch_name: text::opt_text(branch_name),
        }),
        event_payload matches EventPayload::PushStarted {
            approval_id,
            action_type,
            branch_name,
            remote,
        } ==> event_payload@ == (EventPayloadView::PushStarted {
            approval_id: approval_id@,
            action_type: action_type@,
            branch_name: text::opt_text(branch_name),
            remote: remote@,
        }),
        event_payload matches EventPayload::PushCompleted {
            approval_id,
            action_type,
            branch_name,
            remote,
            stdout,
            stderr,
        } ==> event_payload@ == (EventPayloadView::PushCompleted {
            approval_id: approval_id@,
            action_type: action_type@,
            branch_name: text::opt_text(branch_name),
            remote: remote@,
            stdout: stdout@,
            stderr: stderr@,
        }),
{
}

} // verus!
