//! The runtime configuration: what the configuration file says, completed with defaults and with
//! what was found on the host.

use vstd::prelude::*;

use crate::discovery;
use crate::encoding;
use crate::error;
use crate::error::EdgeError;
use crate::paths;
use crate::paths::PathStyle;
use crate::sandbox;
use crate::sandbox::SandboxMode;
use crate::text;
use crate::text::push_text;
use crate::volumes;
use crate::volumes::Volume;

verus! {

/// An orchestrator signing key that is pinned locally.
#[derive(Clone, Debug, PartialEq, Eq)]
pub struct TrustedOrchestratorKey {
    pub key_id: Option<String>,
    pub public_key: String,
}

/// The contents of a [`TrustedOrchestratorKey`].
pub struct TrustedOrchestratorKeyView {
    pub key_id: Option<Seq<char>>,
    pub public_key: Seq<char>,
}

impl View for TrustedOrchestratorKey {
    type V = TrustedOrchestratorKeyView;

    open spec fn view(&self) -> TrustedOrchestratorKeyView {
        TrustedOrchestratorKeyView {
            key_id: text::opt_text(self.key_id),
            public_key: self.public_key@,
        }
    }
}

impl TrustedOrchestratorKey {
    /// A copy with the same contents.
    pub fn copy(&self) -> (out: TrustedOrchestratorKey)
        ensures
            out@ == self@,
    {
        TrustedOrchestratorKey {
            key_id: text::copy_opt(&self.key_id),
            public_key: self.public_key.clone(),
        }
    }
}

/// Where a secret is kept.
#[derive(Clone, Copy, Debug, PartialEq, Eq, Structural)]
pub enum SecretProviderKind {
    /// A plain file.
    File,
    /// A file protected for the Windows user.
    Dpapi,
    /// The Windows credential store, which is reserved.
    WindowsCredential,
}

impl SecretProviderKind {
    /// The name of the provider.
    pub open spec fn name(self) -> Seq<char> {
        match self {
            SecretProviderKind::File => "file"@,
            SecretProviderKind::Dpapi => "dpapi"@,
            SecretProviderKind::WindowsCredential => "windows-credential"@,
        }
    }

    /// The name of the provider.
    pub fn label(&self) -> (out: &'static str)
        ensures
            out@ == self.name(),
    {
        match self {
            SecretProviderKind::File => "file",
            SecretProviderKind::Dpapi => "dpapi",
            SecretProviderKind::WindowsCredential => "windows-credential",
        }
    }
}

/// A secret, by its provider and by where the provider keeps it.
#[derive(Clone, Debug, PartialEq, Eq)]
pub struct SecretReference {
    pub provider: SecretProviderKind,
    /// The file of file-backed providers.
    pub path: Option<String>,
    /// The name under which other providers keep it.
    pub name: Option<String>,
}

/// The contents of a [`SecretReference`].
pub struct SecretReferenceView {
    pub provider: SecretProviderKind,
    pub path: Option<Seq<char>>,
    pub name: Option<Seq<char>>,
}

impl View for SecretReference {
    type V = SecretReferenceView;

    open spec fn view(&self) -> SecretReferenceView {
        SecretReferenceView {
            provider: self.provider,
            path: text::opt_text(self.path),
            name: text::opt_text(self.name),
        }
    }
}

impl SecretReference {
    /// A copy with the same contents.
    pub fn copy(&self) -> (out: SecretReference)
        ensures
            out@ == self@,
    {
        SecretReference {
            provider: self.provider,
            path: text::copy_opt(&self.path),
            name: text::copy_opt(&self.name),
        }
    }
}

impl SecretReference {
    /// A secret in a plain file.
    pub fn file(path: String) -> (out: SecretReference)
        ensures
            out@ == (SecretReferenceView {
                provider: SecretProviderKind::File,
                path: Some(path@),
                name: None,
            }),
    {
        SecretReference { provider: SecretProviderKind::File, path: Some(path), name: None }
    }

    /// The name of the provider.
    pub fn label(&self) -> (out: &'static str)
        ensures
            out@ == self.provider.name(),
    {
        self.provider.label()
    }
}

/// How the orchestrator is reached.
#[derive(Clone, Debug, Default, PartialEq, Eq)]
pub struct OrchestratorSection {
    pub api_url: Option<String>,
    pub nats_url: Option<String>,
}

/// What the device is called and what it can do.
#[derive(Clone, Debug, Default, PartialEq, Eq)]
pub struct DeviceSection {
    pub id: Option<String>,
    pub name: Option<String>,
    pub primary: Option<bool>,
    pub capabilities: Vec<String>,
}

/// Which repositories the device works on.
#[derive(Clone, Debug, Default, PartialEq, Eq)]
pub struct RepositorySection {
    pub workspace_root: Option<String>,
    pub worktree_root: Option<String>,
    pub allowed_roots: Vec<String>,
    pub allowed_repos: Vec<String>,
    pub hidden_repos: Vec<String>,
    pub excluded_paths: Vec<String>,
}

/// What the runtime writes down.
#[derive(Clone, Debug, Default, PartialEq, Eq)]
pub struct RuntimeSection {
    pub state_dir: Option<String>,
    pub log_format: Option<String>,
    pub rust_log: Option<String>,
}

/// How jobs are run.
#[derive(Clone, Debug, Default, PartialEq, Eq)]
pub struct RunnerSection {
    pub codex_command: Option<String>,
    pub codex_args: Vec<String>,
    pub simulated_run_ms: Option<u64>,
    pub validation_timeout_secs: Option<u64>,
    pub sandbox_mode: Option<String>,
}

/// Where trust material is kept.
#[derive(Clone, Debug, Default, PartialEq, Eq)]
pub struct TrustSection {
    pub orchestrator_keys_path: Option<String>,
    pub edge_signing_key_path: Option<String>,
    pub previous_edge_signing_key_path: Option<String>,
    pub edge_signing_key: Option<SecretReference>,
    pub previous_edge_signing_key: Option<SecretReference>,
}

/// How the runtime is hosted as a service.
#[derive(Clone, Debug, Default, PartialEq, Eq)]
pub struct ServiceSection {
    pub name: Option<String>,
    pub log_dir: Option<String>,
    pub run_as_user: Option<String>,
}

/// The tunnel to the orchestrator.
#[derive(Clone, Debug, Default, PartialEq, Eq)]
pub struct TunnelSection {
    pub enabled: bool,
    pub user: Option<String>,
    pub host: Option<String>,
    pub local_port: Option<u16>,
    pub remote_port: Option<u16>,
}

/// The contents of a configuration file.
#[derive(Clone, Debug, Default, PartialEq, Eq)]
pub struct EdgeConfigFile {
    pub orchestrator: OrchestratorSection,
    pub device: DeviceSection,
    pub repositories: RepositorySection,
    pub runtime: RuntimeSection,
    pub runner: RunnerSection,
    pub trust: TrustSection,
    pub service: ServiceSection,
    pub tunnel: TunnelSection,
}

/// The configuration that the runtime works with.
#[derive(Clone, Debug, PartialEq, Eq)]
pub struct EdgeConfig {
    /// The configuration file.
    pub config_path: String,
    /// The base URL of the orchestrator.
    pub api_url: String,
    /// The message bus.
    pub nats_url: String,
    /// The stable identity of the device.
    pub device_id: String,
    /// The name of the device for operators.
    pub device_name: String,
    /// Whether this is the primary device.
    pub primary_flag: bool,
    /// Repositories that are named explicitly.
    pub allowed_repos: Vec<String>,
    /// Directories that are scanned for repositories.
    pub allowed_repo_roots: Vec<String>,
    /// Repositories that are not offered.
    pub hidden_repos: Vec<String>,
    /// Directories that are not scanned.
    pub excluded_repo_paths: Vec<String>,
    /// What the device can do.
    pub capabilities: Vec<String>,
    /// Where repositories are looked for first.
    pub workspace_root: String,
    /// Where the worktrees of jobs are created.
    pub worktree_root: String,
    /// The Codex executable, if jobs are not simulated.
    pub codex_command: Option<String>,
    /// Extra arguments of Codex.
    pub codex_args: Vec<String>,
    /// How long a simulated run takes.
    pub simulated_run_ms: u64,
    /// How long a validation command may take.
    pub validation_timeout_secs: u64,
    /// The boundary around jobs.
    pub sandbox_mode: SandboxMode,
    /// The orchestrator keys that are pinned.
    pub trusted_orchestrator_keys: Vec<TrustedOrchestratorKey>,
    /// Where the pinned keys are kept.
    pub orchestrator_keys_path: Option<String>,
    /// The signing key of the device.
    pub edge_signing_key: Option<String>,
    /// Where the signing key is kept.
    pub edge_signing_key_ref: Option<SecretReference>,
    /// The former signing key, while it is being replaced.
    pub previous_edge_signing_key: Option<String>,
    /// Where the former signing key is kept.
    pub previous_edge_signing_key_ref: Option<SecretReference>,
    /// Where the runtime keeps its state.
    pub state_dir: String,
    /// The status file.
    pub status_path: String,
    /// The name of the service.
    pub service_name: String,
    /// The format of the log.
    pub log_format: String,
    /// The filter of the log.
    pub rust_log: Option<String>,
}

/// The contents of an [`EdgeConfig`].
pub struct EdgeConfigView {
    pub config_path: Seq<char>,
    pub api_url: Seq<char>,
    pub nats_url: Seq<char>,
    pub device_id: Seq<char>,
    pub device_name: Seq<char>,
    pub primary_flag: bool,
    pub allowed_repos: Seq<Seq<char>>,
    pub allowed_repo_roots: Seq<Seq<char>>,
    pub hidden_repos: Seq<Seq<char>>,
    pub excluded_repo_paths: Seq<Seq<char>>,
    pub capabilities: Seq<Seq<char>>,
    pub workspace_root: Seq<char>,
    pub worktree_root: Seq<char>,
    pub codex_command: Option<Seq<char>>,
    pub codex_args: Seq<Seq<char>>,
    pub simulated_run_ms: u64,
    pub validation_timeout_secs: u64,
    pub sandbox_mode: SandboxMode,
    pub trusted_orchestrator_keys: Seq<TrustedOrchestratorKeyView>,
    pub orchestrator_keys_path: Option<Seq<char>>,
    pub edge_signing_key: Option<Seq<char>>,
    pub edge_signing_key_ref: Option<SecretReferenceView>,
    pub previous_edge_signing_key: Option<Seq<char>>,
    pub previous_edge_signing_key_ref: Option<SecretReferenceView>,
    pub state_dir: Seq<char>,
    pub status_path: Seq<char>,
    pub service_name: Seq<char>,
    pub log_format: Seq<char>,
    pub rust_log: Option<Seq<char>>,
}

impl View for EdgeConfig {
    type V = EdgeConfigView;

    open spec fn view(&self) -> EdgeConfigView {
        EdgeConfigView {
            config_path: self.config_path@,
            api_url: self.api_url@,
            nats_url: self.nats_url@,
            device_id: self.device_id@,
            device_name: self.device_name@,
            primary_flag: self.primary_flag,
            allowed_repos: text::texts(self.allowed_repos@),
            allowed_repo_roots: text::texts(self.allowed_repo_roots@),
            hidden_repos: text::texts(self.hidden_repos@),
            excluded_repo_paths: text::texts(self.excluded_repo_paths@),
            capabilities: text::texts(self.capabilities@),
            workspace_root: self.workspace_root@,
            worktree_root: self.worktree_root@,
            codex_command: text::opt_text(self.codex_command),
            codex_args: text::texts(self.codex_args@),
            simulated_run_ms: self.simulated_run_ms,
            validation_timeout_secs: self.validation_timeout_secs,
            sandbox_mode: self.sandbox_mode,
            trusted_orchestrator_keys: self.trusted_orchestrator_keys@.map_values(|item: TrustedOrchestratorKey| item@),
            orchestrator_keys_path: text::opt_text(self.orchestrator_keys_path),
            edge_signing_key: text::opt_text(self.edge_signing_key),
            edge_signing_key_ref: (match self.edge_signing_key_ref {
                Some(inner) => Some(inner@),
                None => None,
            }),
            previous_edge_signing_key: text::opt_text(self.previous_edge_signing_key),
            previous_edge_signing_key_ref: (match self.previous_edge_signing_key_ref {
                Some(inner) => Some(inner@),
                None => None,
            }),
            state_dir: self.state_dir@,
            status_path: self.status_path@,
            service_name: self.service_name@,
            log_format: self.log_format@,
            rust_log: text::opt_text(self.rust_log),
        }
    }
}

/// What a configured path resolves to on disk.
pub enum PathFact {
    /// The path does not resolve.
    Unresolved,
    /// The path resolves to another, which may or may not be a directory.
    Resolved { path: String, is_dir: bool, exists: bool },
}

/// What came of reading the file of pinned keys.
pub enum BundleRead {
    /// The file is not there.
    Missing { error: String },
    /// The file cannot be read.
    NotRead,
    /// The file holds no list of keys.
    NotParsed,
    /// The file holds these keys.
    Parsed { keys: Vec<TrustedOrchestratorKey> },
}

/// What came of reading a plain secret file. The mode holds its permission bits, on hosts that
/// have such.
pub enum FileRead {
    /// The file is not there.
    Missing { error: String },
    /// The file cannot be read.
    NotRead { mode: Option<u32> },
    /// The file holds this text.
    Read { mode: Option<u32>, contents: String },
}

/// What came of reading a secret file that is protected for the Windows user.
pub enum DpapiRead {
    /// The host is not Windows.
    Unavailable,
    /// The file cannot be read.
    NotRead,
    /// The protection cannot be taken off.
    NotUnprotected { error: String },
    /// The secret is these bytes.
    Read { secret: Vec<u8> },
}

/// What came of reading a secret, for each way of keeping it in a file.
pub struct SecretFacts {
    pub file: FileRead,
    pub dpapi: DpapiRead,
}

/// What the configuration depends on besides its file.
pub struct HostFacts {
    /// The notation of paths on this host.
    pub style: PathStyle,
    /// The name of the computer, as Windows gives it.
    pub computer_name: Option<String>,
    /// The name of the host, as other systems give it.
    pub host_name: Option<String>,
    /// What the configured repository roots resolve to, in their order.
    pub allowed_roots: Vec<PathFact>,
    /// What the configured exclusions resolve to, in their order.
    pub excluded_paths: Vec<PathFact>,
    /// The file of pinned keys.
    pub trust_bundle: BundleRead,
    /// The secret of the signing key.
    pub edge_key: SecretFacts,
    /// The secret of the former signing key.
    pub previous_edge_key: SecretFacts,
    /// Whether secret files may be readable by others, as the environment says.
    pub allow_broad_permissions: Option<String>,
}

/// A text without white space around it, unless it is blank.
pub open spec fn trimmed_value(value: Option<Seq<char>>) -> Option<Seq<char>> {
    match value {
        Some(inner) => if text::trim(inner).len() == 0 {
            None
        } else {
            Some(text::trim(inner))
        },
        None => None,
    }
}

/// A text without white space around it, unless it is blank.
pub fn trimmed(value: &Option<String>) -> (out: Option<String>)
    ensures
        text::opt_text(out) == trimmed_value(text::opt_text(*value)),
{
    match value {
        Some(inner) => {
            let body = text::trimmed_text(inner);
            if body.as_str().is_empty() {
                None
            } else {
                Some(body)
            }
        },
        None => None,
    }
}

/// The trimmed entries of a list, without blank ones and without repetitions. What comes first
/// stays first.
pub open spec fn unique_entries(list: Seq<Seq<char>>) -> Seq<Seq<char>>
    decreases list.len(),
{
    if list.len() == 0 {
        Seq::empty()
    } else {
        let before = unique_entries(list.drop_last());
        let entry = text::trim(list.last());
        if entry.len() == 0 || before.contains(entry) {
            before
        } else {
            before.push(entry)
        }
    }
}

/// The trimmed entries of a list, without blank ones and without repetitions.
pub fn unique_strings(values: &Vec<String>) -> (out: Vec<String>)
    ensures
        text::texts(out@) == unique_entries(text::texts(values@)),
{
    let mut out: Vec<String> = Vec::new();
    let mut i: usize = 0;
    assert(text::texts(values@).take(0) == Seq::<Seq<char>>::empty());
    assert(text::texts(out@) == Seq::<Seq<char>>::empty());
    while i < values.len()
        invariant
            i <= values.len(),
            text::texts(out@) == unique_entries(text::texts(values@).take(i as int)),
        decreases values.len() - i,
    {
        assert(text::texts(values@).take(i + 1).drop_last() == text::texts(values@).take(i as int));
        assert(text::texts(values@).take(i + 1).last() == values@[i as int]@);
        let entry = text::trimmed_text(&values[i]);
        if !entry.as_str().is_empty() && !text::list_has(&out, &entry) {
            push_text(&mut out, entry);
        }
        i = i + 1;
    }
    assert(text::texts(values@).take(i as int) == text::texts(values@));
    out
}

/// The entries of a cleaned list are trimmed, not blank and all different, and they are exactly
/// the non-blank entries that were given.
pub proof fn unique_entries_are_distinct(list: Seq<Seq<char>>)
    ensures
        unique_entries(list).no_duplicates(),
        forall|i: int|
            0 <= i < unique_entries(list).len() ==> {
                let entry = #[trigger] unique_entries(list)[i];
                entry.len() > 0 && text::trim(entry) == entry
            },
        forall|i: int|
            0 <= i < list.len() && text::trim(list[i]).len() > 0 ==> unique_entries(list).contains(
                text::trim(#[trigger] list[i]),
            ),
        forall|entry: Seq<char>| #[trigger]
            unique_entries(list).contains(entry) ==> exists|i: int|
                0 <= i < list.len() && text::trim(#[trigger] list[i]) == entry,
    decreases list.len(),
{
    if list.len() > 0 {
        let shorter = list.drop_last();
        let before = unique_entries(shorter);
        let all = unique_entries(list);
        let entry = text::trim(list.last());
        unique_entries_are_distinct(shorter);
        text::trimming_twice_changes_nothing(list.last());
        assert(list[list.len() - 1] == list.last());
        assert(forall|i: int| 0 <= i < shorter.len() ==> shorter[i] == list[i]);
        if entry.len() > 0 && !before.contains(entry) {
            assert(all == before.push(entry));
            assert(all[before.len() as int] == entry);
            assert forall|e: Seq<char>| before.contains(e) implies all.contains(e) by {
                let k = choose|k: int| 0 <= k < before.len() && before[k] == e;
                assert(all[k] == e);
            }
        }
        assert forall|i: int| 0 <= i < list.len() && text::trim(list[i]).len() > 0 implies all.contains(
            text::trim(#[trigger] list[i]),
        ) by {
            if i < shorter.len() {
                assert(shorter[i] == list[i]);
                assert(before.contains(text::trim(shorter[i])));
            }
        }
        assert forall|e: Seq<char>| #[trigger] all.contains(e) implies exists|i: int|
            0 <= i < list.len() && text::trim(#[trigger] list[i]) == e by {
            if before.contains(e) {
                let i = choose|i: int|
                    0 <= i < shorter.len() && text::trim(#[trigger] shorter[i]) == e;
                assert(shorter[i] == list[i]);
            } else {
                let k = choose|k: int| 0 <= k < all.len() && all[k] == e;
                assert(k == before.len());
                assert(text::trim(list[list.len() - 1]) == e);
            }
        }
    } else {
        assert(unique_entries(list).len() == 0);
    }
}

/// A list that is clean already is kept as it is.
pub proof fn cleaning_twice_changes_nothing(list: Seq<Seq<char>>)
    ensures
        unique_entries(unique_entries(list)) == unique_entries(list),
{
    unique_entries_are_distinct(list);
    lemma_clean_lists_are_kept(unique_entries(list));
}

/// A list of different, trimmed, non-blank entries is kept as it is.
proof fn lemma_clean_lists_are_kept(list: Seq<Seq<char>>)
    requires
        list.no_duplicates(),
        forall|i: int|
            0 <= i < list.len() ==> {
                let entry = #[trigger] list[i];
                entry.len() > 0 && text::trim(entry) == entry
            },
    ensures
        unique_entries(list) == list,
    decreases list.len(),
{
    if list.len() > 0 {
        let shorter = list.drop_last();
        assert(forall|i: int| 0 <= i < shorter.len() ==> shorter[i] == list[i]);
        assert(shorter.no_duplicates());
        lemma_clean_lists_are_kept(shorter);
        let last = list[list.len() - 1];
        if shorter.contains(last) {
            let k = choose|k: int| 0 <= k < shorter.len() && shorter[k] == last;
            assert(list[k] == list[list.len() - 1]);
        }
        assert(shorter.push(last) == list);
    } else {
        assert(unique_entries(list) == list);
    }
}

/// A cleaned list, or defaults where nothing was given.
pub open spec fn entries_or(list: Seq<Seq<char>>, defaults: Seq<Seq<char>>) -> Seq<Seq<char>> {
    if list.len() == 0 {
        defaults
    } else {
        unique_entries(list)
    }
}

/// A cleaned list, or defaults where nothing was given.
pub fn defaulted_strings(values: &Vec<String>, default: Vec<String>) -> (out: Vec<String>)
    ensures
        text::texts(out@) == entries_or(text::texts(values@), text::texts(default@)),
{
    assert(text::texts(values@).len() == values.len());
    if values.len() == 0 {
        default
    } else {
        unique_strings(values)
    }
}

/// What a device can do where nothing else is configured.
pub open spec fn default_capabilities() -> Seq<Seq<char>> {
    seq!["codex"@, "git"@, "build"@, "test"@, "generic_jobs"@]
}

/// The repositories of a device where neither repositories nor roots are configured.
pub open spec fn default_repos() -> Seq<Seq<char>> {
    seq!["elowen-api"@, "elowen-ui"@, "elowen-edge"@, "elowen-notes"@, "elowen-platform"@]
}

/// What a device can do where nothing else is configured.
fn capabilities_by_default() -> (out: Vec<String>)
    ensures
        text::texts(out@) == default_capabilities(),
{
    let mut out: Vec<String> = Vec::new();
    push_text(&mut out, "codex".to_owned());
    push_text(&mut out, "git".to_owned());
    push_text(&mut out, "build".to_owned());
    push_text(&mut out, "test".to_owned());
    push_text(&mut out, "generic_jobs".to_owned());
    assert(text::texts(out@) == default_capabilities());
    out
}

/// The repositories of a device where neither repositories nor roots are configured.
pub fn repos_by_default() -> (out: Vec<String>)
    ensures
        text::texts(out@) == default_repos(),
{
    let mut out: Vec<String> = Vec::new();
    push_text(&mut out, "elowen-api".to_owned());
    push_text(&mut out, "elowen-ui".to_owned());
    push_text(&mut out, "elowen-edge".to_owned());
    push_text(&mut out, "elowen-notes".to_owned());
    push_text(&mut out, "elowen-platform".to_owned());
    assert(text::texts(out@) == default_repos());
    out
}

/// A trimmed text, or a stand-in where it is missing or blank.
pub open spec fn value_or(value: Option<Seq<char>>, stand_in: Seq<char>) -> Seq<char> {
    match trimmed_value(value) {
        Some(inner) => inner,
        None => stand_in,
    }
}

/// The name of the service.
pub fn default_service_name(value: &Option<String>) -> (out: String)
    ensures
        out@ == value_or(text::opt_text(*value), "elowen-edge"@),
{
    match trimmed(value) {
        Some(name) => name,
        None => "elowen-edge".to_owned(),
    }
}

/// The directory of the configuration file.
pub open spec fn config_dir(style: PathStyle, config_path: Seq<char>) -> Seq<char> {
    match paths::parent(style, config_path) {
        Some(dir) => dir,
        None => "."@,
    }
}

/// The directory of the configuration file.
pub fn config_directory(style: PathStyle, config_path: &str) -> (out: String)
    ensures
        out@ == config_dir(style, config_path@),
{
    match paths::path_parent(style, config_path) {
        Some(dir) => dir,
        None => ".".to_owned(),
    }
}

/// A configured path: absolute as it is, relative below a base.
pub fn resolve_path(style: PathStyle, base: &str, path: &str) -> (out: String)
    ensures
        out@ == paths::join(style, base@, path@),
{
    paths::join_path(style, base, path)
}

/// A path that names a drive without starting at its root: where it lies depends on what directory
/// is current on that drive.
pub open spec fn is_drive_relative(style: PathStyle, path: Seq<char>) -> bool {
    style == PathStyle::Windows && volumes::volume(path) == Volume::Drive && !paths::is_rooted(
        style,
        path,
    )
}

/// Resolving below an absolute base gives an absolute path: the given one where it is absolute
/// itself. To resolve the result again, from anywhere, changes nothing. A path that is relative to
/// a drive of its own stays so.
pub proof fn resolved_paths_are_absolute(
    style: PathStyle,
    base: Seq<char>,
    path: Seq<char>,
    elsewhere: Seq<char>,
)
    requires
        paths::is_absolute(style, base),
        !is_drive_relative(style, path),
    ensures
        paths::is_absolute(style, paths::join(style, base, path)),
        paths::is_absolute(style, path) ==> paths::join(style, base, path) == path,
        paths::join(style, elsewhere, paths::join(style, base, path)) == paths::join(
            style,
            base,
            path,
        ),
{
    let resolved = paths::join(style, base, path);
    match style {
        PathStyle::Posix => {
            if !paths::is_absolute(style, path) {
                assert(resolved[0] == base[0]);
            }
        },
        PathStyle::Windows => {
            if volumes::volume(path) == Volume::Nothing {
                let len = volumes::volume_len(base);
                volumes::lemma_volume_bounds(base);
                assert(resolved.take(len) =~= base.take(len));
                volumes::lemma_volume_stays_named(base, resolved);
                if volumes::volume(base) == Volume::Drive {
                    assert(volumes::slash_at(resolved, 2));
                }
            }
        },
    }
}

/// A configured path, or a default.
pub fn resolve_path_or_default(
    style: PathStyle,
    base: &str,
    path: &Option<String>,
    default: &str,
) -> (out: String)
    ensures
        out@ == paths::join(
            style,
            base@,
            match *path {
                Some(given) => given@,
                None => default@,
            },
        ),
{
    match path {
        Some(given) => resolve_path(style, base, given),
        None => resolve_path(style, base, default),
    }
}

/// A list of paths holds a path, however it is written.
pub open spec fn lists_path(style: PathStyle, list: Seq<Seq<char>>, path: Seq<char>) -> bool {
    exists|i: int| 0 <= i < list.len() && paths::same_path(style, #[trigger] list[i], path)
}

/// Whether a list of paths holds a path, however it is written.
pub fn path_is_listed(style: PathStyle, list: &Vec<String>, path: &str) -> (listed: bool)
    ensures
        listed == lists_path(style, text::texts(list@), path@),
{
    let mut i: usize = 0;
    while i < list.len()
        invariant
            i <= list.len(),
            forall|k: int|
                0 <= k < i ==> !paths::same_path(style, #[trigger] text::texts(list@)[k], path@),
        decreases list.len() - i,
    {
        assert(text::texts(list@)[i as int] == list@[i as int]@);
        if paths::paths_match(style, &list[i], path) {
            return true;
        }
        i = i + 1;
    }
    false
}

/// What a configured path resolves to. Of a path that was not looked at nothing is known.
pub open spec fn fact_at(facts: Seq<PathFact>, i: int) -> PathFact {
    if 0 <= i < facts.len() {
        facts[i]
    } else {
        PathFact::Unresolved
    }
}

/// One more resolved repository root.
pub open spec fn with_root(style: PathStyle, before: Seq<Seq<char>>, fact: PathFact) -> Result<
    Seq<Seq<char>>,
    Seq<char>,
> {
    match fact {
        PathFact::Unresolved => Err("failed to resolve repository root"@),
        PathFact::Resolved { path, is_dir, exists } => if !is_dir {
            Err("configured repository root "@ + path@ + " is not a directory"@)
        } else if lists_path(style, before, path@) {
            Ok(before)
        } else {
            Ok(before.push(path@))
        },
    }
}

/// The repository roots that a number of configured paths resolve to, each once.
pub open spec fn resolved_roots(style: PathStyle, count: nat, facts: Seq<PathFact>) -> Result<
    Seq<Seq<char>>,
    Seq<char>,
>
    decreases count,
{
    if count == 0 {
        Ok(Seq::empty())
    } else {
        match resolved_roots(style, (count - 1) as nat, facts) {
            Err(message) => Err(message),
            Ok(before) => with_root(style, before, fact_at(facts, count - 1)),
        }
    }
}

/// A root that is refused decides over all that follow it.
proof fn lemma_first_bad_root_decides(style: PathStyle, count: nat, upto: nat, facts: Seq<PathFact>)
    requires
        upto <= count,
        resolved_roots(style, upto, facts) is Err,
    ensures
        resolved_roots(style, count, facts) == resolved_roots(style, upto, facts),
    decreases count - upto,
{
    if upto < count {
        assert(resolved_roots(style, upto + 1, facts) == resolved_roots(style, upto, facts));
        lemma_first_bad_root_decides(style, count, upto + 1, facts);
    }
}

/// The repository roots that configured paths resolve to.
pub fn resolve_existing_dirs(
    style: PathStyle,
    configured: &Vec<String>,
    facts: &Vec<PathFact>,
) -> (out: Result<
    Vec<String>,
    EdgeError,
>)
    ensures
        error::list_outcome(out) == resolved_roots(style, configured@.len(), facts@),
{
    let mut out: Vec<String> = Vec::new();
    let mut i: usize = 0;
    assert(text::texts(out@) == Seq::<Seq<char>>::empty());
    while i < configured.len()
        invariant
            i <= configured.len(),
            resolved_roots(
                style,
                i as nat,
                facts@,
            ) == Ok::<Seq<Seq<char>>, Seq<char>>(text::texts(out@)),
        decreases configured.len() - i,
    {
        assert(resolved_roots(style, (i + 1) as nat, facts@) == with_root(
            style,
            text::texts(out@),
            fact_at(facts@, i as int),
        ));
        let refusal = if i >= facts.len() {
            Some("failed to resolve repository root".to_owned())
        } else {
            match &facts[i] {
                PathFact::Unresolved => Some("failed to resolve repository root".to_owned()),
                PathFact::Resolved { path, is_dir, exists: _ } => {
                    if !*is_dir {
                        let mut message = "configured repository root ".to_owned();
                        message.append(path);
                        message.append(" is not a directory");
                        Some(message)
                    } else {
                        if !path_is_listed(style, &out, path) {
                            push_text(&mut out, path.clone());
                        }
                        None
                    }
                },
            }
        };
        if let Some(message) = refusal {
            proof {
                lemma_first_bad_root_decides(style, configured@.len(), (i + 1) as nat, facts@);
            }
            return Err(EdgeError::of(message));
        }
        i = i + 1;
    }
    Ok(out)
}

/// One more resolved exclusion.
pub open spec fn with_exclusion(
    style: PathStyle,
    before: Seq<Seq<char>>,
    fact: PathFact,
    roots: Seq<Seq<char>>,
) -> Result<Seq<Seq<char>>, Seq<char>> {
    match fact {
        PathFact::Unresolved => Err("failed to resolve repository policy path"@),
        PathFact::Resolved { path, is_dir, exists } => if !exists {
            Err("configured repository policy path "@ + path@ + " does not exist"@)
        } else if !paths::lies_within_any(style, path@, roots) {
            Err(
                "configured repository policy path "@ + path@
                    + " is outside the trusted repository roots"@,
            )
        } else if lists_path(style, before, path@) {
            Ok(before)
        } else {
            Ok(before.push(path@))
        },
    }
}

/// The exclusions that a number of configured paths resolve to, each once.
pub open spec fn resolved_exclusions(
    style: PathStyle,
    count: nat,
    facts: Seq<PathFact>,
    roots: Seq<Seq<char>>,
) -> Result<Seq<Seq<char>>, Seq<char>>
    decreases count,
{
    if count == 0 {
        Ok(Seq::empty())
    } else {
        match resolved_exclusions(style, (count - 1) as nat, facts, roots) {
            Err(message) => Err(message),
            Ok(before) => with_exclusion(style, before, fact_at(facts, count - 1), roots),
        }
    }
}

/// An exclusion that is refused decides over all that follow it.
proof fn lemma_first_bad_exclusion_decides(
    style: PathStyle,
    count: nat,
    upto: nat,
    facts: Seq<PathFact>,
    roots: Seq<Seq<char>>,
)
    requires
        upto <= count,
        resolved_exclusions(style, upto, facts, roots) is Err,
    ensures
        resolved_exclusions(
            style,
            count,
            facts,
            roots,
        ) == resolved_exclusions(style, upto, facts, roots),
    decreases count - upto,
{
    if upto < count {
        assert(resolved_exclusions(style, upto + 1, facts, roots) == resolved_exclusions(
            style,
            upto,
            facts,
            roots,
        ));
        lemma_first_bad_exclusion_decides(style, count, upto + 1, facts, roots);
    }
}

/// The exclusions that configured paths resolve to. They must lie within the repository roots.
pub fn resolve_policy_paths(
    style: PathStyle,
    configured: &Vec<String>,
    facts: &Vec<PathFact>,
    allowed_roots: &Vec<String>,
) -> (out: Result<Vec<String>, EdgeError>)
    ensures
        error::list_outcome(out) == resolved_exclusions(
            style,
            configured@.len(),
            facts@,
            text::texts(allowed_roots@),
        ),
{
    let mut out: Vec<String> = Vec::new();
    let mut i: usize = 0;
    let ghost roots = text::texts(allowed_roots@);
    assert(text::texts(out@) == Seq::<Seq<char>>::empty());
    while i < configured.len()
        invariant
            i <= configured.len(),
            roots == text::texts(allowed_roots@),
            resolved_exclusions(style, i as nat, facts@, roots) == Ok::<Seq<Seq<char>>, Seq<char>>(
                text::texts(out@),
            ),
        decreases configured.len() - i,
    {
        assert(resolved_exclusions(style, (i + 1) as nat, facts@, roots) == with_exclusion(
            style,
            text::texts(out@),
            fact_at(facts@, i as int),
            roots,
        ));
        let refusal = if i >= facts.len() {
            Some("failed to resolve repository policy path".to_owned())
        } else {
            match &facts[i] {
                PathFact::Unresolved => Some("failed to resolve repository policy path".to_owned()),
                PathFact::Resolved { path, is_dir: _, exists } => {
                    let mut message = "configured repository policy path ".to_owned();
                    message.append(path);
                    if !*exists {
                        message.append(" does not exist");
                        Some(message)
                    } else if !paths::path_within_any(style, path, allowed_roots) {
                        message.append(" is outside the trusted repository roots");
                        Some(message)
                    } else {
                        if !path_is_listed(style, &out, path) {
                            push_text(&mut out, path.clone());
                        }
                        None
                    }
                },
            }
        };
        if let Some(message) = refusal {
            proof {
                lemma_first_bad_exclusion_decides(
                    style,
                    configured@.len(),
                    (i + 1) as nat,
                    facts@,
                    roots,
                );
            }
            return Err(EdgeError::of(message));
        }
        i = i + 1;
    }
    Ok(out)
}

/// Every exclusion that is accepted lies within one of the repository roots.
pub proof fn exclusions_lie_within_the_roots(
    style: PathStyle,
    count: nat,
    facts: Seq<PathFact>,
    roots: Seq<Seq<char>>,
)
    ensures
        resolved_exclusions(style, count, facts, roots) matches Ok(list) ==> forall|i: int|
            0 <= i < list.len() ==> paths::lies_within_any(style, #[trigger] list[i], roots),
    decreases count,
{
    if count > 0 {
        exclusions_lie_within_the_roots(style, (count - 1) as nat, facts, roots);
    }
}

/// The contents of an optional reference.
pub open spec fn opt_reference(reference: Option<SecretReference>) -> Option<SecretReferenceView> {
    match reference {
        Some(inner) => Some(inner@),
        None => None,
    }
}

/// The one reference to a secret that may be configured in two ways, or the message of a conflict.
pub open spec fn one_reference(
    label: Seq<char>,
    reference: Option<SecretReferenceView>,
    legacy_path: Option<Seq<char>>,
) -> Result<Option<SecretReferenceView>, Seq<char>> {
    match (reference, legacy_path) {
        (Some(_), Some(path)) => Err(
            "configure either the provider-backed "@ + label + " or legacy path "@ + path
                + ", not both"@,
        ),
        (Some(inner), None) => Ok(Some(inner)),
        (None, Some(path)) => Ok(
            Some(
                SecretReferenceView {
                    provider: SecretProviderKind::File,
                    path: Some(path),
                    name: None,
                },
            ),
        ),
        (None, None) => Ok(None),
    }
}

/// The one reference to a secret that may be configured in two ways.
pub fn normalized_secret_reference(
    label: &str,
    reference: &Option<SecretReference>,
    legacy_path: &Option<String>,
) -> (out: Result<Option<SecretReference>, EdgeError>)
    ensures
        (match out {
            Ok(found) => Ok::<Option<SecretReferenceView>, Seq<char>>(opt_reference(found)),
            Err(error) => Err::<Option<SecretReferenceView>, Seq<char>>(error@),
        }) == one_reference(label@, opt_reference(*reference), text::opt_text(*legacy_path)),
{
    match (reference, legacy_path) {
        (Some(_), Some(path)) => {
            let mut message = "configure either the provider-backed ".to_owned();
            message.append(label);
            message.append(" or legacy path ");
            message.append(path);
            message.append(", not both");
            Err(EdgeError::of(message))
        },
        (Some(inner), None) => Ok(Some(inner.copy())),
        (None, Some(path)) => Ok(Some(SecretReference::file(path.clone()))),
        (None, None) => Ok(None),
    }
}

/// The file of a secret that may be configured in two ways: that of the reference, else the legacy
/// path, seen from the directory of the configuration.
pub open spec fn secret_file(
    style: PathStyle,
    base: Seq<char>,
    reference: Option<SecretReferenceView>,
    legacy_path: Option<Seq<char>>,
) -> Option<Seq<char>> {
    let configured = match reference {
        Some(inner) => inner.path,
        None => legacy_path,
    };
    match configured {
        Some(path) => Some(paths::join(style, base, path)),
        None => None,
    }
}

/// The file of a secret that may be configured in two ways.
pub fn secret_path(
    style: PathStyle,
    base: &str,
    reference: &Option<SecretReference>,
    legacy_path: &Option<String>,
) -> (out: Option<String>)
    ensures
        text::opt_text(out) == secret_file(
            style,
            base@,
            opt_reference(*reference),
            text::opt_text(*legacy_path),
        ),
{
    let configured = match reference {
        Some(inner) => &inner.path,
        None => legacy_path,
    };
    match configured {
        Some(path) => Some(resolve_path(style, base, path)),
        None => None,
    }
}

/// An environment value that waives the check of permissions.
pub open spec fn waives_permissions(value: Option<Seq<char>>) -> bool {
    match value {
        Some(inner) => {
            let word = text::lower(text::trim(inner));
            word == "1"@ || word == "true"@ || word == "yes"@
        },
        None => false,
    }
}

/// Permission bits that let the group or others at a file.
pub open spec fn is_broad(mode: u32) -> bool {
    (mode & 0o777) & 0o077 != 0
}

/// Whether the permissions of a secret file are acceptable.
pub open spec fn permission_check(
    path: Seq<char>,
    mode: Option<u32>,
    waiver: Option<Seq<char>>,
) -> Result<(), Seq<char>> {
    if waives_permissions(waiver) {
        Ok(())
    } else {
        match mode {
            Some(bits) => if is_broad(bits) {
                Err(
                    "secret file "@ + path
                        + " is readable by group/other; restrict it to the service user"@,
                )
            } else {
                Ok(())
            },
            None => Ok(()),
        }
    }
}

/// Whether the permissions of a secret file are acceptable.
pub fn warn_if_secret_permissions_are_broad(
    path: &str,
    mode: Option<u32>,
    waiver: &Option<String>,
) -> (out: Result<(), EdgeError>)
    ensures
        error::verdict(out) == permission_check(path@, mode, text::opt_text(*waiver)),
{
    if let Some(value) = waiver {
        let word = text::lowered(&text::trimmed_text(value));
        if text::text_eq(&word, "1") || text::text_eq(&word, "true") || text::text_eq(
            &word,
            "yes",
        ) {
            return Ok(());
        }
    }
    if let Some(bits) = mode {
        if (bits & 0o777) & 0o077 != 0 {
            let mut message = "secret file ".to_owned();
            message.append(path);
            message.append(" is readable by group/other; restrict it to the service user");
            return Err(EdgeError::of(message));
        }
    }
    Ok(())
}

/// A secret file is accepted without a waiver only if neither the group nor others may read,
/// write or execute it.
pub proof fn accepted_secrets_are_private(path: Seq<char>, mode: u32)
    ensures
        permission_check(path, Some(mode), None) is Ok <==> mode & 0o070 == 0 && mode & 0o007 == 0,
{
    assert((mode & 0o777) & 0o077 == 0 <==> mode & 0o070 == 0 && mode & 0o007 == 0)
        by (bit_vector);
}

/// The secret in a plain file.
pub open spec fn file_secret(
    path: Seq<char>,
    read: FileRead,
    waiver: Option<Seq<char>>,
) -> Result<Seq<char>, Seq<char>> {
    match read {
        FileRead::Missing { error } => Err(error@),
        FileRead::NotRead { mode } => match permission_check(path, mode, waiver) {
            Err(message) => Err(message),
            Ok(_) => Err("failed to read secret file "@ + path),
        },
        FileRead::Read { mode, contents } => match permission_check(path, mode, waiver) {
            Err(message) => Err(message),
            Ok(_) => if text::trim(contents@).len() == 0 {
                Err("secret file "@ + path + " is empty"@)
            } else {
                Ok(text::trim(contents@))
            },
        },
    }
}

/// A message with a path in its middle.
fn around_path(before: &str, path: &str, after: &str) -> (error: EdgeError)
    ensures
        error@ == before@ + path@ + after@,
{
    let mut message = before.to_owned();
    message.append(path);
    message.append(after);
    EdgeError::of(message)
}

/// A message with a path at its end.
fn before_path(before: &str, path: &str) -> (error: EdgeError)
    ensures
        error@ == before@ + path@,
{
    let mut message = before.to_owned();
    message.append(path);
    EdgeError::of(message)
}

/// The secret in a plain file.
pub fn load_file_secret(path: &str, read: &FileRead, waiver: &Option<String>) -> (out: Result<
    String,
    EdgeError,
>)
    ensures
        error::outcome(out) == file_secret(path@, *read, text::opt_text(*waiver)),
{
    match read {
        FileRead::Missing { error } => Err(EdgeError::of(error.clone())),
        FileRead::NotRead { mode } => match warn_if_secret_permissions_are_broad(
            path,
            *mode,
            waiver,
        ) {
            Err(error) => Err(error),
            Ok(_) => Err(before_path("failed to read secret file ", path)),
        },
        FileRead::Read { mode, contents } => match warn_if_secret_permissions_are_broad(
            path,
            *mode,
            waiver,
        ) {
            Err(error) => Err(error),
            Ok(_) => {
                let value = text::trimmed_text(contents);
                if value.as_str().is_empty() {
                    Err(around_path("secret file ", path, " is empty"))
                } else {
                    Ok(value)
                }
            },
        },
    }
}

/// The secret in a file that is protected for the Windows user.
pub open spec fn dpapi_secret(path: Seq<char>, read: DpapiRead) -> Result<Seq<char>, Seq<char>> {
    match read {
        DpapiRead::Unavailable => Err(
            "dpapi secret provider is only available on Windows; cannot read "@ + path,
        ),
        DpapiRead::NotRead => Err("failed to read DPAPI secret "@ + path),
        DpapiRead::NotUnprotected { error } => Err(error@),
        DpapiRead::Read { secret } => match encoding::utf8_text(secret@) {
            None => Err("DPAPI secret "@ + path + " is not valid UTF-8"@),
            Some(contents) => if text::trim(contents).len() == 0 {
                Err("DPAPI secret "@ + path + " is empty"@)
            } else {
                Ok(text::trim(contents))
            },
        },
    }
}

/// The secret in a file that is protected for the Windows user.
pub fn read_dpapi_secret(path: &str, read: &DpapiRead) -> (out: Result<String, EdgeError>)
    ensures
        error::outcome(out) == dpapi_secret(path@, *read),
{
    match read {
        DpapiRead::Unavailable => Err(
            before_path("dpapi secret provider is only available on Windows; cannot read ", path),
        ),
        DpapiRead::NotRead => Err(before_path("failed to read DPAPI secret ", path)),
        DpapiRead::NotUnprotected { error } => Err(EdgeError::of(error.clone())),
        DpapiRead::Read { secret } => match encoding::text_from_utf8(secret.as_slice()) {
            None => Err(around_path("DPAPI secret ", path, " is not valid UTF-8")),
            Some(contents) => {
                let value = text::trimmed_text(&contents);
                if value.as_str().is_empty() {
                    Err(around_path("DPAPI secret ", path, " is empty"))
                } else {
                    Ok(value)
                }
            },
        },
    }
}

/// The refusal of the provider that is reserved.
pub open spec fn reserved_provider() -> Seq<char> {
    "windows-credential secret provider is reserved for a future backend; use dpapi or file"@
}

/// The secret that a provider keeps in a file.
pub open spec fn secret_in(
    provider: SecretProviderKind,
    path: Seq<char>,
    facts: SecretFacts,
    waiver: Option<Seq<char>>,
) -> Result<Seq<char>, Seq<char>> {
    match provider {
        SecretProviderKind::File => file_secret(path, facts.file, waiver),
        SecretProviderKind::Dpapi => dpapi_secret(path, facts.dpapi),
        SecretProviderKind::WindowsCredential => Err(reserved_provider()),
    }
}

/// The secret that a provider keeps in a file.
pub fn load_secret_from_path(
    provider: SecretProviderKind,
    path: &str,
    facts: &SecretFacts,
    waiver: &Option<String>,
) -> (out: Result<String, EdgeError>)
    ensures
        error::outcome(out) == secret_in(provider, path@, *facts, text::opt_text(*waiver)),
{
    match provider {
        SecretProviderKind::File => load_file_secret(path, &facts.file, waiver),
        SecretProviderKind::Dpapi => read_dpapi_secret(path, &facts.dpapi),
        SecretProviderKind::WindowsCredential => Err(
            EdgeError::new(
                "windows-credential secret provider is reserved for a future backend; use dpapi or file",
            ),
        ),
    }
}

/// The secret that a reference leads to, if there is a reference.
pub open spec fn referenced_secret(
    style: PathStyle,
    base: Seq<char>,
    reference: Option<SecretReferenceView>,
    facts: SecretFacts,
    waiver: Option<Seq<char>>,
) -> Result<Option<Seq<char>>, Seq<char>> {
    match reference {
        None => Ok(None),
        Some(inner) => match inner.path {
            None => Err(
                inner.provider.name() + " secret provider requires a path in this release"@,
            ),
            Some(path) => match secret_in(
                inner.provider,
                paths::join(style, base, path),
                facts,
                waiver,
            ) {
                Ok(secret) => Ok(Some(secret)),
                Err(message) => Err(message),
            },
        },
    }
}

/// The secret that a reference leads to, if there is a reference.
pub fn load_secret_reference(
    style: PathStyle,
    base: &str,
    reference: &Option<SecretReference>,
    facts: &SecretFacts,
    waiver: &Option<String>,
) -> (out: Result<Option<String>, EdgeError>)
    ensures
        (match out {
            Ok(found) => Ok::<Option<Seq<char>>, Seq<char>>(text::opt_text(found)),
            Err(error) => Err::<Option<Seq<char>>, Seq<char>>(error@),
        }) == referenced_secret(
            style,
            base@,
            opt_reference(*reference),
            *facts,
            text::opt_text(*waiver),
        ),
{
    match reference {
        None => Ok(None),
        Some(inner) => match &inner.path {
            None => {
                let mut message = inner.label().to_owned();
                message.append(" secret provider requires a path in this release");
                Err(EdgeError::of(message))
            },
            Some(path) => {
                let resolved = resolve_path(style, base, path);
                match load_secret_from_path(inner.provider, &resolved, facts, waiver) {
                    Ok(secret) => Ok(Some(secret)),
                    Err(error) => Err(error),
                }
            },
        },
    }
}

/// A secret that was loaded is trimmed and not blank.
pub proof fn loaded_secrets_are_not_blank(
    style: PathStyle,
    base: Seq<char>,
    reference: Option<SecretReferenceView>,
    facts: SecretFacts,
    waiver: Option<Seq<char>>,
)
    ensures
        referenced_secret(style, base, reference, facts, waiver) matches Ok(Some(secret)) ==> {
            &&& secret.len() > 0
            &&& text::trim(secret) == secret
        },
{
    match facts.file {
        FileRead::Read { mode, contents } => {
            text::trimming_twice_changes_nothing(contents@);
        },
        _ => {},
    }
    match facts.dpapi {
        DpapiRead::Read { secret } => {
            if let Some(contents) = encoding::utf8_text(secret@) {
                text::trimming_twice_changes_nothing(contents);
            }
        },
        _ => {},
    }
}

/// How a secret is to be written.
#[derive(Clone, Copy, Debug, PartialEq, Eq, Structural)]
pub enum SecretWrite {
    /// As it is, to a plain file.
    Plain,
    /// Protected for the Windows user.
    Protected,
}

/// How a secret is to be written by a provider, or the message of the refusal.
pub open spec fn secret_write(
    path: Seq<char>,
    provider: SecretProviderKind,
    on_windows: bool,
) -> Result<SecretWrite, Seq<char>> {
    match provider {
        SecretProviderKind::File => Ok(SecretWrite::Plain),
        SecretProviderKind::Dpapi => if on_windows {
            Ok(SecretWrite::Protected)
        } else {
            Err("dpapi secret provider is only available on Windows; cannot write "@ + path)
        },
        SecretProviderKind::WindowsCredential => Err(reserved_provider()),
    }
}

/// Whether a secret can be protected for the Windows user.
pub fn write_dpapi_secret(path: &str, on_windows: bool) -> (out: Result<SecretWrite, EdgeError>)
    ensures
        (match out {
            Ok(way) => Ok::<SecretWrite, Seq<char>>(way),
            Err(error) => Err::<SecretWrite, Seq<char>>(error@),
        }) == secret_write(path@, SecretProviderKind::Dpapi, on_windows),
{
    if on_windows {
        Ok(SecretWrite::Protected)
    } else {
        Err(before_path("dpapi secret provider is only available on Windows; cannot write ", path))
    }
}

/// How a secret is to be written by a provider.
pub fn write_secret_value(path: &str, provider: SecretProviderKind, on_windows: bool) -> (out: Result<
    SecretWrite,
    EdgeError,
>)
    ensures
        (match out {
            Ok(way) => Ok::<SecretWrite, Seq<char>>(way),
            Err(error) => Err::<SecretWrite, Seq<char>>(error@),
        }) == secret_write(path@, provider, on_windows),
{
    match provider {
        SecretProviderKind::File => Ok(SecretWrite::Plain),
        SecretProviderKind::Dpapi => write_dpapi_secret(path, on_windows),
        SecretProviderKind::WindowsCredential => Err(
            EdgeError::new(
                "windows-credential secret provider is reserved for a future backend; use dpapi or file",
            ),
        ),
    }
}

/// The key to import, or the message of its refusal. Nothing stands for a source that cannot be
/// read.
pub open spec fn key_to_import(from_path: Seq<char>, contents: Option<Seq<char>>) -> Result<
    Seq<char>,
    Seq<char>,
> {
    match contents {
        None => Err("failed to read source key "@ + from_path),
        Some(body) => if text::trim(body).len() == 0 {
            Err("source key "@ + from_path + " is empty"@)
        } else {
            Ok(text::trim(body))
        },
    }
}

/// The key to import.
pub fn import_trust_key(from_path: &str, contents: &Option<String>) -> (out: Result<
    String,
    EdgeError,
>)
    ensures
        error::outcome(out) == key_to_import(from_path@, text::opt_text(*contents)),
{
    match contents {
        None => Err(before_path("failed to read source key ", from_path)),
        Some(body) => {
            let value = text::trimmed_text(body);
            if value.as_str().is_empty() {
                Err(around_path("source key ", from_path, " is empty"))
            } else {
                Ok(value)
            }
        },
    }
}

/// The failure to write an imported key.
pub fn import_write_error(provider: SecretProviderKind, to_path: &str) -> (error: EdgeError)
    ensures
        error@ == "failed to write "@ + provider.name() + " secret "@ + to_path@,
{
    let mut message = "failed to write ".to_owned();
    message.append(provider.label());
    message.append(" secret ");
    message.append(to_path);
    EdgeError::of(message)
}

/// The keys of a list.
pub open spec fn key_views(keys: Seq<TrustedOrchestratorKey>) -> Seq<TrustedOrchestratorKeyView> {
    keys.map_values(|item: TrustedOrchestratorKey| item@)
}

/// A list of keys none of which is blank.
pub open spec fn all_keys_are_given(keys: Seq<TrustedOrchestratorKeyView>) -> bool {
    forall|i: int| 0 <= i < keys.len() ==> text::trim(#[trigger] keys[i].public_key).len() > 0
}

/// The pinned keys, if a file of them is configured.
pub open spec fn pinned_keys(
    style: PathStyle,
    base: Seq<char>,
    path: Option<Seq<char>>,
    read: BundleRead,
) -> Result<Seq<TrustedOrchestratorKeyView>, Seq<char>> {
    match path {
        None => Ok(Seq::empty()),
        Some(given) => {
            let resolved = paths::join(style, base, given);
            match read {
                BundleRead::Missing { error } => Err(error@),
                BundleRead::NotRead => Err("failed to read trust bundle "@ + resolved),
                BundleRead::NotParsed => Err("failed to parse trust bundle "@ + resolved),
                BundleRead::Parsed { keys } => if all_keys_are_given(key_views(keys@)) {
                    Ok(key_views(keys@))
                } else {
                    Err("trust bundle "@ + resolved + " contains an empty public key"@)
                },
            }
        },
    }
}

/// Whether none of the keys is blank.
fn keys_are_given(keys: &Vec<TrustedOrchestratorKey>) -> (given: bool)
    ensures
        given == all_keys_are_given(key_views(keys@)),
{
    let mut i: usize = 0;
    while i < keys.len()
        invariant
            i <= keys.len(),
            forall|k: int|
                0 <= k < i ==> text::trim(#[trigger] key_views(keys@)[k].public_key).len() > 0,
        decreases keys.len() - i,
    {
        assert(key_views(keys@)[i as int] == keys@[i as int]@);
        if text::trimmed_text(&keys[i].public_key).as_str().is_empty() {
            let ghost blank = key_views(keys@)[i as int].public_key;
            assert(text::trim(blank).len() == 0);
            return false;
        }
        i = i + 1;
    }
    true
}

/// The pinned keys, if a file of them is configured.
pub fn load_trusted_orchestrator_keys(
    style: PathStyle,
    base: &str,
    path: &Option<String>,
    read: BundleRead,
) -> (out: Result<Vec<TrustedOrchestratorKey>, EdgeError>)
    ensures
        (match out {
            Ok(keys) => Ok::<Seq<TrustedOrchestratorKeyView>, Seq<char>>(key_views(keys@)),
            Err(error) => Err::<Seq<TrustedOrchestratorKeyView>, Seq<char>>(error@),
        }) == pinned_keys(style, base@, text::opt_text(*path), read),
{
    let given = match path {
        None => {
            let none: Vec<TrustedOrchestratorKey> = Vec::new();
            assert(key_views(none@) == Seq::<TrustedOrchestratorKeyView>::empty());
            return Ok(none);
        },
        Some(given) => given,
    };
    let resolved = resolve_path(style, base, given);
    match read {
        BundleRead::Missing { error } => Err(EdgeError::of(error)),
        BundleRead::NotRead => Err(before_path("failed to read trust bundle ", &resolved)),
        BundleRead::NotParsed => Err(before_path("failed to parse trust bundle ", &resolved)),
        BundleRead::Parsed { keys } => {
            if !keys_are_given(&keys) {
                return Err(
                    around_path("trust bundle ", &resolved, " contains an empty public key"),
                );
            }
            Ok(keys)
        },
    }
}

/// A text without the slashes at its end.
pub open spec fn without_trailing_slashes(s: Seq<char>) -> Seq<char>
    decreases s.len(),
{
    if s.len() > 0 && s.last() == '/' {
        without_trailing_slashes(s.drop_last())
    } else {
        s
    }
}

/// A text without the slashes at its end.
pub fn strip_trailing_slashes(s: &str) -> (out: String)
    ensures
        out@ == without_trailing_slashes(s@),
{
    let chars = text::chars_of(s);
    let mut end: usize = chars.len();
    assert(chars@.subrange(0, end as int) == s@);
    while end > 0 && chars[end - 1] == '/'
        invariant
            end <= chars.len(),
            without_trailing_slashes(s@) == without_trailing_slashes(
                chars@.subrange(0, end as int),
            ),
        decreases end,
    {
        assert(chars@.subrange(0, end as int).drop_last() == chars@.subrange(0, end - 1));
        end = end - 1;
    }
    assert(end > 0 ==> chars@.subrange(0, end as int).last() == chars@[end - 1]);
    text::string_between(&chars, 0, end)
}

/// The repositories that a configuration names.
pub open spec fn named_repos(named: Seq<Seq<char>>, roots: Seq<Seq<char>>) -> Seq<Seq<char>> {
    if named.len() == 0 && roots.len() == 0 {
        default_repos()
    } else {
        unique_entries(named)
    }
}

/// The directory of the state, and those of the workspace and its worktrees.
pub open spec fn workspace_root_of(
    style: PathStyle,
    config_path: Seq<char>,
    file: EdgeConfigFile,
) -> Seq<char> {
    paths::join(
        style,
        config_dir(style, config_path),
        match file.repositories.workspace_root {
            Some(given) => given@,
            None => "/workspace"@,
        },
    )
}

/// A configured directory, or one below `.elowen` in the workspace.
pub open spec fn directory_or(
    style: PathStyle,
    config_path: Seq<char>,
    file: EdgeConfigFile,
    configured: Option<Seq<char>>,
    name: Seq<char>,
) -> Seq<char> {
    match configured {
        Some(given) => paths::join(style, config_dir(style, config_path), given),
        None => paths::join(
            style,
            paths::join(style, workspace_root_of(style, config_path, file), ".elowen"@),
            name,
        ),
    }
}

/// The identity of the device.
pub open spec fn device_id_of(file: EdgeConfigFile, host: HostFacts) -> Seq<char> {
    value_or(
        text::opt_text(file.device.id),
        discovery::detected_id(text::opt_text(host.computer_name), text::opt_text(host.host_name)),
    )
}

/// The name of the device.
pub open spec fn device_name_of(file: EdgeConfigFile, host: HostFacts) -> Seq<char> {
    value_or(
        text::opt_text(file.device.name),
        discovery::detected_name(
            text::opt_text(host.computer_name),
            text::opt_text(host.host_name),
            device_id_of(file, host),
        ),
    )
}

/// The parts of a configuration that can fail, in the order in which they are looked at.
pub struct CheckedParts {
    pub roots: Seq<Seq<char>>,
    pub exclusions: Seq<Seq<char>>,
    pub edge_ref: Option<SecretReferenceView>,
    pub previous_ref: Option<SecretReferenceView>,
    pub nats_url: Seq<char>,
    pub sandbox_mode: SandboxMode,
    pub keys: Seq<TrustedOrchestratorKeyView>,
    pub edge_key: Option<Seq<char>>,
    pub previous_key: Option<Seq<char>>,
}

/// The repository roots and the exclusions, or the message of the first that is refused.
pub open spec fn checked_repositories(file: EdgeConfigFile, host: HostFacts) -> Result<
    (Seq<Seq<char>>, Seq<Seq<char>>),
    Seq<char>,
> {
    match resolved_roots(host.style, file.repositories.allowed_roots@.len(), host.allowed_roots@) {
        Err(message) => Err(message),
        Ok(roots) => match resolved_exclusions(
            host.style,
            file.repositories.excluded_paths@.len(),
            host.excluded_paths@,
            roots,
        ) {
            Err(message) => Err(message),
            Ok(exclusions) => Ok((roots, exclusions)),
        },
    }
}

/// The two references to signing keys, or the message of the first conflict.
pub open spec fn checked_references(file: EdgeConfigFile) -> Result<
    (Option<SecretReferenceView>, Option<SecretReferenceView>),
    Seq<char>,
> {
    match one_reference(
        "edge signing key"@,
        opt_reference(file.trust.edge_signing_key),
        text::opt_text(file.trust.edge_signing_key_path),
    ) {
        Err(message) => Err(message),
        Ok(edge_ref) => match one_reference(
            "previous edge signing key"@,
            opt_reference(file.trust.previous_edge_signing_key),
            text::opt_text(file.trust.previous_edge_signing_key_path),
        ) {
            Err(message) => Err(message),
            Ok(previous_ref) => Ok((edge_ref, previous_ref)),
        },
    }
}

/// The pinned keys and the two signing keys, or the message of the first that cannot be had.
pub open spec fn checked_trust(
    base: Seq<char>,
    file: EdgeConfigFile,
    host: HostFacts,
    edge_ref: Option<SecretReferenceView>,
    previous_ref: Option<SecretReferenceView>,
) -> Result<
    (Seq<TrustedOrchestratorKeyView>, Option<Seq<char>>, Option<Seq<char>>),
    Seq<char>,
> {
    let waiver = text::opt_text(host.allow_broad_permissions);
    match pinned_keys(
        host.style,
        base,
        text::opt_text(file.trust.orchestrator_keys_path),
        host.trust_bundle,
    ) {
        Err(message) => Err(message),
        Ok(keys) => match referenced_secret(host.style, base, edge_ref, host.edge_key, waiver) {
            Err(message) => Err(message),
            Ok(edge_key) => match referenced_secret(
                host.style,
                base,
                previous_ref,
                host.previous_edge_key,
                waiver,
            ) {
                Err(message) => Err(message),
                Ok(previous_key) => Ok((keys, edge_key, previous_key)),
            },
        },
    }
}

/// The parts of a configuration that can fail.
pub open spec fn checked_parts(
    config_path: Seq<char>,
    file: EdgeConfigFile,
    host: HostFacts,
) -> Result<CheckedParts, Seq<char>> {
    match checked_repositories(file, host) {
        Err(message) => Err(message),
        Ok((roots, exclusions)) => match checked_references(file) {
            Err(message) => Err(message),
            Ok((edge_ref, previous_ref)) => match trimmed_value(
                text::opt_text(file.orchestrator.nats_url),
            ) {
                None => Err("missing orchestrator.nats_url"@),
                Some(nats_url) => match sandbox::sandbox_mode_of(
                    text::opt_text(file.runner.sandbox_mode),
                ) {
                    Err(message) => Err(message),
                    Ok(sandbox_mode) => match checked_trust(
                        config_dir(host.style, config_path),
                        file,
                        host,
                        edge_ref,
                        previous_ref,
                    ) {
                        Err(message) => Err(message),
                        Ok((keys, edge_key, previous_key)) => Ok(
                            CheckedParts {
                                roots,
                                exclusions,
                                edge_ref,
                                previous_ref,
                                nats_url,
                                sandbox_mode,
                                keys,
                                edge_key,
                                previous_key,
                            },
                        ),
                    },
                },
            },
        },
    }
}

/// The configuration that a file and a host make up, or the message of its refusal.
pub open spec fn config_of(config_path: Seq<char>, file: EdgeConfigFile, host: HostFacts) -> Result<
    EdgeConfigView,
    Seq<char>,
> {
    let base = config_dir(host.style, config_path);
    let state_dir = directory_or(
        host.style,
        config_path,
        file,
        text::opt_text(file.runtime.state_dir),
        "edge-state"@,
    );
    match checked_parts(config_path, file, host) {
        Err(message) => Err(message),
        Ok(parts) => Ok(
            EdgeConfigView {
                config_path,
                api_url: without_trailing_slashes(
                    value_or(
                        text::opt_text(file.orchestrator.api_url),
                        "http://elowen-api:8080"@,
                    ),
                ),
                nats_url: parts.nats_url,
                device_id: device_id_of(file, host),
                device_name: device_name_of(file, host),
                primary_flag: match file.device.primary {
                    Some(flag) => flag,
                    None => true,
                },
                allowed_repos: named_repos(
                    text::texts(file.repositories.allowed_repos@),
                    parts.roots,
                ),
                allowed_repo_roots: parts.roots,
                hidden_repos: unique_entries(text::texts(file.repositories.hidden_repos@)),
                excluded_repo_paths: parts.exclusions,
                capabilities: entries_or(
                    text::texts(file.device.capabilities@),
                    default_capabilities(),
                ),
                workspace_root: workspace_root_of(host.style, config_path, file),
                worktree_root: directory_or(
                    host.style,
                    config_path,
                    file,
                    text::opt_text(file.repositories.worktree_root),
                    "worktrees"@,
                ),
                codex_command: trimmed_value(text::opt_text(file.runner.codex_command)),
                codex_args: text::texts(file.runner.codex_args@),
                simulated_run_ms: match file.runner.simulated_run_ms {
                    Some(ms) => ms,
                    None => 1500,
                },
                validation_timeout_secs: match file.runner.validation_timeout_secs {
                    Some(secs) => secs,
                    None => 600,
                },
                sandbox_mode: parts.sandbox_mode,
                trusted_orchestrator_keys: parts.keys,
                orchestrator_keys_path: match file.trust.orchestrator_keys_path {
                    Some(path) => Some(paths::join(host.style, base, path@)),
                    None => None,
                },
                edge_signing_key: parts.edge_key,
                edge_signing_key_ref: parts.edge_ref,
                previous_edge_signing_key: parts.previous_key,
                previous_edge_signing_key_ref: parts.previous_ref,
                state_dir,
                status_path: paths::join(host.style, state_dir, "status.json"@),
                service_name: value_or(text::opt_text(file.service.name), "elowen-edge"@),
                log_format: match file.runtime.log_format {
                    Some(format) => format@,
                    None => "plain"@,
                },
                rust_log: trimmed_value(text::opt_text(file.runtime.rust_log)),
            },
        ),
    }
}

/// A configured directory, or one below `.elowen` in the workspace.
fn directory_or_default(
    style: PathStyle,
    config_dir: &str,
    workspace_root: &str,
    configured: &Option<String>,
    name: &str,
) -> (out: String)
    ensures
        out@ == (match text::opt_text(*configured) {
            Some(given) => paths::join(style, config_dir@, given),
            None => paths::join(style, paths::join(style, workspace_root@, ".elowen"@), name@),
        }),
{
    match configured {
        Some(given) => resolve_path(style, config_dir, given),
        None => paths::join_path(style, &paths::join_path(style, workspace_root, ".elowen"), name),
    }
}

/// The repository roots and the exclusions.
fn check_repositories(file: &EdgeConfigFile, host: &HostFacts) -> (out: Result<
    (Vec<String>, Vec<String>),
    EdgeError,
>)
    ensures
        (match out {
            Ok((roots, exclusions)) => Ok::<(Seq<Seq<char>>, Seq<Seq<char>>), Seq<char>>(
                (text::texts(roots@), text::texts(exclusions@)),
            ),
            Err(error) => Err::<(Seq<Seq<char>>, Seq<Seq<char>>), Seq<char>>(error@),
        }) == checked_repositories(*file, *host),
{
    let roots = match resolve_existing_dirs(
        host.style,
        &file.repositories.allowed_roots,
        &host.allowed_roots,
    ) {
        Ok(roots) => roots,
        Err(error) => return Err(error),
    };
    match resolve_policy_paths(
        host.style,
        &file.repositories.excluded_paths,
        &host.excluded_paths,
        &roots,
    ) {
        Ok(exclusions) => Ok((roots, exclusions)),
        Err(error) => Err(error),
    }
}

/// The two references to signing keys.
fn check_references(file: &EdgeConfigFile) -> (out: Result<
    (Option<SecretReference>, Option<SecretReference>),
    EdgeError,
>)
    ensures
        (match out {
            Ok((edge, previous)) => Ok::<
                (Option<SecretReferenceView>, Option<SecretReferenceView>),
                Seq<char>,
            >((opt_reference(edge), opt_reference(previous))),
            Err(error) => Err::<
                (Option<SecretReferenceView>, Option<SecretReferenceView>),
                Seq<char>,
            >(error@),
        }) == checked_references(*file),
{
    let edge = match normalized_secret_reference(
        "edge signing key",
        &file.trust.edge_signing_key,
        &file.trust.edge_signing_key_path,
    ) {
        Ok(reference) => reference,
        Err(error) => return Err(error),
    };
    match normalized_secret_reference(
        "previous edge signing key",
        &file.trust.previous_edge_signing_key,
        &file.trust.previous_edge_signing_key_path,
    ) {
        Ok(previous) => Ok((edge, previous)),
        Err(error) => Err(error),
    }
}

/// The pinned keys and the two signing keys.
fn check_trust(
    base: &str,
    file: &EdgeConfigFile,
    host: HostFacts,
    edge_ref: &Option<SecretReference>,
    previous_ref: &Option<SecretReference>,
) -> (out: Result<
    (Vec<TrustedOrchestratorKey>, Option<String>, Option<String>),
    EdgeError,
>)
    ensures
        (match out {
            Ok((keys, edge, previous)) => Ok::<
                (Seq<TrustedOrchestratorKeyView>, Option<Seq<char>>, Option<Seq<char>>),
                Seq<char>,
            >((key_views(keys@), text::opt_text(edge), text::opt_text(previous))),
            Err(error) => Err::<
                (Seq<TrustedOrchestratorKeyView>, Option<Seq<char>>, Option<Seq<char>>),
                Seq<char>,
            >(error@),
        }) == checked_trust(
            base@,
            *file,
            host,
            opt_reference(*edge_ref),
            opt_reference(*previous_ref),
        ),
{
    let keys = match load_trusted_orchestrator_keys(
        host.style,
        base,
        &file.trust.orchestrator_keys_path,
        host.trust_bundle,
    ) {
        Ok(keys) => keys,
        Err(error) => return Err(error),
    };
    let edge = match load_secret_reference(
        host.style,
        base,
        edge_ref,
        &host.edge_key,
        &host.allow_broad_permissions,
    ) {
        Ok(key) => key,
        Err(error) => return Err(error),
    };
    match load_secret_reference(
        host.style,
        base,
        previous_ref,
        &host.previous_edge_key,
        &host.allow_broad_permissions,
    ) {
        Ok(previous) => Ok((keys, edge, previous)),
        Err(error) => Err(error),
    }
}

/// The parts of a configuration that can fail.
struct Parts {
    roots: Vec<String>,
    exclusions: Vec<String>,
    edge_ref: Option<SecretReference>,
    previous_ref: Option<SecretReference>,
    nats_url: String,
    sandbox_mode: SandboxMode,
    keys: Vec<TrustedOrchestratorKey>,
    edge_key: Option<String>,
    previous_key: Option<String>,
}

impl View for Parts {
    type V = CheckedParts;

    closed spec fn view(&self) -> CheckedParts {
        CheckedParts {
            roots: text::texts(self.roots@),
            exclusions: text::texts(self.exclusions@),
            edge_ref: opt_reference(self.edge_ref),
            previous_ref: opt_reference(self.previous_ref),
            nats_url: self.nats_url@,
            sandbox_mode: self.sandbox_mode,
            keys: key_views(self.keys@),
            edge_key: text::opt_text(self.edge_key),
            previous_key: text::opt_text(self.previous_key),
        }
    }
}

/// The parts of a configuration that can fail.
fn check_parts(config_path: &str, file: &EdgeConfigFile, host: HostFacts) -> (out: Result<
    Parts,
    EdgeError,
>)
    ensures
        error::outcome(out) == checked_parts(config_path@, *file, host),
{
    let base = config_directory(host.style, config_path);
    let (roots, exclusions) = match check_repositories(file, &host) {
        Ok(found) => found,
        Err(error) => return Err(error),
    };
    let (edge_ref, previous_ref) = match check_references(file) {
        Ok(found) => found,
        Err(error) => return Err(error),
    };
    let nats_url = match trimmed(&file.orchestrator.nats_url) {
        Some(url) => url,
        None => return Err(EdgeError::new("missing orchestrator.nats_url")),
    };
    let configured_mode: Option<&str> = match &file.runner.sandbox_mode {
        Some(mode) => Some(mode.as_str()),
        None => None,
    };
    let sandbox_mode = match SandboxMode::from_env(configured_mode) {
        Ok(mode) => mode,
        Err(error) => return Err(error),
    };
    match check_trust(&base, file, host, &edge_ref, &previous_ref) {
        Ok((keys, edge_key, previous_key)) => Ok(
            Parts {
                roots,
                exclusions,
                edge_ref,
                previous_ref,
                nats_url,
                sandbox_mode,
                keys,
                edge_key,
                previous_key,
            },
        ),
        Err(error) => Err(error),
    }
}

impl EdgeConfig {
    /// The configuration that a file and a host make up.
    #[verifier::rlimit(40)]
    pub fn from_file(config_path: &str, file: EdgeConfigFile, host: HostFacts) -> (out: Result<
        EdgeConfig,
        EdgeError,
    >)
        ensures
            error::outcome(out) == config_of(config_path@, file, host),
    {
        let style = host.style;
        let config_dir = config_directory(style, config_path);
        let device_id = match trimmed(&file.device.id) {
            Some(id) => id,
            None => discovery::detect_device_id(&host.computer_name, &host.host_name),
        };
        let device_name = match trimmed(&file.device.name) {
            Some(name) => name,
            None => discovery::detect_device_name(
                &host.computer_name,
                &host.host_name,
                &device_id,
            ),
        };
        let workspace_root = resolve_path_or_default(
            style,
            &config_dir,
            &file.repositories.workspace_root,
            "/workspace",
        );
        let worktree_root = directory_or_default(
            style,
            &config_dir,
            &workspace_root,
            &file.repositories.worktree_root,
            "worktrees",
        );
        let parts = match check_parts(config_path, &file, host) {
            Ok(parts) => parts,
            Err(error) => return Err(error),
        };
        assert(text::texts(file.repositories.allowed_repos@).len()
            == file.repositories.allowed_repos.len());
        assert(parts@.roots.len() == parts.roots.len());
        let allowed_repos = if file.repositories.allowed_repos.len() == 0
            && parts.roots.len() == 0 {
            repos_by_default()
        } else {
            unique_strings(&file.repositories.allowed_repos)
        };
        let state_dir = directory_or_default(
            style,
            &config_dir,
            &workspace_root,
            &file.runtime.state_dir,
            "edge-state",
        );
        let orchestrator_keys_path = match &file.trust.orchestrator_keys_path {
            Some(path) => Some(resolve_path(style, &config_dir, path)),
            None => None,
        };
        let api_url = match trimmed(&file.orchestrator.api_url) {
            Some(url) => strip_trailing_slashes(&url),
            None => strip_trailing_slashes("http://elowen-api:8080"),
        };
        let hidden_repos = unique_strings(&file.repositories.hidden_repos);
        let capabilities = defaulted_strings(
            &file.device.capabilities,
            capabilities_by_default(),
        );
        let status_path = paths::join_path(style, &state_dir, "status.json");
        Ok(
            EdgeConfig {
                config_path: config_path.to_owned(),
                api_url,
                nats_url: parts.nats_url,
                device_id,
                device_name,
                primary_flag: match file.device.primary {
                    Some(flag) => flag,
                    None => true,
                },
                allowed_repos,
                allowed_repo_roots: parts.roots,
                hidden_repos,
                excluded_repo_paths: parts.exclusions,
                capabilities,
                workspace_root,
                worktree_root,
                codex_command: trimmed(&file.runner.codex_command),
                codex_args: file.runner.codex_args,
                simulated_run_ms: match file.runner.simulated_run_ms {
                    Some(ms) => ms,
                    None => 1500,
                },
                validation_timeout_secs: match file.runner.validation_timeout_secs {
                    Some(secs) => secs,
                    None => 600,
                },
                sandbox_mode: parts.sandbox_mode,
                trusted_orchestrator_keys: parts.keys,
                orchestrator_keys_path,
                edge_signing_key: parts.edge_key,
                edge_signing_key_ref: parts.edge_ref,
                previous_edge_signing_key: parts.previous_key,
                previous_edge_signing_key_ref: parts.previous_ref,
                state_dir,
                status_path,
                service_name: default_service_name(&file.service.name),
                log_format: match file.runtime.log_format {
                    Some(format) => format,
                    None => "plain".to_owned(),
                },
                rust_log: trimmed(&file.runtime.rust_log),
            },
        )
    }
}

/// A configuration that was accepted holds no blank pinned key, offers repositories without
/// repetition, and excludes only paths within its repository roots.
pub proof fn accepted_configurations_are_sound(
    config_path: Seq<char>,
    file: EdgeConfigFile,
    host: HostFacts,
)
    ensures
        config_of(config_path, file, host) matches Ok(config) ==> {
            &&& all_keys_are_given(config.trusted_orchestrator_keys)
            &&& config.nats_url.len() > 0
            &&& config.hidden_repos.no_duplicates()
            &&& forall|i: int|
                0 <= i < config.excluded_repo_paths.len() ==> paths::lies_within_any(
                    host.style,
                    #[trigger] config.excluded_repo_paths[i],
                    config.allowed_repo_roots,
                )
            &&& config.previous_edge_signing_key_ref is None
                ==> config.previous_edge_signing_key is None
            &&& config.edge_signing_key_ref is Some <==> config.edge_signing_key is Some
        },
{
    match resolved_roots(host.style, file.repositories.allowed_roots@.len(), host.allowed_roots@) {
        Ok(roots) => {
            exclusions_lie_within_the_roots(
                host.style,
                file.repositories.excluded_paths@.len(),
                host.excluded_paths@,
                roots,
            );
        },
        Err(_) => {},
    }
    unique_entries_are_distinct(text::texts(file.repositories.hidden_repos@));
}

/// A value that is not blank is taken, trimmed; otherwise there is none, and its stand-in is taken.
pub proof fn blank_values_are_no_values(value: Option<Seq<char>>, stand_in: Seq<char>)
    ensures
        trimmed_value(value) is Some <==> value is Some && text::trim(value->0).len() > 0,
        trimmed_value(value) matches Some(inner) ==> inner == text::trim(value->0),
        trimmed_value(value) is Some ==> value_or(value, stand_in) == text::trim(value->0),
        trimmed_value(value) is None ==> value_or(value, stand_in) == stand_in,
{
}

/// What came first stays first in a cleaned list: more entries are only put behind it.
pub proof fn cleaned_lists_keep_their_order(list: Seq<Seq<char>>, entry: Seq<char>)
    ensures
        ({
            let cleaned = unique_entries(list);
            let longer = unique_entries(list.push(entry));
            let trimmed = text::trim(entry);
            &&& trimmed.len() > 0 && !cleaned.contains(trimmed) ==> longer == cleaned.push(trimmed)
            &&& trimmed.len() == 0 || cleaned.contains(trimmed) ==> longer == cleaned
        }),
{
    assert(list.push(entry).drop_last() =~= list);
    assert(list.push(entry).last() == entry);
}

/// A list that is configured is taken, cleaned; the default is taken only where it is empty.
pub proof fn defaults_stand_in_for_empty_lists(
    list: Seq<Seq<char>>,
    defaults: Seq<Seq<char>>,
    roots: Seq<Seq<char>>,
)
    ensures
        list.len() == 0 ==> entries_or(list, defaults) == defaults,
        list.len() > 0 ==> entries_or(list, defaults) == unique_entries(list),
        list.len() > 0 || roots.len() > 0 ==> named_repos(list, roots) == unique_entries(list),
        list.len() == 0 && roots.len() == 0 ==> named_repos(list, roots) == seq![
            "elowen-api"@,
            "elowen-ui"@,
            "elowen-edge"@,
            "elowen-notes"@,
            "elowen-platform"@,
        ],
        default_capabilities() == seq!["codex"@, "git"@, "build"@, "test"@, "generic_jobs"@],
{
}

/// Slashes at the end of a text are taken off, all of them, and nothing else is.
pub proof fn only_slashes_are_taken_off(s: Seq<char>)
    ensures
        without_trailing_slashes(s).is_prefix_of(s),
        forall|i: int| without_trailing_slashes(s).len() <= i < s.len() ==> #[trigger] s[i] == '/',
        without_trailing_slashes(s).len() > 0 ==> without_trailing_slashes(s).last() != '/',
    decreases s.len(),
{
    if s.len() > 0 && s.last() == '/' {
        let rest = s.drop_last();
        only_slashes_are_taken_off(rest);
        assert forall|i: int| without_trailing_slashes(s).len() <= i < s.len() implies #[trigger] s[i]
            == '/' by {
            if i < rest.len() {
                assert(rest[i] == s[i]);
            }
        }
    }
}

/// Every configured root is taken exactly where each is resolved and is a directory; each is then
/// listed, however it is written, and nothing else is.
pub proof fn every_root_is_taken(style: PathStyle, count: nat, facts: Seq<PathFact>)
    ensures
        resolved_roots(style, count, facts) is Ok <==> forall|i: int|
            0 <= i < count ==> (#[trigger] fact_at(facts, i)) is Resolved && fact_at(
                facts,
                i,
            )->is_dir,
        resolved_roots(style, count, facts) matches Ok(roots) ==> {
            &&& roots.len() <= count
            &&& forall|i: int|
                0 <= i < count ==> lists_path(style, roots, (#[trigger] fact_at(facts, i))->path@)
                    || roots.contains(fact_at(facts, i)->path@)
            &&& forall|k: int|
                #![trigger roots[k]]
                0 <= k < roots.len() ==> exists|i: int|
                    0 <= i < count && (#[trigger] fact_at(facts, i))->path@ == roots[k]
        },
    decreases count,
{
    if count > 0 {
        let shorter = (count - 1) as nat;
        every_root_is_taken(style, shorter, facts);
        let last = fact_at(facts, count - 1);
        if let Ok(before) = resolved_roots(style, shorter, facts) {
            if let Ok(roots) = resolved_roots(style, count, facts) {
                assert forall|i: int| 0 <= i < count implies lists_path(
                    style,
                    roots,
                    (#[trigger] fact_at(facts, i))->path@,
                ) || roots.contains(fact_at(facts, i)->path@) by {
                    if i < shorter {
                        lemma_taken_stays_taken(style, before, roots, fact_at(facts, i)->path@);
                    } else if roots.len() > before.len() {
                        assert(roots[roots.len() - 1] == last->path@);
                    }
                }
                assert forall|k: int| #![trigger roots[k]] 0 <= k < roots.len() implies exists|
                    i: int,
                |
                    0 <= i < count && (#[trigger] fact_at(facts, i))->path@ == roots[k] by {
                    if k < before.len() {
                        assert(roots[k] == before[k]);
                        let i = choose|i: int|
                            0 <= i < shorter && (#[trigger] fact_at(facts, i))->path@ == before[k];
                        assert(fact_at(facts, i)->path@ == roots[k]);
                    } else {
                        assert(fact_at(facts, count - 1)->path@ == roots[k]);
                    }
                }
            }
        }
    }
}

/// Every configured exclusion is taken exactly where each is resolved, exists and lies within a root;
/// each is then listed, however it is written, and nothing else is.
pub proof fn every_exclusion_is_taken(
    style: PathStyle,
    count: nat,
    facts: Seq<PathFact>,
    roots: Seq<Seq<char>>,
)
    ensures
        resolved_exclusions(style, count, facts, roots) is Ok <==> forall|i: int|
            0 <= i < count ==> {
                &&& (#[trigger] fact_at(facts, i)) is Resolved
                &&& fact_at(facts, i)->exists
                &&& paths::lies_within_any(style, fact_at(facts, i)->path@, roots)
            },
        resolved_exclusions(style, count, facts, roots) matches Ok(list) ==> {
            &&& list.len() <= count
            &&& forall|i: int|
                0 <= i < count ==> lists_path(style, list, (#[trigger] fact_at(facts, i))->path@)
                    || list.contains(fact_at(facts, i)->path@)
            &&& forall|k: int|
                #![trigger list[k]]
                0 <= k < list.len() ==> exists|i: int|
                    0 <= i < count && (#[trigger] fact_at(facts, i))->path@ == list[k]
        },
    decreases count,
{
    if count > 0 {
        let shorter = (count - 1) as nat;
        every_exclusion_is_taken(style, shorter, facts, roots);
        let last = fact_at(facts, count - 1);
        if let Ok(before) = resolved_exclusions(style, shorter, facts, roots) {
            if let Ok(list) = resolved_exclusions(style, count, facts, roots) {
                assert forall|i: int| 0 <= i < count implies lists_path(
                    style,
                    list,
                    (#[trigger] fact_at(facts, i))->path@,
                ) || list.contains(fact_at(facts, i)->path@) by {
                    if i < shorter {
                        lemma_taken_stays_taken(style, before, list, fact_at(facts, i)->path@);
                    } else if list.len() > before.len() {
                        assert(list[list.len() - 1] == last->path@);
                    }
                }
                assert forall|k: int| #![trigger list[k]] 0 <= k < list.len() implies exists|
                    i: int,
                |
                    0 <= i < count && (#[trigger] fact_at(facts, i))->path@ == list[k] by {
                    if k < before.len() {
                        assert(list[k] == before[k]);
                        let i = choose|i: int|
                            0 <= i < shorter && (#[trigger] fact_at(facts, i))->path@ == before[k];
                        assert(fact_at(facts, i)->path@ == list[k]);
                    } else {
                        assert(fact_at(facts, count - 1)->path@ == list[k]);
                    }
                }
            }
        }
    }
}

/// A path that was taken stays taken when more is put behind it.
proof fn lemma_taken_stays_taken(
    style: PathStyle,
    before: Seq<Seq<char>>,
    after: Seq<Seq<char>>,
    path: Seq<char>,
)
    requires
        before.len() <= after.len(),
        forall|k: int| 0 <= k < before.len() ==> #[trigger] after[k] == before[k],
        lists_path(style, before, path) || before.contains(path),
    ensures
        lists_path(style, after, path) || after.contains(path),
{
    if lists_path(style, before, path) {
        let i = choose|i: int|
            0 <= i < before.len() && paths::same_path(style, #[trigger] before[i], path);
        assert(paths::same_path(style, after[i], path));
    } else {
        let i = choose|i: int| 0 <= i < before.len() && before[i] == path;
        assert(after[i] == path);
    }
}

/// A path is listed exactly where one in the list is the same path.
pub proof fn listed_paths_are_the_same(
    style: PathStyle,
    list: Seq<Seq<char>>,
    other: Seq<char>,
    path: Seq<char>,
)
    ensures
        !lists_path(style, Seq::empty(), path),
        lists_path(style, list.push(other), path) <==> lists_path(style, list, path)
            || paths::same_path(style, other, path),
{
    let longer = list.push(other);
    assert(longer[list.len() as int] == other);
    if lists_path(style, list, path) {
        let i = choose|i: int|
            0 <= i < list.len() && paths::same_path(style, #[trigger] list[i], path);
        assert(longer[i] == list[i]);
    }
    if lists_path(style, longer, path) {
        let i = choose|i: int|
            0 <= i < longer.len() && paths::same_path(style, #[trigger] longer[i], path);
        if i < list.len() {
            assert(longer[i] == list[i]);
        }
    }
}

/// A secret is configured in one of two ways and not in both. The older one is a file.
pub proof fn secrets_are_configured_once(
    label: Seq<char>,
    reference: Option<SecretReferenceView>,
    legacy_path: Option<Seq<char>>,
)
    ensures
        ({
            let taken = one_reference(label, reference, legacy_path);
            &&& taken is Err <==> reference is Some && legacy_path is Some
            &&& taken matches Err(message) ==> text::contains_text(message, label)
                && text::contains_text(message, legacy_path->0)
            &&& reference is Some && legacy_path is None ==> taken->Ok_0 == reference
            &&& reference is None && legacy_path is None ==> taken->Ok_0 is None
            &&& reference is None && legacy_path is Some ==> {
                &&& taken->Ok_0 matches Some(file)
                &&& file.provider is File
                &&& file.path == legacy_path
                &&& file.name is None
            }
        }),
{
    if let Some(path) = legacy_path {
        let head = "configure either the provider-backed "@ + label;
        let middle = head + " or legacy path "@;
        text::parts_begin_and_end("configure either the provider-backed "@, label);
        text::containing_grows(head, " or legacy path "@);
        text::containing_grows(middle, path);
        text::containing_grows(middle + path, ", not both"@);
    }
}

/// The file of a secret stands beside the configuration, where its path is given.
pub proof fn secret_files_stand_beside_the_configuration(
    style: PathStyle,
    base: Seq<char>,
    reference: Option<SecretReferenceView>,
    legacy_path: Option<Seq<char>>,
)
    ensures
        reference matches Some(inner) ==> {
            &&& inner.path matches Some(path) ==> secret_file(style, base, reference, legacy_path)
                == Some(paths::join(style, base, path))
            &&& inner.path is None ==> secret_file(style, base, reference, legacy_path) is None
        },
        reference is None && legacy_path is Some ==> secret_file(
            style,
            base,
            reference,
            legacy_path,
        ) == Some(paths::join(style, base, legacy_path->0)),
        reference is None && legacy_path is None ==> secret_file(
            style,
            base,
            reference,
            legacy_path,
        ) is None,
{
}

/// Permissions are not looked at exactly where the waiver says yes. They are refused exactly where
/// they are looked at and are broad, and the file is then named.
pub proof fn permissions_are_waived_by_word(
    path: Seq<char>,
    mode: Option<u32>,
    waiver: Option<Seq<char>>,
)
    ensures
        waives_permissions(waiver) <==> waiver is Some && seq!["1"@, "true"@, "yes"@].contains(
            text::lower(text::trim(waiver->0)),
        ),
        permission_check(path, mode, waiver) is Err <==> !waives_permissions(waiver)
            && mode is Some && (mode->0 & 0o070 != 0 || mode->0 & 0o007 != 0),
        permission_check(path, mode, waiver) matches Err(message) ==> text::contains_text(
            message,
            path,
        ),
{
    let words = seq!["1"@, "true"@, "yes"@];
    assert(words[0] == "1"@ && words[1] == "true"@ && words[2] == "yes"@);
    if let Some(bits) = mode {
        assert((bits & 0o777) & 0o077 == 0 <==> bits & 0o070 == 0 && bits & 0o007 == 0)
            by (bit_vector);
    }
    text::parts_are_contained(
        "secret file "@,
        path,
        " is readable by group/other; restrict it to the service user"@,
    );
}

/// A secret is had from a file exactly where that was read, its permissions are admitted, and it is
/// not blank; it is then what the file holds, trimmed. A refusal names the file or passes its error
/// on.
pub proof fn file_secrets_are_what_the_file_holds(
    path: Seq<char>,
    read: FileRead,
    waiver: Option<Seq<char>>,
)
    ensures
        file_secret(path, read, waiver) is Ok <==> {
            &&& read matches FileRead::Read { mode, contents }
            &&& permission_check(path, mode, waiver) is Ok
            &&& text::trim(contents@).len() > 0
        },
        file_secret(path, read, waiver) matches Ok(secret) ==> secret == text::trim(
            read->contents@,
        ),
        read matches FileRead::Missing { error } ==> file_secret(path, read, waiver) == Err::<
            Seq<char>,
            Seq<char>,
        >(error@),
        file_secret(path, read, waiver) matches Err(message) ==> (!(read is Missing)
            ==> text::contains_text(message, path)),
{
    text::parts_begin_and_end("failed to read secret file "@, path);
    text::parts_are_contained("secret file "@, path, " is empty"@);
    text::parts_are_contained(
        "secret file "@,
        path,
        " is readable by group/other; restrict it to the service user"@,
    );
}

/// A protected secret is had exactly where it was read, is text, and is not blank; it is then that
/// text, trimmed.
pub proof fn protected_secrets_are_what_was_protected(path: Seq<char>, read: DpapiRead)
    ensures
        dpapi_secret(path, read) is Ok <==> {
            &&& read matches DpapiRead::Read { secret }
            &&& vstd::utf8::valid_utf8(secret@)
            &&& text::trim(vstd::utf8::decode_utf8(secret@)).len() > 0
        },
        dpapi_secret(path, read) matches Ok(inner) ==> inner == text::trim(
            vstd::utf8::decode_utf8(read->secret@),
        ),
        dpapi_secret(path, read) matches Err(message) ==> {
            &&& read matches DpapiRead::NotUnprotected { error } ==> message == error@
            &&& !(read is NotUnprotected) ==> text::contains_text(message, path)
        },
{
    text::parts_begin_and_end(
        "dpapi secret provider is only available on Windows; cannot read "@,
        path,
    );
    text::parts_begin_and_end("failed to read DPAPI secret "@, path);
    text::parts_are_contained("DPAPI secret "@, path, " is not valid UTF-8"@);
    text::parts_are_contained("DPAPI secret "@, path, " is empty"@);
}

/// A secret is had from the provider that is named, at its path beside the configuration. Where none
/// is referred to there is none, and a reference without a path is refused.
pub proof fn secrets_are_had_from_their_provider(
    style: PathStyle,
    base: Seq<char>,
    reference: Option<SecretReferenceView>,
    facts: SecretFacts,
    waiver: Option<Seq<char>>,
)
    ensures
        ({
            let had = referenced_secret(style, base, reference, facts, waiver);
            &&& reference is None <==> had is Ok && had->Ok_0 is None
            &&& reference matches Some(inner) ==> {
                &&& inner.path is None ==> had is Err
                &&& inner.path matches Some(path) ==> {
                    let place = paths::join(style, base, path);
                    &&& inner.provider is File ==> had == match file_secret(
                        place,
                        facts.file,
                        waiver,
                    ) {
                        Ok(secret) => Ok::<Option<Seq<char>>, Seq<char>>(Some(secret)),
                        Err(message) => Err(message),
                    }
                    &&& inner.provider is Dpapi ==> had == match dpapi_secret(place, facts.dpapi) {
                        Ok(secret) => Ok::<Option<Seq<char>>, Seq<char>>(Some(secret)),
                        Err(message) => Err(message),
                    }
                    &&& inner.provider is WindowsCredential ==> had is Err
                }
            }
        }),
{
}

/// A secret is written plainly to a file, and protected where the platform can do that; anything else
/// is refused.
pub proof fn secrets_are_written_by_their_provider(
    path: Seq<char>,
    provider: SecretProviderKind,
    on_windows: bool,
)
    ensures
        provider is File <==> secret_write(path, provider, on_windows) is Ok && secret_write(
            path,
            provider,
            on_windows,
        )->Ok_0 is Plain,
        provider is Dpapi && on_windows <==> secret_write(path, provider, on_windows) is Ok
            && secret_write(path, provider, on_windows)->Ok_0 is Protected,
        secret_write(path, provider, on_windows) is Err <==> provider is WindowsCredential || (
        provider is Dpapi && !on_windows),
{
}

/// A key is imported exactly where its file was read and is not blank; it is then what the file
/// holds, trimmed. A refusal names the file.
pub proof fn imported_keys_are_what_the_file_holds(
    from_path: Seq<char>,
    contents: Option<Seq<char>>,
)
    ensures
        key_to_import(from_path, contents) is Ok <==> contents is Some && text::trim(
            contents->0,
        ).len() > 0,
        key_to_import(from_path, contents) matches Ok(key) ==> key == text::trim(contents->0),
        key_to_import(from_path, contents) matches Err(message) ==> text::contains_text(
            message,
            from_path,
        ),
{
    text::parts_begin_and_end("failed to read source key "@, from_path);
    text::parts_are_contained("source key "@, from_path, " is empty"@);
}

/// The pinned keys are those of the bundle, all of them and as they stand there, where one is
/// configured, was read and holds no blank key. Without a bundle there are none.
pub proof fn pinned_keys_are_those_of_the_bundle(
    style: PathStyle,
    base: Seq<char>,
    path: Option<Seq<char>>,
    read: BundleRead,
)
    ensures
        ({
            let pinned = pinned_keys(style, base, path, read);
            &&& path is None ==> pinned is Ok && pinned->Ok_0.len() == 0
            &&& path matches Some(given) ==> {
                &&& pinned is Ok <==> read is Parsed && forall|i: int|
                    0 <= i < read->keys@.len() ==> text::trim(
                        (#[trigger] read->keys@[i]).public_key@,
                    ).len() > 0
                &&& pinned matches Ok(keys) ==> {
                    &&& keys.len() == read->keys@.len()
                    &&& forall|i: int|
                        0 <= i < keys.len() ==> {
                            &&& (#[trigger] keys[i]).public_key == read->keys@[i].public_key@
                            &&& keys[i].key_id == text::opt_text(read->keys@[i].key_id)
                        }
                }
                &&& pinned matches Err(message) ==> {
                    &&& read matches BundleRead::Missing { error } ==> message == error@
                    &&& !(read is Missing) ==> text::contains_text(
                        message,
                        paths::join(style, base, given),
                    )
                }
            }
        }),
{
    if let Some(given) = path {
        let place = paths::join(style, base, given);
        text::parts_begin_and_end("failed to read trust bundle "@, place);
        text::parts_begin_and_end("failed to parse trust bundle "@, place);
        text::parts_are_contained("trust bundle "@, place, " contains an empty public key"@);
        if let BundleRead::Parsed { keys } = read {
            let views = key_views(keys@);
            assert forall|i: int| 0 <= i < keys@.len() implies #[trigger] views[i] == keys@[i]@ by {}
            if all_keys_are_given(views) {
                assert forall|i: int| 0 <= i < keys@.len() implies text::trim(
                    (#[trigger] keys@[i]).public_key@,
                ).len() > 0 by {
                    assert(text::trim(views[i].public_key).len() > 0);
                }
            } else {
                let i = choose|i: int|
                    0 <= i < views.len() && !(text::trim(#[trigger] views[i].public_key).len() > 0);
                assert(text::trim(keys@[i].public_key@).len() == 0);
            }
        }
    }
}

/// An accepted configuration says what its file says: every value that is given is taken, and every
/// other has its stand-in. Paths are taken from the directory of the file.
pub proof fn configurations_say_what_their_file_says(
    config_path: Seq<char>,
    file: EdgeConfigFile,
    host: HostFacts,
)
    ensures
        config_of(config_path, file, host) matches Ok(config) ==> {
            let base = config_dir(host.style, config_path);
            let given = |value: Option<String>| trimmed_value(text::opt_text(value));
            let computer = text::opt_text(host.computer_name);
            let host_name = text::opt_text(host.host_name);
            &&& config.config_path == config_path
            &&& given(file.orchestrator.nats_url) == Some(config.nats_url)
            &&& config.api_url == without_trailing_slashes(
                match given(file.orchestrator.api_url) {
                    Some(url) => url,
                    None => "http://elowen-api:8080"@,
                },
            )
            &&& given(file.device.id) is Some ==> given(file.device.id) == Some(config.device_id)
            &&& given(file.device.id) is None ==> config.device_id == discovery::detected_id(
                computer,
                host_name,
            )
            &&& given(file.device.name) is Some ==> given(file.device.name) == Some(
                config.device_name,
            )
            &&& given(file.device.name) is None ==> config.device_name == discovery::detected_name(
                computer,
                host_name,
                config.device_id,
            )
            &&& config.primary_flag <==> file.device.primary != Some(false)
            &&& config.capabilities == entries_or(
                text::texts(file.device.capabilities@),
                default_capabilities(),
            )
            &&& config.allowed_repos == named_repos(
                text::texts(file.repositories.allowed_repos@),
                config.allowed_repo_roots,
            )
            &&& config.hidden_repos == unique_entries(text::texts(file.repositories.hidden_repos@))
            &&& resolved_roots(
                host.style,
                file.repositories.allowed_roots@.len(),
                host.allowed_roots@,
            ) == Ok::<Seq<Seq<char>>, Seq<char>>(config.allowed_repo_roots)
            &&& resolved_exclusions(
                host.style,
                file.repositories.excluded_paths@.len(),
                host.excluded_paths@,
                config.allowed_repo_roots,
            ) == Ok::<Seq<Seq<char>>, Seq<char>>(config.excluded_repo_paths)
            &&& config.workspace_root == paths::join(
                host.style,
                base,
                match file.repositories.workspace_root {
                    Some(root) => root@,
                    None => "/workspace"@,
                },
            )
            &&& config.worktree_root == match file.repositories.worktree_root {
                Some(root) => paths::join(host.style, base, root@),
                None => paths::join(
                    host.style,
                    paths::join(host.style, config.workspace_root, ".elowen"@),
                    "worktrees"@,
                ),
            }
            &&& config.state_dir == match file.runtime.state_dir {
                Some(dir) => paths::join(host.style, base, dir@),
                None => paths::join(
                    host.style,
                    paths::join(host.style, config.workspace_root, ".elowen"@),
                    "edge-state"@,
                ),
            }
            &&& config.status_path == paths::join(host.style, config.state_dir, "status.json"@)
            &&& config.codex_command == given(file.runner.codex_command)
            &&& config.codex_args.len() == file.runner.codex_args@.len()
            &&& forall|i: int|
                0 <= i < config.codex_args.len() ==> #[trigger] config.codex_args[i]
                    == file.runner.codex_args@[i]@
            &&& file.runner.simulated_run_ms matches Some(ms) ==> config.simulated_run_ms == ms
            &&& file.runner.simulated_run_ms is None ==> config.simulated_run_ms == 1500
            &&& file.runner.validation_timeout_secs matches Some(secs)
                ==> config.validation_timeout_secs == secs
            &&& file.runner.validation_timeout_secs is None ==> config.validation_timeout_secs
                == 600
            &&& sandbox::sandbox_mode_of(text::opt_text(file.runner.sandbox_mode)) == Ok::<
                SandboxMode,
                Seq<char>,
            >(config.sandbox_mode)
            &&& file.trust.orchestrator_keys_path is None ==> config.orchestrator_keys_path is None
                && config.trusted_orchestrator_keys.len() == 0
            &&& file.trust.orchestrator_keys_path matches Some(path)
                ==> config.orchestrator_keys_path == Some(paths::join(host.style, base, path@))
            &&& pinned_keys(
                host.style,
                base,
                text::opt_text(file.trust.orchestrator_keys_path),
                host.trust_bundle,
            ) == Ok::<Seq<TrustedOrchestratorKeyView>, Seq<char>>(config.trusted_orchestrator_keys)
            &&& one_reference(
                "edge signing key"@,
                opt_reference(file.trust.edge_signing_key),
                text::opt_text(file.trust.edge_signing_key_path),
            ) == Ok::<Option<SecretReferenceView>, Seq<char>>(config.edge_signing_key_ref)
            &&& one_reference(
                "previous edge signing key"@,
                opt_reference(file.trust.previous_edge_signing_key),
                text::opt_text(file.trust.previous_edge_signing_key_path),
            ) == Ok::<Option<SecretReferenceView>, Seq<char>>(config.previous_edge_signing_key_ref)
            &&& referenced_secret(
                host.style,
                base,
                config.edge_signing_key_ref,
                host.edge_key,
                text::opt_text(host.allow_broad_permissions),
            ) == Ok::<Option<Seq<char>>, Seq<char>>(config.edge_signing_key)
            &&& referenced_secret(
                host.style,
                base,
                config.previous_edge_signing_key_ref,
                host.previous_edge_key,
                text::opt_text(host.allow_broad_permissions),
            ) == Ok::<Option<Seq<char>>, Seq<char>>(config.previous_edge_signing_key)
            &&& config.service_name == match given(file.service.name) {
                Some(name) => name,
                None => "elowen-edge"@,
            }
            &&& config.log_format == match file.runtime.log_format {
                Some(format) => format@,
                None => "plain"@,
            }
            &&& config.rust_log == given(file.runtime.rust_log)
        },
{
}

/// A configuration is accepted exactly where each of its parts is: its roots, its exclusions, its
/// references to secrets, its message bus, its sandbox, its pinned keys and its secrets. What is
/// missing or wrong first is what is told.
pub proof fn configurations_are_refused_by_their_parts(
    config_path: Seq<char>,
    file: EdgeConfigFile,
    host: HostFacts,
)
    ensures
        ({
            let base = config_dir(host.style, config_path);
            let roots = resolved_roots(
                host.style,
                file.repositories.allowed_roots@.len(),
                host.allowed_roots@,
            );
            let edge = one_reference(
                "edge signing key"@,
                opt_reference(file.trust.edge_signing_key),
                text::opt_text(file.trust.edge_signing_key_path),
            );
            let previous = one_reference(
                "previous edge signing key"@,
                opt_reference(file.trust.previous_edge_signing_key),
                text::opt_text(file.trust.previous_edge_signing_key_path),
            );
            let waiver = text::opt_text(host.allow_broad_permissions);
            &&& config_of(config_path, file, host) is Ok <==> {
                &&& roots is Ok
                &&& resolved_exclusions(
                    host.style,
                    file.repositories.excluded_paths@.len(),
                    host.excluded_paths@,
                    roots->Ok_0,
                ) is Ok
                &&& edge is Ok
                &&& previous is Ok
                &&& trimmed_value(text::opt_text(file.orchestrator.nats_url)) is Some
                &&& sandbox::sandbox_mode_of(text::opt_text(file.runner.sandbox_mode)) is Ok
                &&& pinned_keys(
                    host.style,
                    base,
                    text::opt_text(file.trust.orchestrator_keys_path),
                    host.trust_bundle,
                ) is Ok
                &&& referenced_secret(host.style, base, edge->Ok_0, host.edge_key, waiver) is Ok
                &&& referenced_secret(
                    host.style,
                    base,
                    previous->Ok_0,
                    host.previous_edge_key,
                    waiver,
                ) is Ok
            }
            &&& roots matches Err(message) ==> config_of(config_path, file, host) == Err::<
                EdgeConfigView,
                Seq<char>,
            >(message)
        }),
{
}

/// Paths are taken from the directory of the configuration file, or from the working directory where
/// it has none.
pub proof fn paths_are_taken_from_the_file(style: PathStyle, config_path: Seq<char>)
    ensures
        paths::parent(style, config_path) matches Some(dir) ==> config_dir(style, config_path)
            == dir,
        paths::parent(style, config_path) is None ==> config_dir(style, config_path) == "."@,
{
}

/// A root or an exclusion that is refused is named, with the reason.
pub proof fn refused_places_are_named(
    style: PathStyle,
    before: Seq<Seq<char>>,
    fact: PathFact,
    roots: Seq<Seq<char>>,
)
    ensures
        with_root(style, before, fact) matches Err(message) ==> match fact {
            PathFact::Unresolved => message == "failed to resolve repository root"@,
            PathFact::Resolved { path, .. } => message == "configured repository root "@ + path@
                + " is not a directory"@,
        },
        with_exclusion(style, before, fact, roots) matches Err(message) ==> match fact {
            PathFact::Unresolved => message == "failed to resolve repository policy path"@,
            PathFact::Resolved { path, is_dir, exists } => {
                &&& !exists ==> message == "configured repository policy path "@ + path@
                    + " does not exist"@
                &&& exists ==> message == "configured repository policy path "@ + path@
                    + " is outside the trusted repository roots"@
            },
        },
{
}

/// A secret that is refused is refused in words that name its file.
pub proof fn refused_secrets_are_named(
    style: PathStyle,
    base: Seq<char>,
    path: Seq<char>,
    mode: Option<u32>,
    waiver: Option<Seq<char>>,
    file: FileRead,
    protected: DpapiRead,
    label: Seq<char>,
    reference: SecretReferenceView,
    facts: SecretFacts,
)
    ensures
        permission_check(path, mode, waiver) matches Err(message) ==> message == "secret file "@
            + path + " is readable by group/other; restrict it to the service user"@,
        file_secret(path, file, waiver) matches Err(message) ==> match file {
            FileRead::Missing { error } => message == error@,
            FileRead::NotRead { mode: bits } => permission_check(path, bits, waiver) is Ok
                ==> message == "failed to read secret file "@ + path,
            FileRead::Read { mode: bits, contents } => permission_check(path, bits, waiver) is Ok
                ==> message == "secret file "@ + path + " is empty"@,
        },
        dpapi_secret(path, protected) matches Err(message) ==> match protected {
            DpapiRead::Unavailable => message
                == "dpapi secret provider is only available on Windows; cannot read "@ + path,
            DpapiRead::NotRead => message == "failed to read DPAPI secret "@ + path,
            DpapiRead::NotUnprotected { error } => message == error@,
            DpapiRead::Read { secret } => {
                &&& !vstd::utf8::valid_utf8(secret@) ==> message == "DPAPI secret "@ + path
                    + " is not valid UTF-8"@
                &&& vstd::utf8::valid_utf8(secret@) ==> message == "DPAPI secret "@ + path
                    + " is empty"@
            },
        },
        one_reference(label, Some(reference), Some(path)) == Err::<
            Option<SecretReferenceView>,
            Seq<char>,
        >(
            "configure either the provider-backed "@ + label + " or legacy path "@ + path
                + ", not both"@,
        ),
        reference.path is None ==> referenced_secret(style, base, Some(reference), facts, waiver)
            == Err::<Option<Seq<char>>, Seq<char>>(
            reference.provider.name() + " secret provider requires a path in this release"@,
        ),
        secret_write(path, SecretProviderKind::Dpapi, false) == Err::<SecretWrite, Seq<char>>(
            "dpapi secret provider is only available on Windows; cannot write "@ + path,
        ),
        secret_write(path, SecretProviderKind::WindowsCredential, true) == Err::<
            SecretWrite,
            Seq<char>,
        >("windows-credential secret provider is reserved for a future backend; use dpapi or file"@),
{
}

/// A provider is written as it is read.
pub proof fn providers_are_written_by_name(provider: SecretProviderKind)
    ensures
        provider is File ==> provider.name() == "file"@,
        provider is Dpapi ==> provider.name() == "dpapi"@,
        provider is WindowsCredential ==> provider.name() == "windows-credential"@,
{
}

/// A key or a bundle that cannot be had is named.
pub proof fn missing_keys_are_named(
    style: PathStyle,
    base: Seq<char>,
    path: Seq<char>,
    contents: Option<Seq<char>>,
    read: BundleRead,
)
    ensures
        key_to_import(path, contents) matches Err(message) ==> {
            &&& contents is None ==> message == "failed to read source key "@ + path
            &&& contents is Some ==> message == "source key "@ + path + " is empty"@
        },
        pinned_keys(style, base, Some(path), read) matches Err(message) ==> {
            let place = paths::join(style, base, path);
            match read {
                BundleRead::Missing { error } => message == error@,
                BundleRead::NotRead => message == "failed to read trust bundle "@ + place,
                BundleRead::NotParsed => message == "failed to parse trust bundle "@ + place,
                BundleRead::Parsed { keys } => message == "trust bundle "@ + place
                    + " contains an empty public key"@,
            }
        },
{
}

/// A configuration without a message bus is refused for that, where nothing before it is wrong.
pub proof fn a_message_bus_must_be_named(
    config_path: Seq<char>,
    file: EdgeConfigFile,
    host: HostFacts,
)
    requires
        checked_repositories(file, host) is Ok,
        checked_references(file) is Ok,
        trimmed_value(text::opt_text(file.orchestrator.nats_url)) is None,
    ensures
        config_of(config_path, file, host) == Err::<EdgeConfigView, Seq<char>>(
            "missing orchestrator.nats_url"@,
        ),
{
}

/// What is shown of a value is what it holds, field by field.
pub proof fn what_is_held_is_shown(
    trusted_orchestrator_key: TrustedOrchestratorKey,
    secret_reference: SecretReference,
    edge_config: EdgeConfig,
)
    ensures
        trusted_orchestrator_key@.key_id == text::opt_text(trusted_orchestrator_key.key_id),
        trusted_orchestrator_key@.public_key == trusted_orchestrator_key.public_key@,
        secret_reference@.provider == secret_reference.provider,
        secret_reference@.path == text::opt_text(secret_reference.path),
        secret_reference@.name == text::opt_text(secret_reference.name),
        edge_config@.config_path == edge_config.config_path@,
        edge_config@.api_url == edge_config.api_url@,
        edge_config@.nats_url == edge_config.nats_url@,
        edge_config@.device_id == edge_config.device_id@,
        edge_config@.device_name == edge_config.device_name@,
        edge_config@.primary_flag == edge_config.primary_flag,
        edge_config@.allowed_repos == text::texts(edge_config.allowed_repos@),
        edge_config@.allowed_repo_roots == text::texts(edge_config.allowed_repo_roots@),
        edge_config@.hidden_repos == text::texts(edge_config.hidden_repos@),
        edge_config@.excluded_repo_paths == text::texts(edge_config.excluded_repo_paths@),
        edge_config@.capabilities == text::texts(edge_config.capabilities@),
        edge_config@.workspace_root == edge_config.workspace_root@,
        edge_config@.worktree_root == edge_config.worktree_root@,
        edge_config@.codex_command == text::opt_text(edge_config.codex_command),
        edge_config@.codex_args == text::texts(edge_config.codex_args@),
        edge_config@.simulated_run_ms == edge_config.simulated_run_ms,
        edge_config@.validation_timeout_secs == edge_config.validation_timeout_secs,
        edge_config@.sandbox_mode == edge_config.sandbox_mode,
        edge_config@.trusted_orchestrator_keys == edge_config.trusted_orchestrator_keys@.map_values(|item: TrustedOrchestratorKey| item@),
        edge_config@.orchestrator_keys_path == text::opt_text(edge_config.orchestrator_keys_path),
        edge_config@.edge_signing_key == text::opt_text(edge_config.edge_signing_key),
        edge_config@.edge_signing_key_ref == (match edge_config.edge_signing_key_ref { Some(inner) => Some(inner@), None => None, }),
        edge_config@.previous_edge_signing_key == text::opt_text(edge_config.previous_edge_signing_key),
        edge_config@.previous_edge_signing_key_ref == (match edge_config.previous_edge_signing_key_ref { Some(inner) => Some(inner@), None => None, }),
        edge_config@.state_dir == edge_config.state_dir@,
        edge_config@.status_path == edge_config.status_path@,
        edge_config@.service_name == edge_config.service_name@,
        edge_config@.log_format == edge_config.log_format@,
        edge_config@.rust_log == text::opt_text(edge_config.rust_log),
{
}

/// A path is what was found out about it; of one that nothing was found out about nothing is known.
pub proof fn paths_are_what_was_found_out(facts: Seq<PathFact>, i: int)
    ensures
        0 <= i < facts.len() ==> fact_at(facts, i) == facts[i],
        !(0 <= i < facts.len()) ==> fact_at(facts, i) is Unresolved,
{
}

} // verus!
