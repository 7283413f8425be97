//! Turning an environment file into a configuration file.

use vstd::prelude::*;

use crate::config;
use crate::config::{
    DeviceSection, EdgeConfigFile, OrchestratorSection, RepositorySection, RunnerSection,
    RuntimeSection, ServiceSection, TrustSection, TunnelSection,
};
use crate::error::EdgeError;
use crate::json;
use crate::paths;
use crate::paths::PathStyle;
use crate::registration;
use crate::sandbox::EnvVar;
use crate::text;

verus! {

/// The variables that a list of assignments sets: the last assignment of a name counts.
pub open spec fn variables_of(assignments: Seq<EnvVar>) -> Map<Seq<char>, Seq<char>>
    decreases assignments.len(),
{
    if assignments.len() == 0 {
        Map::empty()
    } else {
        variables_of(assignments.drop_last()).insert(
            assignments.last().name@,
            assignments.last().value@,
        )
    }
}

/// The value of a variable.
pub open spec fn value_of(vars: Map<Seq<char>, Seq<char>>, name: Seq<char>) -> Option<Seq<char>> {
    if vars.dom().contains(name) {
        Some(vars[name])
    } else {
        None
    }
}

/// Variables with their values.
#[derive(Debug)]
pub struct EnvOverlay {
    assignments: Vec<EnvVar>,
}

impl View for EnvOverlay {
    type V = Map<Seq<char>, Seq<char>>;

    closed spec fn view(&self) -> Map<Seq<char>, Seq<char>> {
        variables_of(self.assignments@)
    }
}

impl EnvOverlay {
    /// No variables.
    pub fn new() -> (overlay: EnvOverlay)
        ensures
            overlay@ == Map::<Seq<char>, Seq<char>>::empty(),
    {
        EnvOverlay { assignments: Vec::new() }
    }

    /// Sets a variable.
    pub fn insert(&mut self, name: String, value: String)
        ensures
            final(self)@ == old(self)@.insert(name@, value@),
    {
        let ghost before = self.assignments@;
        self.assignments.push(EnvVar { name, value });
        assert(self.assignments@.drop_last() == before);
    }

    /// The value of a variable.
    pub fn get(&self, name: &str) -> (value: Option<&String>)
        ensures
            (match value {
                Some(found) => Some(found@),
                None => None,
            }) == value_of(self@, name@),
    {
        let mut i: usize = self.assignments.len();
        assert(self.assignments@.take(i as int) == self.assignments@);
        while i > 0
            invariant
                i <= self.assignments.len(),
                value_of(self@, name@) == value_of(
                    variables_of(self.assignments@.take(i as int)),
                    name@,
                ),
            decreases i,
        {
            let ghost here = self.assignments@.take(i as int);
            assert(here.drop_last() == self.assignments@.take(i - 1));
            assert(here.last() == self.assignments@[i - 1]);
            if text::text_eq(&self.assignments[i - 1].name, name) {
                return Some(&self.assignments[i - 1].value);
            }
            i = i - 1;
        }
        None
    }

    /// A copy of the value of a variable.
    pub fn cloned(&self, name: &str) -> (value: Option<String>)
        ensures
            text::opt_text(value) == value_of(self@, name@),
    {
        match self.get(name) {
            Some(found) => Some(found.clone()),
            None => None,
        }
    }
}

/// The position of the first equals sign, from a given one on.
pub open spec fn equals_from(s: Seq<char>, from: nat) -> Option<nat>
    decreases s.len() - from,
{
    if from >= s.len() {
        None
    } else if s[from as int] == '=' {
        Some(from)
    } else {
        equals_from(s, from + 1)
    }
}

/// A value without the quotes that may stand around it.
pub open spec fn unquoted(raw: Seq<char>) -> Seq<char> {
    if raw.len() >= 2 && raw[0] == raw.last() && (raw[0] == '"' || raw[0] == '\'') {
        raw.subrange(1, raw.len() - 1)
    } else {
        raw
    }
}

/// A value without the quotes that may stand around it.
pub fn parse_env_file_value(raw_value: &str) -> (out: String)
    ensures
        out@ == unquoted(raw_value@),
{
    let chars = text::chars_of(raw_value);
    let n: usize = chars.len();
    if n >= 2 && chars[0] == chars[n - 1] && (chars[0] == '"' || chars[0] == '\'') {
        text::string_between(&chars, 1, n - 1)
    } else {
        raw_value.to_owned()
    }
}

/// An assignment without the word that exports it.
pub open spec fn without_export(line: Seq<char>) -> Seq<char> {
    if "export "@.is_prefix_of(line) {
        line.skip("export "@.len() as int)
    } else {
        line
    }
}

/// The name and the value that a line assigns, if it is not blank and not a comment, or the
/// message of its refusal.
pub open spec fn assignment_in(path: Seq<char>, number: nat, raw_line: Seq<char>) -> Result<
    Option<(Seq<char>, Seq<char>)>,
    Seq<char>,
> {
    let line = text::trim(raw_line);
    if line.len() == 0 || line[0] == '#' {
        Ok(None)
    } else {
        let body = without_export(line);
        match equals_from(body, 0) {
            None => Err(
                "invalid env assignment in "@ + path + " at line "@ + text::decimal(number),
            ),
            Some(at) => {
                let name = text::trim(body.take(at as int));
                if name.len() == 0 {
                    Err("invalid empty env key in "@ + path + " at line "@ + text::decimal(number))
                } else {
                    Ok(Some((name, unquoted(text::trim(body.skip(at as int + 1))))))
                }
            },
        }
    }
}

/// The variables that lines assign, or the message of the first line that is refused.
pub open spec fn overlay_of(path: Seq<char>, lines: Seq<Seq<char>>) -> Result<
    Map<Seq<char>, Seq<char>>,
    Seq<char>,
>
    decreases lines.len(),
{
    if lines.len() == 0 {
        Ok(Map::empty())
    } else {
        match overlay_of(path, lines.drop_last()) {
            Err(message) => Err(message),
            Ok(before) => match assignment_in(path, lines.len(), lines.last()) {
                Err(message) => Err(message),
                Ok(None) => Ok(before),
                Ok(Some((name, value))) => Ok(before.insert(name, value)),
            },
        }
    }
}

/// The variables of an environment file, or the message of its refusal. Nothing stands for a file
/// that cannot be read.
pub open spec fn env_file(path: Seq<char>, contents: Option<Seq<char>>) -> Result<
    Map<Seq<char>, Seq<char>>,
    Seq<char>,
> {
    match contents {
        None => Err("failed to read env file "@ + path),
        Some(body) => overlay_of(path, text::lines_of(body)),
    }
}

/// The position of the first equals sign.
fn find_equals(chars: &Vec<char>) -> (out: Option<usize>)
    ensures
        match out {
            Some(at) => equals_from(chars@, 0) == Some(at as nat) && at < chars.len(),
            None => equals_from(chars@, 0) is None,
        },
{
    let mut i: usize = 0;
    while i < chars.len()
        invariant
            i <= chars.len(),
            equals_from(chars@, 0) == equals_from(chars@, i as nat),
        decreases chars.len() - i,
    {
        if chars[i] == '=' {
            return Some(i);
        }
        i = i + 1;
    }
    None
}

/// A message about a line of a file.
fn line_error(message: &str, path: &str, number: usize) -> (error: EdgeError)
    ensures
        error@ == message@ + path@ + " at line "@ + text::decimal(number as nat),
{
    let mut full = message.to_owned();
    full.append(path);
    full.append(" at line ");
    full.append(&text::count_text(number));
    EdgeError::of(full)
}

/// The name and the value that a line assigns.
fn parse_assignment(path: &str, number: usize, raw_line: &str) -> (out: Result<
    Option<(String, String)>,
    EdgeError,
>)
    ensures
        (match out {
            Ok(Some((name, value))) => Ok::<Option<(Seq<char>, Seq<char>)>, Seq<char>>(
                Some((name@, value@)),
            ),
            Ok(None) => Ok::<Option<(Seq<char>, Seq<char>)>, Seq<char>>(None),
            Err(error) => Err::<Option<(Seq<char>, Seq<char>)>, Seq<char>>(error@),
        }) == assignment_in(path@, number as nat, raw_line@),
{
    let line = text::trimmed_text(raw_line);
    let first = text::chars_of(&line);
    if first.len() == 0 || first[0] == '#' {
        return Ok(None);
    }
    let body = match text::without_prefix(&line, "export ") {
        Some(rest) => rest,
        None => line,
    };
    let chars = text::chars_of(&body);
    let at = match find_equals(&chars) {
        Some(at) => at,
        None => return Err(line_error("invalid env assignment in ", path, number)),
    };
    let name = text::trimmed_text(&text::string_between(&chars, 0, at));
    assert(chars@.subrange(0, at as int) == body@.take(at as int));
    if name.as_str().is_empty() {
        return Err(line_error("invalid empty env key in ", path, number));
    }
    let raw_value = text::trimmed_text(&text::string_between(&chars, at + 1, chars.len()));
    assert(chars@.subrange(at + 1, chars.len() as int) == body@.skip(at + 1));
    Ok(Some((name, parse_env_file_value(&raw_value))))
}

/// A line that is refused decides over all that follow it.
proof fn lemma_first_bad_line_decides(path: Seq<char>, lines: Seq<Seq<char>>, upto: int)
    requires
        0 <= upto <= lines.len(),
        overlay_of(path, lines.take(upto)) is Err,
    ensures
        overlay_of(path, lines) == overlay_of(path, lines.take(upto)),
    decreases lines.len() - upto,
{
    if upto == lines.len() {
        assert(lines.take(upto) == lines);
    } else {
        assert(lines.take(upto + 1).drop_last() == lines.take(upto));
        lemma_first_bad_line_decides(path, lines, upto + 1);
    }
}

/// The variables of an environment file.
pub fn load_env_overlay(path: &str, contents: &Option<String>) -> (out: Result<
    EnvOverlay,
    EdgeError,
>)
    ensures
        crate::error::outcome(out) == env_file(path@, text::opt_text(*contents)),
{
    let body = match contents {
        Some(body) => body,
        None => {
            let mut message = "failed to read env file ".to_owned();
            message.append(path);
            return Err(EdgeError::of(message));
        },
    };
    let lines = text::text_lines(body);
    let ghost given = text::texts(lines@);
    let mut overlay = EnvOverlay::new();
    let mut i: usize = 0;
    assert(given.take(0) == Seq::<Seq<char>>::empty());
    while i < lines.len()
        invariant
            i <= lines.len(),
            given == text::texts(lines@),
            overlay_of(path@, given.take(i as int)) == Ok::<Map<Seq<char>, Seq<char>>, Seq<char>>(
                overlay@,
            ),
            contents is Some,
            given == text::lines_of(contents->0@),
        decreases lines.len() - i,
    {
        assert(given.take(i + 1).drop_last() == given.take(i as int));
        assert(given.take(i + 1).last() == lines@[i as int]@);
        match parse_assignment(path, i + 1, &lines[i]) {
            Err(error) => {
                proof {
                    lemma_first_bad_line_decides(path@, given, i + 1);
                }
                return Err(error);
            },
            Ok(None) => {},
            Ok(Some((name, value))) => overlay.insert(name, value),
        }
        i = i + 1;
    }
    assert(given.take(i as int) == given);
    Ok(overlay)
}

/// The entries of a list that is written with commas.
pub open spec fn listed_entries(value: Seq<char>) -> Seq<Seq<char>> {
    config::unique_entries(text::split_on(value, ','))
}

/// The entries of a list that is written with commas.
pub fn parse_list_value(value: &str) -> (out: Vec<String>)
    ensures
        text::texts(out@) == listed_entries(value@),
{
    config::unique_strings(&text::split_text(value, ','))
}

/// The paths of a list that is written with commas.
pub fn parse_paths_value(value: &str) -> (out: Vec<String>)
    ensures
        text::texts(out@) == listed_entries(value@),
{
    parse_list_value(value)
}

/// The entries of an optional list that is written with commas.
pub open spec fn optional_entries(value: Option<Seq<char>>) -> Seq<Seq<char>> {
    match value {
        Some(inner) => listed_entries(inner),
        None => Seq::empty(),
    }
}

/// The entries of a variable that is a list written with commas.
fn list_variable(overlay: &EnvOverlay, name: &str) -> (out: Vec<String>)
    ensures
        text::texts(out@) == optional_entries(value_of(overlay@, name@)),
{
    match overlay.get(name) {
        Some(value) => parse_list_value(value),
        None => {
            let none: Vec<String> = Vec::new();
            assert(text::texts(none@) == Seq::<Seq<char>>::empty());
            none
        },
    }
}

/// The entries of a variable that is a list of paths written with commas.
fn paths_variable(overlay: &EnvOverlay, name: &str) -> (out: Vec<String>)
    ensures
        text::texts(out@) == optional_entries(value_of(overlay@, name@)),
{
    match overlay.get(name) {
        Some(value) => parse_paths_value(value),
        None => {
            let none: Vec<String> = Vec::new();
            assert(text::texts(none@) == Seq::<Seq<char>>::empty());
            none
        },
    }
}

/// The number of an optional value, if it is one.
pub open spec fn optional_number(value: Option<Seq<char>>) -> Option<u64> {
    match value {
        Some(inner) => text::parsed_u64(inner),
        None => None,
    }
}

/// The number of a variable, if it is one.
fn number_variable(overlay: &EnvOverlay, name: &str) -> (out: Option<u64>)
    ensures
        out == optional_number(value_of(overlay@, name@)),
{
    match overlay.get(name) {
        Some(value) => text::parse_u64(value),
        None => None,
    }
}

/// A file that an import writes.
#[derive(Clone, Debug, PartialEq, Eq)]
pub enum PlannedFile {
    /// A file with this text.
    Text { path: String, body: String },
    /// A file with a list of pinned keys that have no ids.
    KeyList { path: String, public_keys: Vec<String> },
}

/// The contents of a [`PlannedFile`].
pub enum PlannedFileView {
    Text { path: Seq<char>, body: Seq<char> },
    KeyList { path: Seq<char>, public_keys: Seq<Seq<char>> },
}

impl View for PlannedFile {
    type V = PlannedFileView;

    open spec fn view(&self) -> PlannedFileView {
        match *self {
            PlannedFile::Text { path, body } => PlannedFileView::Text { path: path@, body: body@ },
            PlannedFile::KeyList { path, public_keys } => PlannedFileView::KeyList {
                path: path@,
                public_keys: text::texts(public_keys@),
            },
        }
    }
}

impl PlannedFileView {
    /// Where the file stands.
    pub open spec fn path(self) -> Seq<char> {
        match self {
            PlannedFileView::Text { path, body } => path,
            PlannedFileView::KeyList { path, public_keys } => path,
        }
    }
}

/// The contents of an optional planned file.
pub open spec fn opt_file(file: Option<PlannedFile>) -> Option<PlannedFileView> {
    match file {
        Some(inner) => Some(inner@),
        None => None,
    }
}

/// The file of pinned keys that variables ask for: a list of keys as it is, or the single keys.
pub open spec fn planned_bundle(
    style: PathStyle,
    vars: Map<Seq<char>, Seq<char>>,
    secret_dir: Seq<char>,
) -> Option<PlannedFileView> {
    let path = paths::join(style, secret_dir, "orchestrator-trust.json"@);
    match value_of(vars, "ELOWEN_TRUSTED_ORCHESTRATOR_KEYS_JSON"@) {
        Some(body) => Some(PlannedFileView::Text { path, body }),
        None => match value_of(vars, "ELOWEN_ORCHESTRATOR_PUBLIC_KEYS"@) {
            Some(list) => Some(
                PlannedFileView::KeyList { path, public_keys: listed_entries(list) },
            ),
            None => match value_of(vars, "ELOWEN_ORCHESTRATOR_PUBLIC_KEY"@) {
                Some(list) => Some(
                    PlannedFileView::KeyList { path, public_keys: listed_entries(list) },
                ),
                None => None,
            },
        },
    }
}

/// The file of a key that a variable holds.
pub open spec fn planned_key(
    style: PathStyle,
    vars: Map<Seq<char>, Seq<char>>,
    secret_dir: Seq<char>,
    variable: Seq<char>,
    name: Seq<char>,
) -> Option<PlannedFileView> {
    match value_of(vars, variable) {
        Some(body) => Some(PlannedFileView::Text { path: paths::join(
            style,
            secret_dir,
            name,
        ), body }),
        None => None,
    }
}

/// Where an optional planned file stands.
pub open spec fn opt_path(file: Option<PlannedFileView>) -> Option<Seq<char>> {
    match file {
        Some(inner) => Some(inner.path()),
        None => None,
    }
}

/// What an import does with trust material: up to three files, and the section that names them.
pub struct TrustImport {
    pub bundle: Option<PlannedFile>,
    pub edge_key: Option<PlannedFile>,
    pub previous_edge_key: Option<PlannedFile>,
    pub trust: TrustSection,
}

/// A trust section that names up to three files and nothing else.
pub open spec fn names_files(
    trust: TrustSection,
    bundle: Option<PlannedFileView>,
    edge_key: Option<PlannedFileView>,
    previous_edge_key: Option<PlannedFileView>,
) -> bool {
    &&& text::opt_text(trust.orchestrator_keys_path) == opt_path(bundle)
    &&& text::opt_text(trust.edge_signing_key_path) == opt_path(edge_key)
    &&& text::opt_text(trust.previous_edge_signing_key_path) == opt_path(previous_edge_key)
    &&& trust.edge_signing_key is None
    &&& trust.previous_edge_signing_key is None
}

/// The file of a key that a variable holds.
fn plan_key(
    style: PathStyle,
    overlay: &EnvOverlay,
    secret_dir: &str,
    variable: &str,
    name: &str,
) -> (out: Option<
    PlannedFile,
>)
    ensures
        opt_file(out) == planned_key(style, overlay@, secret_dir@, variable@, name@),
{
    match overlay.get(variable) {
        Some(value) => Some(
            PlannedFile::Text { path: paths::join_path(
                style,
                secret_dir,
                name,
            ), body: value.clone() },
        ),
        None => None,
    }
}

/// Where an optional planned file stands.
fn path_of_plan(file: &Option<PlannedFile>) -> (out: Option<String>)
    ensures
        text::opt_text(out) == opt_path(opt_file(*file)),
{
    match file {
        Some(PlannedFile::Text { path, body: _ }) => Some(path.clone()),
        Some(PlannedFile::KeyList { path, public_keys: _ }) => Some(path.clone()),
        None => None,
    }
}

/// What an import does with trust material.
pub fn import_trust_files(
    style: PathStyle,
    overlay: &EnvOverlay,
    secret_dir: &str,
) -> (out: TrustImport)
    ensures
        opt_file(out.bundle) == planned_bundle(style, overlay@, secret_dir@),
        opt_file(out.edge_key) == planned_key(
            style,
            overlay@,
            secret_dir@,
            "ELOWEN_EDGE_SIGNING_KEY"@,
            "edge-signing-key.txt"@,
        ),
        opt_file(out.previous_edge_key) == planned_key(
            style,
            overlay@,
            secret_dir@,
            "ELOWEN_PREVIOUS_EDGE_SIGNING_KEY"@,
            "previous-edge-signing-key.txt"@,
        ),
        names_files(
            out.trust,
            opt_file(out.bundle),
            opt_file(out.edge_key),
            opt_file(out.previous_edge_key),
        ),
{
    let path = paths::join_path(style, secret_dir, "orchestrator-trust.json");
    let bundle = match overlay.get("ELOWEN_TRUSTED_ORCHESTRATOR_KEYS_JSON") {
        Some(value) => Some(PlannedFile::Text { path, body: value.clone() }),
        None => match overlay.get("ELOWEN_ORCHESTRATOR_PUBLIC_KEYS") {
            Some(value) => Some(
                PlannedFile::KeyList { path, public_keys: parse_list_value(value) },
            ),
            None => match overlay.get("ELOWEN_ORCHESTRATOR_PUBLIC_KEY") {
                Some(value) => Some(
                    PlannedFile::KeyList { path, public_keys: parse_list_value(value) },
                ),
                None => None,
            },
        },
    };
    let edge_key = plan_key(
        style,
        overlay,
        secret_dir,
        "ELOWEN_EDGE_SIGNING_KEY",
        "edge-signing-key.txt",
    );
    let previous_edge_key = plan_key(
        style,
        overlay,
        secret_dir,
        "ELOWEN_PREVIOUS_EDGE_SIGNING_KEY",
        "previous-edge-signing-key.txt",
    );
    let trust = TrustSection {
        orchestrator_keys_path: path_of_plan(&bundle),
        edge_signing_key_path: path_of_plan(&edge_key),
        previous_edge_signing_key_path: path_of_plan(&previous_edge_key),
        edge_signing_key: None,
        previous_edge_signing_key: None,
    };
    TrustImport { bundle, edge_key, previous_edge_key, trust }
}

/// The sections of a configuration file that say the same as variables do.
pub open spec fn says_the_same(
    file: EdgeConfigFile,
    vars: Map<Seq<char>, Seq<char>>,
    codex_args: Seq<Seq<char>>,
) -> bool {
    &&& text::opt_text(file.orchestrator.api_url) == value_of(vars, "ELOWEN_API_URL"@)
    &&& text::opt_text(file.orchestrator.nats_url) == value_of(vars, "ELOWEN_NATS_URL"@)
    &&& text::opt_text(file.device.id) == value_of(vars, "ELOWEN_DEVICE_ID"@)
    &&& text::opt_text(file.device.name) == value_of(vars, "ELOWEN_DEVICE_NAME"@)
    &&& file.device.primary == (match value_of(vars, "ELOWEN_DEVICE_PRIMARY"@) {
        Some(word) => Some(registration::is_affirmative(word)),
        None => None,
    })
    &&& text::texts(file.device.capabilities@) == optional_entries(
        value_of(vars, "ELOWEN_DEVICE_CAPABILITIES"@),
    )
    &&& text::opt_text(file.repositories.workspace_root) == value_of(
        vars,
        "ELOWEN_EDGE_WORKSPACE_ROOT"@,
    )
    &&& text::opt_text(file.repositories.worktree_root) == value_of(
        vars,
        "ELOWEN_EDGE_WORKTREE_ROOT"@,
    )
    &&& text::texts(file.repositories.allowed_roots@) == optional_entries(
        value_of(vars, "ELOWEN_ALLOWED_REPO_ROOTS"@),
    )
    &&& text::texts(file.repositories.allowed_repos@) == optional_entries(
        value_of(vars, "ELOWEN_ALLOWED_REPOS"@),
    )
    &&& text::texts(file.repositories.hidden_repos@) == optional_entries(
        value_of(vars, "ELOWEN_HIDDEN_REPOS"@),
    )
    &&& text::texts(file.repositories.excluded_paths@) == optional_entries(
        value_of(vars, "ELOWEN_REPO_SCAN_EXCLUDE_PATHS"@),
    )
    &&& file.runtime.state_dir is None
    &&& text::opt_text(file.runtime.log_format) == value_of(vars, "ELOWEN_LOG_FORMAT"@)
    &&& text::opt_text(file.runtime.rust_log) == value_of(vars, "RUST_LOG"@)
    &&& text::opt_text(file.runner.codex_command) == value_of(vars, "ELOWEN_CODEX_COMMAND"@)
    &&& text::texts(file.runner.codex_args@) == codex_args
    &&& file.runner.simulated_run_ms == optional_number(
        value_of(vars, "ELOWEN_SIMULATED_RUN_MS"@),
    )
    &&& file.runner.validation_timeout_secs == optional_number(
        value_of(vars, "ELOWEN_VALIDATION_TIMEOUT_SECS"@),
    )
    &&& text::opt_text(file.runner.sandbox_mode) == value_of(vars, "ELOWEN_SANDBOX_MODE"@)
    &&& file.service.name is None
    &&& file.service.log_dir is None
    &&& file.service.run_as_user is None
    &&& !file.tunnel.enabled
    &&& file.tunnel.user is None
    &&& file.tunnel.host is None
    &&& file.tunnel.local_port is None
    &&& file.tunnel.remote_port is None
}

/// The configuration file that says the same as variables do, with the arguments of Codex and the
/// trust section given.
pub fn imported_config(overlay: &EnvOverlay, codex_args: Vec<String>, trust: TrustSection) -> (file:
    EdgeConfigFile)
    ensures
        says_the_same(file, overlay@, text::texts(codex_args@)),
        file.trust == trust,
{
    let primary = match overlay.get("ELOWEN_DEVICE_PRIMARY") {
        Some(value) => Some(registration::parse_bool(value)),
        None => None,
    };
    EdgeConfigFile {
        orchestrator: OrchestratorSection {
            api_url: overlay.cloned("ELOWEN_API_URL"),
            nats_url: overlay.cloned("ELOWEN_NATS_URL"),
        },
        device: DeviceSection {
            id: overlay.cloned("ELOWEN_DEVICE_ID"),
            name: overlay.cloned("ELOWEN_DEVICE_NAME"),
            primary,
            capabilities: list_variable(overlay, "ELOWEN_DEVICE_CAPABILITIES"),
        },
        repositories: RepositorySection {
            workspace_root: overlay.cloned("ELOWEN_EDGE_WORKSPACE_ROOT"),
            worktree_root: overlay.cloned("ELOWEN_EDGE_WORKTREE_ROOT"),
            allowed_roots: paths_variable(overlay, "ELOWEN_ALLOWED_REPO_ROOTS"),
            allowed_repos: list_variable(overlay, "ELOWEN_ALLOWED_REPOS"),
            hidden_repos: list_variable(overlay, "ELOWEN_HIDDEN_REPOS"),
            excluded_paths: paths_variable(overlay, "ELOWEN_REPO_SCAN_EXCLUDE_PATHS"),
        },
        runtime: RuntimeSection {
            state_dir: None,
            log_format: overlay.cloned("ELOWEN_LOG_FORMAT"),
            rust_log: overlay.cloned("RUST_LOG"),
        },
        runner: RunnerSection {
            codex_command: overlay.cloned("ELOWEN_CODEX_COMMAND"),
            codex_args,
            simulated_run_ms: number_variable(overlay, "ELOWEN_SIMULATED_RUN_MS"),
            validation_timeout_secs: number_variable(overlay, "ELOWEN_VALIDATION_TIMEOUT_SECS"),
            sandbox_mode: overlay.cloned("ELOWEN_SANDBOX_MODE"),
        },
        trust,
        service: ServiceSection { name: None, log_dir: None, run_as_user: None },
        tunnel: TunnelSection {
            enabled: false,
            user: None,
            host: None,
            local_port: None,
            remote_port: None,
        },
    }
}

/// The arguments of Codex that a variable holds as JSON, if it is set, or the message of its
/// refusal. `parsed` is what the JSON text was read as.
pub open spec fn imported_args(
    value: Option<Seq<char>>,
    parsed: Option<Seq<Seq<char>>>,
) -> Result<Seq<Seq<char>>, Seq<char>> {
    match value {
        None => Ok(Seq::empty()),
        Some(_) => match parsed {
            Some(list) => Ok(list),
            None => Err("failed to parse ELOWEN_CODEX_ARGS_JSON"@),
        },
    }
}

/// What the JSON text of a variable is read as.
pub open spec fn parsed_args(value: Option<Seq<char>>) -> Option<Seq<Seq<char>>> {
    match value {
        Some(body) => json::json_string_list(body),
        None => None,
    }
}

/// The configuration file that says the same as variables do, with the trust section given. It is
/// refused where the arguments of Codex cannot be read.
pub fn config_from_env(overlay: &EnvOverlay, trust: TrustSection) -> (out: Result<
    EdgeConfigFile,
    EdgeError,
>)
    ensures
        match imported_args(
            value_of(overlay@, "ELOWEN_CODEX_ARGS_JSON"@),
            parsed_args(value_of(overlay@, "ELOWEN_CODEX_ARGS_JSON"@)),
        ) {
            Ok(codex_args) => {
                &&& out matches Ok(file)
                &&& says_the_same(file, overlay@, codex_args)
                &&& file.trust == trust
            },
            Err(message) => out matches Err(error) && error@ == message,
        },
{
    let codex_args = match overlay.get("ELOWEN_CODEX_ARGS_JSON") {
        None => {
            let none: Vec<String> = Vec::new();
            assert(text::texts(none@) == Seq::<Seq<char>>::empty());
            none
        },
        Some(value) => match json::parse_string_list(value) {
            Some(list) => list,
            None => return Err(EdgeError::new("failed to parse ELOWEN_CODEX_ARGS_JSON")),
        },
    };
    Ok(imported_config(overlay, codex_args, trust))
}

/// The directory of the secret files of an import: it lies next to the configuration file.
pub open spec fn secrets_beside(style: PathStyle, config_path: Seq<char>) -> Seq<char> {
    paths::join(style, config::config_dir(style, config_path), "secrets"@)
}

/// The directory of the secret files of an import.
pub fn secret_directory(style: PathStyle, config_path: &str) -> (out: String)
    ensures
        out@ == secrets_beside(style, config_path@),
{
    paths::join_path(style, &config::config_directory(style, config_path), "secrets")
}

/// What an import comes to: secret files in a directory, which are written first, and the
/// configuration file.
pub struct EnvImport {
    pub secret_dir: String,
    pub bundle: Option<PlannedFile>,
    pub edge_key: Option<PlannedFile>,
    pub previous_edge_key: Option<PlannedFile>,
    pub file: Result<EdgeConfigFile, EdgeError>,
}

/// An import of variables: the secret files lie beside the configuration file, and its trust
/// section names them and nothing else.
pub open spec fn is_import_of(
    style: PathStyle,
    import: EnvImport,
    vars: Map<Seq<char>, Seq<char>>,
    config_path: Seq<char>,
) -> bool {
    let secret_dir = secrets_beside(style, config_path);
    &&& import.secret_dir@ == secret_dir
    &&& opt_file(import.bundle) == planned_bundle(style, vars, secret_dir)
    &&& opt_file(import.edge_key) == planned_key(
        style,
        vars,
        secret_dir,
        "ELOWEN_EDGE_SIGNING_KEY"@,
        "edge-signing-key.txt"@,
    )
    &&& opt_file(import.previous_edge_key) == planned_key(
        style,
        vars,
        secret_dir,
        "ELOWEN_PREVIOUS_EDGE_SIGNING_KEY"@,
        "previous-edge-signing-key.txt"@,
    )
    &&& match imported_args(
        value_of(vars, "ELOWEN_CODEX_ARGS_JSON"@),
        parsed_args(value_of(vars, "ELOWEN_CODEX_ARGS_JSON"@)),
    ) {
        Ok(codex_args) => {
            &&& import.file matches Ok(file)
            &&& says_the_same(file, vars, codex_args)
            &&& names_files(
                file.trust,
                opt_file(import.bundle),
                opt_file(import.edge_key),
                opt_file(import.previous_edge_key),
            )
        },
        Err(message) => import.file matches Err(error) && error@ == message,
    }
}

/// What the import of an environment file comes to. It is refused where the environment file
/// cannot be read.
pub fn import_env_file(
    style: PathStyle,
    env_path: &str,
    contents: &Option<String>,
    config_path: &str,
) -> (out: Result<EnvImport, EdgeError>)
    ensures
        match env_file(env_path@, text::opt_text(*contents)) {
            Ok(vars) => out matches Ok(import) && is_import_of(style, import, vars, config_path@),
            Err(message) => out matches Err(error) && error@ == message,
        },
{
    let overlay = match load_env_overlay(env_path, contents) {
        Ok(overlay) => overlay,
        Err(error) => return Err(error),
    };
    let secret_dir = secret_directory(style, config_path);
    let import = import_trust_files(style, &overlay, &secret_dir);
    let TrustImport { bundle, edge_key, previous_edge_key, trust } = import;
    let file = config_from_env(&overlay, trust);
    Ok(EnvImport { secret_dir, bundle, edge_key, previous_edge_key, file })
}

/// An imported signing key stands in a file of its own beside the configuration, which names that
/// file and does not hold the key. What the variables do not hold, the configuration does not name.
pub proof fn imported_keys_stand_beside_the_configuration(
    style: PathStyle,
    import: EnvImport,
    vars: Map<Seq<char>, Seq<char>>,
    config_path: Seq<char>,
)
    requires
        is_import_of(style, import, vars, config_path),
        import.file is Ok,
    ensures
        ({
            let trust = import.file->Ok_0.trust;
            let path = paths::join(
                style,
                secrets_beside(style, config_path),
                "edge-signing-key.txt"@,
            );
            &&& value_of(vars, "ELOWEN_EDGE_SIGNING_KEY"@) matches Some(key) ==> {
                &&& text::opt_text(trust.edge_signing_key_path) == Some(path)
                &&& opt_file(import.edge_key) == Some(PlannedFileView::Text { path, body: key })
            }
            &&& value_of(vars, "ELOWEN_EDGE_SIGNING_KEY"@) is None ==> {
                &&& trust.edge_signing_key_path is None
                &&& import.edge_key is None
            }
            &&& value_of(vars, "ELOWEN_PREVIOUS_EDGE_SIGNING_KEY"@) is None
                ==> trust.previous_edge_signing_key_path is None
            &&& planned_bundle(style, vars, secrets_beside(style, config_path)) is None
                ==> trust.orchestrator_keys_path is None
            &&& trust.edge_signing_key is None
            &&& trust.previous_edge_signing_key is None
        }),
{
}

/// Quotes that are put around a value are taken off again.
pub proof fn quotes_are_taken_off(value: Seq<char>)
    ensures
        unquoted(seq!['"'] + value + seq!['"']) == value,
        unquoted(seq!['\''] + value + seq!['\'']) == value,
{
    let double = seq!['"'] + value + seq!['"'];
    let single = seq!['\''] + value + seq!['\''];
    assert(double.last() == '"' && single.last() == '\'');
    assert(double.subrange(1, double.len() - 1) == value);
    assert(single.subrange(1, single.len() - 1) == value);
}

/// The last assignment to a variable counts, and no variable is set that was not assigned.
pub proof fn the_last_assignment_counts(assignments: Seq<EnvVar>, last: EnvVar, name: Seq<char>)
    ensures
        value_of(variables_of(assignments.push(last)), name) == if name == last.name@ {
            Some(last.value@)
        } else {
            value_of(variables_of(assignments), name)
        },
        value_of(variables_of(Seq::empty()), name) is None,
{
    assert(assignments.push(last).drop_last() =~= assignments);
    assert(assignments.push(last).last() == last);
}

/// An assignment is read as it was written: the name before the first equals sign, trimmed, and the
/// value behind it, trimmed and without its quotes, whether it is exported or not.
pub proof fn assignments_are_read_as_written(
    path: Seq<char>,
    number: nat,
    line: Seq<char>,
    name: Seq<char>,
    value: Seq<char>,
)
    requires
        ({
            let whole = name + seq!['='] + value;
            text::trim(line) == whole && !("export "@.is_prefix_of(whole)) || text::trim(line)
                == "export "@ + whole
        }),
        !name.contains('='),
    ensures
        text::trim(name).len() > 0 && text::trim(line)[0] != '#' ==> assignment_in(
            path,
            number,
            line,
        ) == Ok::<Option<(Seq<char>, Seq<char>)>, Seq<char>>(
            Some((text::trim(name), unquoted(text::trim(value)))),
        ),
        text::trim(name).len() == 0 && text::trim(line)[0] != '#' ==> assignment_in(
            path,
            number,
            line,
        ) is Err,
{
    let whole = name + seq!['='] + value;
    let trimmed = text::trim(line);
    let exported = "export "@ + whole;
    text::parts_begin_and_end("export "@, whole);
    assert(exported.skip("export "@.len() as int) =~= whole);
    reveal_strlit("export ");
    assert(trimmed.len() > 0);
    if trimmed == exported && trimmed != whole {
        assert(without_export(trimmed) == whole);
    } else if trimmed == whole && !("export "@.is_prefix_of(whole)) {
        assert(without_export(trimmed) == whole);
    } else {
        assert(exported.len() == whole.len() + 7);
    }
    assert(without_export(trimmed) == whole);
    assert forall|i: int| 0 <= i < name.len() implies whole[i] != '=' by {
        assert(name.contains(name[i]));
    }
    lemma_first_equals(whole, name.len(), 0);
    assert(whole.take(name.len() as int) =~= name);
    assert(whole.skip(name.len() as int + 1) =~= value);
}

/// The first equals sign is the one that is found.
proof fn lemma_first_equals(s: Seq<char>, at: nat, from: nat)
    requires
        from <= at < s.len(),
        s[at as int] == '=',
        forall|i: int| 0 <= i < at ==> #[trigger] s[i] != '=',
    ensures
        equals_from(s, from) == Some(at),
    decreases at - from,
{
    if from < at {
        lemma_first_equals(s, at, from + 1);
    }
}

/// Where there is no equals sign, none is found.
proof fn lemma_no_equals(s: Seq<char>, from: nat)
    requires
        !s.contains('='),
    ensures
        equals_from(s, from) is None,
    decreases s.len() - from,
{
    if from < s.len() {
        assert(s.contains(s[from as int]));
        lemma_no_equals(s, from + 1);
    }
}

/// Blank lines and comments say nothing. Any other line without an equals sign is refused, and a
/// refusal tells the file and the line.
pub proof fn other_lines_are_refused(path: Seq<char>, number: nat, line: Seq<char>)
    ensures
        text::trim(line).len() == 0 || text::trim(line)[0] == '#' ==> assignment_in(
            path,
            number,
            line,
        ) == Ok::<Option<(Seq<char>, Seq<char>)>, Seq<char>>(None),
        text::trim(line).len() > 0 && text::trim(line)[0] != '#' && !text::trim(line).contains('=')
            ==> assignment_in(path, number, line) is Err,
        assignment_in(path, number, line) matches Err(message) ==> {
            &&& text::contains_text(message, path)
            &&& (" at line "@ + text::decimal(number)).is_suffix_of(message)
        },
{
    let trimmed = text::trim(line);
    if !trimmed.contains('=') {
        let body = without_export(trimmed);
        if body.contains('=') {
            let i = choose|i: int| 0 <= i < body.len() && body[i] == '=';
            if body != trimmed {
                assert(trimmed[i + "export "@.len()] == '=');
            }
            assert(false);
        }
        lemma_no_equals(body, 0);
    }
    let tail = " at line "@ + text::decimal(number);
    let first = "invalid env assignment in "@ + path;
    let second = "invalid empty env key in "@ + path;
    text::parts_begin_and_end("invalid env assignment in "@, path);
    text::parts_begin_and_end("invalid empty env key in "@, path);
    text::containing_grows(first, tail);
    text::containing_grows(second, tail);
    text::parts_begin_and_end(first, tail);
    text::parts_begin_and_end(second, tail);
    assert(first + " at line "@ + text::decimal(number) =~= first + tail);
    assert(second + " at line "@ + text::decimal(number) =~= second + tail);
}

/// A file is read line by line: what a line assigns is added to what the lines before it did, and one
/// line that is refused refuses the file.
pub proof fn files_are_read_line_by_line(
    path: Seq<char>,
    lines: Seq<Seq<char>>,
    line: Seq<char>,
)
    ensures
        ({
            let before = overlay_of(path, lines);
            let after = overlay_of(path, lines.push(line));
            let said = assignment_in(path, lines.len() + 1, line);
            &&& after is Ok <==> before is Ok && said is Ok
            &&& before is Err ==> after == before
            &&& before is Ok && said is Err ==> after->Err_0 == said->Err_0
            &&& before is Ok && said is Ok && said->Ok_0 is None ==> after == before
            &&& before is Ok ==> (said matches Ok(Some(pair)) ==> after->Ok_0
                == before->Ok_0.insert(pair.0, pair.1))
        }),
        overlay_of(path, Seq::empty()) == Ok::<Map<Seq<char>, Seq<char>>, Seq<char>>(Map::empty()),
{
    assert(lines.push(line).drop_last() =~= lines);
    assert(lines.push(line).last() == line);
}

/// A file that was read gives what its lines say; one that was not is named.
pub proof fn unread_files_are_named(path: Seq<char>, contents: Option<Seq<char>>)
    ensures
        contents matches Some(body) ==> env_file(path, contents) == overlay_of(
            path,
            text::lines_of(body),
        ),
        contents is None ==> env_file(path, contents) is Err && path.is_suffix_of(
            env_file(path, contents)->Err_0,
        ),
{
    text::parts_begin_and_end("failed to read env file "@, path);
}

/// Only a pair of like quotes around a value is taken off.
pub proof fn other_values_keep_their_quotes(value: Seq<char>)
    ensures
        value.len() < 2 ==> unquoted(value) == value,
        value.len() >= 2 && value[0] != value.last() ==> unquoted(value) == value,
        value.len() >= 2 && value[0] != '"' && value[0] != '\'' ==> unquoted(value) == value,
{
}

/// A list is parted at its commas. Its entries are trimmed, blank ones are dropped, and each stands
/// there once; a variable that is not set lists nothing.
pub proof fn lists_are_parted_at_commas(first: Seq<char>, rest: Seq<char>)
    requires
        !first.contains(','),
    ensures
        text::trim(first).len() > 0 ==> listed_entries(first) == seq![text::trim(first)],
        text::trim(first).len() > 0 ==> listed_entries(first + seq![','] + rest).contains(
            text::trim(first),
        ),
        optional_entries(None).len() == 0,
        optional_entries(Some(first)) == listed_entries(first),
{
    text::separators_part_the_text(first, rest, ',');
    let one = seq![first];
    assert(text::split_on(first, ',') == one);
    assert(one.drop_last() =~= Seq::empty());
    assert(config::unique_entries(one.drop_last()) =~= Seq::empty());
    if text::trim(first).len() > 0 {
        assert(config::unique_entries(one) =~= seq![text::trim(first)]);
        let all = text::split_on(first + seq![','] + rest, ',');
        assert(all[0] == first);
        config::unique_entries_are_distinct(all);
        assert(config::unique_entries(all).contains(text::trim(all[0])));
    }
}

/// A number is read where one is set and is one.
pub proof fn numbers_are_read_where_set(value: Option<Seq<char>>)
    ensures
        value is None ==> optional_number(value) is None,
        value matches Some(inner) ==> optional_number(value) == text::parsed_u64(inner),
{
}

/// The bundle of trusted keys is taken whole where one is set, else put together from the list of
/// public keys, else from the single one. It stands among the secrets.
pub proof fn bundles_are_taken_whole_first(
    style: PathStyle,
    vars: Map<Seq<char>, Seq<char>>,
    secret_dir: Seq<char>,
)
    ensures
        ({
            let path = paths::join(style, secret_dir, "orchestrator-trust.json"@);
            let whole = value_of(vars, "ELOWEN_TRUSTED_ORCHESTRATOR_KEYS_JSON"@);
            let many = value_of(vars, "ELOWEN_ORCHESTRATOR_PUBLIC_KEYS"@);
            let one = value_of(vars, "ELOWEN_ORCHESTRATOR_PUBLIC_KEY"@);
            let planned = planned_bundle(style, vars, secret_dir);
            &&& planned is None <==> whole is None && many is None && one is None
            &&& whole matches Some(body) ==> planned == Some(PlannedFileView::Text { path, body })
            &&& whole is None ==> (many matches Some(list) ==> planned == Some(
                PlannedFileView::KeyList { path, public_keys: listed_entries(list) },
            ))
            &&& whole is None && many is None ==> (one matches Some(list) ==> planned == Some(
                PlannedFileView::KeyList { path, public_keys: listed_entries(list) },
            ))
            &&& planned matches Some(file) ==> file.path() == path
        }),
{
}

/// A key is put down exactly where it is set, as it is set, under its own name among the secrets.
pub proof fn keys_are_put_down_where_set(
    style: PathStyle,
    vars: Map<Seq<char>, Seq<char>>,
    secret_dir: Seq<char>,
    variable: Seq<char>,
    name: Seq<char>,
)
    ensures
        planned_key(style, vars, secret_dir, variable, name) is Some <==> vars.dom().contains(
            variable,
        ),
        vars.dom().contains(variable) ==> planned_key(style, vars, secret_dir, variable, name)
            == Some(
            PlannedFileView::Text {
                path: paths::join(style, secret_dir, name),
                body: vars[variable],
            },
        ),
{
}

/// The former key is imported as the present one is, into a file of its own, and the bundle too.
pub proof fn every_secret_is_imported(
    style: PathStyle,
    import: EnvImport,
    vars: Map<Seq<char>, Seq<char>>,
    config_path: Seq<char>,
)
    requires
        is_import_of(style, import, vars, config_path),
        import.file is Ok,
    ensures
        ({
            let trust = import.file->Ok_0.trust;
            let secret_dir = paths::join(
                style,
                config::config_dir(style, config_path),
                "secrets"@,
            );
            let former = paths::join(style, secret_dir, "previous-edge-signing-key.txt"@);
            &&& import.secret_dir@ == secret_dir
            &&& value_of(vars, "ELOWEN_PREVIOUS_EDGE_SIGNING_KEY"@) matches Some(key) ==> {
                &&& text::opt_text(trust.previous_edge_signing_key_path) == Some(former)
                &&& opt_file(import.previous_edge_key) == Some(
                    PlannedFileView::Text { path: former, body: key },
                )
            }
            &&& planned_bundle(style, vars, secret_dir) matches Some(file) ==> {
                &&& opt_file(import.bundle) == Some(file)
                &&& text::opt_text(trust.orchestrator_keys_path) == Some(file.path())
            }
        }),
{
}

/// The configuration that is imported says what the variables said, each under its own key. It is
/// refused exactly where the extra arguments are set and cannot be read.
pub proof fn imported_configurations_say_the_same(
    style: PathStyle,
    import: EnvImport,
    vars: Map<Seq<char>, Seq<char>>,
    config_path: Seq<char>,
)
    requires
        is_import_of(style, import, vars, config_path),
    ensures
        import.file is Err <==> vars.dom().contains("ELOWEN_CODEX_ARGS_JSON"@)
            && json::json_string_list(vars["ELOWEN_CODEX_ARGS_JSON"@]) is None,
        import.file matches Ok(file) ==> {
            let set = |name: Seq<char>| value_of(vars, name);
            &&& text::opt_text(file.orchestrator.api_url) == set("ELOWEN_API_URL"@)
            &&& text::opt_text(file.orchestrator.nats_url) == set("ELOWEN_NATS_URL"@)
            &&& text::opt_text(file.device.id) == set("ELOWEN_DEVICE_ID"@)
            &&& text::opt_text(file.device.name) == set("ELOWEN_DEVICE_NAME"@)
            &&& file.device.primary is Some <==> set("ELOWEN_DEVICE_PRIMARY"@) is Some
            &&& set("ELOWEN_DEVICE_PRIMARY"@) matches Some(word) ==> file.device.primary == Some(
                registration::is_affirmative(word),
            )
            &&& text::texts(file.device.capabilities@) == optional_entries(
                set("ELOWEN_DEVICE_CAPABILITIES"@),
            )
            &&& text::opt_text(file.repositories.workspace_root) == set(
                "ELOWEN_EDGE_WORKSPACE_ROOT"@,
            )
            &&& text::opt_text(file.repositories.worktree_root) == set(
                "ELOWEN_EDGE_WORKTREE_ROOT"@,
            )
            &&& text::texts(file.repositories.allowed_roots@) == optional_entries(
                set("ELOWEN_ALLOWED_REPO_ROOTS"@),
            )
            &&& text::texts(file.repositories.allowed_repos@) == optional_entries(
                set("ELOWEN_ALLOWED_REPOS"@),
            )
            &&& text::texts(file.repositories.hidden_repos@) == optional_entries(
                set("ELOWEN_HIDDEN_REPOS"@),
            )
            &&& text::texts(file.repositories.excluded_paths@) == optional_entries(
                set("ELOWEN_REPO_SCAN_EXCLUDE_PATHS"@),
            )
            &&& text::opt_text(file.runtime.log_format) == set("ELOWEN_LOG_FORMAT"@)
            &&& text::opt_text(file.runtime.rust_log) == set("RUST_LOG"@)
            &&& text::opt_text(file.runner.codex_command) == set("ELOWEN_CODEX_COMMAND"@)
            &&& file.runner.simulated_run_ms == optional_number(set("ELOWEN_SIMULATED_RUN_MS"@))
            &&& file.runner.validation_timeout_secs == optional_number(
                set("ELOWEN_VALIDATION_TIMEOUT_SECS"@),
            )
            &&& text::opt_text(file.runner.sandbox_mode) == set("ELOWEN_SANDBOX_MODE"@)
            &&& set("ELOWEN_CODEX_ARGS_JSON"@) is None ==> file.runner.codex_args@.len() == 0
            &&& set("ELOWEN_CODEX_ARGS_JSON"@) matches Some(listed) ==> json::json_string_list(
                listed,
            ) == Some(text::texts(file.runner.codex_args@))
            &&& !file.tunnel.enabled
        },
{
    if let Ok(file) = import.file {
        assert(text::texts(file.runner.codex_args@).len() == file.runner.codex_args@.len());
    }
}

/// A file that is refused is refused in words that say why.
pub proof fn refused_files_say_why(
    path: Seq<char>,
    number: nat,
    line: Seq<char>,
    value: Seq<char>,
)
    ensures
        assignment_in(path, number, line) matches Err(message) ==> {
            let body = without_export(text::trim(line));
            &&& equals_from(body, 0) is None ==> message == "invalid env assignment in "@ + path
                + " at line "@ + text::decimal(number)
            &&& equals_from(body, 0) is Some ==> message == "invalid empty env key in "@ + path
                + " at line "@ + text::decimal(number)
        },
        env_file(path, None) == Err::<Map<Seq<char>, Seq<char>>, Seq<char>>(
            "failed to read env file "@ + path,
        ),
        imported_args(Some(value), None) == Err::<Seq<Seq<char>>, Seq<char>>(
            "failed to parse ELOWEN_CODEX_ARGS_JSON"@,
        ),
{
}

/// What is shown of a value is its kind and what it holds.
pub proof fn kinds_are_shown_with_what_they_hold(
    planned_file: PlannedFile,
)
    ensures
        planned_file matches PlannedFile::Text { path, body } ==> planned_file@ == (PlannedFileView::Text {
            path: path@,
            body: body@,
        }),
        planned_file matches PlannedFile::KeyList { path, public_keys } ==> planned_file@ == (PlannedFileView::KeyList {
            path: path@,
            public_keys: text::texts(public_keys@),
        }),
{
}

} // verus!
