//! The terminal interface of the operator: what it shows, and what its keys do.

use vstd::prelude::*;

use crate::config::{EdgeConfig, EdgeConfigFile};
use crate::error::EdgeError;
use crate::service::{ServiceAction, ServiceStatus};
use crate::status;
use crate::status::EdgeStatus;
use crate::text;
use crate::text::push_text;
use crate::timestamp;
use crate::timestamp::Timestamp;

verus! {

/// A view of the interface.
#[derive(Clone, Copy, Debug, PartialEq, Eq, Structural)]
pub enum TuiTab {
    Dashboard,
    Wizard,
    Config,
    Service,
    Diagnostics,
}

impl TuiTab {
    /// The place of the view in the row of views.
    pub open spec fn place(self) -> int {
        match self {
            TuiTab::Dashboard => 0,
            TuiTab::Wizard => 1,
            TuiTab::Config => 2,
            TuiTab::Service => 3,
            TuiTab::Diagnostics => 4,
        }
    }

    /// The view that follows.
    pub fn next(&self) -> (tab: TuiTab)
        ensures
            tab.place() == (self.place() + 1) % 5,
    {
        match self {
            TuiTab::Dashboard => TuiTab::Wizard,
            TuiTab::Wizard => TuiTab::Config,
            TuiTab::Config => TuiTab::Service,
            TuiTab::Service => TuiTab::Diagnostics,
            TuiTab::Diagnostics => TuiTab::Dashboard,
        }
    }

    /// The view that comes before.
    pub fn previous(&self) -> (tab: TuiTab)
        ensures
            tab.place() == (self.place() + 4) % 5,
    {
        match self {
            TuiTab::Dashboard => TuiTab::Diagnostics,
            TuiTab::Wizard => TuiTab::Dashboard,
            TuiTab::Config => TuiTab::Wizard,
            TuiTab::Service => TuiTab::Config,
            TuiTab::Diagnostics => TuiTab::Service,
        }
    }

    /// The title of the view.
    pub fn title(&self) -> (out: &'static str)
        ensures
            out@ == (match *self {
                TuiTab::Dashboard => "Dashboard"@,
                TuiTab::Wizard => "First Run"@,
                TuiTab::Config => "Config"@,
                TuiTab::Service => "Service"@,
                TuiTab::Diagnostics => "Diagnostics"@,
            }),
    {
        match self {
            TuiTab::Dashboard => "Dashboard",
            TuiTab::Wizard => "First Run",
            TuiTab::Config => "Config",
            TuiTab::Service => "Service",
            TuiTab::Diagnostics => "Diagnostics",
        }
    }
}

/// Going on and going back undo each other, and no two views share a place.
pub proof fn going_on_and_back_are_inverse(tab: TuiTab, on: TuiTab, back: TuiTab)
    requires
        on.place() == (tab.place() + 1) % 5,
        back.place() == (on.place() + 4) % 5,
    ensures
        back == tab,
{
}

/// What the interface shows.
pub struct TuiModel {
    pub config_path: String,
    pub config: Result<EdgeConfig, EdgeError>,
    pub file: Result<EdgeConfigFile, EdgeError>,
    pub tab: TuiTab,
    pub message: String,
}

/// How the search for a Codex command ended.
pub enum CodexDiscovery {
    /// The search failed.
    Failed { error: EdgeError },
    /// There is no command.
    NotFound,
    /// There is a command.
    Found { command: String, version: String },
}

/// How the configuration of a Codex command ended.
pub enum CodexConfiguration {
    /// The search failed.
    Failed { error: EdgeError },
    /// There is no command.
    NotFound,
    /// The command could not be written to the configuration file.
    NotWritten { error: EdgeError },
    /// The command was written, and the configuration was read again.
    Written {
        command: String,
        version: String,
        file: Result<EdgeConfigFile, EdgeError>,
        config: Result<EdgeConfig, EdgeError>,
    },
}

/// What is shown after a Codex command was to be configured.
pub open spec fn configuration_message(outcome: CodexConfiguration) -> Seq<char> {
    match outcome {
        CodexConfiguration::Failed { error } => "Codex discovery failed: "@ + error@,
        CodexConfiguration::NotFound =>
            "No runnable Codex command was found. Install Codex or add it to PATH, then press a again."@,
        CodexConfiguration::NotWritten { error } => "Failed to write Codex command: "@ + error@,
        CodexConfiguration::Written { command, version, .. } => "Configured Codex command: "@
            + command@ + " ("@ + version@ + ")"@,
    }
}

impl TuiModel {
    /// The interface as it is first shown.
    pub fn load(
        config_path: String,
        file: Result<EdgeConfigFile, EdgeError>,
        config: Result<EdgeConfig, EdgeError>,
    ) -> (model: TuiModel)
        ensures
            model.config_path == config_path,
            model.file == file,
            model.config == config,
            model.tab == TuiTab::Dashboard,
            model.message@
                == "Arrow keys switch views. i installs, s starts, x stops, r restarts, q quits."@,
    {
        TuiModel {
            config_path,
            config,
            file,
            tab: TuiTab::Dashboard,
            message:
                "Arrow keys switch views. i installs, s starts, x stops, r restarts, q quits.".to_owned(),
        }
    }

    /// Takes the configuration as it was read again.
    pub fn reload(
        &mut self,
        file: Result<EdgeConfigFile, EdgeError>,
        config: Result<EdgeConfig, EdgeError>,
    )
        ensures
            *final(self) == (TuiModel { file, config, ..*old(self) }),
    {
        self.file = file;
        self.config = config;
    }

    /// Shows how an action on the service ended. Without a configuration file that can be read
    /// there is no action, and so nothing to show of it.
    pub fn apply_service_action(&mut self, outcome: &Result<String, EdgeError>)
        ensures
            final(self).config_path == old(self).config_path,
            final(self).config == old(self).config,
            final(self).file == old(self).file,
            final(self).tab == old(self).tab,
            final(self).message@ == (if old(self).file is Err {
                "Config must parse before service actions are available."@
            } else {
                match *outcome {
                    Ok(output) => output@,
                    Err(error) => error@,
                }
            }),
    {
        let parsed = match &self.file {
            Ok(_) => true,
            Err(_) => false,
        };
        if !parsed {
            self.message = "Config must parse before service actions are available.".to_owned();
            return;
        }
        self.message = match outcome {
            Ok(output) => output.clone(),
            Err(error) => error.to_text(),
        };
    }

    /// Shows how the configuration of a Codex command ended.
    pub fn configure_codex_command(&mut self, outcome: CodexConfiguration)
        ensures
            final(self).config_path == old(self).config_path,
            final(self).tab == old(self).tab,
            final(self).message@ == configuration_message(outcome),
            match outcome {
                CodexConfiguration::Written { file, config, .. } => {
                    &&& final(self).file == file
                    &&& final(self).config == config
                },
                _ => {
                    &&& final(self).file == old(self).file
                    &&& final(self).config == old(self).config
                },
            },
    {
        match outcome {
            CodexConfiguration::Failed { error } => {
                let mut message = "Codex discovery failed: ".to_owned();
                message.append(&error.message);
                self.message = message;
            },
            CodexConfiguration::NotFound => {
                self.message =
                "No runnable Codex command was found. Install Codex or add it to PATH, then press a again.".to_owned();
            },
            CodexConfiguration::NotWritten { error } => {
                let mut message = "Failed to write Codex command: ".to_owned();
                message.append(&error.message);
                self.message = message;
            },
            CodexConfiguration::Written { command, version, file, config } => {
                self.reload(file, config);
                let mut message = "Configured Codex command: ".to_owned();
                message.append(&command);
                message.append(" (");
                message.append(&version);
                message.append(")");
                self.message = message;
            },
        }
    }
}

/// A key.
#[derive(Clone, Copy, Debug, PartialEq, Eq, Structural)]
pub enum Key {
    Char(char),
    Esc,
    Up,
    Down,
    Left,
    Right,
    Other,
}

/// What a key does.
#[derive(Clone, Copy, Debug, PartialEq, Eq, Structural)]
pub enum TuiCommand {
    /// Leaves the interface.
    Quit,
    /// Shows a view.
    Show(TuiTab),
    /// Reads the configuration again.
    Reload,
    /// Looks for a Codex command and configures it.
    ConfigureCodex,
    /// Acts on the service.
    Service(ServiceAction),
    /// Nothing.
    Ignore,
}

/// The view that a letter shows.
pub open spec fn tab_of_letter(c: char) -> Option<TuiTab> {
    if c == 'd' {
        Some(TuiTab::Dashboard)
    } else if c == 'w' {
        Some(TuiTab::Wizard)
    } else if c == 'c' {
        Some(TuiTab::Config)
    } else if c == 'v' {
        Some(TuiTab::Service)
    } else if c == 'g' {
        Some(TuiTab::Diagnostics)
    } else {
        None
    }
}

/// The action that a letter stands for.
pub open spec fn action_of_letter(c: char) -> Option<ServiceAction> {
    if c == 'i' {
        Some(ServiceAction::Install)
    } else if c == 's' {
        Some(ServiceAction::Start)
    } else if c == 'x' {
        Some(ServiceAction::Stop)
    } else if c == 'r' {
        Some(ServiceAction::Restart)
    } else {
        None
    }
}

/// What a key does while a view is shown.
pub fn command_for_key(tab: TuiTab, key: Key) -> (command: TuiCommand)
    ensures
        match key {
            Key::Esc => command == TuiCommand::Quit,
            Key::Down | Key::Right => command matches TuiCommand::Show(shown) && shown.place() == (
            tab.place() + 1) % 5,
            Key::Up | Key::Left => command matches TuiCommand::Show(shown) && shown.place() == (
            tab.place() + 4) % 5,
            Key::Other => command == TuiCommand::Ignore,
            Key::Char(c) => command == (if c == 'q' {
                TuiCommand::Quit
            } else if c == 'R' {
                TuiCommand::Reload
            } else if c == 'a' {
                TuiCommand::ConfigureCodex
            } else {
                match (tab_of_letter(c), action_of_letter(c)) {
                    (Some(shown), _) => TuiCommand::Show(shown),
                    (None, Some(action)) => TuiCommand::Service(action),
                    (None, None) => TuiCommand::Ignore,
                }
            }),
        },
{
    match key {
        Key::Esc => TuiCommand::Quit,
        Key::Down => TuiCommand::Show(tab.next()),
        Key::Right => TuiCommand::Show(tab.next()),
        Key::Up => TuiCommand::Show(tab.previous()),
        Key::Left => TuiCommand::Show(tab.previous()),
        Key::Other => TuiCommand::Ignore,
        Key::Char(c) => if c == 'q' {
            TuiCommand::Quit
        } else if c == 'R' {
            TuiCommand::Reload
        } else if c == 'a' {
            TuiCommand::ConfigureCodex
        } else if c == 'd' {
            TuiCommand::Show(TuiTab::Dashboard)
        } else if c == 'w' {
            TuiCommand::Show(TuiTab::Wizard)
        } else if c == 'c' {
            TuiCommand::Show(TuiTab::Config)
        } else if c == 'v' {
            TuiCommand::Show(TuiTab::Service)
        } else if c == 'g' {
            TuiCommand::Show(TuiTab::Diagnostics)
        } else if c == 'i' {
            TuiCommand::Service(ServiceAction::Install)
        } else if c == 's' {
            TuiCommand::Service(ServiceAction::Start)
        } else if c == 'x' {
            TuiCommand::Service(ServiceAction::Stop)
        } else if c == 'r' {
            TuiCommand::Service(ServiceAction::Restart)
        } else {
            TuiCommand::Ignore
        },
    }
}

/// The orchestrator can be reached as far as the configuration says.
pub open spec fn orchestrator_is_set(model: TuiModel) -> bool {
    model.config matches Ok(config) && config.api_url@.len() > 0 && config.nats_url@.len() > 0
}

/// The device has an identity.
pub open spec fn device_is_set(model: TuiModel) -> bool {
    model.config matches Ok(config) && config.device_id@.len() > 0 && config.device_name@.len() > 0
}

/// The device offers work.
pub open spec fn work_is_set(model: TuiModel) -> bool {
    model.config matches Ok(config) && (config.allowed_repo_roots@.len() > 0
        || config.capabilities@.len() > 0)
}

/// Jobs are run by Codex.
pub open spec fn codex_is_set(model: TuiModel) -> bool {
    model.config matches Ok(config) && config.codex_command is Some
}

/// The device can prove itself.
pub open spec fn trust_is_set(model: TuiModel) -> bool {
    model.config matches Ok(config) && config.trusted_orchestrator_keys@.len() > 0
        && config.edge_signing_key is Some
}

/// Whether the orchestrator can be reached as far as the configuration says.
pub fn has_orchestrator(model: &TuiModel) -> (ok: bool)
    ensures
        ok == orchestrator_is_set(*model),
{
    match &model.config {
        Ok(config) => !config.api_url.as_str().is_empty() && !config.nats_url.as_str().is_empty(),
        Err(_) => false,
    }
}

/// Whether the device has an identity.
pub fn has_device(model: &TuiModel) -> (ok: bool)
    ensures
        ok == device_is_set(*model),
{
    match &model.config {
        Ok(config) => !config.device_id.as_str().is_empty()
            && !config.device_name.as_str().is_empty(),
        Err(_) => false,
    }
}

/// Whether the device offers work.
pub fn has_work(model: &TuiModel) -> (ok: bool)
    ensures
        ok == work_is_set(*model),
{
    match &model.config {
        Ok(config) => config.allowed_repo_roots.len() > 0 || config.capabilities.len() > 0,
        Err(_) => false,
    }
}

/// Whether jobs are run by Codex.
pub fn has_codex(model: &TuiModel) -> (ok: bool)
    ensures
        ok == codex_is_set(*model),
{
    match &model.config {
        Ok(config) => config.codex_command.is_some(),
        Err(_) => false,
    }
}

/// Whether the device can prove itself.
pub fn has_trust(model: &TuiModel) -> (ok: bool)
    ensures
        ok == trust_is_set(*model),
{
    match &model.config {
        Ok(config) => config.trusted_orchestrator_keys.len() > 0
            && config.edge_signing_key.is_some(),
        Err(_) => false,
    }
}

/// A state of the service that speaks of an installed one.
pub open spec fn speaks_of_service(detail: Seq<char>) -> bool {
    ||| text::contains_text(detail, "registered"@)
    ||| text::contains_text(detail, "Running"@)
    ||| text::contains_text(detail, "Ready"@)
    ||| text::contains_text(detail, "active"@)
}

/// Whether the service is installed, by what its manager says.
pub fn service_is_installed(model: &TuiModel, status: &ServiceStatus) -> (installed: bool)
    ensures
        installed == (model.config is Ok && speaks_of_service(status.detail@)),
{
    let parsed = match &model.config {
        Ok(_) => true,
        Err(_) => false,
    };
    parsed && (text::has_text(&status.detail, "registered") || text::has_text(
        &status.detail,
        "Running",
    ) || text::has_text(&status.detail, "Ready") || text::has_text(&status.detail, "active"))
}

/// The state of the service in one line.
pub open spec fn service_line(model: TuiModel, status: ServiceStatus) -> Seq<char> {
    match model.config {
        Ok(_) => status.manager@ + ": "@ + status.detail@,
        Err(_) => "config must parse before service status can be checked"@,
    }
}

/// The state of the service in one line.
pub fn service_readiness_detail(model: &TuiModel, status: &ServiceStatus) -> (out: String)
    ensures
        out@ == service_line(*model, *status),
{
    match &model.config {
        Ok(_) => {
            let mut out = status.manager.clone();
            out.append(": ");
            out.append(&status.detail);
            out
        },
        Err(_) => "config must parse before service status can be checked".to_owned(),
    }
}

/// One thing that has to be in place before the first job.
#[derive(Clone, Debug, PartialEq, Eq)]
pub struct ReadinessCheck {
    pub label: &'static str,
    pub ok: bool,
    pub detail: String,
    pub action: &'static str,
}

/// The contents of a [`ReadinessCheck`].
pub struct ReadinessCheckView {
    pub label: Seq<char>,
    pub ok: bool,
    pub detail: Seq<char>,
    pub action: Seq<char>,
}

impl View for ReadinessCheck {
    type V = ReadinessCheckView;

    open spec fn view(&self) -> ReadinessCheckView {
        ReadinessCheckView {
            label: self.label@,
            ok: self.ok,
            detail: self.detail@,
            action: self.action@,
        }
    }
}

/// The checks of a list.
pub open spec fn check_views(list: Seq<ReadinessCheck>) -> Seq<ReadinessCheckView> {
    list.map_values(|check: ReadinessCheck| check@)
}

/// What is said of the orchestrator.
pub open spec fn orchestrator_detail(model: TuiModel) -> Seq<char> {
    match model.config {
        Ok(config) => "API "@ + config.api_url@ + " and NATS "@ + config.nats_url@,
        Err(_) => "config must parse before connection settings can be checked"@,
    }
}

/// What is said of the device.
pub open spec fn device_detail(model: TuiModel) -> Seq<char> {
    match model.config {
        Ok(config) => config.device_name@ + " ("@ + config.device_id@ + ")"@,
        Err(_) => "config must parse before device identity can be checked"@,
    }
}

/// What is said of the work that the device offers.
pub open spec fn work_detail(model: TuiModel) -> Seq<char> {
    match model.config {
        Ok(config) => text::decimal(config.allowed_repo_roots@.len()) + " repo roots, "@
            + text::decimal(config.allowed_repos@.len()) + " explicit repos, "@ + text::decimal(
            config.capabilities@.len(),
        ) + " capabilities"@,
        Err(_) => "config must parse before work exposure can be checked"@,
    }
}

/// What is said of the runner.
pub open spec fn codex_detail(model: TuiModel) -> Seq<char> {
    match model.config {
        Ok(config) => if config.codex_command is Some {
            "codex command configured"@
        } else {
            "not configured; edge will use simulated execution"@
        },
        Err(_) => "config must parse before runner settings can be checked"@,
    }
}

/// What is said of the trust material.
pub open spec fn trust_detail(model: TuiModel) -> Seq<char> {
    match model.config {
        Ok(config) => text::decimal(config.trusted_orchestrator_keys@.len())
            + " trusted orchestrator key(s), edge signing key "@ + (
        if config.edge_signing_key is Some {
            "loaded"@
        } else {
            "missing"@
        }),
        Err(_) => "config must parse before trust files can be checked"@,
    }
}

/// The checks before the first job.
pub open spec fn readiness(model: TuiModel, service: ServiceStatus) -> Seq<ReadinessCheckView> {
    seq![
        ReadinessCheckView {
            label: "Orchestrator"@,
            ok: orchestrator_is_set(model),
            detail: orchestrator_detail(model),
            action:
                "edit [orchestrator].api_url and [orchestrator].nats_url in edge.toml, then press Shift+R"@,
        },
        ReadinessCheckView {
            label: "Device identity"@,
            ok: device_is_set(model),
            detail: device_detail(model),
            action: "set [device].id and [device].name in edge.toml, then press Shift+R"@,
        },
        ReadinessCheckView {
            label: "Work exposure"@,
            ok: work_is_set(model),
            detail: work_detail(model),
            action:
                "add [repositories].allowed_roots or [device].capabilities in edge.toml, then press Shift+R"@,
        },
        ReadinessCheckView {
            label: "Codex runner"@,
            ok: codex_is_set(model),
            detail: codex_detail(model),
            action:
                "press a to auto-discover and save [runner].codex_command, or set it manually then press Shift+R"@,
        },
        ReadinessCheckView {
            label: "Trust material"@,
            ok: trust_is_set(model),
            detail: trust_detail(model),
            action:
                "create the trust files and set [trust].orchestrator_keys_path and [trust].edge_signing_key_path"@,
        },
        ReadinessCheckView {
            label: "Service install"@,
            ok: model.config is Ok && speaks_of_service(service.detail@),
            detail: service_line(model, service),
            action: "press i to install the service, then press s to start it"@,
        },
    ]
}

/// What is said of the first five checks.
fn readiness_details(model: &TuiModel) -> (out: (String, String, String, String, String))
    ensures
        out.0@ == orchestrator_detail(*model),
        out.1@ == device_detail(*model),
        out.2@ == work_detail(*model),
        out.3@ == codex_detail(*model),
        out.4@ == trust_detail(*model),
{
    match &model.config {
        Ok(config) => {
            let mut orchestrator = "API ".to_owned();
            orchestrator.append(&config.api_url);
            orchestrator.append(" and NATS ");
            orchestrator.append(&config.nats_url);
            let mut device = config.device_name.clone();
            device.append(" (");
            device.append(&config.device_id);
            device.append(")");
            let mut work = text::count_text(config.allowed_repo_roots.len());
            work.append(" repo roots, ");
            work.append(&text::count_text(config.allowed_repos.len()));
            work.append(" explicit repos, ");
            work.append(&text::count_text(config.capabilities.len()));
            work.append(" capabilities");
            let codex = if config.codex_command.is_some() {
                "codex command configured".to_owned()
            } else {
                "not configured; edge will use simulated execution".to_owned()
            };
            let mut trust = text::count_text(config.trusted_orchestrator_keys.len());
            trust.append(" trusted orchestrator key(s), edge signing key ");
            if config.edge_signing_key.is_some() {
                trust.append("loaded");
            } else {
                trust.append("missing");
            }
            (orchestrator, device, work, codex, trust)
        },
        Err(_) => (
            "config must parse before connection settings can be checked".to_owned(),
            "config must parse before device identity can be checked".to_owned(),
            "config must parse before work exposure can be checked".to_owned(),
            "config must parse before runner settings can be checked".to_owned(),
            "config must parse before trust files can be checked".to_owned(),
        ),
    }
}

/// The checks before the first job.
pub fn first_run_checks(model: &TuiModel, service: &ServiceStatus) -> (out: Vec<ReadinessCheck>)
    ensures
        check_views(out@) == readiness(*model, *service),
{
    let (orchestrator, device, work, codex, trust) = readiness_details(model);
    let mut out: Vec<ReadinessCheck> = Vec::new();
    out.push(
        ReadinessCheck {
            label: "Orchestrator",
            ok: has_orchestrator(model),
            detail: orchestrator,
            action:
                "edit [orchestrator].api_url and [orchestrator].nats_url in edge.toml, then press Shift+R",
        },
    );
    out.push(
        ReadinessCheck {
            label: "Device identity",
            ok: has_device(model),
            detail: device,
            action: "set [device].id and [device].name in edge.toml, then press Shift+R",
        },
    );
    out.push(
        ReadinessCheck {
            label: "Work exposure",
            ok: has_work(model),
            detail: work,
            action:
                "add [repositories].allowed_roots or [device].capabilities in edge.toml, then press Shift+R",
        },
    );
    out.push(
        ReadinessCheck {
            label: "Codex runner",
            ok: has_codex(model),
            detail: codex,
            action:
                "press a to auto-discover and save [runner].codex_command, or set it manually then press Shift+R",
        },
    );
    out.push(
        ReadinessCheck {
            label: "Trust material",
            ok: has_trust(model),
            detail: trust,
            action:
                "create the trust files and set [trust].orchestrator_keys_path and [trust].edge_signing_key_path",
        },
    );
    out.push(
        ReadinessCheck {
            label: "Service install",
            ok: service_is_installed(model, service),
            detail: service_readiness_detail(model, service),
            action: "press i to install the service, then press s to start it",
        },
    );
    assert(check_views(out@) =~= readiness(*model, *service));
    out
}

/// Without a configuration that can be read no check succeeds.
pub proof fn nothing_is_ready_without_a_configuration(
    model: TuiModel,
    service: ServiceStatus,
    i: int,
)
    requires
        model.config is Err,
        0 <= i < readiness(model, service).len(),
    ensures
        !readiness(model, service)[i].ok,
{
}

/// The lines in which a check is shown: its state, and what to do next where it fails.
pub open spec fn check_lines(check: ReadinessCheckView) -> Seq<Seq<char>> {
    if check.ok {
        seq!["         OK  "@ + check.label + " - "@ + check.detail]
    } else {
        seq![
            "Needs setup  "@ + check.label + " - "@ + check.detail,
            "             Next: "@ + check.action,
        ]
    }
}

/// The lines in which a check is shown.
pub fn lines_of_check(check: &ReadinessCheck) -> (out: Vec<String>)
    ensures
        text::texts(out@) == check_lines(check@),
{
    let mut lines: Vec<String> = Vec::new();
    let mut first = if check.ok {
        "         OK  ".to_owned()
    } else {
        "Needs setup  ".to_owned()
    };
    first.append(check.label);
    first.append(" - ");
    first.append(&check.detail);
    push_text(&mut lines, first);
    if !check.ok {
        let mut second = "             Next: ".to_owned();
        second.append(check.action);
        push_text(&mut lines, second);
    }
    assert(text::texts(lines@) == check_lines(check@));
    lines
}

/// The time of the last registration as it is shown, given the local form of that time.
pub fn registration_text(local: Option<String>) -> (out: String)
    ensures
        out@ == (match local {
            Some(shown) => shown@,
            None => "not observed locally"@,
        }),
{
    match local {
        Some(shown) => shown,
        None => "not observed locally".to_owned(),
    }
}

/// The time of the last registration, if one is known.
pub open spec fn last_registration(status: Option<EdgeStatus>) -> Option<Timestamp> {
    match status {
        Some(inner) => inner.last_registration_at,
        None => None,
    }
}

/// The time of the last registration as it is shown: as it reads at the offset that the time zone
/// of the machine has from UTC, whichever that is.
pub fn format_last_registration(status: &Option<EdgeStatus>) -> (out: String)
    ensures
        match last_registration(*status) {
            Some(time) => exists|offset: i32|
                timestamp::is_offset(offset) && out@ == #[trigger] time.text_at(offset),
            None => out@ == "not observed locally"@,
        },
{
    let local = match status {
        Some(inner) => match inner.last_registration_at {
            Some(time) => Some(time.to_local_text()),
            None => None,
        },
        None => None,
    };
    registration_text(local)
}

/// What the dashboard says of a registration that failed.
pub open spec fn failure_lines(status: EdgeStatus) -> Seq<Seq<char>> {
    match text::opt_text(status.last_registration_error) {
        None => Seq::empty(),
        Some(error) => {
            let first = seq!["Last registration error: "@ + error];
            match text::opt_text(status.last_registration_error_code) {
                None => first,
                Some(code) => match status::guidance_for(code) {
                    Some(guidance) => first.push("Guidance: "@ + guidance),
                    None => first,
                },
            }
        },
    }
}

/// The lines of the dashboard, given the last registration as it is shown.
pub open spec fn dashboard(model: TuiModel, status: Option<EdgeStatus>, last: Seq<char>) -> Seq<
    Seq<char>,
> {
    match model.config {
        Err(error) => seq!["Config error: "@ + error@],
        Ok(config) => {
            let lines = seq![
                "Device: "@ + config.device_name@ + " ("@ + config.device_id@ + ")"@,
                "API: "@ + config.api_url@,
                "NATS: "@ + config.nats_url@,
                "Runner: "@ + status::runner_mode(text::opt_text(config.codex_command)),
                "Repositories: "@ + text::decimal(config.allowed_repo_roots@.len()) + " roots, "@
                    + text::decimal(config.allowed_repos@.len()) + " explicit"@,
                "Status file: "@ + config.status_path@,
                "Last registration: "@ + last,
            ];
            match status {
                Some(inner) => lines + failure_lines(inner),
                None => lines,
            }
        },
    }
}

/// A text behind a label.
fn labelled(label: &str, value: &str) -> (out: String)
    ensures
        out@ == label@ + value@,
{
    let mut out = label.to_owned();
    out.append(value);
    out
}

/// Adds what the dashboard says of a registration that failed.
fn push_failure_lines(lines: &mut Vec<String>, status: &EdgeStatus)
    ensures
        text::texts(final(lines)@) == text::texts(old(lines)@) + failure_lines(*status),
{
    let ghost before = text::texts(lines@);
    match &status.last_registration_error {
        None => {
            assert(before + Seq::<Seq<char>>::empty() == before);
        },
        Some(error) => {
            push_text(lines, labelled("Last registration error: ", error));
            assert(text::texts(lines@) == before + seq!["Last registration error: "@ + error@]);
            match &status.last_registration_error_code {
                None => {},
                Some(code) => match status::registration_guidance(code) {
                    Some(guidance) => {
                        push_text(lines, labelled("Guidance: ", guidance));
                        assert(text::texts(lines@) == before + failure_lines(*status));
                    },
                    None => {},
                },
            }
        },
    }
}

/// The lines of the dashboard, given the last registration as it is shown.
pub fn dashboard_lines(model: &TuiModel, status: &Option<EdgeStatus>, last_registration: &str) -> (out:
    Vec<String>)
    ensures
        text::texts(out@) == dashboard(*model, *status, last_registration@),
{
    let mut lines: Vec<String> = Vec::new();
    let config = match &model.config {
        Ok(config) => config,
        Err(error) => {
            push_text(&mut lines, labelled("Config error: ", &error.message));
            assert(text::texts(lines@) == seq!["Config error: "@ + error@]);
            return lines;
        },
    };
    let mut device = labelled("Device: ", &config.device_name);
    device.append(" (");
    device.append(&config.device_id);
    device.append(")");
    let mut repositories = labelled(
        "Repositories: ",
        &text::count_text(config.allowed_repo_roots.len()),
    );
    repositories.append(" roots, ");
    repositories.append(&text::count_text(config.allowed_repos.len()));
    repositories.append(" explicit");
    push_text(&mut lines, device);
    push_text(&mut lines, labelled("API: ", &config.api_url));
    push_text(&mut lines, labelled("NATS: ", &config.nats_url));
    push_text(&mut lines, labelled("Runner: ", status::runner_mode_of(&config.codex_command)));
    push_text(&mut lines, repositories);
    push_text(&mut lines, labelled("Status file: ", &config.status_path));
    push_text(&mut lines, labelled("Last registration: ", last_registration));
    let ghost fixed = seq![
        "Device: "@ + config.device_name@ + " ("@ + config.device_id@ + ")"@,
        "API: "@ + config.api_url@,
        "NATS: "@ + config.nats_url@,
        "Runner: "@ + status::runner_mode(text::opt_text(config.codex_command)),
        "Repositories: "@ + text::decimal(config.allowed_repo_roots@.len()) + " roots, "@
            + text::decimal(config.allowed_repos@.len()) + " explicit"@,
        "Status file: "@ + config.status_path@,
        "Last registration: "@ + last_registration@,
    ];
    assert(text::texts(lines@) == fixed);
    match status {
        Some(inner) => push_failure_lines(&mut lines, inner),
        None => {},
    }
    lines
}

/// The text of the configuration view.
pub open spec fn config_view(model: TuiModel) -> Seq<char> {
    match model.config {
        Ok(config) => "Config: "@ + model.config_path@ + "\nState: "@ + config.state_dir@
            + "\nWorkspace: "@ + config.workspace_root@ + "\nWorktrees: "@ + config.worktree_root@
            + "\nCapabilities: "@ + text::joined(text::texts(config.capabilities@), ", "@)
            + "\n\nEdit this TOML file in your editor, then press Shift+R here to reload validation."@,
        Err(error) => "Config failed validation:\n\n"@ + error@,
    }
}

/// The text of the configuration view.
pub fn config_text(model: &TuiModel) -> (out: String)
    ensures
        out@ == config_view(*model),
{
    match &model.config {
        Ok(config) => {
            let mut out = "Config: ".to_owned();
            out.append(&model.config_path);
            out.append("\nState: ");
            out.append(&config.state_dir);
            out.append("\nWorkspace: ");
            out.append(&config.workspace_root);
            out.append("\nWorktrees: ");
            out.append(&config.worktree_root);
            out.append("\nCapabilities: ");
            out.append(&text::join_texts(&config.capabilities, ", "));
            out.append(
                "\n\nEdit this TOML file in your editor, then press Shift+R here to reload validation.",
            );
            out
        },
        Err(error) => labelled("Config failed validation:\n\n", &error.message),
    }
}

/// The text of the service view.
pub open spec fn service_view(model: TuiModel, status: ServiceStatus) -> Seq<char> {
    match model.config {
        Ok(_) => "Manager: "@ + status.manager@ + "\nStatus: "@ + status.detail@
            + "\n\nWhat this screen does:\n- i install: creates or rewrites the background service task using the hidden launcher\n- s start: starts the already-installed background task\n- x stop: stops the background task\n- r restart: stops then starts the background task\n\nThe TUI is only the control panel; closing it does not stop the background edge service."@,
        Err(error) => "Config must validate before service controls are available:\n\n"@ + error@,
    }
}

/// The text of the service view.
pub fn service_text(model: &TuiModel, status: &ServiceStatus) -> (out: String)
    ensures
        out@ == service_view(*model, *status),
{
    match &model.config {
        Ok(_) => {
            let mut out = "Manager: ".to_owned();
            out.append(&status.manager);
            out.append("\nStatus: ");
            out.append(&status.detail);
            out.append(
                "\n\nWhat this screen does:\n- i install: creates or rewrites the background service task using the hidden launcher\n- s start: starts the already-installed background task\n- x stop: stops the background task\n- r restart: stops then starts the background task\n\nThe TUI is only the control panel; closing it does not stop the background edge service.",
            );
            out
        },
        Err(error) => labelled(
            "Config must validate before service controls are available:\n\n",
            &error.message,
        ),
    }
}

/// What is said of Codex where no command is configured.
pub open spec fn discovery_report(discovery: CodexDiscovery) -> Seq<char> {
    match discovery {
        CodexDiscovery::Found { command, version } =>
            "Codex command is not configured; edge will use simulated execution.\nDiscovered runnable Codex command: "@
            + command@ + " ("@ + version@ + ")"@,
        CodexDiscovery::NotFound =>
            "Codex command is not configured; edge will use simulated execution.\nNo runnable Codex command was found with Get-Command/where/which."@,
        CodexDiscovery::Failed { error } =>
            "Codex command is not configured; edge will use simulated execution.\nCodex discovery failed: "@
            + error@,
    }
}

/// What is said of Codex where no command is configured.
pub fn discover_codex_diagnostic(discovery: &CodexDiscovery) -> (out: String)
    ensures
        out@ == discovery_report(*discovery),
{
    match discovery {
        CodexDiscovery::Found { command, version } => {
            let mut out = labelled(
                "Codex command is not configured; edge will use simulated execution.\nDiscovered runnable Codex command: ",
                command,
            );
            out.append(" (");
            out.append(version);
            out.append(")");
            out
        },
        CodexDiscovery::NotFound =>
            "Codex command is not configured; edge will use simulated execution.\nNo runnable Codex command was found with Get-Command/where/which.".to_owned(),
        CodexDiscovery::Failed { error } => labelled(
            "Codex command is not configured; edge will use simulated execution.\nCodex discovery failed: ",
            &error.message,
        ),
    }
}

/// What is said of Codex once its version was asked for.
pub fn run_codex_preflight(outcome: &Result<(), EdgeError>) -> (out: String)
    ensures
        out@ == (match *outcome {
            Ok(_) => "Codex preflight passed."@,
            Err(error) => "Codex preflight failed: "@ + error@,
        }),
{
    match outcome {
        Ok(_) => "Codex preflight passed.".to_owned(),
        Err(error) => labelled("Codex preflight failed: ", &error.message),
    }
}

/// The text of the diagnostics view, given what is said of Codex.
pub open spec fn diagnostics_view(model: TuiModel, codex: Seq<char>) -> Seq<char> {
    match model.config {
        Ok(_) => "Config parses successfully.\nSecret files passed permission checks.\n"@ + codex
            + "\n\nPress a to auto-discover and save the Codex command.\nNATS/API checks run when the service starts; see the dashboard status file after startup."@,
        Err(error) => "Config diagnostics:\n\n"@ + error@,
    }
}

/// The text of the diagnostics view, given what is said of Codex.
pub fn diagnostics_text(model: &TuiModel, codex: &str) -> (out: String)
    ensures
        out@ == diagnostics_view(*model, codex@),
{
    match &model.config {
        Ok(_) => {
            let mut out = labelled(
                "Config parses successfully.\nSecret files passed permission checks.\n",
                codex,
            );
            out.append(
                "\n\nPress a to auto-discover and save the Codex command.\nNATS/API checks run when the service starts; see the dashboard status file after startup.",
            );
            out
        },
        Err(error) => labelled("Config diagnostics:\n\n", &error.message),
    }
}

/// Two configuration files that differ at most in the Codex command, which the second one has.
pub open spec fn differs_in_codex_command(
    before: EdgeConfigFile,
    after: EdgeConfigFile,
    command: Seq<char>,
) -> bool {
    &&& text::opt_text(after.runner.codex_command) == Some(command)
    &&& after.runner.codex_args == before.runner.codex_args
    &&& after.runner.simulated_run_ms == before.runner.simulated_run_ms
    &&& after.runner.validation_timeout_secs == before.runner.validation_timeout_secs
    &&& after.runner.sandbox_mode == before.runner.sandbox_mode
    &&& after.orchestrator == before.orchestrator
    &&& after.device == before.device
    &&& after.repositories == before.repositories
    &&& after.runtime == before.runtime
    &&& after.trust == before.trust
    &&& after.service == before.service
    &&& after.tunnel == before.tunnel
}

/// What is to be written in place of a configuration file so that it has a Codex command: the file
/// as it was loaded, with that command. Where it could not be loaded nothing is to be written.
pub open spec fn is_update(
    loaded: Result<EdgeConfigFile, EdgeError>,
    command: Seq<char>,
    update: Result<EdgeConfigFile, EdgeError>,
) -> bool {
    match loaded {
        Ok(before) => update matches Ok(after) && differs_in_codex_command(before, after, command),
        Err(error) => update == Err::<EdgeConfigFile, EdgeError>(error),
    }
}

/// What is to be written in place of a configuration file so that it has a Codex command.
pub fn write_codex_command(loaded: Result<EdgeConfigFile, EdgeError>, command: &str) -> (update:
    Result<EdgeConfigFile, EdgeError>)
    ensures
        is_update(loaded, command@, update),
{
    match loaded {
        Ok(file) => {
            let mut after = file;
            after.runner.codex_command = Some(command.to_owned());
            Ok(after)
        },
        Err(error) => Err(error),
    }
}

/// The text of a configuration file once an update of it was written. A file that has no text
/// form, or no update, leaves the text as it was.
pub open spec fn text_after(
    body: Seq<char>,
    update: Result<EdgeConfigFile, EdgeError>,
    print: spec_fn(EdgeConfigFile) -> Option<Seq<char>>,
) -> Seq<char> {
    match update {
        Ok(after) => match print(after) {
            Some(printed) => printed,
            None => body,
        },
        Err(_) => body,
    }
}

/// What is written is read back. Whatever the text form of configuration files is, as long as what
/// is printed reads as the file that was printed: after an update the text reads as a file with
/// the command, word for word, and otherwise as before. Where the text could not be read, or the
/// update has no text form, it stays as it was.
pub proof fn written_commands_are_read_back(
    body: Seq<char>,
    command: Seq<char>,
    update: Result<EdgeConfigFile, EdgeError>,
    read: spec_fn(Seq<char>) -> Result<EdgeConfigFile, EdgeError>,
    print: spec_fn(EdgeConfigFile) -> Option<Seq<char>>,
)
    requires
        forall|file: EdgeConfigFile|
            (#[trigger] print(file)) matches Some(printed) ==> read(printed) == Ok::<
                EdgeConfigFile,
                EdgeError,
            >(file),
        is_update(read(body), command, update),
    ensures
        read(body) matches Ok(before) ==> {
            &&& update matches Ok(after)
            &&& print(after) is Some ==> {
                &&& read(text_after(body, update, print)) == Ok::<EdgeConfigFile, EdgeError>(after)
                &&& differs_in_codex_command(before, after, command)
            }
            &&& print(after) is None ==> text_after(body, update, print) == body
        },
        read(body) is Err ==> update is Err && text_after(body, update, print) == body,
{
}

/// The letters of the views and of the actions are told apart, each view and each action has one, and
/// none of them is one that does something else.
pub proof fn letters_stand_for_one_thing(c: char)
    ensures
        tab_of_letter(c) is Some ==> action_of_letter(c) is None,
        tab_of_letter(c) is Some || action_of_letter(c) is Some ==> c != 'q' && c != 'R' && c != 'a',
        tab_of_letter('d') == Some(TuiTab::Dashboard),
        tab_of_letter('w') == Some(TuiTab::Wizard),
        tab_of_letter('c') == Some(TuiTab::Config),
        tab_of_letter('v') == Some(TuiTab::Service),
        tab_of_letter('g') == Some(TuiTab::Diagnostics),
        action_of_letter('i') == Some(ServiceAction::Install),
        action_of_letter('s') == Some(ServiceAction::Start),
        action_of_letter('x') == Some(ServiceAction::Stop),
        action_of_letter('r') == Some(ServiceAction::Restart),
        tab_of_letter(c) is Some <==> c == 'd' || c == 'w' || c == 'c' || c == 'v' || c == 'g',
        action_of_letter(c) is Some <==> c == 'i' || c == 's' || c == 'x' || c == 'r',
{
}

/// The views stand in a row of five.
pub proof fn views_stand_in_a_row(a: TuiTab, b: TuiTab)
    ensures
        0 <= a.place() < 5,
        a.place() == b.place() <==> a == b,
        TuiTab::Dashboard.place() == 0,
        TuiTab::Wizard.place() == 1,
        TuiTab::Config.place() == 2,
        TuiTab::Service.place() == 3,
        TuiTab::Diagnostics.place() == 4,
{
}

/// The operator is told how the configuration of a Codex command ended: the error where there was
/// one, else the command and its version.
pub proof fn configured_commands_are_told(outcome: CodexConfiguration)
    ensures
        ({
            let told = configuration_message(outcome);
            &&& outcome matches CodexConfiguration::Failed { error } ==> error@.is_suffix_of(told)
                && ("Codex discovery failed: "@).is_prefix_of(told)
            &&& outcome matches CodexConfiguration::NotWritten { error } ==> error@.is_suffix_of(
                told,
            ) && ("Failed to write Codex command: "@).is_prefix_of(told)
            &&& outcome matches CodexConfiguration::Written { command, version, .. } ==> {
                &&& ("Configured Codex command: "@ + command@).is_prefix_of(told)
                &&& (" ("@ + version@ + ")"@).is_suffix_of(told)
            }
        }),
{
    match outcome {
        CodexConfiguration::Failed { error } => {
            text::parts_begin_and_end("Codex discovery failed: "@, error@);
        },
        CodexConfiguration::NotWritten { error } => {
            text::parts_begin_and_end("Failed to write Codex command: "@, error@);
        },
        CodexConfiguration::Written { command, version, .. } => {
            let head = "Configured Codex command: "@ + command@;
            let tail = " ("@ + version@ + ")"@;
            assert(configuration_message(outcome) =~= head + tail);
            text::parts_begin_and_end(head, tail);
        },
        CodexConfiguration::NotFound => {},
    }
}

/// There are six checks, in their order. Each is met exactly where the configuration holds what it
/// asks for, and the last where the state of the service speaks of an installed one.
pub proof fn checks_are_met_by_the_configuration(model: TuiModel, service: ServiceStatus)
    requires
        model.config is Ok,
    ensures
        ({
            let config = model.config->Ok_0;
            let checks = readiness(model, service);
            &&& checks.len() == 6
            &&& checks[0].label == "Orchestrator"@ && checks[1].label == "Device identity"@
            &&& checks[2].label == "Work exposure"@ && checks[3].label == "Codex runner"@
            &&& checks[4].label == "Trust material"@ && checks[5].label == "Service install"@
            &&& checks[0].ok <==> config.api_url@.len() > 0 && config.nats_url@.len() > 0
            &&& checks[1].ok <==> config.device_id@.len() > 0 && config.device_name@.len() > 0
            &&& checks[2].ok <==> config.allowed_repo_roots@.len() > 0
                || config.capabilities@.len() > 0
            &&& checks[3].ok <==> config.codex_command is Some
            &&& checks[4].ok <==> config.trusted_orchestrator_keys@.len() > 0
                && config.edge_signing_key is Some
            &&& checks[5].ok <==> text::contains_text(service.detail@, "registered"@)
                || text::contains_text(service.detail@, "Running"@) || text::contains_text(
                service.detail@,
                "Ready"@,
            ) || text::contains_text(service.detail@, "active"@)
        }),
{
}

/// The checks of the connection and of the device tell what they looked at.
pub proof fn checks_tell_the_connection_and_the_device(model: TuiModel, service: ServiceStatus)
    requires
        model.config is Ok,
    ensures
        ({
            let config = model.config->Ok_0;
            let checks = readiness(model, service);
            &&& ("API "@ + config.api_url@).is_prefix_of(checks[0].detail)
            &&& (" and NATS "@ + config.nats_url@).is_suffix_of(checks[0].detail)
            &&& config.device_name@.is_prefix_of(checks[1].detail)
            &&& (" ("@ + config.device_id@ + ")"@).is_suffix_of(checks[1].detail)
            &&& checks[5].detail == service.manager@ + ": "@ + service.detail@
        }),
{
    let config = model.config->Ok_0;
    let api = "API "@ + config.api_url@;
    let nats = " and NATS "@ + config.nats_url@;
    assert(orchestrator_detail(model) =~= api + nats);
    assert(api.is_prefix_of(api + nats) && nats.is_suffix_of(api + nats)) by {
        text::parts_begin_and_end(api, nats);
    }
    let name = config.device_name@;
    let id = " ("@ + config.device_id@ + ")"@;
    assert(device_detail(model) =~= name + id);
    assert(name.is_prefix_of(name + id) && id.is_suffix_of(name + id)) by {
        text::parts_begin_and_end(name, id);
    }
}

/// The check of the work counts the roots, the repositories and what the device can do.
pub proof fn checks_count_the_work(model: TuiModel, service: ServiceStatus)
    requires
        model.config is Ok,
    ensures
        ({
            let config = model.config->Ok_0;
            let detail = readiness(model, service)[2].detail;
            &&& (text::decimal(config.allowed_repo_roots@.len()) + " repo roots, "@).is_prefix_of(
                detail,
            )
            &&& text::contains_text(
                detail,
                text::decimal(config.allowed_repos@.len()) + " explicit repos, "@,
            )
            &&& (text::decimal(config.capabilities@.len()) + " capabilities"@).is_suffix_of(detail)
        }),
{
    let config = model.config->Ok_0;
    let roots = text::decimal(config.allowed_repo_roots@.len()) + " repo roots, "@;
    let repos = text::decimal(config.allowed_repos@.len()) + " explicit repos, "@;
    let can = text::decimal(config.capabilities@.len()) + " capabilities"@;
    let whole = roots + repos + can;
    assert(work_detail(model) =~= whole);
    assert(text::contains_text(whole, repos)) by {
        text::parts_are_contained(roots, repos, can);
    }
    assert(can.is_suffix_of(whole)) by {
        text::parts_begin_and_end(roots + repos, can);
    }
    assert(roots.is_prefix_of(whole)) by {
        assert(whole =~= roots + (repos + can));
        text::parts_begin_and_end(roots, repos + can);
    }
}

/// The checks of the runner and of the trust say what is there and what is missing.
pub proof fn checks_say_what_is_missing(model: TuiModel, service: ServiceStatus)
    requires
        model.config is Ok,
    ensures
        ({
            let config = model.config->Ok_0;
            let checks = readiness(model, service);
            &&& config.codex_command is Some ==> checks[3].detail == "codex command configured"@
            &&& config.codex_command is None ==> checks[3].detail
                == "not configured; edge will use simulated execution"@
            &&& (text::decimal(config.trusted_orchestrator_keys@.len())
                + " trusted orchestrator key(s), edge signing key "@).is_prefix_of(checks[4].detail)
            &&& config.edge_signing_key is Some ==> "loaded"@.is_suffix_of(checks[4].detail)
            &&& config.edge_signing_key is None ==> "missing"@.is_suffix_of(checks[4].detail)
        }),
{
    let config = model.config->Ok_0;
    let head = text::decimal(config.trusted_orchestrator_keys@.len())
        + " trusted orchestrator key(s), edge signing key "@;
    let word = if config.edge_signing_key is Some {
        "loaded"@
    } else {
        "missing"@
    };
    assert(trust_detail(model) =~= head + word);
    assert(head.is_prefix_of(head + word) && word.is_suffix_of(head + word)) by {
        text::parts_begin_and_end(head, word);
    }
}

/// A check is shown with its label and its detail, and with what to do next exactly where it fails.
pub proof fn failed_checks_say_what_to_do(check: ReadinessCheckView)
    ensures
        check.ok ==> check_lines(check).len() == 1,
        !check.ok ==> check_lines(check).len() == 2 && check.action.is_suffix_of(
            check_lines(check)[1],
        ),
        text::contains_text(check_lines(check)[0], check.label + " - "@ + check.detail),
        check.ok ==> "         OK  "@.is_prefix_of(check_lines(check)[0]),
        !check.ok ==> "Needs setup  "@.is_prefix_of(check_lines(check)[0]),
{
    let said = check.label + " - "@ + check.detail;
    let mark = if check.ok {
        "         OK  "@
    } else {
        "Needs setup  "@
    };
    let first = mark + said;
    assert(check_lines(check)[0] =~= first);
    assert(mark.is_prefix_of(first) && text::contains_text(first, said)) by {
        text::parts_begin_and_end(mark, said);
    }
    assert(check.action.is_suffix_of("             Next: "@ + check.action)) by {
        text::parts_begin_and_end("             Next: "@, check.action);
    }
}

/// The dashboard tells the configuration line by line, and a failed registration behind that, with
/// guidance where its code has some. Without a configuration it tells why.
pub proof fn dashboards_tell_the_configuration(
    model: TuiModel,
    status: Option<EdgeStatus>,
    last: Seq<char>,
)
    ensures
        model.config matches Err(error) ==> dashboard(model, status, last).len() == 1
            && error@.is_suffix_of(dashboard(model, status, last)[0]),
        model.config matches Ok(config) ==> {
            let lines = dashboard(model, status, last);
            &&& lines.len() >= 7
            &&& lines[0] == "Device: "@ + config.device_name@ + " ("@ + config.device_id@ + ")"@
            &&& lines[1] == "API: "@ + config.api_url@
            &&& lines[2] == "NATS: "@ + config.nats_url@
            &&& lines[3] == "Runner: "@ + status::runner_mode(text::opt_text(config.codex_command))
            &&& lines[4] == "Repositories: "@ + text::decimal(config.allowed_repo_roots@.len())
                + " roots, "@ + text::decimal(config.allowed_repos@.len()) + " explicit"@
            &&& lines[5] == "Status file: "@ + config.status_path@
            &&& lines[6] == "Last registration: "@ + last
            &&& status is None || status->0.last_registration_error is None ==> lines.len() == 7
            &&& status matches Some(known) ==> {
                &&& known.last_registration_error matches Some(error) ==> {
                    &&& lines.len() >= 8
                    &&& lines[7] == "Last registration error: "@ + error@
                    &&& lines.len() == 9 <==> known.last_registration_error_code is Some
                        && status::guidance_for(known.last_registration_error_code->0@) is Some
                    &&& lines.len() == 9 ==> lines[8] == "Guidance: "@ + status::guidance_for(
                        known.last_registration_error_code->0@,
                    )->0
                    &&& lines.len() <= 9
                }
            }
        },
{
    if let Err(error) = model.config {
        text::parts_begin_and_end("Config error: "@, error@);
    }
}

/// The last registration is that of the status, where there is one.
pub proof fn the_last_registration_is_known_from_the_status(status: Option<EdgeStatus>)
    ensures
        status is None ==> last_registration(status) is None,
        status matches Some(known) ==> last_registration(status) == known.last_registration_at,
{
}

/// The service is shown with its manager and its state, and the reason is where it cannot be.
pub proof fn services_are_shown_with_their_state(model: TuiModel, status: ServiceStatus)
    ensures
        model.config is Ok ==> ("Manager: "@ + status.manager@ + "\nStatus: "@
            + status.detail@).is_prefix_of(service_view(model, status)),
        model.config matches Err(error) ==> error@.is_suffix_of(service_view(model, status)),
{
    match model.config {
        Ok(_) => {
            let head = "Manager: "@ + status.manager@ + "\nStatus: "@ + status.detail@;
            let shown = service_view(model, status);
            assert(shown.subrange(0, head.len() as int) =~= head);
        },
        Err(error) => {
            text::parts_begin_and_end(
                "Config must validate before service controls are available:\n\n"@,
                error@,
            );
        },
    }
}

/// The search for Codex is reported as it ended.
pub proof fn searches_are_reported(discovery: CodexDiscovery)
    ensures
        discovery matches CodexDiscovery::Found { command, version } ==> (command@ + " ("@
            + version@ + ")"@).is_suffix_of(discovery_report(discovery)),
        discovery matches CodexDiscovery::Failed { error } ==> error@.is_suffix_of(
            discovery_report(discovery),
        ),
{
    match discovery {
        CodexDiscovery::Found { command, version } => {
            let tail = command@ + " ("@ + version@ + ")"@;
            let whole = discovery_report(discovery);
            assert(whole.subrange(whole.len() - tail.len(), whole.len() as int) =~= tail);
        },
        CodexDiscovery::Failed { error } => {
            let whole = discovery_report(discovery);
            assert(whole.subrange(whole.len() - error@.len(), whole.len() as int) =~= error@);
        },
        CodexDiscovery::NotFound => {},
    }
}

/// The diagnostics tell what is known of Codex, or why the configuration was refused.
pub proof fn diagnostics_tell_about_codex(model: TuiModel, codex: Seq<char>)
    ensures
        model.config is Ok ==> text::contains_text(diagnostics_view(model, codex), codex),
        model.config matches Err(error) ==> error@.is_suffix_of(diagnostics_view(model, codex)),
{
    match model.config {
        Ok(_) => {
            text::parts_are_contained(
                "Config parses successfully.\nSecret files passed permission checks.\n"@,
                codex,
                "\n\nPress a to auto-discover and save the Codex command.\nNATS/API checks run when the service starts; see the dashboard status file after startup."@,
            );
        },
        Err(error) => {
            text::parts_begin_and_end("Config diagnostics:\n\n"@, error@);
        },
    }
}

/// An update sets the command and nothing else; a file that could not be read is not updated.
pub proof fn updates_set_the_command_only(
    loaded: Result<EdgeConfigFile, EdgeError>,
    command: Seq<char>,
    update: Result<EdgeConfigFile, EdgeError>,
)
    requires
        is_update(loaded, command, update),
    ensures
        loaded is Err ==> update == loaded,
        loaded matches Ok(before) ==> {
            &&& update matches Ok(after)
            &&& text::opt_text(after.runner.codex_command) == Some(command)
            &&& after.runner.codex_args == before.runner.codex_args
            &&& after.runner.simulated_run_ms == before.runner.simulated_run_ms
            &&& after.runner.validation_timeout_secs == before.runner.validation_timeout_secs
            &&& after.runner.sandbox_mode == before.runner.sandbox_mode
            &&& after.orchestrator == before.orchestrator
            &&& after.device == before.device
            &&& after.repositories == before.repositories
            &&& after.runtime == before.runtime
            &&& after.trust == before.trust
            &&& after.service == before.service
            &&& after.tunnel == before.tunnel
        },
{
}

/// The configuration is shown with its file, its directories and what the device can do.
#[verifier::rlimit(60)]
#[verifier::spinoff_prover]
pub proof fn configurations_are_shown(model: TuiModel)
    requires
        model.config is Ok,
    ensures
        ({
            let told = config_view(model);
            &&& text::contains_text(told, "Config: "@ + model.config_path@)
            &&& text::contains_text(told, "\nState: "@ + model.config->Ok_0.state_dir@)
            &&& text::contains_text(told, "\nWorkspace: "@ + model.config->Ok_0.workspace_root@)
            &&& text::contains_text(told, "\nWorktrees: "@ + model.config->Ok_0.worktree_root@)
            &&& text::contains_text(
                told,
                "\nCapabilities: "@ + text::joined(text::texts(model.config->Ok_0.capabilities@), ", "@),
            )
        }),
{
    let said = "Config: "@ + model.config_path@;
    text::texts_contain_themselves(said);
    text::labelled_values_are_contained(said, "\nState: "@, model.config->Ok_0.state_dir@);
    let said = said + "\nState: "@ + model.config->Ok_0.state_dir@;
    text::labelled_values_are_contained(said, "\nWorkspace: "@, model.config->Ok_0.workspace_root@);
    let said = said + "\nWorkspace: "@ + model.config->Ok_0.workspace_root@;
    text::labelled_values_are_contained(said, "\nWorktrees: "@, model.config->Ok_0.worktree_root@);
    let said = said + "\nWorktrees: "@ + model.config->Ok_0.worktree_root@;
    text::labelled_values_are_contained(
        said,
        "\nCapabilities: "@,
        text::joined(text::texts(model.config->Ok_0.capabilities@), ", "@),
    );
    let said = said + "\nCapabilities: "@ + text::joined(text::texts(model.config->Ok_0.capabilities@), ", "@);
    text::containing_grows(
        said,
        "\n\nEdit this TOML file in your editor, then press Shift+R here to reload validation."@,
    );
}

/// Each check says what to do next, and what is missing where no configuration can be read.
pub proof fn checks_say_what_to_do_next(model: TuiModel, service: ServiceStatus)
    ensures
        ({
            let checks = readiness(model, service);
            &&& checks[0].action
                == "edit [orchestrator].api_url and [orchestrator].nats_url in edge.toml, then press Shift+R"@
            &&& checks[1].action
                == "set [device].id and [device].name in edge.toml, then press Shift+R"@
            &&& checks[2].action
                == "add [repositories].allowed_roots or [device].capabilities in edge.toml, then press Shift+R"@
            &&& checks[3].action
                == "press a to auto-discover and save [runner].codex_command, or set it manually then press Shift+R"@
            &&& checks[4].action
                == "create the trust files and set [trust].orchestrator_keys_path and [trust].edge_signing_key_path"@
            &&& checks[5].action == "press i to install the service, then press s to start it"@
            &&& model.config is Err ==> {
                &&& checks[0].detail
                    == "config must parse before connection settings can be checked"@
                &&& checks[1].detail == "config must parse before device identity can be checked"@
                &&& checks[2].detail == "config must parse before work exposure can be checked"@
                &&& checks[3].detail == "config must parse before runner settings can be checked"@
                &&& checks[4].detail == "config must parse before trust files can be checked"@
                &&& checks[5].detail == "config must parse before service status can be checked"@
            }
        }),
        configuration_message(CodexConfiguration::NotFound)
            == "No runnable Codex command was found. Install Codex or add it to PATH, then press a again."@,
{
}

/// A configuration that cannot be read is shown by its error, in every view.
pub proof fn errors_are_shown_in_every_view(
    model: TuiModel,
    error: EdgeError,
    status: Option<EdgeStatus>,
    service: ServiceStatus,
    last: Seq<char>,
    codex: Seq<char>,
)
    requires
        model.config == Err::<EdgeConfig, EdgeError>(error),
    ensures
        dashboard(model, status, last) == seq!["Config error: "@ + error@],
        config_view(model) == "Config failed validation:\n\n"@ + error@,
        service_view(model, service)
            == "Config must validate before service controls are available:\n\n"@ + error@,
        diagnostics_view(model, codex) == "Config diagnostics:\n\n"@ + error@,
{
}

/// The search for Codex is reported in words.
pub proof fn searches_are_reported_in_words(discovery: CodexDiscovery)
    ensures
        discovery_report(discovery) == match discovery {
            CodexDiscovery::Found { command, version } =>
                "Codex command is not configured; edge will use simulated execution.\nDiscovered runnable Codex command: "@
                + command@ + " ("@ + version@ + ")"@,
            CodexDiscovery::NotFound =>
                "Codex command is not configured; edge will use simulated execution.\nNo runnable Codex command was found with Get-Command/where/which."@,
            CodexDiscovery::Failed { error } =>
                "Codex command is not configured; edge will use simulated execution.\nCodex discovery failed: "@
                + error@,
        },
{
}

/// What is shown of a value is what it holds, field by field.
pub proof fn what_is_held_is_shown(
    readiness_check: ReadinessCheck,
)
    ensures
        readiness_check@.label == readiness_check.label@,
        readiness_check@.ok == readiness_check.ok,
        readiness_check@.detail == readiness_check.detail@,
        readiness_check@.action == readiness_check.action@,
{
}

} // verus!
