//! Hosting the runtime as a service of the operating system.

use vstd::prelude::*;

use crate::config::EdgeConfigFile;
use crate::encoding;
use crate::error;
use crate::error::EdgeError;
use crate::execution::ProcessRun;
use crate::paths;
use crate::paths::PathStyle;
use crate::text;
use crate::text::push_text;

verus! {

/// What an operator can do with the service.
#[derive(Clone, Copy, Debug, PartialEq, Eq, Structural)]
pub enum ServiceAction {
    Install,
    Start,
    Stop,
    Restart,
}

/// What hosts services on this machine.
#[derive(Clone, Copy, Debug, PartialEq, Eq, Structural)]
pub enum ServiceManager {
    TaskScheduler,
    Systemd,
    Unsupported,
}

/// The state of the service.
#[derive(Clone, Debug, PartialEq, Eq)]
pub struct ServiceStatus {
    pub manager: String,
    pub detail: String,
}

/// The contents of a [`ServiceStatus`].
pub struct ServiceStatusView {
    pub manager: Seq<char>,
    pub detail: Seq<char>,
}

impl View for ServiceStatus {
    type V = ServiceStatusView;

    open spec fn view(&self) -> ServiceStatusView {
        ServiceStatusView {
            manager: self.manager@,
            detail: self.detail@,
        }
    }
}

impl ServiceStatus {
    /// A copy with the same contents.
    pub fn copy(&self) -> (out: ServiceStatus)
        ensures
            out@ == self@,
    {
        ServiceStatus {
            manager: self.manager.clone(),
            detail: self.detail.clone(),
        }
    }
}

/// The name of the service that a configuration file gives. A blank one does not count; any other
/// is taken as it is.
pub open spec fn configured_name(name: Option<Seq<char>>) -> Seq<char> {
    match name {
        Some(given) => if text::trim(given).len() == 0 {
            "elowen-edge"@
        } else {
            given
        },
        None => "elowen-edge"@,
    }
}

/// The name of the service that a configuration file gives.
pub fn service_name(file: &EdgeConfigFile) -> (out: String)
    ensures
        out@ == configured_name(text::opt_text(file.service.name)),
{
    match &file.service.name {
        Some(given) => if text::trimmed_text(given).as_str().is_empty() {
            "elowen-edge".to_owned()
        } else {
            given.clone()
        },
        None => "elowen-edge".to_owned(),
    }
}

/// The line of a unit that names its user.
pub open spec fn user_line(user: Option<Seq<char>>) -> Seq<char> {
    match user {
        Some(name) => "User="@ + name + "\n"@,
        None => Seq::empty(),
    }
}

/// The unit that lets systemd run the edge runtime.
pub open spec fn systemd_unit(
    service_name: Seq<char>,
    binary_path: Seq<char>,
    config_path: Seq<char>,
    user: Option<Seq<char>>,
) -> Seq<char> {
    "[Unit]\nDescription=Elowen Edge Runtime ("@ + service_name
        + ")\nAfter=network-online.target\nWants=network-online.target\n\n[Service]\nType=simple\n"@
        + user_line(user) + "ExecStart="@ + binary_path + " run --config "@ + config_path
        + "\nRestart=always\nRestartSec=10\n\n[Install]\nWantedBy=multi-user.target\n"@
}

/// The unit that lets systemd run the edge runtime.
pub fn render_systemd_unit(
    service_name: &str,
    binary_path: &str,
    config_path: &str,
    user: Option<&str>,
) -> (out: String)
    ensures
        out@ == systemd_unit(service_name@, binary_path@, config_path@, text::opt_str(user)),
{
    let line = match user {
        Some(name) => {
            let mut line = "User=".to_owned();
            line.append(name);
            line.append("\n");
            line
        },
        None => String::new(),
    };
    let mut out = "[Unit]\nDescription=Elowen Edge Runtime (".to_owned();
    out.append(service_name);
    out.append(
        ")\nAfter=network-online.target\nWants=network-online.target\n\n[Service]\nType=simple\n",
    );
    out.append(&line);
    out.append("ExecStart=");
    out.append(binary_path);
    out.append(" run --config ");
    out.append(config_path);
    out.append("\nRestart=always\nRestartSec=10\n\n[Install]\nWantedBy=multi-user.target\n");
    out
}

/// The command that registers the task with the Windows scheduler, as an operator would type it.
pub fn render_windows_task_command(
    service_name: &str,
    binary_path: &str,
    config_path: &str,
) -> (out: String)
    ensures
        out@ == "Register-ElowenEdgeTask.ps1 -TaskName "@ + service_name@ + " -BinaryPath \""@
            + binary_path@ + "\" -ConfigFile \""@ + config_path@ + "\""@,
{
    let mut out = "Register-ElowenEdgeTask.ps1 -TaskName ".to_owned();
    out.append(service_name);
    out.append(" -BinaryPath \"");
    out.append(binary_path);
    out.append("\" -ConfigFile \"");
    out.append(config_path);
    out.append("\"");
    out
}

/// The unit file name of a service.
pub open spec fn unit_name(name: Seq<char>) -> Seq<char> {
    name + ".service"@
}

/// The unit file name of a service.
fn unit_of(name: &str) -> (out: String)
    ensures
        out@ == unit_name(name@),
{
    let mut out = name.to_owned();
    out.append(".service");
    out
}

/// A command of the service manager.
#[derive(Clone, Debug, PartialEq, Eq)]
pub struct ServiceCommand {
    pub program: String,
    pub args: Vec<String>,
}

/// The contents of a [`ServiceCommand`].
pub struct ServiceCommandView {
    pub program: Seq<char>,
    pub args: Seq<Seq<char>>,
}

impl View for ServiceCommand {
    type V = ServiceCommandView;

    open spec fn view(&self) -> ServiceCommandView {
        ServiceCommandView {
            program: self.program@,
            args: text::texts(self.args@),
        }
    }
}

impl ServiceCommand {
    /// A copy with the same contents.
    pub fn copy(&self) -> (out: ServiceCommand)
        ensures
            out@ == self@,
    {
        ServiceCommand {
            program: self.program.clone(),
            args: text::copy_list(&self.args),
        }
    }
}

/// The command that asks for the state of the service, where there is a manager.
pub open spec fn status_command(manager: ServiceManager, service_name: Seq<char>) -> Option<
    ServiceCommandView,
> {
    match manager {
        ServiceManager::TaskScheduler => Some(
            ServiceCommandView {
                program: "schtasks"@,
                args: seq!["/Query"@, "/TN"@, service_name],
            },
        ),
        ServiceManager::Systemd => Some(
            ServiceCommandView {
                program: "systemctl"@,
                args: seq!["is-active"@, unit_name(service_name)],
            },
        ),
        ServiceManager::Unsupported => None,
    }
}

/// The contents of an optional command.
pub open spec fn opt_command(command: Option<ServiceCommand>) -> Option<ServiceCommandView> {
    match command {
        Some(inner) => Some(inner@),
        None => None,
    }
}

/// A command of two words.
fn two_words(program: &str, first: &str, second: &str) -> (out: ServiceCommand)
    ensures
        out@ == (ServiceCommandView { program: program@, args: seq![first@, second@] }),
{
    let mut args: Vec<String> = Vec::new();
    push_text(&mut args, first.to_owned());
    push_text(&mut args, second.to_owned());
    assert(text::texts(args@) == seq![first@, second@]);
    ServiceCommand { program: program.to_owned(), args }
}

/// A command of the Windows scheduler about a task.
fn task_command(what: &str, name: &str) -> (out: ServiceCommand)
    ensures
        out@ == (ServiceCommandView { program: "schtasks"@, args: seq![what@, "/TN"@, name@] }),
{
    let mut args: Vec<String> = Vec::new();
    push_text(&mut args, what.to_owned());
    push_text(&mut args, "/TN".to_owned());
    push_text(&mut args, name.to_owned());
    assert(text::texts(args@) == seq![what@, "/TN"@, name@]);
    ServiceCommand { program: "schtasks".to_owned(), args }
}

/// The command that asks for the state of the service.
pub fn service_status_command(manager: ServiceManager, service_name: &str) -> (out: Option<
    ServiceCommand,
>)
    ensures
        opt_command(out) == status_command(manager, service_name@),
{
    match manager {
        ServiceManager::TaskScheduler => Some(task_command("/Query", service_name)),
        ServiceManager::Systemd => Some(
            two_words("systemctl", "is-active", &unit_of(service_name)),
        ),
        ServiceManager::Unsupported => None,
    }
}

/// How the question for the state of the service was answered.
pub enum ServiceQuery {
    /// The manager could not be asked.
    NotRun { error: String },
    /// The manager answered.
    Exited { success: bool, stdout: Vec<u8>, stderr: Vec<u8> },
}

/// The state of the service, by the answer of its manager.
pub open spec fn status_of(
    manager: ServiceManager,
    service_name: Seq<char>,
    device_id: Seq<char>,
    query: ServiceQuery,
) -> ServiceStatusView {
    match manager {
        ServiceManager::TaskScheduler => ServiceStatusView {
            manager: "Windows Task Scheduler"@,
            detail: match query {
                ServiceQuery::NotRun { error } => error@,
                ServiceQuery::Exited { success, stdout, stderr } => if success {
                    "task `"@ + service_name + "` is registered for "@ + device_id
                } else {
                    text::trim(encoding::lossy_text(stderr@))
                },
            },
        },
        ServiceManager::Systemd => ServiceStatusView {
            manager: "systemd"@,
            detail: match query {
                ServiceQuery::NotRun { error } => error@,
                ServiceQuery::Exited { success, stdout, stderr } => text::trim(
                    encoding::lossy_text(stdout@),
                ) + " for "@ + device_id,
            },
        },
        ServiceManager::Unsupported => ServiceStatusView {
            manager: "unsupported"@,
            detail: "No service manager integration is available for this platform."@,
        },
    }
}

/// The state of the service, by the answer of its manager.
pub fn query_service_status(
    manager: ServiceManager,
    service_name: &str,
    device_id: &str,
    query: &ServiceQuery,
) -> (status: ServiceStatus)
    ensures
        status@ == status_of(manager, service_name@, device_id@, *query),
{
    match manager {
        ServiceManager::TaskScheduler => {
            let detail = match query {
                ServiceQuery::NotRun { error } => error.clone(),
                ServiceQuery::Exited { success, stdout: _, stderr } => if *success {
                    let mut detail = "task `".to_owned();
                    detail.append(service_name);
                    detail.append("` is registered for ");
                    detail.append(device_id);
                    detail
                } else {
                    text::trimmed_text(&encoding::text_from_lossy(stderr.as_slice()))
                },
            };
            ServiceStatus { manager: "Windows Task Scheduler".to_owned(), detail }
        },
        ServiceManager::Systemd => {
            let detail = match query {
                ServiceQuery::NotRun { error } => error.clone(),
                ServiceQuery::Exited { success: _, stdout, stderr: _ } => {
                    let mut detail = text::trimmed_text(
                        &encoding::text_from_lossy(stdout.as_slice()),
                    );
                    detail.append(" for ");
                    detail.append(device_id);
                    detail
                },
            };
            ServiceStatus { manager: "systemd".to_owned(), detail }
        },
        ServiceManager::Unsupported => ServiceStatus {
            manager: "unsupported".to_owned(),
            detail: "No service manager integration is available for this platform.".to_owned(),
        },
    }
}

/// How an action on the service is carried out.
#[derive(Clone, Debug, PartialEq, Eq)]
pub enum ServicePlan {
    /// One command is run, and its result reported.
    Run { command: ServiceCommand },
    /// One command is run whatever comes of it, then another, whose result is reported.
    StopThenStart { stop: ServiceCommand, start: ServiceCommand },
    /// A unit file is written, one command is run, and then a message reported.
    WriteUnit { path: String, body: String, command: ServiceCommand, message: String },
    /// Nothing is done but reporting a message.
    Report { message: String },
    /// The task is registered by a script.
    InstallTask,
}

/// The contents of a [`ServicePlan`].
pub enum ServicePlanView {
    Run { command: ServiceCommandView },
    StopThenStart { stop: ServiceCommandView, start: ServiceCommandView },
    WriteUnit { path: Seq<char>, body: Seq<char>, command: ServiceCommandView, message: Seq<char> },
    Report { message: Seq<char> },
    InstallTask,
}

impl View for ServicePlan {
    type V = ServicePlanView;

    open spec fn view(&self) -> ServicePlanView {
        match *self {
            ServicePlan::Run { command } => ServicePlanView::Run {
                command: command@,
            },
            ServicePlan::StopThenStart { stop, start } => ServicePlanView::StopThenStart {
                stop: stop@,
                start: start@,
            },
            ServicePlan::WriteUnit { path, body, command, message } => ServicePlanView::WriteUnit {
                path: path@,
                body: body@,
                command: command@,
                message: message@,
            },
            ServicePlan::Report { message } => ServicePlanView::Report {
                message: message@,
            },
            ServicePlan::InstallTask => ServicePlanView::InstallTask,
        }
    }
}

/// Where the unit of a service is installed.
pub open spec fn unit_path(name: Seq<char>) -> Seq<char> {
    paths::join(PathStyle::Posix, "/etc/systemd/system"@, unit_name(name))
}

/// What is known of the machine that an action is carried out on.
pub struct ServiceHost {
    pub manager: ServiceManager,
    /// Whether the process may install units.
    pub is_root: bool,
    /// The executable of the runtime, if it can be told.
    pub binary_path: Option<String>,
}

/// How an action on a systemd service is carried out, or the message of its refusal.
pub open spec fn systemd_plan(
    action: ServiceAction,
    config_path: Seq<char>,
    name: Seq<char>,
    user: Option<Seq<char>>,
    is_root: bool,
    binary_path: Option<Seq<char>>,
) -> Result<ServicePlanView, Seq<char>> {
    match action {
        ServiceAction::Install => match binary_path {
            None => Err("failed to resolve current executable path"@),
            Some(binary) => {
                let body = systemd_unit(name, binary, config_path, user);
                if is_root {
                    Ok(
                        ServicePlanView::WriteUnit {
                            path: unit_path(name),
                            body,
                            command: ServiceCommandView {
                                program: "systemctl"@,
                                args: seq!["daemon-reload"@],
                            },
                            message: "installed "@ + unit_path(name),
                        },
                    )
                } else {
                    Ok(
                        ServicePlanView::Report {
                            message: "Run as root to install, or write this unit to "@ + unit_path(
                                name,
                            ) + ":\n\n"@ + body,
                        },
                    )
                }
            },
        },
        ServiceAction::Start => Ok(systemctl_plan("start"@, name)),
        ServiceAction::Stop => Ok(systemctl_plan("stop"@, name)),
        ServiceAction::Restart => Ok(systemctl_plan("restart"@, name)),
    }
}

/// A plan of one `systemctl` command about a unit.
pub open spec fn systemctl_plan(verb: Seq<char>, name: Seq<char>) -> ServicePlanView {
    ServicePlanView::Run {
        command: ServiceCommandView { program: "systemctl"@, args: seq![verb, unit_name(name)] },
    }
}

/// A command of the Windows scheduler about a task.
pub open spec fn schtasks(what: Seq<char>, name: Seq<char>) -> ServiceCommandView {
    ServiceCommandView { program: "schtasks"@, args: seq![what, "/TN"@, name] }
}

/// How an action on the service is carried out, or the message of its refusal.
pub open spec fn service_plan(
    action: ServiceAction,
    config_path: Seq<char>,
    file: EdgeConfigFile,
    host: ServiceHost,
) -> Result<ServicePlanView, Seq<char>> {
    let name = configured_name(text::opt_text(file.service.name));
    match host.manager {
        ServiceManager::TaskScheduler => match action {
            ServiceAction::Install => Ok(ServicePlanView::InstallTask),
            ServiceAction::Start => Ok(ServicePlanView::Run { command: schtasks("/Run"@, name) }),
            ServiceAction::Stop => Ok(ServicePlanView::Run { command: schtasks("/End"@, name) }),
            ServiceAction::Restart => Ok(
                ServicePlanView::StopThenStart {
                    stop: schtasks("/End"@, name),
                    start: schtasks("/Run"@, name),
                },
            ),
        },
        ServiceManager::Systemd => systemd_plan(
            action,
            config_path,
            name,
            text::opt_text(file.service.run_as_user),
            host.is_root,
            text::opt_text(host.binary_path),
        ),
        ServiceManager::Unsupported => Err(
            "service management is not available for this platform"@,
        ),
    }
}

/// A plan of one `systemctl` command about a unit.
fn systemctl(verb: &str, name: &str) -> (plan: ServicePlan)
    ensures
        plan@ == systemctl_plan(verb@, name@),
{
    ServicePlan::Run { command: two_words("systemctl", verb, &unit_of(name)) }
}

/// How an action on a systemd service is carried out.
fn apply_systemd_action(
    action: ServiceAction,
    config_path: &str,
    name: &str,
    user: &Option<String>,
    is_root: bool,
    binary_path: &Option<String>,
) -> (out: Result<ServicePlan, EdgeError>)
    ensures
        error::outcome(out) == systemd_plan(
            action,
            config_path@,
            name@,
            text::opt_text(*user),
            is_root,
            text::opt_text(*binary_path),
        ),
{
    match action {
        ServiceAction::Install => {
            let binary = match binary_path {
                Some(binary) => binary,
                None => return Err(EdgeError::new("failed to resolve current executable path")),
            };
            let owner: Option<&str> = match user {
                Some(inner) => Some(inner.as_str()),
                None => None,
            };
            let body = render_systemd_unit(name, binary, config_path, owner);
            let path = paths::join_path(PathStyle::Posix, "/etc/systemd/system", &unit_of(name));
            if is_root {
                let mut args: Vec<String> = Vec::new();
                push_text(&mut args, "daemon-reload".to_owned());
                assert(text::texts(args@) == seq!["daemon-reload"@]);
                let command = ServiceCommand { program: "systemctl".to_owned(), args };
                let mut message = "installed ".to_owned();
                message.append(&path);
                Ok(ServicePlan::WriteUnit { path, body, command, message })
            } else {
                let mut message = "Run as root to install, or write this unit to ".to_owned();
                message.append(&path);
                message.append(":\n\n");
                message.append(&body);
                Ok(ServicePlan::Report { message })
            }
        },
        ServiceAction::Start => Ok(systemctl("start", name)),
        ServiceAction::Stop => Ok(systemctl("stop", name)),
        ServiceAction::Restart => Ok(systemctl("restart", name)),
    }
}

/// How an action on the service is carried out.
pub fn apply_service_action(
    action: ServiceAction,
    config_path: &str,
    file: &EdgeConfigFile,
    host: &ServiceHost,
) -> (out: Result<ServicePlan, EdgeError>)
    ensures
        error::outcome(out) == service_plan(action, config_path@, *file, *host),
{
    let name = service_name(file);
    match host.manager {
        ServiceManager::TaskScheduler => match action {
            ServiceAction::Install => Ok(ServicePlan::InstallTask),
            ServiceAction::Start => Ok(ServicePlan::Run { command: task_command("/Run", &name) }),
            ServiceAction::Stop => Ok(ServicePlan::Run { command: task_command("/End", &name) }),
            ServiceAction::Restart => Ok(
                ServicePlan::StopThenStart {
                    stop: task_command("/End", &name),
                    start: task_command("/Run", &name),
                },
            ),
        },
        ServiceManager::Systemd => apply_systemd_action(
            action,
            config_path,
            &name,
            &file.service.run_as_user,
            host.is_root,
            &host.binary_path,
        ),
        ServiceManager::Unsupported => Err(
            EdgeError::new("service management is not available for this platform"),
        ),
    }
}

/// The PowerShell of the system where it is installed, else whichever is found.
pub fn powershell_path(installed: bool) -> (out: &'static str)
    ensures
        out@ == (if installed {
            SYSTEM_POWERSHELL@
        } else {
            "powershell.exe"@
        }),
{
    if installed {
        SYSTEM_POWERSHELL
    } else {
        "powershell.exe"
    }
}

/// Where PowerShell is installed on Windows.
pub const SYSTEM_POWERSHELL: &'static str =
    "C:\\Windows\\System32\\WindowsPowerShell\\v1.0\\powershell.exe";

/// The script that registers the task, below a directory.
pub open spec fn script_below(dir: Seq<char>) -> Seq<char> {
    paths::join(
        PathStyle::Windows,
        paths::join(
            PathStyle::Windows,
            paths::join(PathStyle::Windows, dir, "scripts"@),
            "windows"@,
        ),
        "Register-ElowenEdgeTask.ps1"@,
    )
}

/// The script that registers the task, below a directory.
pub fn register_script_below(dir: &str) -> (out: String)
    ensures
        out@ == script_below(dir@),
{
    let style = PathStyle::Windows;
    paths::join_path(
        style,
        &paths::join_path(style, &paths::join_path(style, dir, "scripts"), "windows"),
        "Register-ElowenEdgeTask.ps1",
    )
}

/// The script that registers the task: beside the executable, else below the current directory.
/// Nothing stands for a directory that cannot be told.
pub open spec fn register_script(
    app_dir: Option<Seq<char>>,
    installed: bool,
    current_dir: Option<Seq<char>>,
    checked_out: bool,
) -> Result<Seq<char>, Seq<char>> {
    match app_dir {
        None => Err("failed to resolve edge binary parent directory"@),
        Some(dir) => if installed {
            Ok(script_below(dir))
        } else {
            match current_dir {
                None => Err("failed to resolve current directory"@),
                Some(here) => if checked_out {
                    Ok(script_below(here))
                } else {
                    Err(
                        "Register-ElowenEdgeTask.ps1 was not found next to the installed edge binary or in the current working tree"@,
                    )
                },
            }
        },
    }
}

/// The script that registers the task.
pub fn windows_register_script_path(
    app_dir: &Option<String>,
    installed: bool,
    current_dir: &Option<String>,
    checked_out: bool,
) -> (out: Result<String, EdgeError>)
    ensures
        error::outcome(out) == register_script(
            text::opt_text(*app_dir),
            installed,
            text::opt_text(*current_dir),
            checked_out,
        ),
{
    let dir = match app_dir {
        Some(dir) => dir,
        None => return Err(EdgeError::new("failed to resolve edge binary parent directory")),
    };
    if installed {
        return Ok(register_script_below(dir));
    }
    let here = match current_dir {
        Some(here) => here,
        None => return Err(EdgeError::new("failed to resolve current directory")),
    };
    if checked_out {
        return Ok(register_script_below(here));
    }
    Err(
        EdgeError::new(
            "Register-ElowenEdgeTask.ps1 was not found next to the installed edge binary or in the current working tree",
        ),
    )
}

/// The arguments of PowerShell that register the task.
pub open spec fn install_args(
    script: Seq<char>,
    service_name: Seq<char>,
    config_path: Seq<char>,
    binary_path: Seq<char>,
) -> Seq<Seq<char>> {
    seq![
        "-NoProfile"@,
        "-WindowStyle"@,
        "Hidden"@,
        "-ExecutionPolicy"@,
        "Bypass"@,
        "-File"@,
        script,
        "-TaskName"@,
        service_name,
        "-ConfigFile"@,
        config_path,
        "-BinaryPath"@,
        binary_path,
        "-SkipTunnel"@,
    ]
}

/// The command that registers the task with the Windows scheduler.
pub fn install_windows_task(
    powershell: &str,
    script: &str,
    service_name: &str,
    config_path: &str,
    binary_path: &str,
) -> (out: ServiceCommand)
    ensures
        out@ == (ServiceCommandView {
            program: powershell@,
            args: install_args(script@, service_name@, config_path@, binary_path@),
        }),
{
    let mut args: Vec<String> = Vec::new();
    push_text(&mut args, "-NoProfile".to_owned());
    push_text(&mut args, "-WindowStyle".to_owned());
    push_text(&mut args, "Hidden".to_owned());
    push_text(&mut args, "-ExecutionPolicy".to_owned());
    push_text(&mut args, "Bypass".to_owned());
    push_text(&mut args, "-File".to_owned());
    push_text(&mut args, script.to_owned());
    push_text(&mut args, "-TaskName".to_owned());
    push_text(&mut args, service_name.to_owned());
    push_text(&mut args, "-ConfigFile".to_owned());
    push_text(&mut args, config_path.to_owned());
    push_text(&mut args, "-BinaryPath".to_owned());
    push_text(&mut args, binary_path.to_owned());
    push_text(&mut args, "-SkipTunnel".to_owned());
    assert(text::texts(args@) == install_args(
        script@,
        service_name@,
        config_path@,
        binary_path@,
    ));
    ServiceCommand { program: powershell.to_owned(), args }
}

/// What a command of the service manager reports, or the message of its failure.
pub open spec fn command_result(run: ProcessRun) -> Result<Seq<char>, Seq<char>> {
    match run {
        ProcessRun::NotRun => Err("failed to run service command"@),
        ProcessRun::Exited { success, stdout, stderr } => if !success {
            Err(text::trim(encoding::lossy_text(stderr@)))
        } else if text::trim(encoding::lossy_text(stdout@)).len() == 0 {
            Ok("service command completed"@)
        } else {
            Ok(text::trim(encoding::lossy_text(stdout@)))
        },
    }
}

/// What a command of the service manager reports.
pub fn run_service_command(run: &ProcessRun) -> (out: Result<String, EdgeError>)
    ensures
        error::outcome(out) == command_result(*run),
{
    match run {
        ProcessRun::NotRun => Err(EdgeError::new("failed to run service command")),
        ProcessRun::Exited { success, stdout, stderr } => {
            if !*success {
                let said = encoding::text_from_lossy(stderr.as_slice());
                return Err(EdgeError::of(text::trimmed_text(&said)));
            }
            let said = text::trimmed_text(&encoding::text_from_lossy(stdout.as_slice()));
            if said.as_str().is_empty() {
                Ok("service command completed".to_owned())
            } else {
                Ok(said)
            }
        },
    }
}

/// Both service models run the edge runtime with the configuration file, in the words of the
/// command line.
pub proof fn units_run_the_configuration(
    service_name: Seq<char>,
    binary_path: Seq<char>,
    config_path: Seq<char>,
    user: Option<Seq<char>>,
)
    ensures
        text::contains_text(
            systemd_unit(service_name, binary_path, config_path, user),
            binary_path + " run --config "@ + config_path,
        ),
{
    let head = "[Unit]\nDescription=Elowen Edge Runtime ("@ + service_name
        + ")\nAfter=network-online.target\nWants=network-online.target\n\n[Service]\nType=simple\n"@
        + user_line(user) + "ExecStart="@;
    let tail = "\nRestart=always\nRestartSec=10\n\n[Install]\nWantedBy=multi-user.target\n"@;
    let command = binary_path + " run --config "@ + config_path;
    let unit = systemd_unit(service_name, binary_path, config_path, user);
    assert(unit =~= head + command + tail);
    let at = head.len() as int;
    assert(unit.subrange(at, at + command.len()) =~= command);
    assert(text::occurs_at(unit, command, at));
}

/// A service bears the configured name, unless that is blank or missing.
pub proof fn services_bear_their_name(name: Option<Seq<char>>)
    ensures
        name is Some && text::trim(name->0).len() > 0 ==> configured_name(name) == name->0,
        name is None || text::trim(name->0).len() == 0 ==> configured_name(name)
            == "elowen-edge"@,
{
}

/// A unit names its service, waits for the network, runs under the user that is named and under none
/// else, and is restarted.
pub proof fn units_say_how_they_run(
    service_name: Seq<char>,
    binary_path: Seq<char>,
    config_path: Seq<char>,
    user: Option<Seq<char>>,
)
    ensures
        ({
            let unit = systemd_unit(service_name, binary_path, config_path, user);
            &&& ("[Unit]\nDescription=Elowen Edge Runtime ("@ + service_name
                + ")\nAfter=network-online.target\nWants=network-online.target\n\n[Service]\nType=simple\n"@).is_prefix_of(
            unit)
            &&& ("\nRestart=always\nRestartSec=10\n\n[Install]\nWantedBy=multi-user.target\n"@).is_suffix_of(
            unit)
            &&& user matches Some(name) ==> text::contains_text(unit, "User="@ + name + "\n"@)
            &&& text::contains_text(
                unit,
                "ExecStart="@ + binary_path + " run --config "@ + config_path,
            )
            &&& user is None ==> unit.len() == systemd_unit(
                service_name,
                binary_path,
                config_path,
                Some(Seq::empty()),
            ).len() - "User="@.len() - "\n"@.len()
        }),
{
    let head = "[Unit]\nDescription=Elowen Edge Runtime ("@ + service_name
        + ")\nAfter=network-online.target\nWants=network-online.target\n\n[Service]\nType=simple\n"@;
    let tail = "\nRestart=always\nRestartSec=10\n\n[Install]\nWantedBy=multi-user.target\n"@;
    let command = "ExecStart="@ + binary_path + " run --config "@ + config_path;
    let unit = systemd_unit(service_name, binary_path, config_path, user);
    assert(unit =~= head + (user_line(user) + command + tail));
    text::parts_begin_and_end(head, user_line(user) + command + tail);
    assert(unit =~= (head + user_line(user) + command) + tail);
    text::parts_begin_and_end(head + user_line(user) + command, tail);
    assert(unit =~= (head + user_line(user)) + command + tail);
    text::parts_are_contained(head + user_line(user), command, tail);
    if let Some(name) = user {
        assert(unit =~= head + ("User="@ + name + "\n"@) + (command + tail));
        text::parts_are_contained(head, "User="@ + name + "\n"@, command + tail);
    }
}

/// The manager of the platform is asked about the service, by its own command.
pub proof fn managers_are_asked_about_the_service(
    manager: ServiceManager,
    service_name: Seq<char>,
)
    ensures
        status_command(manager, service_name) is None <==> manager is Unsupported,
        manager is TaskScheduler ==> {
            &&& status_command(manager, service_name) matches Some(command)
            &&& command.program == "schtasks"@
            &&& command.args == seq!["/Query"@, "/TN"@, service_name]
        },
        manager is Systemd ==> {
            &&& status_command(manager, service_name) matches Some(command)
            &&& command.program == "systemctl"@
            &&& command.args == seq!["is-active"@, service_name + ".service"@]
        },
{
}

/// What a manager answers is passed on, for this device; where it could not be asked, the reason is.
pub proof fn answers_of_managers_are_passed_on(
    manager: ServiceManager,
    service_name: Seq<char>,
    device_id: Seq<char>,
    query: ServiceQuery,
)
    ensures
        ({
            let status = status_of(manager, service_name, device_id, query);
            &&& manager is TaskScheduler ==> status.manager == "Windows Task Scheduler"@
            &&& manager is Systemd ==> status.manager == "systemd"@
            &&& manager is Unsupported ==> status.manager == "unsupported"@
            &&& !(manager is Unsupported) ==> match query {
                ServiceQuery::NotRun { error } => status.detail == error@,
                ServiceQuery::Exited { success, stdout, stderr } => {
                    &&& manager is TaskScheduler && success ==> text::contains_text(
                        status.detail,
                        service_name,
                    ) && device_id.is_suffix_of(status.detail)
                    &&& manager is TaskScheduler && !success ==> status.detail == text::trim(
                        encoding::lossy_text(stderr@),
                    )
                    &&& manager is Systemd ==> text::trim(
                        encoding::lossy_text(stdout@),
                    ).is_prefix_of(status.detail) && device_id.is_suffix_of(status.detail)
                },
            }
        }),
{
    let head = "task `"@ + service_name + "` is registered for "@;
    text::parts_are_contained("task `"@, service_name, "` is registered for "@);
    text::containing_grows(head, device_id);
    text::parts_begin_and_end(head, device_id);
    if let ServiceQuery::Exited { success, stdout, stderr } = query {
        let said = text::trim(encoding::lossy_text(stdout@));
        assert(said + " for "@ + device_id =~= said + (" for "@ + device_id));
        text::parts_begin_and_end(said, " for "@ + device_id);
        text::parts_begin_and_end(said + " for "@, device_id);
    }
}

/// A service is started, stopped and restarted by the manager of the platform, under its configured
/// name. A platform without one is refused.
pub proof fn actions_go_to_the_manager(
    action: ServiceAction,
    config_path: Seq<char>,
    file: EdgeConfigFile,
    host: ServiceHost,
)
    ensures
        ({
            let plan = service_plan(action, config_path, file, host);
            let name = configured_name(text::opt_text(file.service.name));
            let run = schtasks("/Run"@, name);
            let end = schtasks("/End"@, name);
            &&& plan is Err <==> host.manager is Unsupported || (host.manager is Systemd
                && action is Install && host.binary_path is None)
            &&& run.program == "schtasks"@ && run.args == seq!["/Run"@, "/TN"@, name]
            &&& end.program == "schtasks"@ && end.args == seq!["/End"@, "/TN"@, name]
            &&& host.manager is TaskScheduler ==> {
                &&& action is Install <==> plan->Ok_0 is InstallTask
                &&& action is Start ==> plan->Ok_0 == (ServicePlanView::Run { command: run })
                &&& action is Stop ==> plan->Ok_0 == (ServicePlanView::Run { command: end })
                &&& action is Restart ==> plan->Ok_0 == (ServicePlanView::StopThenStart {
                    stop: end,
                    start: run,
                })
            }
            &&& host.manager is Systemd && !(action is Install) ==> {
                let verb = match action {
                    ServiceAction::Start => "start"@,
                    ServiceAction::Stop => "stop"@,
                    _ => "restart"@,
                };
                &&& plan->Ok_0 matches ServicePlanView::Run { command }
                &&& command.program == "systemctl"@
                &&& command.args == seq![verb, name + ".service"@]
            }
        }),
{
}

/// A unit is installed for this binary, this configuration and the configured user: as root it is
/// written and taken in, and anyone else is told where it belongs and what it says.
pub proof fn units_are_installed_or_shown(
    config_path: Seq<char>,
    file: EdgeConfigFile,
    host: ServiceHost,
    binary: String,
)
    requires
        host.manager is Systemd,
        host.binary_path == Some(binary),
    ensures
        ({
            let name = configured_name(text::opt_text(file.service.name));
            let place = paths::join(
                PathStyle::Posix,
                "/etc/systemd/system"@,
                name + ".service"@,
            );
            let unit = systemd_unit(
                name,
                binary@,
                config_path,
                text::opt_text(file.service.run_as_user),
            );
            let plan = service_plan(ServiceAction::Install, config_path, file, host);
            &&& host.is_root ==> {
                &&& plan->Ok_0 matches ServicePlanView::WriteUnit { path, body, command, message }
                &&& path == place
                &&& body == unit
                &&& command.program == "systemctl"@
                &&& command.args == seq!["daemon-reload"@]
                &&& place.is_suffix_of(message)
            }
            &&& !host.is_root ==> {
                &&& plan->Ok_0 matches ServicePlanView::Report { message }
                &&& text::contains_text(message, place)
                &&& unit.is_suffix_of(message)
            }
        }),
{
    let name = configured_name(text::opt_text(file.service.name));
    let place = unit_path(name);
    let unit = systemd_unit(name, binary@, config_path, text::opt_text(file.service.run_as_user));
    text::parts_begin_and_end("installed "@, place);
    let head = "Run as root to install, or write this unit to "@ + place + ":\n\n"@;
    text::parts_are_contained("Run as root to install, or write this unit to "@, place, ":\n\n"@);
    text::containing_grows(head, unit);
    text::parts_begin_and_end(head, unit);
}

/// The script that registers a task is looked for beside the binary first, then in the working tree,
/// at the same place below either.
pub proof fn scripts_are_found_beside_the_binary_first(
    app_dir: Option<Seq<char>>,
    installed: bool,
    current_dir: Option<Seq<char>>,
    checked_out: bool,
)
    ensures
        ({
            let found = register_script(app_dir, installed, current_dir, checked_out);
            &&& found is Ok <==> app_dir is Some && (installed || (current_dir is Some
                && checked_out))
            &&& app_dir is Some && installed ==> found == Ok::<Seq<char>, Seq<char>>(
                script_below(app_dir->0),
            )
            &&& app_dir is Some && !installed && current_dir is Some && checked_out ==> found
                == Ok::<Seq<char>, Seq<char>>(script_below(current_dir->0))
        }),
{
}

/// A task is registered by the script, for this service, this configuration and this binary.
pub proof fn tasks_are_registered_for_the_service(
    script: Seq<char>,
    service_name: Seq<char>,
    config_path: Seq<char>,
    binary_path: Seq<char>,
)
    ensures
        ({
            let args = install_args(script, service_name, config_path, binary_path);
            &&& args.len() == 14
            &&& args[5] == "-File"@ && args[6] == script
            &&& args[7] == "-TaskName"@ && args[8] == service_name
            &&& args[9] == "-ConfigFile"@ && args[10] == config_path
            &&& args[11] == "-BinaryPath"@ && args[12] == binary_path
            &&& args[13] == "-SkipTunnel"@
            &&& args.take(5) == seq![
                "-NoProfile"@,
                "-WindowStyle"@,
                "Hidden"@,
                "-ExecutionPolicy"@,
                "Bypass"@,
            ]
        }),
{
    let args = install_args(script, service_name, config_path, binary_path);
    assert(args.take(5) =~= seq![
        "-NoProfile"@,
        "-WindowStyle"@,
        "Hidden"@,
        "-ExecutionPolicy"@,
        "Bypass"@,
    ]);
}

/// A command of the service succeeds exactly where it ran and reported success. What it said is
/// passed on, of its errors where it failed.
pub proof fn service_commands_say_how_they_ended(run: ProcessRun)
    ensures
        command_result(run) is Ok <==> run is Exited && run->success,
        run is Exited && !run->success ==> command_result(run) == Err::<Seq<char>, Seq<char>>(
            text::trim(encoding::lossy_text(run->stderr@)),
        ),
        run is Exited && run->success && text::trim(encoding::lossy_text(run->stdout@)).len() > 0
            ==> command_result(run) == Ok::<Seq<char>, Seq<char>>(
            text::trim(encoding::lossy_text(run->stdout@)),
        ),
        command_result(run) matches Ok(said) ==> said.len() > 0,
{
    reveal_strlit("service command completed");
}

/// The script that registers a task stands at one place below a directory.
pub proof fn scripts_stand_at_one_place(dir: Seq<char>)
    ensures
        script_below(dir) == paths::join(
            PathStyle::Windows,
            paths::join(
                PathStyle::Windows,
                paths::join(PathStyle::Windows, dir, "scripts"@),
                "windows"@,
            ),
            "Register-ElowenEdgeTask.ps1"@,
        ),
{
}

/// What cannot be done is said in words.
pub proof fn what_cannot_be_done_is_said(
    action: ServiceAction,
    config_path: Seq<char>,
    file: EdgeConfigFile,
    host: ServiceHost,
    service_name: Seq<char>,
    device_id: Seq<char>,
    query: ServiceQuery,
)
    ensures
        service_plan(action, config_path, file, host) matches Err(message) ==> {
            &&& host.manager is Systemd ==> message == "failed to resolve current executable path"@
            &&& host.manager is Unsupported ==> message
                == "service management is not available for this platform"@
        },
        status_of(ServiceManager::Unsupported, service_name, device_id, query).detail
            == "No service manager integration is available for this platform."@,
        status_of(ServiceManager::TaskScheduler, service_name, device_id, query).detail
            == match query {
            ServiceQuery::NotRun { error } => error@,
            ServiceQuery::Exited { success, stdout, stderr } => if success {
                "task `"@ + service_name + "` is registered for "@ + device_id
            } else {
                text::trim(encoding::lossy_text(stderr@))
            },
        },
        command_result(ProcessRun::NotRun) == Err::<Seq<char>, Seq<char>>(
            "failed to run service command"@,
        ),
{
}

/// A script that is not found says where it was looked for.
pub proof fn missing_scripts_say_where(
    app_dir: Option<Seq<char>>,
    installed: bool,
    current_dir: Option<Seq<char>>,
    checked_out: bool,
)
    ensures
        register_script(app_dir, installed, current_dir, checked_out) matches Err(message) ==> {
            &&& app_dir is None ==> message == "failed to resolve edge binary parent directory"@
            &&& app_dir is Some && current_dir is None ==> message
                == "failed to resolve current directory"@
            &&& app_dir is Some && current_dir is Some ==> message
                == "Register-ElowenEdgeTask.ps1 was not found next to the installed edge binary or in the current working tree"@
        },
{
}

/// What is shown of a value is what it holds, field by field.
pub proof fn what_is_held_is_shown(
    service_status: ServiceStatus,
    service_command: ServiceCommand,
)
    ensures
        service_status@.manager == service_status.manager@,
        service_status@.detail == service_status.detail@,
        service_command@.program == service_command.program@,
        service_command@.args == text::texts(service_command.args@),
{
}

/// What is shown of a value is its kind and what it holds.
pub proof fn kinds_are_shown_with_what_they_hold(
    service_plan: ServicePlan,
)
    ensures
        service_plan matches ServicePlan::Run { command } ==> service_plan@ == (ServicePlanView::Run {
            command: command@,
        }),
        service_plan matches ServicePlan::StopThenStart { stop, start } ==> service_plan@ == (ServicePlanView::StopThenStart {
            stop: stop@,
            start: start@,
        }),
        service_plan matches ServicePlan::WriteUnit { path, body, command, message } ==> service_plan@ == (ServicePlanView::WriteUnit {
            path: path@,
            body: body@,
            command: command@,
            message: message@,
        }),
        service_plan matches ServicePlan::Report { message } ==> service_plan@ == (ServicePlanView::Report {
            message: message@,
        }),
        service_plan is InstallTask ==> service_plan@ == (ServicePlanView::InstallTask),
{
}

} // verus!
