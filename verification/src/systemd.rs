//! The systemd unit-file data model and the verified decision core of the
//! service controller.
//!
//! The controller holds no state between operations.  Each operation is a
//! small protocol: [`Systemd::begin`] names the first piece of outside work
//! (a file check, a file write, a command invocation), the caller performs
//! it and reports what happened as an [`Event`], and [`Systemd::step`]
//! decides the next [`Step`] or the final outcome.  Every decision is
//! verified against the ghost transition function [`step_model`].

pub mod checks;
mod exec;
mod install;
pub mod render;
mod service;
mod unit;

pub use crate::service::Status;
pub use exec::Exec;
pub use service::ExitType;
pub use service::NotifyAccess;
pub use service::OomPolicy;
pub use service::RestartMode;
pub use service::RestartType;
pub use service::ServiceType;
pub use service::TimeoutFailureMode;
pub use unit::Action;
pub use unit::Architecture;
pub use unit::CollectMode;
pub use unit::JobMode;
pub use unit::SecurityTech;
pub use unit::Virtualization;
pub use exec::lemma_unset_exec_renders_nothing;
pub use install::Install;
pub use install::lemma_unset_install_renders_header;
pub use service::Service;
pub use service::lemma_unset_service_renders_header;
pub use unit::Unit;
pub use unit::lemma_unset_unit_renders_header;

use crate::error::Error;
use crate::text::contains_seq;
use crate::text::contains_str;
use crate::text::str_eq;
use crate::text::trim;
use crate::text::trimmed;
use vstd::prelude::*;
use vstd::string::StringExecFns;

verus! {

/// Permission bits of an installed unit file: owner read-write, group and
/// others read-only.
pub const SERVICE_FILE_PERMISSIONS: u32 = 0o644;

/// Configuration for a systemd service: the service name plus the three
/// sections of its unit file.
#[derive(Debug)]
pub struct Config {
    pub name: String,
    pub unit: Unit,
    pub service: Service,
    pub install: Install,
}

/// The file name of the service unit derived from a service name.
pub open spec fn unit_name_text(name: Seq<char>) -> Seq<char> {
    name + ".service"@
}

/// The absolute path at which the unit file is installed.
pub open spec fn unit_path_text(name: Seq<char>) -> Seq<char> {
    "/etc/systemd/system/"@ + name + ".service"@
}

impl Config {
    /// The unit file name derived from the service name.
    pub open spec fn unit_name_spec(self) -> Seq<char> {
        unit_name_text(self.name@)
    }

    /// The full text of the unit file: the [Unit], [Service] and [Install]
    /// blocks in that fixed order.
    pub open spec fn text_spec(self) -> Seq<char> {
        self.unit.text_spec() + self.service.text_spec() + self.install.text_spec()
    }

    pub fn unit_name(&self) -> (r: String)
        ensures
            r@ == self.unit_name_spec(),
    {
        let mut s = String::from_str(self.name.as_str());
        s.append(".service");
        s
    }

    /// Render the complete unit-file document.
    pub fn render(&self) -> (r: String)
        ensures
            r@ == self.text_spec(),
    {
        let mut buf = self.unit.render();
        let svc = self.service.render();
        buf.append(svc.as_str());
        let ins = self.install.render();
        buf.append(ins.as_str());
        buf
    }
}

/// Ghost model of a piece of outside work the controller asks for.
pub enum StepModel {
    CheckPath { path: Seq<char> },
    WriteFile { path: Seq<char>, contents: Seq<char>, mode: u32 },
    RemoveFile { path: Seq<char> },
    RunCommand { program: Seq<char>, args: Seq<Seq<char>> },
}

/// A piece of outside work the caller must perform for the controller.
#[derive(Debug, Clone, PartialEq)]
pub enum Step {
    /// Ask whether a file exists at `path`.
    CheckPath { path: String },
    /// Create the file at `path` with the given contents and permission mode.
    WriteFile { path: String, contents: String, mode: u32 },
    /// Delete the file at `path`.
    RemoveFile { path: String },
    /// Run `program` with `args`, capturing exit status and output.
    RunCommand { program: String, args: Vec<String> },
}

impl View for Step {
    type V = StepModel;

    open spec fn view(&self) -> StepModel {
        match self {
            Step::CheckPath { path } => StepModel::CheckPath { path: path@ },
            Step::WriteFile { path, contents, mode } => StepModel::WriteFile {
                path: path@,
                contents: contents@,
                mode: *mode,
            },
            Step::RemoveFile { path } => StepModel::RemoveFile { path: path@ },
            Step::RunCommand { program, args } => StepModel::RunCommand {
                program: program@,
                args: args.deep_view(),
            },
        }
    }
}

/// Ghost model of what the caller reports back.
pub enum EventModel {
    PathChecked { exists: bool },
    FileOutcome { ok: bool, detail: Seq<char> },
    CommandOutcome { ok: bool, stdout: Seq<char>, stderr: Seq<char> },
    CommandUnavailable { detail: Seq<char> },
}

/// What the caller reports back after performing a [`Step`].
#[derive(Debug, Clone, PartialEq)]
pub enum Event {
    /// Whether the checked path exists.
    PathChecked { exists: bool },
    /// Outcome of a file write or delete; on failure `detail` holds the
    /// operating-system error text.
    FileOutcome { ok: bool, detail: String },
    /// The command ran to completion with this exit verdict and output.
    CommandOutcome { ok: bool, stdout: String, stderr: String },
    /// The command could not be run at all; `detail` holds the
    /// operating-system error text.
    CommandUnavailable { detail: String },
}

impl View for Event {
    type V = EventModel;

    open spec fn view(&self) -> EventModel {
        match self {
            Event::PathChecked { exists } => EventModel::PathChecked { exists: *exists },
            Event::FileOutcome { ok, detail } => EventModel::FileOutcome {
                ok: *ok,
                detail: detail@,
            },
            Event::CommandOutcome { ok, stdout, stderr } => EventModel::CommandOutcome {
                ok: *ok,
                stdout: stdout@,
                stderr: stderr@,
            },
            Event::CommandUnavailable { detail } => EventModel::CommandUnavailable {
                detail: detail@,
            },
        }
    }
}

/// Ghost model of [`Error`].
pub enum ErrorModel {
    Io(Seq<char>),
    Validation(Seq<char>),
    Command(Seq<char>),
}

impl View for Error {
    type V = ErrorModel;

    open spec fn view(&self) -> ErrorModel {
        match self {
            Error::IoError(m) => ErrorModel::Io(m@),
            Error::ValidationError(m) => ErrorModel::Validation(m@),
            Error::CommandError(m) => ErrorModel::Command(m@),
        }
    }
}

/// Ghost model of where an operation stands.
pub enum PhaseModel {
    InstallChecking,
    InstallWriting,
    InstallEnabling,
    InstallReloading,
    UninstallDisabling,
    UninstallRemoving,
    StartRunning,
    StopRunning,
    RestartRunning,
    StatusQuerying,
    StatusListing,
    Complete(Result<Option<Status>, ErrorModel>),
}

/// Where an operation stands between two pieces of outside work.  A status
/// query completes with `Ok(Some(status))`; every other operation completes
/// with `Ok(None)`.
#[derive(Debug, PartialEq)]
pub enum Phase {
    InstallChecking,
    InstallWriting,
    InstallEnabling,
    InstallReloading,
    UninstallDisabling,
    UninstallRemoving,
    StartRunning,
    StopRunning,
    RestartRunning,
    StatusQuerying,
    StatusListing,
    Complete(Result<Option<Status>, Error>),
}

impl View for Phase {
    type V = PhaseModel;

    open spec fn view(&self) -> PhaseModel {
        match self {
            Phase::InstallChecking => PhaseModel::InstallChecking,
            Phase::InstallWriting => PhaseModel::InstallWriting,
            Phase::InstallEnabling => PhaseModel::InstallEnabling,
            Phase::InstallReloading => PhaseModel::InstallReloading,
            Phase::UninstallDisabling => PhaseModel::UninstallDisabling,
            Phase::UninstallRemoving => PhaseModel::UninstallRemoving,
            Phase::StartRunning => PhaseModel::StartRunning,
            Phase::StopRunning => PhaseModel::StopRunning,
            Phase::RestartRunning => PhaseModel::RestartRunning,
            Phase::StatusQuerying => PhaseModel::StatusQuerying,
            Phase::StatusListing => PhaseModel::StatusListing,
            Phase::Complete(outcome) => PhaseModel::Complete(
                match outcome {
                    Ok(status) => Ok(*status),
                    Err(e) => Err(e@),
                },
            ),
        }
    }
}

/// The six lifecycle operations of the controller.
#[derive(Debug, Clone, Copy, PartialEq, Eq)]
pub enum Op {
    Install,
    Uninstall,
    Start,
    Stop,
    Restart,
    Status,
}

/// A `systemctl` invocation with the given arguments.
pub open spec fn run_step(args: Seq<Seq<char>>) -> StepModel {
    StepModel::RunCommand { program: "systemctl"@, args }
}

/// The message of the validation error raised when the unit file already
/// exists at install time.
pub open spec fn exists_error_text(name: Seq<char>) -> Seq<char> {
    "Service file '\""@ + unit_path_text(name) + "\"' already exists"@
}

/// The first phase and the first piece of outside work of each operation.
pub open spec fn begin_model(name: Seq<char>, op: Op) -> (PhaseModel, StepModel) {
    match op {
        Op::Install => (
            PhaseModel::InstallChecking,
            StepModel::CheckPath { path: unit_path_text(name) },
        ),
        Op::Uninstall => (
            PhaseModel::UninstallDisabling,
            run_step(seq!["disable"@, unit_name_text(name)]),
        ),
        Op::Start => (PhaseModel::StartRunning, run_step(seq!["start"@, unit_name_text(name)])),
        Op::Stop => (PhaseModel::StopRunning, run_step(seq!["stop"@, unit_name_text(name)])),
        Op::Restart => (
            PhaseModel::RestartRunning,
            run_step(seq!["restart"@, unit_name_text(name)]),
        ),
        Op::Status => (
            PhaseModel::StatusQuerying,
            run_step(seq!["is-active"@, unit_name_text(name)]),
        ),
    }
}

/// The transition function of the controller: from the phase an operation
/// stands in and the event the caller reports, to the next phase and the
/// next piece of outside work, if any.  `name` is the service name and
/// `doc` the rendered unit-file text.  A completed phase is terminal, and
/// an event that does not belong to the phase changes nothing.
pub open spec fn step_model(
    name: Seq<char>,
    doc: Seq<char>,
    phase: PhaseModel,
    event: EventModel,
) -> (PhaseModel, Option<StepModel>) {
    match phase {
        PhaseModel::InstallChecking => match event {
            EventModel::PathChecked { exists } => {
                if exists {
                    (
                        PhaseModel::Complete(Err(ErrorModel::Validation(exists_error_text(name)))),
                        None,
                    )
                } else {
                    (
                        PhaseModel::InstallWriting,
                        Some(
                            StepModel::WriteFile {
                                path: unit_path_text(name),
                                contents: doc,
                                mode: SERVICE_FILE_PERMISSIONS,
                            },
                        ),
                    )
                }
            },
            _ => (phase, None),
        },
        PhaseModel::InstallWriting => match event {
            EventModel::FileOutcome { ok, detail } => {
                if ok {
                    (
                        PhaseModel::InstallEnabling,
                        Some(run_step(seq!["enable"@, unit_name_text(name)])),
                    )
                } else {
                    (PhaseModel::Complete(Err(ErrorModel::Io(detail))), None)
                }
            },
            _ => (phase, None),
        },
        PhaseModel::InstallEnabling => match event {
            EventModel::CommandOutcome { ok, stdout, stderr } => {
                if ok {
                    (PhaseModel::InstallReloading, Some(run_step(seq!["daemon-reload"@])))
                } else {
                    (
                        PhaseModel::Complete(
                            Err(ErrorModel::Command("Failed to enable service: "@ + stderr)),
                        ),
                        None,
                    )
                }
            },
            EventModel::CommandUnavailable { detail } => (
                PhaseModel::Complete(Err(ErrorModel::Io(detail))),
                None,
            ),
            _ => (phase, None),
        },
        PhaseModel::InstallReloading => match event {
            EventModel::CommandOutcome { ok, stdout, stderr } => {
                if ok {
                    (PhaseModel::Complete(Ok(None)), None)
                } else {
                    (
                        PhaseModel::Complete(
                            Err(
                                ErrorModel::Command("Failed to reload systemd daemon: "@ + stderr),
                            ),
                        ),
                        None,
                    )
                }
            },
            EventModel::CommandUnavailable { detail } => (
                PhaseModel::Complete(Err(ErrorModel::Io(detail))),
                None,
            ),
            _ => (phase, None),
        },
        PhaseModel::UninstallDisabling => match event {
            EventModel::CommandOutcome { ok, stdout, stderr } => {
                if ok {
                    (
                        PhaseModel::UninstallRemoving,
                        Some(StepModel::RemoveFile { path: unit_path_text(name) }),
                    )
                } else {
                    (
                        PhaseModel::Complete(
                            Err(ErrorModel::Command("Failed to disable service: "@ + stderr)),
                        ),
                        None,
                    )
                }
            },
            EventModel::CommandUnavailable { detail } => (
                PhaseModel::Complete(Err(ErrorModel::Io(detail))),
                None,
            ),
            _ => (phase, None),
        },
        PhaseModel::UninstallRemoving => match event {
            EventModel::FileOutcome { ok, detail } => {
                if ok {
                    (PhaseModel::Complete(Ok(None)), None)
                } else {
                    (PhaseModel::Complete(Err(ErrorModel::Io(detail))), None)
                }
            },
            _ => (phase, None),
        },
        PhaseModel::StartRunning => match event {
            EventModel::CommandOutcome { ok, stdout, stderr } => {
                if ok {
                    (PhaseModel::Complete(Ok(None)), None)
                } else {
                    (
                        PhaseModel::Complete(
                            Err(ErrorModel::Command("Failed to start service: "@ + stderr)),
                        ),
                        None,
                    )
                }
            },
            EventModel::CommandUnavailable { detail } => (
                PhaseModel::Complete(Err(ErrorModel::Io(detail))),
                None,
            ),
            _ => (phase, None),
        },
        PhaseModel::StopRunning => match event {
            EventModel::CommandOutcome { ok, stdout, stderr } => {
                if ok {
                    (PhaseModel::Complete(Ok(None)), None)
                } else {
                    (
                        PhaseModel::Complete(
                            Err(ErrorModel::Command("Failed to stop service: "@ + stderr)),
                        ),
                        None,
                    )
                }
            },
            EventModel::CommandUnavailable { detail } => (
                PhaseModel::Complete(Err(ErrorModel::Io(detail))),
                None,
            ),
            _ => (phase, None),
        },
        PhaseModel::RestartRunning => match event {
            EventModel::CommandOutcome { ok, stdout, stderr } => {
                if ok {
                    (PhaseModel::Complete(Ok(None)), None)
                } else {
                    (
                        PhaseModel::Complete(
                            Err(ErrorModel::Command("Failed to restart service: "@ + stderr)),
                        ),
                        None,
                    )
                }
            },
            EventModel::CommandUnavailable { detail } => (
                PhaseModel::Complete(Err(ErrorModel::Io(detail))),
                None,
            ),
            _ => (phase, None),
        },
        PhaseModel::StatusQuerying => match event {
            EventModel::CommandOutcome { ok, stdout, stderr } => {
                if !ok {
                    (
                        PhaseModel::Complete(
                            Err(ErrorModel::Command("Failed to get service status: "@ + stderr)),
                        ),
                        None,
                    )
                } else if trimmed(stdout) == "active"@ {
                    (PhaseModel::Complete(Ok(Some(Status::Running))), None)
                } else if trimmed(stdout) == "inactive"@ {
                    (
                        PhaseModel::StatusListing,
                        Some(
                            run_step(
                                seq![
                                    "list-unit-files"@,
                                    "-t"@,
                                    "service"@,
                                    unit_name_text(name),
                                ],
                            ),
                        ),
                    )
                } else if trimmed(stdout) == "activating"@ {
                    (PhaseModel::Complete(Ok(Some(Status::Running))), None)
                } else if trimmed(stdout) == "failed"@ {
                    (PhaseModel::Complete(Ok(Some(Status::Failed))), None)
                } else {
                    (PhaseModel::Complete(Ok(Some(Status::NotInstalled))), None)
                }
            },
            EventModel::CommandUnavailable { detail } => (
                PhaseModel::Complete(Err(ErrorModel::Io(detail))),
                None,
            ),
            _ => (phase, None),
        },
        PhaseModel::StatusListing => match event {
            EventModel::CommandOutcome { ok, stdout, stderr } => {
                if !ok {
                    (
                        PhaseModel::Complete(
                            Err(ErrorModel::Command("Failed to list unit files: "@ + stderr)),
                        ),
                        None,
                    )
                } else if contains_seq(stdout, unit_name_text(name)) {
                    (PhaseModel::Complete(Ok(Some(Status::Stopped))), None)
                } else {
                    (PhaseModel::Complete(Ok(Some(Status::NotInstalled))), None)
                }
            },
            EventModel::CommandUnavailable { detail } => (
                PhaseModel::Complete(Err(ErrorModel::Io(detail))),
                None,
            ),
            _ => (phase, None),
        },
        PhaseModel::Complete(outcome) => (PhaseModel::Complete(outcome), None),
    }
}

pub open spec fn opt_step_view(s: Option<Step>) -> Option<StepModel> {
    match s {
        None => None,
        Some(st) => Some(st@),
    }
}

/// A service manager for systemd.  It decides, step by step, how to
/// install, uninstall, start, stop, restart and query the status of the
/// configured service; the caller performs the file accesses and the
/// `systemctl` invocations each step names.
#[derive(Debug)]
pub struct Systemd {
    pub config: Config,
}

impl Systemd {
    /// Checks if systemd is available on the system.
    /// This is done by checking if the `systemctl` command is present in
    /// the system's PATH.
    ///
    /// Relies on which::which: whether the executable is found depends on
    /// the machine's environment, so nothing is promised of the result.
    #[verifier::external_body]
    pub fn is_available() -> bool {
        which::which("systemctl").is_ok()
    }

    /// Creates a new `Systemd` service manager with the given configuration.
    pub fn new(config: Config) -> (r: Self)
        ensures
            r.config == config,
    {
        Systemd { config }
    }

    /// The path of the unit file this manager installs and removes.
    pub fn config_path(&self) -> (r: String)
        ensures
            r@ == unit_path_text(self.config.name@),
    {
        let mut s = String::from_str("/etc/systemd/system/");
        let un = self.config.unit_name();
        s.append(un.as_str());
        proof {
            assert(s@ =~= unit_path_text(self.config.name@));
        }
        s
    }

    fn systemctl_pair(&self, first: &str, second: String) -> (r: Step)
        ensures
            r@ == run_step(seq![first@, second@]),
    {
        let mut args: Vec<String> = Vec::new();
        args.push(String::from_str(first));
        args.push(second);
        proof {
            assert(args.deep_view() =~= seq![first@, second@]);
        }
        Step::RunCommand { program: String::from_str("systemctl"), args }
    }

    /// The first phase and first step of the given operation.
    pub fn begin(&self, op: Op) -> (r: (Phase, Step))
        ensures
            r.0@ == begin_model(self.config.name@, op).0,
            r.1@ == begin_model(self.config.name@, op).1,
    {
        match op {
            Op::Install => (Phase::InstallChecking, Step::CheckPath { path: self.config_path() }),
            Op::Uninstall => (
                Phase::UninstallDisabling,
                self.systemctl_pair("disable", self.config.unit_name()),
            ),
            Op::Start => (Phase::StartRunning, self.systemctl_pair("start", self.config.unit_name())),
            Op::Stop => (Phase::StopRunning, self.systemctl_pair("stop", self.config.unit_name())),
            Op::Restart => (
                Phase::RestartRunning,
                self.systemctl_pair("restart", self.config.unit_name()),
            ),
            Op::Status => (
                Phase::StatusQuerying,
                self.systemctl_pair("is-active", self.config.unit_name()),
            ),
        }
    }

    fn step_install_checking(&self, event: Event) -> (r: (Phase, Option<Step>))
        ensures
            r.0@ == step_model(
                self.config.name@,
                self.config.text_spec(),
                PhaseModel::InstallChecking,
                event@,
            ).0,
            opt_step_view(r.1) == step_model(
                self.config.name@,
                self.config.text_spec(),
                PhaseModel::InstallChecking,
                event@,
            ).1,
    {
        match event {
            Event::PathChecked { exists } => {
                if exists {
                    let mut msg = String::from_str("Service file '\"");
                    let path = self.config_path();
                    msg.append(path.as_str());
                    msg.append("\"' already exists");
                    proof {
                        assert(msg@ =~= exists_error_text(self.config.name@));
                    }
                    (Phase::Complete(Err(Error::ValidationError(msg))), None)
                } else {
                    let step = Step::WriteFile {
                        path: self.config_path(),
                        contents: self.config.render(),
                        mode: SERVICE_FILE_PERMISSIONS,
                    };
                    (Phase::InstallWriting, Some(step))
                }
            },
            _ => (Phase::InstallChecking, None),
        }
    }

    fn step_install_writing(&self, event: Event) -> (r: (Phase, Option<Step>))
        ensures
            r.0@ == step_model(
                self.config.name@,
                self.config.text_spec(),
                PhaseModel::InstallWriting,
                event@,
            ).0,
            opt_step_view(r.1) == step_model(
                self.config.name@,
                self.config.text_spec(),
                PhaseModel::InstallWriting,
                event@,
            ).1,
    {
        match event {
            Event::FileOutcome { ok, detail } => {
                if ok {
                    (
                        Phase::InstallEnabling,
                        Some(self.systemctl_pair("enable", self.config.unit_name())),
                    )
                } else {
                    (Phase::Complete(Err(Error::IoError(detail))), None)
                }
            },
            _ => (Phase::InstallWriting, None),
        }
    }

    fn step_install_enabling(&self, event: Event) -> (r: (Phase, Option<Step>))
        ensures
            r.0@ == step_model(
                self.config.name@,
                self.config.text_spec(),
                PhaseModel::InstallEnabling,
                event@,
            ).0,
            opt_step_view(r.1) == step_model(
                self.config.name@,
                self.config.text_spec(),
                PhaseModel::InstallEnabling,
                event@,
            ).1,
    {
        match event {
            Event::CommandOutcome { ok, stdout, stderr } => {
                if ok {
                    let mut args: Vec<String> = Vec::new();
                    args.push(String::from_str("daemon-reload"));
                    proof {
                        assert(args.deep_view() =~= seq!["daemon-reload"@]);
                    }
                    let step = Step::RunCommand {
                        program: String::from_str("systemctl"),
                        args,
                    };
                    (Phase::InstallReloading, Some(step))
                } else {
                    let mut msg = String::from_str("Failed to enable service: ");
                    msg.append(stderr.as_str());
                    (Phase::Complete(Err(Error::CommandError(msg))), None)
                }
            },
            Event::CommandUnavailable { detail } => (
                Phase::Complete(Err(Error::IoError(detail))),
                None,
            ),
            _ => (Phase::InstallEnabling, None),
        }
    }

    fn step_install_reloading(&self, event: Event) -> (r: (Phase, Option<Step>))
        ensures
            r.0@ == step_model(
                self.config.name@,
                self.config.text_spec(),
                PhaseModel::InstallReloading,
                event@,
            ).0,
            opt_step_view(r.1) == step_model(
                self.config.name@,
                self.config.text_spec(),
                PhaseModel::InstallReloading,
                event@,
            ).1,
    {
        match event {
            Event::CommandOutcome { ok, stdout, stderr } => {
                if ok {
                    (Phase::Complete(Ok(None)), None)
                } else {
                    let mut msg = String::from_str("Failed to reload systemd daemon: ");
                    msg.append(stderr.as_str());
                    (Phase::Complete(Err(Error::CommandError(msg))), None)
                }
            },
            Event::CommandUnavailable { detail } => (
                Phase::Complete(Err(Error::IoError(detail))),
                None,
            ),
            _ => (Phase::InstallReloading, None),
        }
    }

    fn step_uninstall_disabling(&self, event: Event) -> (r: (Phase, Option<Step>))
        ensures
            r.0@ == step_model(
                self.config.name@,
                self.config.text_spec(),
                PhaseModel::UninstallDisabling,
                event@,
            ).0,
            opt_step_view(r.1) == step_model(
                self.config.name@,
                self.config.text_spec(),
                PhaseModel::UninstallDisabling,
                event@,
            ).1,
    {
        match event {
            Event::CommandOutcome { ok, stdout, stderr } => {
                if ok {
                    let step = Step::RemoveFile { path: self.config_path() };
                    (Phase::UninstallRemoving, Some(step))
                } else {
                    let mut msg = String::from_str("Failed to disable service: ");
                    msg.append(stderr.as_str());
                    (Phase::Complete(Err(Error::CommandError(msg))), None)
                }
            },
            Event::CommandUnavailable { detail } => (
                Phase::Complete(Err(Error::IoError(detail))),
                None,
            ),
            _ => (Phase::UninstallDisabling, None),
        }
    }

    fn step_uninstall_removing(&self, event: Event) -> (r: (Phase, Option<Step>))
        ensures
            r.0@ == step_model(
                self.config.name@,
                self.config.text_spec(),
                PhaseModel::UninstallRemoving,
                event@,
            ).0,
            opt_step_view(r.1) == step_model(
                self.config.name@,
                self.config.text_spec(),
                PhaseModel::UninstallRemoving,
                event@,
            ).1,
    {
        match event {
            Event::FileOutcome { ok, detail } => {
                if ok {
                    (Phase::Complete(Ok(None)), None)
                } else {
                    (Phase::Complete(Err(Error::IoError(detail))), None)
                }
            },
            _ => (Phase::UninstallRemoving, None),
        }
    }

    fn step_start_running(&self, event: Event) -> (r: (Phase, Option<Step>))
        ensures
            r.0@ == step_model(
                self.config.name@,
                self.config.text_spec(),
                PhaseModel::StartRunning,
                event@,
            ).0,
            opt_step_view(r.1) == step_model(
                self.config.name@,
                self.config.text_spec(),
                PhaseModel::StartRunning,
                event@,
            ).1,
    {
        match event {
            Event::CommandOutcome { ok, stdout, stderr } => {
                if ok {
                    (Phase::Complete(Ok(None)), None)
                } else {
                    let mut msg = String::from_str("Failed to start service: ");
                    msg.append(stderr.as_str());
                    (Phase::Complete(Err(Error::CommandError(msg))), None)
                }
            },
            Event::CommandUnavailable { detail } => (
                Phase::Complete(Err(Error::IoError(detail))),
                None,
            ),
            _ => (Phase::StartRunning, None),
        }
    }

    fn step_stop_running(&self, event: Event) -> (r: (Phase, Option<Step>))
        ensures
            r.0@ == step_model(
                self.config.name@,
                self.config.text_spec(),
                PhaseModel::StopRunning,
                event@,
            ).0,
            opt_step_view(r.1) == step_model(
                self.config.name@,
                self.config.text_spec(),
                PhaseModel::StopRunning,
                event@,
            ).1,
    {
        match event {
            Event::CommandOutcome { ok, stdout, stderr } => {
                if ok {
                    (Phase::Complete(Ok(None)), None)
                } else {
                    let mut msg = String::from_str("Failed to stop service: ");
                    msg.append(stderr.as_str());
                    (Phase::Complete(Err(Error::CommandError(msg))), None)
                }
            },
            Event::CommandUnavailable { detail } => (
                Phase::Complete(Err(Error::IoError(detail))),
                None,
            ),
            _ => (Phase::StopRunning, None),
        }
    }

    fn step_restart_running(&self, event: Event) -> (r: (Phase, Option<Step>))
        ensures
            r.0@ == step_model(
                self.config.name@,
                self.config.text_spec(),
                PhaseModel::RestartRunning,
                event@,
            ).0,
            opt_step_view(r.1) == step_model(
                self.config.name@,
                self.config.text_spec(),
                PhaseModel::RestartRunning,
                event@,
            ).1,
    {
        match event {
            Event::CommandOutcome { ok, stdout, stderr } => {
                if ok {
                    (Phase::Complete(Ok(None)), None)
                } else {
                    let mut msg = String::from_str("Failed to restart service: ");
                    msg.append(stderr.as_str());
                    (Phase::Complete(Err(Error::CommandError(msg))), None)
                }
            },
            Event::CommandUnavailable { detail } => (
                Phase::Complete(Err(Error::IoError(detail))),
                None,
            ),
            _ => (Phase::RestartRunning, None),
        }
    }

    fn step_status_querying(&self, event: Event) -> (r: (Phase, Option<Step>))
        ensures
            r.0@ == step_model(
                self.config.name@,
                self.config.text_spec(),
                PhaseModel::StatusQuerying,
                event@,
            ).0,
            opt_step_view(r.1) == step_model(
                self.config.name@,
                self.config.text_spec(),
                PhaseModel::StatusQuerying,
                event@,
            ).1,
    {
        match event {
            Event::CommandOutcome { ok, stdout, stderr } => {
                if !ok {
                    let mut msg = String::from_str("Failed to get service status: ");
                    msg.append(stderr.as_str());
                    (Phase::Complete(Err(Error::CommandError(msg))), None)
                } else {
                    let token = trim(stdout.as_str());
                    if str_eq(token.as_str(), "active") {
                        (Phase::Complete(Ok(Some(Status::Running))), None)
                    } else if str_eq(token.as_str(), "inactive") {
                        let mut args: Vec<String> = Vec::new();
                        args.push(String::from_str("list-unit-files"));
                        args.push(String::from_str("-t"));
                        args.push(String::from_str("service"));
                        args.push(self.config.unit_name());
                        proof {
                            assert(args.deep_view() =~= seq![
                                "list-unit-files"@,
                                "-t"@,
                                "service"@,
                                unit_name_text(self.config.name@),
                            ]);
                        }
                        let step = Step::RunCommand {
                            program: String::from_str("systemctl"),
                            args,
                        };
                        (Phase::StatusListing, Some(step))
                    } else if str_eq(token.as_str(), "activating") {
                        (Phase::Complete(Ok(Some(Status::Running))), None)
                    } else if str_eq(token.as_str(), "failed") {
                        (Phase::Complete(Ok(Some(Status::Failed))), None)
                    } else {
                        (Phase::Complete(Ok(Some(Status::NotInstalled))), None)
                    }
                }
            },
            Event::CommandUnavailable { detail } => (
                Phase::Complete(Err(Error::IoError(detail))),
                None,
            ),
            _ => (Phase::StatusQuerying, None),
        }
    }

    fn step_status_listing(&self, event: Event) -> (r: (Phase, Option<Step>))
        ensures
            r.0@ == step_model(
                self.config.name@,
                self.config.text_spec(),
                PhaseModel::StatusListing,
                event@,
            ).0,
            opt_step_view(r.1) == step_model(
                self.config.name@,
                self.config.text_spec(),
                PhaseModel::StatusListing,
                event@,
            ).1,
    {
        match event {
            Event::CommandOutcome { ok, stdout, stderr } => {
                if !ok {
                    let mut msg = String::from_str("Failed to list unit files: ");
                    msg.append(stderr.as_str());
                    (Phase::Complete(Err(Error::CommandError(msg))), None)
                } else {
                    let un = self.config.unit_name();
                    if contains_str(stdout.as_str(), un.as_str()) {
                        (Phase::Complete(Ok(Some(Status::Stopped))), None)
                    } else {
                        (Phase::Complete(Ok(Some(Status::NotInstalled))), None)
                    }
                }
            },
            Event::CommandUnavailable { detail } => (
                Phase::Complete(Err(Error::IoError(detail))),
                None,
            ),
            _ => (Phase::StatusListing, None),
        }
    }

    /// Decide the next phase and next step of an operation from the event
    /// the caller reports for the previous step.
    pub fn step(&self, phase: Phase, event: Event) -> (r: (Phase, Option<Step>))
        ensures
            r.0@ == step_model(self.config.name@, self.config.text_spec(), phase@, event@).0,
            opt_step_view(r.1) == step_model(
                self.config.name@,
                self.config.text_spec(),
                phase@,
                event@,
            ).1,
    {
        match phase {
            Phase::InstallChecking => self.step_install_checking(event),
            Phase::InstallWriting => self.step_install_writing(event),
            Phase::InstallEnabling => self.step_install_enabling(event),
            Phase::InstallReloading => self.step_install_reloading(event),
            Phase::UninstallDisabling => self.step_uninstall_disabling(event),
            Phase::UninstallRemoving => self.step_uninstall_removing(event),
            Phase::StartRunning => self.step_start_running(event),
            Phase::StopRunning => self.step_stop_running(event),
            Phase::RestartRunning => self.step_restart_running(event),
            Phase::StatusQuerying => self.step_status_querying(event),
            Phase::StatusListing => self.step_status_listing(event),
            Phase::Complete(outcome) => (Phase::Complete(outcome), None),
        }
    }
}

/// A configuration whose three sections are all default renders to exactly
/// the three section headers, [Unit], [Service] and [Install], in that
/// order, with no further lines between or after them.
pub proof fn lemma_unset_sections_render_headers(c: Config)
    requires
        c.unit == Unit::unset(),
        c.service == Service::unset(),
        c.install == Install::unset(),
    ensures
        c.text_spec() == "[Unit]\n[Service]\n[Install]\n"@,
{
    lemma_unset_unit_renders_header();
    lemma_unset_service_renders_header();
    lemma_unset_install_renders_header();
    reveal_strlit("[Unit]\n");
    reveal_strlit("[Service]\n");
    reveal_strlit("[Install]\n");
    reveal_strlit("[Unit]\n[Service]\n[Install]\n");
    assert(c.text_spec() =~= "[Unit]\n[Service]\n[Install]\n"@);
}

/// Interpretation of the primary `is-active` query, for every output the
/// tool can produce: `active` and `activating` mean the service is
/// running, `failed` means it failed, any other token but `inactive`
/// means it is not installed, and `inactive` defers to a listing of known
/// unit files.  A non-zero exit is a command error, never a status.
pub proof fn lemma_is_active_interpretation(
    name: Seq<char>,
    doc: Seq<char>,
    stdout: Seq<char>,
    stderr: Seq<char>,
)
    ensures
        trimmed(stdout) == "active"@ || trimmed(stdout) == "activating"@ ==> step_model(
            name,
            doc,
            PhaseModel::StatusQuerying,
            EventModel::CommandOutcome { ok: true, stdout, stderr },
        ).0 == PhaseModel::Complete(Ok(Some(Status::Running))),
        trimmed(stdout) == "failed"@ ==> step_model(
            name,
            doc,
            PhaseModel::StatusQuerying,
            EventModel::CommandOutcome { ok: true, stdout, stderr },
        ).0 == PhaseModel::Complete(Ok(Some(Status::Failed))),
        trimmed(stdout) == "inactive"@ ==> step_model(
            name,
            doc,
            PhaseModel::StatusQuerying,
            EventModel::CommandOutcome { ok: true, stdout, stderr },
        ).0 == PhaseModel::StatusListing,
        trimmed(stdout) != "active"@ && trimmed(stdout) != "activating"@ && trimmed(stdout)
            != "failed"@ && trimmed(stdout) != "inactive"@ ==> step_model(
            name,
            doc,
            PhaseModel::StatusQuerying,
            EventModel::CommandOutcome { ok: true, stdout, stderr },
        ).0 == PhaseModel::Complete(Ok(Some(Status::NotInstalled))),
        step_model(
            name,
            doc,
            PhaseModel::StatusQuerying,
            EventModel::CommandOutcome { ok: false, stdout, stderr },
        ).0 == PhaseModel::Complete(
            Err(ErrorModel::Command("Failed to get service status: "@ + stderr)),
        ),
        trimmed(stdout) != "inactive"@ ==> step_model(
            name,
            doc,
            PhaseModel::StatusQuerying,
            EventModel::CommandOutcome { ok: true, stdout, stderr },
        ).1 is None,
        trimmed(stdout) == "inactive"@ ==> step_model(
            name,
            doc,
            PhaseModel::StatusQuerying,
            EventModel::CommandOutcome { ok: true, stdout, stderr },
        ).1 == Some(
            run_step(seq!["list-unit-files"@, "-t"@, "service"@, unit_name_text(name)]),
        ),
        step_model(
            name,
            doc,
            PhaseModel::StatusQuerying,
            EventModel::CommandOutcome { ok: false, stdout, stderr },
        ).1 is None,
{
    reveal_strlit("active");
    reveal_strlit("activating");
    reveal_strlit("failed");
    reveal_strlit("inactive");
    assert("active"@.len() == 6);
    assert("activating"@.len() == 10);
    assert("inactive"@.len() == 8);
    assert("failed"@.len() == 6);
    assert("active"@[0] == 'a' && "failed"@[0] == 'f');
    assert("active"@ != "failed"@);
}

/// Interpretation of the secondary listing query: the service counts as
/// stopped exactly when its unit-file name occurs in the listing output,
/// and as not installed otherwise.
pub proof fn lemma_listing_interpretation(
    name: Seq<char>,
    doc: Seq<char>,
    stdout: Seq<char>,
    stderr: Seq<char>,
)
    ensures
        step_model(
            name,
            doc,
            PhaseModel::StatusListing,
            EventModel::CommandOutcome { ok: true, stdout, stderr },
        ).0 == PhaseModel::Complete(
            Ok(
                Some(
                    if contains_seq(stdout, unit_name_text(name)) {
                        Status::Stopped
                    } else {
                        Status::NotInstalled
                    },
                ),
            ),
        ),
        step_model(
            name,
            doc,
            PhaseModel::StatusListing,
            EventModel::CommandOutcome { ok: false, stdout, stderr },
        ).0 == PhaseModel::Complete(
            Err(ErrorModel::Command("Failed to list unit files: "@ + stderr)),
        ),
        step_model(
            name,
            doc,
            PhaseModel::StatusListing,
            EventModel::CommandOutcome { ok: true, stdout, stderr },
        ).1 is None,
        step_model(
            name,
            doc,
            PhaseModel::StatusListing,
            EventModel::CommandOutcome { ok: false, stdout, stderr },
        ).1 is None,
{
}

/// A completed operation is terminal: no event moves it out of its phase
/// and no further outside work is requested; in particular no external
/// command follows a completed failure.
pub proof fn lemma_complete_is_terminal(
    name: Seq<char>,
    doc: Seq<char>,
    outcome: Result<Option<Status>, ErrorModel>,
    event: EventModel,
)
    ensures
        step_model(name, doc, PhaseModel::Complete(outcome), event).0 == PhaseModel::Complete(
            outcome,
        ),
        step_model(name, doc, PhaseModel::Complete(outcome), event).1 is None,
{
}

/// When the unit file already exists, installation fails at the existence
/// check with a validation error, and the controller asks for no write and
/// no command invocation.
pub proof fn lemma_install_rejects_existing_file(name: Seq<char>, doc: Seq<char>)
    ensures
        step_model(
            name,
            doc,
            PhaseModel::InstallChecking,
            EventModel::PathChecked { exists: true },
        ).0 == PhaseModel::Complete(Err(ErrorModel::Validation(exists_error_text(name)))),
        step_model(
            name,
            doc,
            PhaseModel::InstallChecking,
            EventModel::PathChecked { exists: true },
        ).1 is None,
{
}

} // verus!
