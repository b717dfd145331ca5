//! The [Service] section of a systemd unit file, with its closed option vocabularies.

use crate::systemd::exec::Exec;
use crate::systemd::render::bool_text;
use crate::systemd::render::list_text;
use crate::systemd::render::multi_text;
use crate::systemd::render::opt_text;
use crate::systemd::render::opt_texts;
use crate::systemd::render::opt_u32_text;
use crate::systemd::render::opt_u64_text;
use crate::systemd::render::scalar_text;
use crate::systemd::render::write_bool;
use crate::systemd::render::write_line;
use crate::systemd::render::write_list;
use crate::systemd::render::write_multi;
use crate::systemd::render::write_scalar;
use crate::systemd::render::write_u32;
use crate::systemd::render::write_u64;
use vstd::prelude::*;
use vstd::string::StrSliceExecFns;
use vstd::string::StringExecFns;

verus! {
/// Process start-up type of a service.
#[derive(Debug, Clone, Copy)]
pub enum ServiceType {
    Simple,
    Exec,
    Forking,
    Oneshot,
    Dbus,
    Notify,
    NotifyReload,
    Idle,
}

impl ServiceType {
    /// The exact configuration token of each value.
    pub open spec fn token_spec(self) -> Seq<char> {
        match self {
            ServiceType::Simple => "simple"@,
            ServiceType::Exec => "exec"@,
            ServiceType::Forking => "forking"@,
            ServiceType::Oneshot => "oneshot"@,
            ServiceType::Dbus => "dbus"@,
            ServiceType::Notify => "notify"@,
            ServiceType::NotifyReload => "notify-reload"@,
            ServiceType::Idle => "idle"@,
        }
    }

    /// The token as rendered into the unit file.
    pub fn token(&self) -> (r: &'static str)
        ensures
            r@ == self.token_spec(),
    {
        match self {
            ServiceType::Simple => "simple",
            ServiceType::Exec => "exec",
            ServiceType::Forking => "forking",
            ServiceType::Oneshot => "oneshot",
            ServiceType::Dbus => "dbus",
            ServiceType::Notify => "notify",
            ServiceType::NotifyReload => "notify-reload",
            ServiceType::Idle => "idle",
        }
    }
}

pub open spec fn opt_service_type_text(field: Option<ServiceType>) -> Option<Seq<char>> {
    match field {
        None => None,
        Some(v) => Some(v.token_spec()),
    }
}

pub fn write_service_type(buf: &mut String, key: &str, field: &Option<ServiceType>)
    ensures
        final(buf)@ == old(buf)@ + scalar_text(key@, opt_service_type_text(*field)),
{
    match field {
        None => {
            proof {
                assert(old(buf)@ + Seq::<char>::empty() =~= old(buf)@);
            }
        },
        Some(v) => {
            write_line(buf, key, v.token());
        },
    }
}

/// When the manager should consider the service finished.
#[derive(Debug, Clone, Copy)]
pub enum ExitType {
    Main,
    Cgroup,
}

impl ExitType {
    /// The exact configuration token of each value.
    pub open spec fn token_spec(self) -> Seq<char> {
        match self {
            ExitType::Main => "main"@,
            ExitType::Cgroup => "cgroup"@,
        }
    }

    /// The token as rendered into the unit file.
    pub fn token(&self) -> (r: &'static str)
        ensures
            r@ == self.token_spec(),
    {
        match self {
            ExitType::Main => "main",
            ExitType::Cgroup => "cgroup",
        }
    }
}

pub open spec fn opt_exit_type_text(field: Option<ExitType>) -> Option<Seq<char>> {
    match field {
        None => None,
        Some(v) => Some(v.token_spec()),
    }
}

pub fn write_exit_type(buf: &mut String, key: &str, field: &Option<ExitType>)
    ensures
        final(buf)@ == old(buf)@ + scalar_text(key@, opt_exit_type_text(*field)),
{
    match field {
        None => {
            proof {
                assert(old(buf)@ + Seq::<char>::empty() =~= old(buf)@);
            }
        },
        Some(v) => {
            write_line(buf, key, v.token());
        },
    }
}

/// Restart policy of a service.
#[derive(Debug, Clone, Copy)]
pub enum RestartType {
    No,
    OnSuccess,
    OnFailure,
    OnAbnormal,
    OnWatchdog,
    OnAbort,
    Always,
}

impl RestartType {
    /// The exact configuration token of each value.
    pub open spec fn token_spec(self) -> Seq<char> {
        match self {
            RestartType::No => "no"@,
            RestartType::OnSuccess => "on-success"@,
            RestartType::OnFailure => "on-failure"@,
            RestartType::OnAbnormal => "on-abnormal"@,
            RestartType::OnWatchdog => "on-watchdog"@,
            RestartType::OnAbort => "on-abort"@,
            RestartType::Always => "always"@,
        }
    }

    /// The token as rendered into the unit file.
    pub fn token(&self) -> (r: &'static str)
        ensures
            r@ == self.token_spec(),
    {
        match self {
            RestartType::No => "no",
            RestartType::OnSuccess => "on-success",
            RestartType::OnFailure => "on-failure",
            RestartType::OnAbnormal => "on-abnormal",
            RestartType::OnWatchdog => "on-watchdog",
            RestartType::OnAbort => "on-abort",
            RestartType::Always => "always",
        }
    }
}

pub open spec fn opt_restart_type_text(field: Option<RestartType>) -> Option<Seq<char>> {
    match field {
        None => None,
        Some(v) => Some(v.token_spec()),
    }
}

pub fn write_restart_type(buf: &mut String, key: &str, field: &Option<RestartType>)
    ensures
        final(buf)@ == old(buf)@ + scalar_text(key@, opt_restart_type_text(*field)),
{
    match field {
        None => {
            proof {
                assert(old(buf)@ + Seq::<char>::empty() =~= old(buf)@);
            }
        },
        Some(v) => {
            write_line(buf, key, v.token());
        },
    }
}

/// How a service should restart.
#[derive(Debug, Clone, Copy)]
pub enum RestartMode {
    Normal,
    Direct,
    Debug,
}

impl RestartMode {
    /// The exact configuration token of each value.
    pub open spec fn token_spec(self) -> Seq<char> {
        match self {
            RestartMode::Normal => "normal"@,
            RestartMode::Direct => "direct"@,
            RestartMode::Debug => "debug"@,
        }
    }

    /// The token as rendered into the unit file.
    pub fn token(&self) -> (r: &'static str)
        ensures
            r@ == self.token_spec(),
    {
        match self {
            RestartMode::Normal => "normal",
            RestartMode::Direct => "direct",
            RestartMode::Debug => "debug",
        }
    }
}

pub open spec fn opt_restart_mode_text(field: Option<RestartMode>) -> Option<Seq<char>> {
    match field {
        None => None,
        Some(v) => Some(v.token_spec()),
    }
}

pub fn write_restart_mode(buf: &mut String, key: &str, field: &Option<RestartMode>)
    ensures
        final(buf)@ == old(buf)@ + scalar_text(key@, opt_restart_mode_text(*field)),
{
    match field {
        None => {
            proof {
                assert(old(buf)@ + Seq::<char>::empty() =~= old(buf)@);
            }
        },
        Some(v) => {
            write_line(buf, key, v.token());
        },
    }
}

/// Access to the service status notification socket.
#[derive(Debug, Clone, Copy)]
pub enum NotifyAccess {
    NoAccess,
    Main,
    Exec,
    All,
}

impl NotifyAccess {
    /// The exact configuration token of each value.
    pub open spec fn token_spec(self) -> Seq<char> {
        match self {
            NotifyAccess::NoAccess => "none"@,
            NotifyAccess::Main => "main"@,
            NotifyAccess::Exec => "exec"@,
            NotifyAccess::All => "all"@,
        }
    }

    /// The token as rendered into the unit file.
    pub fn token(&self) -> (r: &'static str)
        ensures
            r@ == self.token_spec(),
    {
        match self {
            NotifyAccess::NoAccess => "none",
            NotifyAccess::Main => "main",
            NotifyAccess::Exec => "exec",
            NotifyAccess::All => "all",
        }
    }
}

pub open spec fn opt_notify_access_text(field: Option<NotifyAccess>) -> Option<Seq<char>> {
    match field {
        None => None,
        Some(v) => Some(v.token_spec()),
    }
}

pub fn write_notify_access(buf: &mut String, key: &str, field: &Option<NotifyAccess>)
    ensures
        final(buf)@ == old(buf)@ + scalar_text(key@, opt_notify_access_text(*field)),
{
    match field {
        None => {
            proof {
                assert(old(buf)@ + Seq::<char>::empty() =~= old(buf)@);
            }
        },
        Some(v) => {
            write_line(buf, key, v.token());
        },
    }
}

/// Action taken when a timeout is hit.
#[derive(Debug, Clone, Copy)]
pub enum TimeoutFailureMode {
    Terminate,
    Abort,
    Kill,
}

impl TimeoutFailureMode {
    /// The exact configuration token of each value.
    pub open spec fn token_spec(self) -> Seq<char> {
        match self {
            TimeoutFailureMode::Terminate => "terminate"@,
            TimeoutFailureMode::Abort => "abort"@,
            TimeoutFailureMode::Kill => "kill"@,
        }
    }

    /// The token as rendered into the unit file.
    pub fn token(&self) -> (r: &'static str)
        ensures
            r@ == self.token_spec(),
    {
        match self {
            TimeoutFailureMode::Terminate => "terminate",
            TimeoutFailureMode::Abort => "abort",
            TimeoutFailureMode::Kill => "kill",
        }
    }
}

pub open spec fn opt_timeout_failure_mode_text(field: Option<TimeoutFailureMode>) -> Option<Seq<char>> {
    match field {
        None => None,
        Some(v) => Some(v.token_spec()),
    }
}

pub fn write_timeout_failure_mode(buf: &mut String, key: &str, field: &Option<TimeoutFailureMode>)
    ensures
        final(buf)@ == old(buf)@ + scalar_text(key@, opt_timeout_failure_mode_text(*field)),
{
    match field {
        None => {
            proof {
                assert(old(buf)@ + Seq::<char>::empty() =~= old(buf)@);
            }
        },
        Some(v) => {
            write_line(buf, key, v.token());
        },
    }
}

/// Out-of-memory killing policy.
#[derive(Debug, Clone, Copy)]
pub enum OomPolicy {
    Continue,
    Stop,
    Kill,
}

impl OomPolicy {
    /// The exact configuration token of each value.
    pub open spec fn token_spec(self) -> Seq<char> {
        match self {
            OomPolicy::Continue => "continue"@,
            OomPolicy::Stop => "stop"@,
            OomPolicy::Kill => "kill"@,
        }
    }

    /// The token as rendered into the unit file.
    pub fn token(&self) -> (r: &'static str)
        ensures
            r@ == self.token_spec(),
    {
        match self {
            OomPolicy::Continue => "continue",
            OomPolicy::Stop => "stop",
            OomPolicy::Kill => "kill",
        }
    }
}

pub open spec fn opt_oom_policy_text(field: Option<OomPolicy>) -> Option<Seq<char>> {
    match field {
        None => None,
        Some(v) => Some(v.token_spec()),
    }
}

pub fn write_oom_policy(buf: &mut String, key: &str, field: &Option<OomPolicy>)
    ensures
        final(buf)@ == old(buf)@ + scalar_text(key@, opt_oom_policy_text(*field)),
{
    match field {
        None => {
            proof {
                assert(old(buf)@ + Seq::<char>::empty() =~= old(buf)@);
            }
        },
        Some(v) => {
            write_line(buf, key, v.token());
        },
    }
}

/// The text contributed by the embedded execution-environment record:
/// its own rendered lines, or nothing when it is absent.
pub open spec fn exec_text(field: Option<Exec>) -> Seq<char> {
    match field {
        None => Seq::<char>::empty(),
        Some(e) => e.text_spec(),
    }
}

/// Represents the [Service] section of a systemd unit file.
#[derive(Debug, Clone)]
pub struct Service {
    /// The mechanism via which the service notifies the manager that start-up finished.
    pub service_type: Option<ServiceType>,
    /// When the manager should consider the service to be finished.
    pub exit_type: Option<ExitType>,
    /// Whether the service shall be considered active even when all its processes exited.
    pub remain_after_exit: Option<bool>,
    /// Whether systemd should try to guess the main PID of a service.
    pub guess_main_pid: Option<bool>,
    /// Path referring to the PID file of the service.
    pub pid_file: Option<String>,
    /// D-Bus destination name that this service shall use.
    pub bus_name: Option<String>,
    /// Commands that are executed when this service is started.
    pub exec_start: Option<Vec<String>>,
    /// Commands executed before ExecStart=.
    pub exec_start_pre: Option<Vec<String>>,
    /// Commands executed after ExecStart=.
    pub exec_start_post: Option<Vec<String>>,
    /// Optional commands executed before ExecStartPre=.
    pub exec_condition: Option<Vec<String>>,
    /// Commands to execute to trigger a configuration reload.
    pub exec_reload: Option<Vec<String>>,
    /// Commands to execute to stop the service.
    pub exec_stop: Option<Vec<String>>,
    /// Commands executed after the service is stopped.
    pub exec_stop_post: Option<Vec<String>>,
    /// Time to sleep before restarting a service.
    pub restart_sec: Option<u64>,
    /// Number of steps to increase restart interval.
    pub restart_steps: Option<u32>,
    /// Longest time to sleep before restarting.
    pub restart_max_delay_sec: Option<String>,
    /// Time to wait for start-up.
    pub timeout_start_sec: Option<String>,
    /// Time to wait for stop.
    pub timeout_stop_sec: Option<String>,
    /// Time to wait for abort after watchdog timeout.
    pub timeout_abort_sec: Option<String>,
    /// Shorthand for configuring both TimeoutStartSec= and TimeoutStopSec=.
    pub timeout_sec: Option<String>,
    /// Action taken when the start timeout is hit.
    pub timeout_start_failure_mode: Option<TimeoutFailureMode>,
    /// Action taken when the stop timeout is hit.
    pub timeout_stop_failure_mode: Option<TimeoutFailureMode>,
    /// Maximum time for the service to run.
    pub runtime_max_sec: Option<String>,
    /// Randomized extra time added to RuntimeMaxSec=.
    pub runtime_randomized_extra_sec: Option<String>,
    /// Watchdog timeout for a service.
    pub watchdog_sec: Option<String>,
    /// Whether the service shall be restarted when the service process exits.
    pub restart: Option<RestartType>,
    /// How a service should restart.
    pub restart_mode: Option<RestartMode>,
    /// Exit statuses considered successful termination.
    pub success_exit_status: Option<Vec<String>>,
    /// Exit statuses that prevent automatic service restarts.
    pub restart_prevent_exit_status: Option<Vec<String>>,
    /// Exit statuses that force automatic service restarts.
    pub restart_force_exit_status: Option<Vec<String>>,
    /// Whether the root directory is only applied to ExecStart=.
    pub root_directory_start_only: Option<bool>,
    /// Set the O_NONBLOCK flag for socket-based activation file descriptors.
    pub non_blocking: Option<bool>,
    /// Controls access to the service status notification socket.
    pub notify_access: Option<NotifyAccess>,
    /// Socket units this service shall inherit socket file descriptors from.
    pub sockets: Option<Vec<String>>,
    /// How many file descriptors may be stored in the service manager.
    pub file_descriptor_store_max: Option<u32>,
    /// When to release the service's file descriptor store.
    pub file_descriptor_store_preserve: Option<String>,
    /// Location of the USB FunctionFS descriptors file.
    pub usb_function_descriptors: Option<String>,
    /// Location of the USB FunctionFS strings file.
    pub usb_function_strings: Option<String>,
    /// Out-of-memory killing policy.
    pub oom_policy: Option<OomPolicy>,
    /// Files or sockets to open and pass to the service.
    pub open_file: Option<Vec<String>>,
    /// UNIX process signal to send when reloading the service.
    pub reload_signal: Option<String>,
    /// Execution-environment settings for the service's processes; when
    /// present, its lines are rendered at the end of the [Service] block.
    pub execution: Option<Exec>,
}
impl Service {
    /// The section value with every field absent.
    pub open spec fn unset() -> Service {
        Service {
            service_type: None,
            exit_type: None,
            remain_after_exit: None,
            guess_main_pid: None,
            pid_file: None,
            bus_name: None,
            exec_start: None,
            exec_start_pre: None,
            exec_start_post: None,
            exec_condition: None,
            exec_reload: None,
            exec_stop: None,
            exec_stop_post: None,
            restart_sec: None,
            restart_steps: None,
            restart_max_delay_sec: None,
            timeout_start_sec: None,
            timeout_stop_sec: None,
            timeout_abort_sec: None,
            timeout_sec: None,
            timeout_start_failure_mode: None,
            timeout_stop_failure_mode: None,
            runtime_max_sec: None,
            runtime_randomized_extra_sec: None,
            watchdog_sec: None,
            restart: None,
            restart_mode: None,
            success_exit_status: None,
            restart_prevent_exit_status: None,
            restart_force_exit_status: None,
            root_directory_start_only: None,
            non_blocking: None,
            notify_access: None,
            sockets: None,
            file_descriptor_store_max: None,
            file_descriptor_store_preserve: None,
            usb_function_descriptors: None,
            usb_function_strings: None,
            oom_policy: None,
            open_file: None,
            reload_signal: None,
            execution: None,
        }
    }
    /// The full text of the rendered section block.
    #[verifier::opaque]
    pub open spec fn text_spec(self) -> Seq<char> {
        "[Service]\n"@
            + scalar_text("Type"@, opt_service_type_text(self.service_type))
            + scalar_text("ExitType"@, opt_exit_type_text(self.exit_type))
            + bool_text("RemainAfterExit"@, self.remain_after_exit)
            + bool_text("GuessMainPID"@, self.guess_main_pid)
            + scalar_text("PIDFile"@, opt_text(self.pid_file))
            + scalar_text("BusName"@, opt_text(self.bus_name))
            + multi_text("ExecCondition"@, opt_texts(self.exec_condition))
            + multi_text("ExecStartPre"@, opt_texts(self.exec_start_pre))
            + multi_text("ExecStart"@, opt_texts(self.exec_start))
            + multi_text("ExecStartPost"@, opt_texts(self.exec_start_post))
            + multi_text("ExecReload"@, opt_texts(self.exec_reload))
            + multi_text("ExecStop"@, opt_texts(self.exec_stop))
            + multi_text("ExecStopPost"@, opt_texts(self.exec_stop_post))
            + scalar_text("Restart"@, opt_restart_type_text(self.restart))
            + scalar_text("RestartMode"@, opt_restart_mode_text(self.restart_mode))
            + scalar_text("RestartSec"@, opt_u64_text(self.restart_sec))
            + scalar_text("RestartSteps"@, opt_u32_text(self.restart_steps))
            + scalar_text("RestartMaxDelaySec"@, opt_text(self.restart_max_delay_sec))
            + list_text("SuccessExitStatus"@, opt_texts(self.success_exit_status))
            + list_text("RestartPreventExitStatus"@, opt_texts(self.restart_prevent_exit_status))
            + list_text("RestartForceExitStatus"@, opt_texts(self.restart_force_exit_status))
            + scalar_text("TimeoutStartSec"@, opt_text(self.timeout_start_sec))
            + scalar_text("TimeoutStopSec"@, opt_text(self.timeout_stop_sec))
            + scalar_text("TimeoutAbortSec"@, opt_text(self.timeout_abort_sec))
            + scalar_text("TimeoutSec"@, opt_text(self.timeout_sec))
            + scalar_text("TimeoutStartFailureMode"@, opt_timeout_failure_mode_text(self.timeout_start_failure_mode))
            + scalar_text("TimeoutStopFailureMode"@, opt_timeout_failure_mode_text(self.timeout_stop_failure_mode))
            + scalar_text("RuntimeMaxSec"@, opt_text(self.runtime_max_sec))
            + scalar_text("RuntimeRandomizedExtraSec"@, opt_text(self.runtime_randomized_extra_sec))
            + scalar_text("WatchdogSec"@, opt_text(self.watchdog_sec))
            + bool_text("RootDirectoryStartOnly"@, self.root_directory_start_only)
            + bool_text("NonBlocking"@, self.non_blocking)
            + scalar_text("NotifyAccess"@, opt_notify_access_text(self.notify_access))
            + list_text("Sockets"@, opt_texts(self.sockets))
            + scalar_text("FileDescriptorStoreMax"@, opt_u32_text(self.file_descriptor_store_max))
            + scalar_text("FileDescriptorStorePreserve"@, opt_text(self.file_descriptor_store_preserve))
            + scalar_text("USBFunctionDescriptors"@, opt_text(self.usb_function_descriptors))
            + scalar_text("USBFunctionStrings"@, opt_text(self.usb_function_strings))
            + scalar_text("OOMPolicy"@, opt_oom_policy_text(self.oom_policy))
            + list_text("OpenFile"@, opt_texts(self.open_file))
            + scalar_text("ReloadSignal"@, opt_text(self.reload_signal))
            + exec_text(self.execution)
    }
    /// Every field value meets its documented constraint.  All [Service]
    /// constraints are structural: illegal tokens are unrepresentable in the
    /// enum-typed fields.
    pub open spec fn valid(self) -> bool {
        true
    }

    /// Validate the service configuration according to systemd specifications.
    pub fn validate(&self) -> (r: Result<(), String>)
        ensures
            r is Ok <==> self.valid(),
    {
        Ok(())
    }

    /// Render the section into its text block, in the fixed field order.
    #[verifier::rlimit(50)]
    pub fn render(&self) -> (r: String)
        ensures
            r@ == self.text_spec(),
    {
        proof {
            reveal(Service::text_spec);
        }
        let mut buf = String::from_str("[Service]\n");
        write_service_type(&mut buf, "Type", &self.service_type);
        write_exit_type(&mut buf, "ExitType", &self.exit_type);
        write_bool(&mut buf, "RemainAfterExit", &self.remain_after_exit);
        write_bool(&mut buf, "GuessMainPID", &self.guess_main_pid);
        write_scalar(&mut buf, "PIDFile", &self.pid_file);
        write_scalar(&mut buf, "BusName", &self.bus_name);
        write_multi(&mut buf, "ExecCondition", &self.exec_condition);
        write_multi(&mut buf, "ExecStartPre", &self.exec_start_pre);
        write_multi(&mut buf, "ExecStart", &self.exec_start);
        write_multi(&mut buf, "ExecStartPost", &self.exec_start_post);
        write_multi(&mut buf, "ExecReload", &self.exec_reload);
        write_multi(&mut buf, "ExecStop", &self.exec_stop);
        write_multi(&mut buf, "ExecStopPost", &self.exec_stop_post);
        write_restart_type(&mut buf, "Restart", &self.restart);
        write_restart_mode(&mut buf, "RestartMode", &self.restart_mode);
        write_u64(&mut buf, "RestartSec", &self.restart_sec);
        write_u32(&mut buf, "RestartSteps", &self.restart_steps);
        write_scalar(&mut buf, "RestartMaxDelaySec", &self.restart_max_delay_sec);
        write_list(&mut buf, "SuccessExitStatus", &self.success_exit_status);
        write_list(&mut buf, "RestartPreventExitStatus", &self.restart_prevent_exit_status);
        write_list(&mut buf, "RestartForceExitStatus", &self.restart_force_exit_status);
        write_scalar(&mut buf, "TimeoutStartSec", &self.timeout_start_sec);
        write_scalar(&mut buf, "TimeoutStopSec", &self.timeout_stop_sec);
        write_scalar(&mut buf, "TimeoutAbortSec", &self.timeout_abort_sec);
        write_scalar(&mut buf, "TimeoutSec", &self.timeout_sec);
        write_timeout_failure_mode(&mut buf, "TimeoutStartFailureMode", &self.timeout_start_failure_mode);
        write_timeout_failure_mode(&mut buf, "TimeoutStopFailureMode", &self.timeout_stop_failure_mode);
        write_scalar(&mut buf, "RuntimeMaxSec", &self.runtime_max_sec);
        write_scalar(&mut buf, "RuntimeRandomizedExtraSec", &self.runtime_randomized_extra_sec);
        write_scalar(&mut buf, "WatchdogSec", &self.watchdog_sec);
        write_bool(&mut buf, "RootDirectoryStartOnly", &self.root_directory_start_only);
        write_bool(&mut buf, "NonBlocking", &self.non_blocking);
        write_notify_access(&mut buf, "NotifyAccess", &self.notify_access);
        write_list(&mut buf, "Sockets", &self.sockets);
        write_u32(&mut buf, "FileDescriptorStoreMax", &self.file_descriptor_store_max);
        write_scalar(&mut buf, "FileDescriptorStorePreserve", &self.file_descriptor_store_preserve);
        write_scalar(&mut buf, "USBFunctionDescriptors", &self.usb_function_descriptors);
        write_scalar(&mut buf, "USBFunctionStrings", &self.usb_function_strings);
        write_oom_policy(&mut buf, "OOMPolicy", &self.oom_policy);
        write_list(&mut buf, "OpenFile", &self.open_file);
        write_scalar(&mut buf, "ReloadSignal", &self.reload_signal);
        match &self.execution {
            None => {
                proof {
                    assert(buf@ + Seq::<char>::empty() =~= buf@);
                }
            },
            Some(e) => {
                let lines = e.render();
                buf.append(lines.as_str());
            },
        }
        buf
    }
    pub fn service_type(self, value: ServiceType) -> (r: Self)
        ensures
            r == (Service { service_type: Some(value), ..self }),
    {
        Service { service_type: Some(value), ..self }
    }

    pub fn exit_type(self, value: ExitType) -> (r: Self)
        ensures
            r == (Service { exit_type: Some(value), ..self }),
    {
        Service { exit_type: Some(value), ..self }
    }

    pub fn remain_after_exit(self, value: bool) -> (r: Self)
        ensures
            r == (Service { remain_after_exit: Some(value), ..self }),
    {
        Service { remain_after_exit: Some(value), ..self }
    }

    pub fn guess_main_pid(self, value: bool) -> (r: Self)
        ensures
            r == (Service { guess_main_pid: Some(value), ..self }),
    {
        Service { guess_main_pid: Some(value), ..self }
    }

    pub fn pid_file(self, value: String) -> (r: Self)
        ensures
            r == (Service { pid_file: Some(value), ..self }),
    {
        Service { pid_file: Some(value), ..self }
    }

    pub fn bus_name(self, value: String) -> (r: Self)
        ensures
            r == (Service { bus_name: Some(value), ..self }),
    {
        Service { bus_name: Some(value), ..self }
    }

    pub fn exec_start(self, value: Vec<String>) -> (r: Self)
        ensures
            r == (Service { exec_start: Some(value), ..self }),
    {
        Service { exec_start: Some(value), ..self }
    }

    pub fn exec_start_pre(self, value: Vec<String>) -> (r: Self)
        ensures
            r == (Service { exec_start_pre: Some(value), ..self }),
    {
        Service { exec_start_pre: Some(value), ..self }
    }

    pub fn exec_start_post(self, value: Vec<String>) -> (r: Self)
        ensures
            r == (Service { exec_start_post: Some(value), ..self }),
    {
        Service { exec_start_post: Some(value), ..self }
    }

    pub fn exec_condition(self, value: Vec<String>) -> (r: Self)
        ensures
            r == (Service { exec_condition: Some(value), ..self }),
    {
        Service { exec_condition: Some(value), ..self }
    }

    pub fn exec_reload(self, value: Vec<String>) -> (r: Self)
        ensures
            r == (Service { exec_reload: Some(value), ..self }),
    {
        Service { exec_reload: Some(value), ..self }
    }

    pub fn exec_stop(self, value: Vec<String>) -> (r: Self)
        ensures
            r == (Service { exec_stop: Some(value), ..self }),
    {
        Service { exec_stop: Some(value), ..self }
    }

    pub fn exec_stop_post(self, value: Vec<String>) -> (r: Self)
        ensures
            r == (Service { exec_stop_post: Some(value), ..self }),
    {
        Service { exec_stop_post: Some(value), ..self }
    }

    pub fn restart_sec(self, value: u64) -> (r: Self)
        ensures
            r == (Service { restart_sec: Some(value), ..self }),
    {
        Service { restart_sec: Some(value), ..self }
    }

    pub fn restart_steps(self, value: u32) -> (r: Self)
        ensures
            r == (Service { restart_steps: Some(value), ..self }),
    {
        Service { restart_steps: Some(value), ..self }
    }

    pub fn restart_max_delay_sec(self, value: String) -> (r: Self)
        ensures
            r == (Service { restart_max_delay_sec: Some(value), ..self }),
    {
        Service { restart_max_delay_sec: Some(value), ..self }
    }

    pub fn timeout_start_sec(self, value: String) -> (r: Self)
        ensures
            r == (Service { timeout_start_sec: Some(value), ..self }),
    {
        Service { timeout_start_sec: Some(value), ..self }
    }

    pub fn timeout_stop_sec(self, value: String) -> (r: Self)
        ensures
            r == (Service { timeout_stop_sec: Some(value), ..self }),
    {
        Service { timeout_stop_sec: Some(value), ..self }
    }

    pub fn timeout_abort_sec(self, value: String) -> (r: Self)
        ensures
            r == (Service { timeout_abort_sec: Some(value), ..self }),
    {
        Service { timeout_abort_sec: Some(value), ..self }
    }

    pub fn timeout_sec(self, value: String) -> (r: Self)
        ensures
            r == (Service { timeout_sec: Some(value), ..self }),
    {
        Service { timeout_sec: Some(value), ..self }
    }

    pub fn timeout_start_failure_mode(self, value: TimeoutFailureMode) -> (r: Self)
        ensures
            r == (Service { timeout_start_failure_mode: Some(value), ..self }),
    {
        Service { timeout_start_failure_mode: Some(value), ..self }
    }

    pub fn timeout_stop_failure_mode(self, value: TimeoutFailureMode) -> (r: Self)
        ensures
            r == (Service { timeout_stop_failure_mode: Some(value), ..self }),
    {
        Service { timeout_stop_failure_mode: Some(value), ..self }
    }

    pub fn runtime_max_sec(self, value: String) -> (r: Self)
        ensures
            r == (Service { runtime_max_sec: Some(value), ..self }),
    {
        Service { runtime_max_sec: Some(value), ..self }
    }

    pub fn runtime_randomized_extra_sec(self, value: String) -> (r: Self)
        ensures
            r == (Service { runtime_randomized_extra_sec: Some(value), ..self }),
    {
        Service { runtime_randomized_extra_sec: Some(value), ..self }
    }

    pub fn watchdog_sec(self, value: String) -> (r: Self)
        ensures
            r == (Service { watchdog_sec: Some(value), ..self }),
    {
        Service { watchdog_sec: Some(value), ..self }
    }

    pub fn restart(self, value: RestartType) -> (r: Self)
        ensures
            r == (Service { restart: Some(value), ..self }),
    {
        Service { restart: Some(value), ..self }
    }

    pub fn restart_mode(self, value: RestartMode) -> (r: Self)
        ensures
            r == (Service { restart_mode: Some(value), ..self }),
    {
        Service { restart_mode: Some(value), ..self }
    }

    pub fn success_exit_status(self, value: Vec<String>) -> (r: Self)
        ensures
            r == (Service { success_exit_status: Some(value), ..self }),
    {
        Service { success_exit_status: Some(value), ..self }
    }

    pub fn restart_prevent_exit_status(self, value: Vec<String>) -> (r: Self)
        ensures
            r == (Service { restart_prevent_exit_status: Some(value), ..self }),
    {
        Service { restart_prevent_exit_status: Some(value), ..self }
    }

    pub fn restart_force_exit_status(self, value: Vec<String>) -> (r: Self)
        ensures
            r == (Service { restart_force_exit_status: Some(value), ..self }),
    {
        Service { restart_force_exit_status: Some(value), ..self }
    }

    pub fn root_directory_start_only(self, value: bool) -> (r: Self)
        ensures
            r == (Service { root_directory_start_only: Some(value), ..self }),
    {
        Service { root_directory_start_only: Some(value), ..self }
    }

    pub fn non_blocking(self, value: bool) -> (r: Self)
        ensures
            r == (Service { non_blocking: Some(value), ..self }),
    {
        Service { non_blocking: Some(value), ..self }
    }

    pub fn notify_access(self, value: NotifyAccess) -> (r: Self)
        ensures
            r == (Service { notify_access: Some(value), ..self }),
    {
        Service { notify_access: Some(value), ..self }
    }

    pub fn sockets(self, value: Vec<String>) -> (r: Self)
        ensures
            r == (Service { sockets: Some(value), ..self }),
    {
        Service { sockets: Some(value), ..self }
    }

    pub fn file_descriptor_store_max(self, value: u32) -> (r: Self)
        ensures
            r == (Service { file_descriptor_store_max: Some(value), ..self }),
    {
        Service { file_descriptor_store_max: Some(value), ..self }
    }

    pub fn file_descriptor_store_preserve(self, value: String) -> (r: Self)
        ensures
            r == (Service { file_descriptor_store_preserve: Some(value), ..self }),
    {
        Service { file_descriptor_store_preserve: Some(value), ..self }
    }

    pub fn usb_function_descriptors(self, value: String) -> (r: Self)
        ensures
            r == (Service { usb_function_descriptors: Some(value), ..self }),
    {
        Service { usb_function_descriptors: Some(value), ..self }
    }

    pub fn usb_function_strings(self, value: String) -> (r: Self)
        ensures
            r == (Service { usb_function_strings: Some(value), ..self }),
    {
        Service { usb_function_strings: Some(value), ..self }
    }

    pub fn oom_policy(self, value: OomPolicy) -> (r: Self)
        ensures
            r == (Service { oom_policy: Some(value), ..self }),
    {
        Service { oom_policy: Some(value), ..self }
    }

    pub fn open_file(self, value: Vec<String>) -> (r: Self)
        ensures
            r == (Service { open_file: Some(value), ..self }),
    {
        Service { open_file: Some(value), ..self }
    }

    pub fn reload_signal(self, value: String) -> (r: Self)
        ensures
            r == (Service { reload_signal: Some(value), ..self }),
    {
        Service { reload_signal: Some(value), ..self }
    }

    pub fn execution(self, value: Exec) -> (r: Self)
        ensures
            r == (Service { execution: Some(value), ..self }),
    {
        Service { execution: Some(value), ..self }
    }
}

impl Default for Service {
    /// The all-absent section value.
    fn default() -> (r: Self)
        ensures
            r == Service::unset(),
    {
        Service {
            service_type: None,
            exit_type: None,
            remain_after_exit: None,
            guess_main_pid: None,
            pid_file: None,
            bus_name: None,
            exec_start: None,
            exec_start_pre: None,
            exec_start_post: None,
            exec_condition: None,
            exec_reload: None,
            exec_stop: None,
            exec_stop_post: None,
            restart_sec: None,
            restart_steps: None,
            restart_max_delay_sec: None,
            timeout_start_sec: None,
            timeout_stop_sec: None,
            timeout_abort_sec: None,
            timeout_sec: None,
            timeout_start_failure_mode: None,
            timeout_stop_failure_mode: None,
            runtime_max_sec: None,
            runtime_randomized_extra_sec: None,
            watchdog_sec: None,
            restart: None,
            restart_mode: None,
            success_exit_status: None,
            restart_prevent_exit_status: None,
            restart_force_exit_status: None,
            root_directory_start_only: None,
            non_blocking: None,
            notify_access: None,
            sockets: None,
            file_descriptor_store_max: None,
            file_descriptor_store_preserve: None,
            usb_function_descriptors: None,
            usb_function_strings: None,
            oom_policy: None,
            open_file: None,
            reload_signal: None,
            execution: None,
        }
    }
}

/// A default-constructed [Service] section renders to exactly its one
/// header line: every field is unset, so no field line is emitted.
pub proof fn lemma_unset_service_renders_header()
    ensures
        Service::unset().text_spec() == "[Service]\n"@,
{
    reveal(Service::text_spec);
    assert(Service::unset().text_spec() =~= "[Service]\n"@);
}

} // verus!
