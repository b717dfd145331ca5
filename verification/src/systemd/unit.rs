//! The [Unit] section of a systemd unit file, with its closed option vocabularies.

use crate::systemd::checks::cap_ok;
use crate::systemd::checks::doc_uri_ok;
use crate::systemd::checks::first_bad_cap;
use crate::systemd::checks::first_bad_doc_uri;
use crate::systemd::checks::opt_all_caps_ok;
use crate::systemd::checks::opt_all_doc_uris_ok;
use crate::systemd::render::bool_text;
use crate::systemd::render::list_text;
use crate::systemd::render::opt_text;
use crate::systemd::render::opt_texts;
use crate::systemd::render::opt_u32_text;
use crate::systemd::render::opt_u64_text;
use crate::systemd::render::opt_u8_text;
use crate::systemd::render::scalar_text;
use crate::systemd::render::write_bool;
use crate::systemd::render::write_line;
use crate::systemd::render::write_list;
use crate::systemd::render::write_scalar;
use crate::systemd::render::write_u32;
use crate::systemd::render::write_u64;
use crate::systemd::render::write_u8;
use crate::text::join_spaced_exec;
use crate::text::texts_of;
use vstd::prelude::*;
use vstd::string::StrSliceExecFns;
use vstd::string::StringExecFns;

verus! {
/// Garbage-collection mode for a unit.
#[derive(Debug, Clone, Copy)]
pub enum CollectMode {
    Inactive,
    InactiveOrFailed,
}

impl CollectMode {
    /// The exact configuration token of each value.
    pub open spec fn token_spec(self) -> Seq<char> {
        match self {
            CollectMode::Inactive => "inactive"@,
            CollectMode::InactiveOrFailed => "inactive-or-failed"@,
        }
    }

    /// The token as rendered into the unit file.
    pub fn token(&self) -> (r: &'static str)
        ensures
            r@ == self.token_spec(),
    {
        match self {
            CollectMode::Inactive => "inactive",
            CollectMode::InactiveOrFailed => "inactive-or-failed",
        }
    }
}

pub open spec fn opt_collect_mode_text(field: Option<CollectMode>) -> Option<Seq<char>> {
    match field {
        None => None,
        Some(v) => Some(v.token_spec()),
    }
}

pub fn write_collect_mode(buf: &mut String, key: &str, field: &Option<CollectMode>)
    ensures
        final(buf)@ == old(buf)@ + scalar_text(key@, opt_collect_mode_text(*field)),
{
    match field {
        None => {
            proof {
                assert(old(buf)@ + Seq::<char>::empty() =~= old(buf)@);
            }
        },
        Some(v) => {
            write_line(buf, key, v.token());
        },
    }
}

/// Job mode for OnSuccess=/OnFailure= units.
#[derive(Debug, Clone, Copy)]
pub enum JobMode {
    Fail,
    Replace,
    ReplaceIrreversibly,
    Isolate,
    Flush,
    IgnoreDependencies,
    IgnoreRequirements,
}

impl JobMode {
    /// The exact configuration token of each value.
    pub open spec fn token_spec(self) -> Seq<char> {
        match self {
            JobMode::Fail => "fail"@,
            JobMode::Replace => "replace"@,
            JobMode::ReplaceIrreversibly => "replace-irreversibly"@,
            JobMode::Isolate => "isolate"@,
            JobMode::Flush => "flush"@,
            JobMode::IgnoreDependencies => "ignore-dependencies"@,
            JobMode::IgnoreRequirements => "ignore-requirements"@,
        }
    }

    /// The token as rendered into the unit file.
    pub fn token(&self) -> (r: &'static str)
        ensures
            r@ == self.token_spec(),
    {
        match self {
            JobMode::Fail => "fail",
            JobMode::Replace => "replace",
            JobMode::ReplaceIrreversibly => "replace-irreversibly",
            JobMode::Isolate => "isolate",
            JobMode::Flush => "flush",
            JobMode::IgnoreDependencies => "ignore-dependencies",
            JobMode::IgnoreRequirements => "ignore-requirements",
        }
    }
}

pub open spec fn opt_job_mode_text(field: Option<JobMode>) -> Option<Seq<char>> {
    match field {
        None => None,
        Some(v) => Some(v.token_spec()),
    }
}

pub fn write_job_mode(buf: &mut String, key: &str, field: &Option<JobMode>)
    ensures
        final(buf)@ == old(buf)@ + scalar_text(key@, opt_job_mode_text(*field)),
{
    match field {
        None => {
            proof {
                assert(old(buf)@ + Seq::<char>::empty() =~= old(buf)@);
            }
        },
        Some(v) => {
            write_line(buf, key, v.token());
        },
    }
}

/// Action for failure/success/timeout scenarios.
#[derive(Debug, Clone, Copy)]
pub enum Action {
    NoAction,
    Reboot,
    RebootForce,
    RebootImmediate,
    Poweroff,
    PoweroffForce,
    PoweroffImmediate,
    Exit,
    ExitForce,
    SoftReboot,
    SoftRebootForce,
    Kexec,
    KexecForce,
    Halt,
    HaltForce,
    HaltImmediate,
}

impl Action {
    /// The exact configuration token of each value.
    pub open spec fn token_spec(self) -> Seq<char> {
        match self {
            Action::NoAction => "none"@,
            Action::Reboot => "reboot"@,
            Action::RebootForce => "reboot-force"@,
            Action::RebootImmediate => "reboot-immediate"@,
            Action::Poweroff => "poweroff"@,
            Action::PoweroffForce => "poweroff-force"@,
            Action::PoweroffImmediate => "poweroff-immediate"@,
            Action::Exit => "exit"@,
            Action::ExitForce => "exit-force"@,
            Action::SoftReboot => "soft-reboot"@,
            Action::SoftRebootForce => "soft-reboot-force"@,
            Action::Kexec => "kexec"@,
            Action::KexecForce => "kexec-force"@,
            Action::Halt => "halt"@,
            Action::HaltForce => "halt-force"@,
            Action::HaltImmediate => "halt-immediate"@,
        }
    }

    /// The token as rendered into the unit file.
    pub fn token(&self) -> (r: &'static str)
        ensures
            r@ == self.token_spec(),
    {
        match self {
            Action::NoAction => "none",
            Action::Reboot => "reboot",
            Action::RebootForce => "reboot-force",
            Action::RebootImmediate => "reboot-immediate",
            Action::Poweroff => "poweroff",
            Action::PoweroffForce => "poweroff-force",
            Action::PoweroffImmediate => "poweroff-immediate",
            Action::Exit => "exit",
            Action::ExitForce => "exit-force",
            Action::SoftReboot => "soft-reboot",
            Action::SoftRebootForce => "soft-reboot-force",
            Action::Kexec => "kexec",
            Action::KexecForce => "kexec-force",
            Action::Halt => "halt",
            Action::HaltForce => "halt-force",
            Action::HaltImmediate => "halt-immediate",
        }
    }
}

pub open spec fn opt_action_text(field: Option<Action>) -> Option<Seq<char>> {
    match field {
        None => None,
        Some(v) => Some(v.token_spec()),
    }
}

pub fn write_action(buf: &mut String, key: &str, field: &Option<Action>)
    ensures
        final(buf)@ == old(buf)@ + scalar_text(key@, opt_action_text(*field)),
{
    match field {
        None => {
            proof {
                assert(old(buf)@ + Seq::<char>::empty() =~= old(buf)@);
            }
        },
        Some(v) => {
            write_line(buf, key, v.token());
        },
    }
}

/// Security technology for condition/assert checks.
#[derive(Debug, Clone, Copy)]
pub enum SecurityTech {
    Selinux,
    Apparmor,
    Tomoyo,
    Smack,
    Ima,
    Audit,
    UefiSecureboot,
    Tpm2,
    Cvm,
    MeasuredUki,
}

impl SecurityTech {
    /// The exact configuration token of each value.
    pub open spec fn token_spec(self) -> Seq<char> {
        match self {
            SecurityTech::Selinux => "selinux"@,
            SecurityTech::Apparmor => "apparmor"@,
            SecurityTech::Tomoyo => "tomoyo"@,
            SecurityTech::Smack => "smack"@,
            SecurityTech::Ima => "ima"@,
            SecurityTech::Audit => "audit"@,
            SecurityTech::UefiSecureboot => "uefi-secureboot"@,
            SecurityTech::Tpm2 => "tpm2"@,
            SecurityTech::Cvm => "cvm"@,
            SecurityTech::MeasuredUki => "measured-uki"@,
        }
    }

    /// The token as rendered into the unit file.
    pub fn token(&self) -> (r: &'static str)
        ensures
            r@ == self.token_spec(),
    {
        match self {
            SecurityTech::Selinux => "selinux",
            SecurityTech::Apparmor => "apparmor",
            SecurityTech::Tomoyo => "tomoyo",
            SecurityTech::Smack => "smack",
            SecurityTech::Ima => "ima",
            SecurityTech::Audit => "audit",
            SecurityTech::UefiSecureboot => "uefi-secureboot",
            SecurityTech::Tpm2 => "tpm2",
            SecurityTech::Cvm => "cvm",
            SecurityTech::MeasuredUki => "measured-uki",
        }
    }
}

pub open spec fn opt_security_tech_text(field: Option<SecurityTech>) -> Option<Seq<char>> {
    match field {
        None => None,
        Some(v) => Some(v.token_spec()),
    }
}

pub fn write_security_tech(buf: &mut String, key: &str, field: &Option<SecurityTech>)
    ensures
        final(buf)@ == old(buf)@ + scalar_text(key@, opt_security_tech_text(*field)),
{
    match field {
        None => {
            proof {
                assert(old(buf)@ + Seq::<char>::empty() =~= old(buf)@);
            }
        },
        Some(v) => {
            write_line(buf, key, v.token());
        },
    }
}

/// Processor architecture for condition/assert checks.
#[derive(Debug, Clone, Copy)]
pub enum Architecture {
    X86,
    X8664,
    Ppc,
    PpcLe,
    Ppc64,
    Ppc64Le,
    Ia64,
    Parisc,
    Parisc64,
    S390,
    S390x,
    Sparc,
    Sparc64,
    Mips,
    MipsLe,
    Mips64,
    Mips64Le,
    Alpha,
    Arm,
    ArmBe,
    Arm64,
    Arm64Be,
    Sh,
    Sh64,
    M68k,
    Tilegx,
    Cris,
    Arc,
    ArcBe,
    Native,
}

impl Architecture {
    /// The exact configuration token of each value.
    pub open spec fn token_spec(self) -> Seq<char> {
        match self {
            Architecture::X86 => "x86"@,
            Architecture::X8664 => "x86-64"@,
            Architecture::Ppc => "ppc"@,
            Architecture::PpcLe => "ppc-le"@,
            Architecture::Ppc64 => "ppc64"@,
            Architecture::Ppc64Le => "ppc64-le"@,
            Architecture::Ia64 => "ia64"@,
            Architecture::Parisc => "parisc"@,
            Architecture::Parisc64 => "parisc64"@,
            Architecture::S390 => "s390"@,
            Architecture::S390x => "s390x"@,
            Architecture::Sparc => "sparc"@,
            Architecture::Sparc64 => "sparc64"@,
            Architecture::Mips => "mips"@,
            Architecture::MipsLe => "mips-le"@,
            Architecture::Mips64 => "mips64"@,
            Architecture::Mips64Le => "mips64-le"@,
            Architecture::Alpha => "alpha"@,
            Architecture::Arm => "arm"@,
            Architecture::ArmBe => "arm-be"@,
            Architecture::Arm64 => "arm64"@,
            Architecture::Arm64Be => "arm64-be"@,
            Architecture::Sh => "sh"@,
            Architecture::Sh64 => "sh64"@,
            Architecture::M68k => "m68k"@,
            Architecture::Tilegx => "tilegx"@,
            Architecture::Cris => "cris"@,
            Architecture::Arc => "arc"@,
            Architecture::ArcBe => "arc-be"@,
            Architecture::Native => "native"@,
        }
    }

    /// The token as rendered into the unit file.
    pub fn token(&self) -> (r: &'static str)
        ensures
            r@ == self.token_spec(),
    {
        match self {
            Architecture::X86 => "x86",
            Architecture::X8664 => "x86-64",
            Architecture::Ppc => "ppc",
            Architecture::PpcLe => "ppc-le",
            Architecture::Ppc64 => "ppc64",
            Architecture::Ppc64Le => "ppc64-le",
            Architecture::Ia64 => "ia64",
            Architecture::Parisc => "parisc",
            Architecture::Parisc64 => "parisc64",
            Architecture::S390 => "s390",
            Architecture::S390x => "s390x",
            Architecture::Sparc => "sparc",
            Architecture::Sparc64 => "sparc64",
            Architecture::Mips => "mips",
            Architecture::MipsLe => "mips-le",
            Architecture::Mips64 => "mips64",
            Architecture::Mips64Le => "mips64-le",
            Architecture::Alpha => "alpha",
            Architecture::Arm => "arm",
            Architecture::ArmBe => "arm-be",
            Architecture::Arm64 => "arm64",
            Architecture::Arm64Be => "arm64-be",
            Architecture::Sh => "sh",
            Architecture::Sh64 => "sh64",
            Architecture::M68k => "m68k",
            Architecture::Tilegx => "tilegx",
            Architecture::Cris => "cris",
            Architecture::Arc => "arc",
            Architecture::ArcBe => "arc-be",
            Architecture::Native => "native",
        }
    }
}

pub open spec fn opt_architecture_text(field: Option<Architecture>) -> Option<Seq<char>> {
    match field {
        None => None,
        Some(v) => Some(v.token_spec()),
    }
}

pub fn write_architecture(buf: &mut String, key: &str, field: &Option<Architecture>)
    ensures
        final(buf)@ == old(buf)@ + scalar_text(key@, opt_architecture_text(*field)),
{
    match field {
        None => {
            proof {
                assert(old(buf)@ + Seq::<char>::empty() =~= old(buf)@);
            }
        },
        Some(v) => {
            write_line(buf, key, v.token());
        },
    }
}

/// Virtualization technology for condition/assert checks.
#[derive(Debug, Clone, Copy)]
pub enum Virtualization {
    Vm,
    Container,
    Qemu,
    Kvm,
    Amazon,
    Zvm,
    Vmware,
    Microsoft,
    Oracle,
    Powervm,
    Xen,
    Bochs,
    Uml,
    Bhyve,
    Qnx,
    Apple,
    Sre,
    Openvz,
    Lxc,
    LxcLibvirt,
    SystemdNspawn,
    Docker,
    Podman,
    Rkt,
    Wsl,
    Proot,
    Pouch,
    Acrn,
    PrivateUsers,
}

impl Virtualization {
    /// The exact configuration token of each value.
    pub open spec fn token_spec(self) -> Seq<char> {
        match self {
            Virtualization::Vm => "vm"@,
            Virtualization::Container => "container"@,
            Virtualization::Qemu => "qemu"@,
            Virtualization::Kvm => "kvm"@,
            Virtualization::Amazon => "amazon"@,
            Virtualization::Zvm => "zvm"@,
            Virtualization::Vmware => "vmware"@,
            Virtualization::Microsoft => "microsoft"@,
            Virtualization::Oracle => "oracle"@,
            Virtualization::Powervm => "powervm"@,
            Virtualization::Xen => "xen"@,
            Virtualization::Bochs => "bochs"@,
            Virtualization::Uml => "uml"@,
            Virtualization::Bhyve => "bhyve"@,
            Virtualization::Qnx => "qnx"@,
            Virtualization::Apple => "apple"@,
            Virtualization::Sre => "sre"@,
            Virtualization::Openvz => "openvz"@,
            Virtualization::Lxc => "lxc"@,
            Virtualization::LxcLibvirt => "lxc-libvirt"@,
            Virtualization::SystemdNspawn => "systemd-nspawn"@,
            Virtualization::Docker => "docker"@,
            Virtualization::Podman => "podman"@,
            Virtualization::Rkt => "rkt"@,
            Virtualization::Wsl => "wsl"@,
            Virtualization::Proot => "proot"@,
            Virtualization::Pouch => "pouch"@,
            Virtualization::Acrn => "acrn"@,
            Virtualization::PrivateUsers => "private-users"@,
        }
    }

    /// The token as rendered into the unit file.
    pub fn token(&self) -> (r: &'static str)
        ensures
            r@ == self.token_spec(),
    {
        match self {
            Virtualization::Vm => "vm",
            Virtualization::Container => "container",
            Virtualization::Qemu => "qemu",
            Virtualization::Kvm => "kvm",
            Virtualization::Amazon => "amazon",
            Virtualization::Zvm => "zvm",
            Virtualization::Vmware => "vmware",
            Virtualization::Microsoft => "microsoft",
            Virtualization::Oracle => "oracle",
            Virtualization::Powervm => "powervm",
            Virtualization::Xen => "xen",
            Virtualization::Bochs => "bochs",
            Virtualization::Uml => "uml",
            Virtualization::Bhyve => "bhyve",
            Virtualization::Qnx => "qnx",
            Virtualization::Apple => "apple",
            Virtualization::Sre => "sre",
            Virtualization::Openvz => "openvz",
            Virtualization::Lxc => "lxc",
            Virtualization::LxcLibvirt => "lxc-libvirt",
            Virtualization::SystemdNspawn => "systemd-nspawn",
            Virtualization::Docker => "docker",
            Virtualization::Podman => "podman",
            Virtualization::Rkt => "rkt",
            Virtualization::Wsl => "wsl",
            Virtualization::Proot => "proot",
            Virtualization::Pouch => "pouch",
            Virtualization::Acrn => "acrn",
            Virtualization::PrivateUsers => "private-users",
        }
    }
}

pub open spec fn opt_virtualization_text(field: Option<Virtualization>) -> Option<Seq<char>> {
    match field {
        None => None,
        Some(v) => Some(v.token_spec()),
    }
}

pub fn write_virtualization(buf: &mut String, key: &str, field: &Option<Virtualization>)
    ensures
        final(buf)@ == old(buf)@ + scalar_text(key@, opt_virtualization_text(*field)),
{
    match field {
        None => {
            proof {
                assert(old(buf)@ + Seq::<char>::empty() =~= old(buf)@);
            }
        },
        Some(v) => {
            write_line(buf, key, v.token());
        },
    }
}

pub open spec fn security_tech_texts(items: Seq<SecurityTech>) -> Seq<Seq<char>> {
    items.map_values(|t: SecurityTech| t.token_spec())
}

pub open spec fn opt_security_tech_list_texts(field: Option<Vec<SecurityTech>>) -> Option<Seq<Seq<char>>> {
    match field {
        None => None,
        Some(v) => Some(security_tech_texts(v@)),
    }
}

pub fn write_security_tech_list(buf: &mut String, key: &str, field: &Option<Vec<SecurityTech>>)
    ensures
        final(buf)@ == old(buf)@ + list_text(key@, opt_security_tech_list_texts(*field)),
{
    match field {
        None => {
            proof {
                assert(old(buf)@ + Seq::<char>::empty() =~= old(buf)@);
            }
        },
        Some(items) => {
            if items.len() > 0 {
                let mut tokens: Vec<String> = Vec::new();
                proof {
                    assert(texts_of(tokens@) =~= security_tech_texts(items@).take(0));
                }
                let mut i: usize = 0;
                while i < items.len()
                    invariant
                        0 <= i <= items@.len(),
                        tokens@.len() == i as int,
                        texts_of(tokens@) == security_tech_texts(items@).take(i as int),
                    decreases items@.len() - i,
                {
                    let ghost prev = tokens@;
                    tokens.push(String::from_str(items[i].token()));
                    proof {
                        assert(security_tech_texts(items@).len() == items@.len());
                        assert(tokens@[i as int]@ == items@[i as int].token_spec());
                        assert forall|j: int| 0 <= j < i + 1 implies texts_of(tokens@)[j]
                            == security_tech_texts(items@).take(i + 1)[j] by {
                            if j < i {
                                assert(texts_of(prev)[j] == security_tech_texts(items@).take(
                                    i as int,
                                )[j]);
                            }
                        }
                        assert(texts_of(tokens@) =~= security_tech_texts(items@).take(i + 1));
                    }
                    i += 1;
                }
                proof {
                    assert(security_tech_texts(items@).take(items@.len() as int) =~= security_tech_texts(items@));
                }
                let joined = join_spaced_exec(&tokens);
                write_line(buf, key, joined.as_str());
            } else {
                proof {
                    assert(security_tech_texts(items@).len() == 0);
                    assert(old(buf)@ + Seq::<char>::empty() =~= old(buf)@);
                }
            }
        },
    }
}

/// Represents the [Unit] section of a systemd unit file: generic
/// information about the unit not dependent on the type of unit.
#[derive(Debug, Clone)]
pub struct Unit {
    /// A brief, meaningful, human-readable text identifying the unit.
    pub description: Option<String>,
    /// URIs referencing documentation for this unit or its configuration.
    pub documentation: Option<Vec<String>>,
    /// Configures (weak) requirement dependencies on other units.
    pub wants: Option<Vec<String>>,
    /// Configures requirement dependencies on other units.
    pub requires: Option<Vec<String>>,
    /// Similar to Requires=, but must be already active when this unit is started.
    pub requisite: Option<Vec<String>>,
    /// Requirement dependencies that also stop this unit if the bound unit stops.
    pub binds_to: Option<Vec<String>>,
    /// Dependencies similar to Requires=, limited to stopping and restarting.
    pub part_of: Option<Vec<String>>,
    /// Continuously restarts the listed units if they become inactive or failed.
    pub upholds: Option<Vec<String>>,
    /// Configures negative requirement dependencies.
    pub conflicts: Option<Vec<String>>,
    /// Units listed will be started before this unit.
    pub before: Option<Vec<String>>,
    /// Units listed will be started after this unit.
    pub after: Option<Vec<String>>,
    /// Units to activate when this unit enters the "failed" state.
    pub on_failure: Option<Vec<String>>,
    /// Units to activate when this unit enters the "inactive" state.
    pub on_success: Option<Vec<String>>,
    /// Units to which reload requests from this unit shall be propagated.
    pub propagates_reload_to: Option<Vec<String>>,
    /// Units from which reload requests shall be propagated to this unit.
    pub reload_propagated_from: Option<Vec<String>>,
    /// Units to which stop requests from this unit shall be propagated.
    pub propagates_stop_to: Option<Vec<String>>,
    /// Units from which stop requests shall be propagated to this unit.
    pub stop_propagated_from: Option<Vec<String>>,
    /// Network and/or temporary file namespace to join from listed units.
    pub joins_namespace_of: Option<Vec<String>>,
    /// Paths that must be accessible for this unit to work.
    pub requires_mounts_for: Option<Vec<String>>,
    /// Same as RequiresMountsFor= but adds Wants= dependencies instead.
    pub wants_mounts_for: Option<Vec<String>>,
    /// Job mode for OnSuccess= units.
    pub on_success_job_mode: Option<JobMode>,
    /// Job mode for OnFailure= units.
    pub on_failure_job_mode: Option<JobMode>,
    /// If true, this unit will not be stopped when isolating another unit.
    pub ignore_on_isolate: Option<bool>,
    /// If true, this unit will be stopped when it is no longer used.
    pub stop_when_unneeded: Option<bool>,
    /// If true, explicit start-up requested by the user is denied.
    pub refuse_manual_start: Option<bool>,
    /// If true, explicit termination requested by the user is denied.
    pub refuse_manual_stop: Option<bool>,
    /// If true, this unit may be used with the systemctl isolate command.
    pub allow_isolate: Option<bool>,
    /// If false, default dependencies will not be created.
    pub default_dependencies: Option<bool>,
    /// If true, processes are spared the final SIGTERM/SIGKILL at shutdown.
    pub survive_final_kill_signal: Option<bool>,
    /// Tweaks the garbage collection algorithm for this unit.
    pub collect_mode: Option<CollectMode>,
    /// Action to take when the unit stops and enters a failed state.
    pub failure_action: Option<Action>,
    /// Action to take when the unit enters an inactive state.
    pub success_action: Option<Action>,
    /// Exit status to propagate when FailureAction= is exit or exit-force.
    pub failure_action_exit_status: Option<u8>,
    /// Exit status to propagate when SuccessAction= is exit or exit-force.
    pub success_action_exit_status: Option<u8>,
    /// Timeout for the whole job.
    pub job_timeout_sec: Option<u64>,
    /// Timeout that starts when the job is actually started.
    pub job_running_timeout_sec: Option<u64>,
    /// Action to take when the job timeout is hit.
    pub job_timeout_action: Option<Action>,
    /// Reboot string to pass to reboot(2) when the job timeout is hit.
    pub job_timeout_reboot_argument: Option<String>,
    /// Time interval for start rate limiting.
    pub start_limit_interval_sec: Option<u64>,
    /// Number of allowed starts per interval.
    pub start_limit_burst: Option<u32>,
    /// Action to take if the start rate limit is hit.
    pub start_limit_action: Option<Action>,
    /// Argument for reboot(2) if StartLimitAction= is a reboot action.
    pub reboot_argument: Option<String>,
    /// Path to a configuration file this unit has been generated from.
    pub source_path: Option<String>,
    /// Check whether the system is running on a specific architecture.
    pub condition_architecture: Option<Architecture>,
    /// Check whether the system's firmware is of a certain type.
    pub condition_firmware: Option<String>,
    /// Check whether the system is executed in a virtualized environment.
    pub condition_virtualization: Option<Virtualization>,
    /// Match against hostname, machine ID, boot ID or product UUID.
    pub condition_host: Option<String>,
    /// Check whether a specific kernel command line option is set.
    pub condition_kernel_command_line: Option<String>,
    /// Check whether the kernel version matches a certain expression.
    pub condition_kernel_version: Option<String>,
    /// Check whether a credential by the specified name was passed in.
    pub condition_credential: Option<String>,
    /// Check whether a specific environment variable is set.
    pub condition_environment: Option<String>,
    /// Check whether the given security technology is enabled.
    pub condition_security: Option<Vec<SecurityTech>>,
    /// Check whether the given capability exists in the capability bounding set.
    pub condition_capability: Option<Vec<String>>,
    /// Check whether the system has AC power.
    pub condition_ac_power: Option<bool>,
    /// Check whether /var/ or /etc/ requires an update.
    pub condition_needs_update: Option<String>,
    /// Check whether the system is booting up for the first time.
    pub condition_first_boot: Option<bool>,
    /// Check for the existence of a file.
    pub condition_path_exists: Option<String>,
    /// Check for at least one file matching a glob pattern.
    pub condition_path_exists_glob: Option<String>,
    /// Check that a path exists and is a directory.
    pub condition_path_is_directory: Option<String>,
    /// Check that a path exists and is a symbolic link.
    pub condition_path_is_symbolic_link: Option<String>,
    /// Check that a path exists and is a mount point.
    pub condition_path_is_mount_point: Option<String>,
    /// Check that the underlying file system is readable and writable.
    pub condition_path_is_read_write: Option<String>,
    /// Check that the file system's backing block device is encrypted.
    pub condition_path_is_encrypted: Option<String>,
    /// Check that a path exists and is a non-empty directory.
    pub condition_directory_not_empty: Option<String>,
    /// Check that a path refers to a regular file with non-zero size.
    pub condition_file_not_empty: Option<String>,
    /// Check that a path is a regular file marked executable.
    pub condition_file_is_executable: Option<String>,
    /// Check whether the service manager is running as the given user.
    pub condition_user: Option<String>,
    /// Check whether the service manager's group matches the given group or GID.
    pub condition_group: Option<String>,
    /// Check whether given cgroup controllers are available for use.
    pub condition_control_group_controller: Option<Vec<String>>,
    /// Verify that the specified amount of system memory is available.
    pub condition_memory: Option<String>,
    /// Verify that the specified number of CPUs is available.
    pub condition_cpus: Option<String>,
    /// Verify that a given CPU feature is available.
    pub condition_cpu_feature: Option<Vec<String>>,
    /// Verify that a specific "key=value" pair is set in os-release.
    pub condition_os_release: Option<String>,
    /// Verify that memory pressure is below or equal to a threshold.
    pub condition_memory_pressure: Option<String>,
    /// Verify that CPU pressure is below or equal to a threshold.
    pub condition_cpu_pressure: Option<String>,
    /// Verify that IO pressure is below or equal to a threshold.
    pub condition_io_pressure: Option<String>,
    /// Assert that the system is running on a specific architecture.
    pub assert_architecture: Option<Architecture>,
    /// Assert that the system's firmware is of a certain type.
    pub assert_firmware: Option<String>,
    /// Assert that the system is executed in a virtualized environment.
    pub assert_virtualization: Option<Virtualization>,
    /// Assert hostname, machine ID, boot ID or product UUID.
    pub assert_host: Option<String>,
    /// Assert that a specific kernel command line option is set.
    pub assert_kernel_command_line: Option<String>,
    /// Assert that the kernel version matches a certain expression.
    pub assert_kernel_version: Option<String>,
    /// Assert that a credential by the specified name was passed in.
    pub assert_credential: Option<String>,
    /// Assert that a specific environment variable is set.
    pub assert_environment: Option<String>,
    /// Assert that the given security technology is enabled.
    pub assert_security: Option<Vec<SecurityTech>>,
    /// Assert that the given capability exists in the capability bounding set.
    pub assert_capability: Option<Vec<String>>,
    /// Assert that the system has AC power.
    pub assert_ac_power: Option<bool>,
    /// Assert that /var/ or /etc/ requires an update.
    pub assert_needs_update: Option<String>,
    /// Assert that the system is booting up for the first time.
    pub assert_first_boot: Option<bool>,
    /// Assert the existence of a file.
    pub assert_path_exists: Option<String>,
    /// Assert at least one file matching a glob pattern.
    pub assert_path_exists_glob: Option<String>,
    /// Assert that a path exists and is a directory.
    pub assert_path_is_directory: Option<String>,
    /// Assert that a path exists and is a symbolic link.
    pub assert_path_is_symbolic_link: Option<String>,
    /// Assert that a path exists and is a mount point.
    pub assert_path_is_mount_point: Option<String>,
    /// Assert that the underlying file system is readable and writable.
    pub assert_path_is_read_write: Option<String>,
    /// Assert that the file system's backing block device is encrypted.
    pub assert_path_is_encrypted: Option<String>,
    /// Assert that a path exists and is a non-empty directory.
    pub assert_directory_not_empty: Option<String>,
    /// Assert that a path refers to a regular file with non-zero size.
    pub assert_file_not_empty: Option<String>,
    /// Assert that a path is a regular file marked executable.
    pub assert_file_is_executable: Option<String>,
    /// Assert that the service manager is running as the given user.
    pub assert_user: Option<String>,
    /// Assert that the service manager's group matches the given group or GID.
    pub assert_group: Option<String>,
    /// Assert that given cgroup controllers are available for use.
    pub assert_control_group_controller: Option<Vec<String>>,
    /// Assert that the specified amount of system memory is available.
    pub assert_memory: Option<String>,
    /// Assert that the specified number of CPUs is available.
    pub assert_cpus: Option<String>,
    /// Assert that a given CPU feature is available.
    pub assert_cpu_feature: Option<Vec<String>>,
    /// Assert that a specific "key=value" pair is set in os-release.
    pub assert_os_release: Option<String>,
    /// Assert that memory pressure is below or equal to a threshold.
    pub assert_memory_pressure: Option<String>,
    /// Assert that CPU pressure is below or equal to a threshold.
    pub assert_cpu_pressure: Option<String>,
    /// Assert that IO pressure is below or equal to a threshold.
    pub assert_io_pressure: Option<String>,
}
impl Unit {
    /// Creates a new empty `Unit` section.
    pub fn new() -> (r: Self)
        ensures
            r == Unit::unset(),
    {
        Unit::default()
    }

    /// The section value with every field absent.
    pub open spec fn unset() -> Unit {
        Unit {
            description: None,
            documentation: None,
            wants: None,
            requires: None,
            requisite: None,
            binds_to: None,
            part_of: None,
            upholds: None,
            conflicts: None,
            before: None,
            after: None,
            on_failure: None,
            on_success: None,
            propagates_reload_to: None,
            reload_propagated_from: None,
            propagates_stop_to: None,
            stop_propagated_from: None,
            joins_namespace_of: None,
            requires_mounts_for: None,
            wants_mounts_for: None,
            on_success_job_mode: None,
            on_failure_job_mode: None,
            ignore_on_isolate: None,
            stop_when_unneeded: None,
            refuse_manual_start: None,
            refuse_manual_stop: None,
            allow_isolate: None,
            default_dependencies: None,
            survive_final_kill_signal: None,
            collect_mode: None,
            failure_action: None,
            success_action: None,
            failure_action_exit_status: None,
            success_action_exit_status: None,
            job_timeout_sec: None,
            job_running_timeout_sec: None,
            job_timeout_action: None,
            job_timeout_reboot_argument: None,
            start_limit_interval_sec: None,
            start_limit_burst: None,
            start_limit_action: None,
            reboot_argument: None,
            source_path: None,
            condition_architecture: None,
            condition_firmware: None,
            condition_virtualization: None,
            condition_host: None,
            condition_kernel_command_line: None,
            condition_kernel_version: None,
            condition_credential: None,
            condition_environment: None,
            condition_security: None,
            condition_capability: None,
            condition_ac_power: None,
            condition_needs_update: None,
            condition_first_boot: None,
            condition_path_exists: None,
            condition_path_exists_glob: None,
            condition_path_is_directory: None,
            condition_path_is_symbolic_link: None,
            condition_path_is_mount_point: None,
            condition_path_is_read_write: None,
            condition_path_is_encrypted: None,
            condition_directory_not_empty: None,
            condition_file_not_empty: None,
            condition_file_is_executable: None,
            condition_user: None,
            condition_group: None,
            condition_control_group_controller: None,
            condition_memory: None,
            condition_cpus: None,
            condition_cpu_feature: None,
            condition_os_release: None,
            condition_memory_pressure: None,
            condition_cpu_pressure: None,
            condition_io_pressure: None,
            assert_architecture: None,
            assert_firmware: None,
            assert_virtualization: None,
            assert_host: None,
            assert_kernel_command_line: None,
            assert_kernel_version: None,
            assert_credential: None,
            assert_environment: None,
            assert_security: None,
            assert_capability: None,
            assert_ac_power: None,
            assert_needs_update: None,
            assert_first_boot: None,
            assert_path_exists: None,
            assert_path_exists_glob: None,
            assert_path_is_directory: None,
            assert_path_is_symbolic_link: None,
            assert_path_is_mount_point: None,
            assert_path_is_read_write: None,
            assert_path_is_encrypted: None,
            assert_directory_not_empty: None,
            assert_file_not_empty: None,
            assert_file_is_executable: None,
            assert_user: None,
            assert_group: None,
            assert_control_group_controller: None,
            assert_memory: None,
            assert_cpus: None,
            assert_cpu_feature: None,
            assert_os_release: None,
            assert_memory_pressure: None,
            assert_cpu_pressure: None,
            assert_io_pressure: None,
        }
    }
    /// The full text of the rendered section block.
    #[verifier::opaque]
    pub open spec fn text_spec(self) -> Seq<char> {
        "[Unit]\n"@
            + scalar_text("Description"@, opt_text(self.description))
            + list_text("Documentation"@, opt_texts(self.documentation))
            + list_text("Wants"@, opt_texts(self.wants))
            + list_text("Requires"@, opt_texts(self.requires))
            + list_text("Requisite"@, opt_texts(self.requisite))
            + list_text("BindsTo"@, opt_texts(self.binds_to))
            + list_text("PartOf"@, opt_texts(self.part_of))
            + list_text("Upholds"@, opt_texts(self.upholds))
            + list_text("Conflicts"@, opt_texts(self.conflicts))
            + list_text("Before"@, opt_texts(self.before))
            + list_text("After"@, opt_texts(self.after))
            + list_text("OnFailure"@, opt_texts(self.on_failure))
            + list_text("OnSuccess"@, opt_texts(self.on_success))
            + list_text("PropagatesReloadTo"@, opt_texts(self.propagates_reload_to))
            + list_text("ReloadPropagatedFrom"@, opt_texts(self.reload_propagated_from))
            + list_text("PropagatesStopTo"@, opt_texts(self.propagates_stop_to))
            + list_text("StopPropagatedFrom"@, opt_texts(self.stop_propagated_from))
            + list_text("JoinsNamespaceOf"@, opt_texts(self.joins_namespace_of))
            + list_text("RequiresMountsFor"@, opt_texts(self.requires_mounts_for))
            + list_text("WantsMountsFor"@, opt_texts(self.wants_mounts_for))
            + scalar_text("OnSuccessJobMode"@, opt_job_mode_text(self.on_success_job_mode))
            + scalar_text("OnFailureJobMode"@, opt_job_mode_text(self.on_failure_job_mode))
            + bool_text("IgnoreOnIsolate"@, self.ignore_on_isolate)
            + bool_text("StopWhenUnneeded"@, self.stop_when_unneeded)
            + bool_text("RefuseManualStart"@, self.refuse_manual_start)
            + bool_text("RefuseManualStop"@, self.refuse_manual_stop)
            + bool_text("AllowIsolate"@, self.allow_isolate)
            + bool_text("DefaultDependencies"@, self.default_dependencies)
            + bool_text("SurviveFinalKillSignal"@, self.survive_final_kill_signal)
            + scalar_text("CollectMode"@, opt_collect_mode_text(self.collect_mode))
            + scalar_text("FailureAction"@, opt_action_text(self.failure_action))
            + scalar_text("SuccessAction"@, opt_action_text(self.success_action))
            + scalar_text("FailureActionExitStatus"@, opt_u8_text(self.failure_action_exit_status))
            + scalar_text("SuccessActionExitStatus"@, opt_u8_text(self.success_action_exit_status))
            + scalar_text("JobTimeoutSec"@, opt_u64_text(self.job_timeout_sec))
            + scalar_text("JobRunningTimeoutSec"@, opt_u64_text(self.job_running_timeout_sec))
            + scalar_text("JobTimeoutAction"@, opt_action_text(self.job_timeout_action))
            + scalar_text("JobTimeoutRebootArgument"@, opt_text(self.job_timeout_reboot_argument))
            + scalar_text("StartLimitIntervalSec"@, opt_u64_text(self.start_limit_interval_sec))
            + scalar_text("StartLimitBurst"@, opt_u32_text(self.start_limit_burst))
            + scalar_text("StartLimitAction"@, opt_action_text(self.start_limit_action))
            + scalar_text("RebootArgument"@, opt_text(self.reboot_argument))
            + scalar_text("SourcePath"@, opt_text(self.source_path))
            + scalar_text("ConditionArchitecture"@, opt_architecture_text(self.condition_architecture))
            + scalar_text("ConditionFirmware"@, opt_text(self.condition_firmware))
            + scalar_text("ConditionVirtualization"@, opt_virtualization_text(self.condition_virtualization))
            + scalar_text("ConditionHost"@, opt_text(self.condition_host))
            + scalar_text("ConditionKernelCommandLine"@, opt_text(self.condition_kernel_command_line))
            + scalar_text("ConditionKernelVersion"@, opt_text(self.condition_kernel_version))
            + scalar_text("ConditionCredential"@, opt_text(self.condition_credential))
            + scalar_text("ConditionEnvironment"@, opt_text(self.condition_environment))
            + list_text("ConditionSecurity"@, opt_security_tech_list_texts(self.condition_security))
            + list_text("ConditionCapability"@, opt_texts(self.condition_capability))
            + bool_text("ConditionACPower"@, self.condition_ac_power)
            + scalar_text("ConditionNeedsUpdate"@, opt_text(self.condition_needs_update))
            + bool_text("ConditionFirstBoot"@, self.condition_first_boot)
            + scalar_text("ConditionPathExists"@, opt_text(self.condition_path_exists))
            + scalar_text("ConditionPathExistsGlob"@, opt_text(self.condition_path_exists_glob))
            + scalar_text("ConditionPathIsDirectory"@, opt_text(self.condition_path_is_directory))
            + scalar_text("ConditionPathIsSymbolicLink"@, opt_text(self.condition_path_is_symbolic_link))
            + scalar_text("ConditionPathIsMountPoint"@, opt_text(self.condition_path_is_mount_point))
            + scalar_text("ConditionPathIsReadWrite"@, opt_text(self.condition_path_is_read_write))
            + scalar_text("ConditionPathIsEncrypted"@, opt_text(self.condition_path_is_encrypted))
            + scalar_text("ConditionDirectoryNotEmpty"@, opt_text(self.condition_directory_not_empty))
            + scalar_text("ConditionFileNotEmpty"@, opt_text(self.condition_file_not_empty))
            + scalar_text("ConditionFileIsExecutable"@, opt_text(self.condition_file_is_executable))
            + scalar_text("ConditionUser"@, opt_text(self.condition_user))
            + scalar_text("ConditionGroup"@, opt_text(self.condition_group))
            + list_text("ConditionControlGroupController"@, opt_texts(self.condition_control_group_controller))
            + scalar_text("ConditionMemory"@, opt_text(self.condition_memory))
            + scalar_text("ConditionCPUs"@, opt_text(self.condition_cpus))
            + list_text("ConditionCPUFeature"@, opt_texts(self.condition_cpu_feature))
            + scalar_text("ConditionOSRelease"@, opt_text(self.condition_os_release))
            + scalar_text("ConditionMemoryPressure"@, opt_text(self.condition_memory_pressure))
            + scalar_text("ConditionCPUPressure"@, opt_text(self.condition_cpu_pressure))
            + scalar_text("ConditionIOPressure"@, opt_text(self.condition_io_pressure))
            + scalar_text("AssertArchitecture"@, opt_architecture_text(self.assert_architecture))
            + scalar_text("AssertFirmware"@, opt_text(self.assert_firmware))
            + scalar_text("AssertVirtualization"@, opt_virtualization_text(self.assert_virtualization))
            + scalar_text("AssertHost"@, opt_text(self.assert_host))
            + scalar_text("AssertKernelCommandLine"@, opt_text(self.assert_kernel_command_line))
            + scalar_text("AssertKernelVersion"@, opt_text(self.assert_kernel_version))
            + scalar_text("AssertCredential"@, opt_text(self.assert_credential))
            + scalar_text("AssertEnvironment"@, opt_text(self.assert_environment))
            + list_text("AssertSecurity"@, opt_security_tech_list_texts(self.assert_security))
            + list_text("AssertCapability"@, opt_texts(self.assert_capability))
            + bool_text("AssertACPower"@, self.assert_ac_power)
            + scalar_text("AssertNeedsUpdate"@, opt_text(self.assert_needs_update))
            + bool_text("AssertFirstBoot"@, self.assert_first_boot)
            + scalar_text("AssertPathExists"@, opt_text(self.assert_path_exists))
            + scalar_text("AssertPathExistsGlob"@, opt_text(self.assert_path_exists_glob))
            + scalar_text("AssertPathIsDirectory"@, opt_text(self.assert_path_is_directory))
            + scalar_text("AssertPathIsSymbolicLink"@, opt_text(self.assert_path_is_symbolic_link))
            + scalar_text("AssertPathIsMountPoint"@, opt_text(self.assert_path_is_mount_point))
            + scalar_text("AssertPathIsReadWrite"@, opt_text(self.assert_path_is_read_write))
            + scalar_text("AssertPathIsEncrypted"@, opt_text(self.assert_path_is_encrypted))
            + scalar_text("AssertDirectoryNotEmpty"@, opt_text(self.assert_directory_not_empty))
            + scalar_text("AssertFileNotEmpty"@, opt_text(self.assert_file_not_empty))
            + scalar_text("AssertFileIsExecutable"@, opt_text(self.assert_file_is_executable))
            + scalar_text("AssertUser"@, opt_text(self.assert_user))
            + scalar_text("AssertGroup"@, opt_text(self.assert_group))
            + list_text("AssertControlGroupController"@, opt_texts(self.assert_control_group_controller))
            + scalar_text("AssertMemory"@, opt_text(self.assert_memory))
            + scalar_text("AssertCPUs"@, opt_text(self.assert_cpus))
            + list_text("AssertCPUFeature"@, opt_texts(self.assert_cpu_feature))
            + scalar_text("AssertOSRelease"@, opt_text(self.assert_os_release))
            + scalar_text("AssertMemoryPressure"@, opt_text(self.assert_memory_pressure))
            + scalar_text("AssertCPUPressure"@, opt_text(self.assert_cpu_pressure))
            + scalar_text("AssertIOPressure"@, opt_text(self.assert_io_pressure))
    }
    /// Every field value meets its documented constraint.
    pub open spec fn valid(self) -> bool {
        &&& opt_all_doc_uris_ok(self.documentation)
        &&& opt_all_caps_ok(self.condition_capability)
        &&& opt_all_caps_ok(self.assert_capability)
    }

    /// The message reported for a rejected documentation URI.
    pub open spec fn doc_uri_error_text(s: Seq<char>) -> Seq<char> {
        "Invalid documentation URI '"@ + s
            + "': must start with http://, https://, file:, info:, or man:"@
    }

    /// The message reported for a condition capability lacking its prefix.
    pub open spec fn condition_cap_error_text(s: Seq<char>) -> Seq<char> {
        "Invalid ConditionCapability '"@ + s + "': must start with CAP_"@
    }

    /// The message reported for an assert capability lacking its prefix.
    pub open spec fn assert_cap_error_text(s: Seq<char>) -> Seq<char> {
        "Invalid AssertCapability '"@ + s + "': must start with CAP_"@
    }

    /// The message of a validation failure names the offending field family
    /// and quotes an offending value of it, and comes from the first family
    /// checked whose earlier families are all clean.
    pub open spec fn explains_failure(self, m: Seq<char>) -> bool {
        ||| {
            &&& self.documentation matches Some(v)
            &&& exists|i: int|
                0 <= i < v@.len() && !doc_uri_ok(v@[i]@) && m == Unit::doc_uri_error_text(v@[i]@)
        }
        ||| {
            &&& opt_all_doc_uris_ok(self.documentation)
            &&& self.condition_capability matches Some(v)
            &&& exists|i: int|
                0 <= i < v@.len() && !cap_ok(v@[i]@) && m == Unit::condition_cap_error_text(
                    v@[i]@,
                )
        }
        ||| {
            &&& opt_all_doc_uris_ok(self.documentation)
            &&& opt_all_caps_ok(self.condition_capability)
            &&& self.assert_capability matches Some(v)
            &&& exists|i: int|
                0 <= i < v@.len() && !cap_ok(v@[i]@) && m == Unit::assert_cap_error_text(v@[i]@)
        }
    }

    /// Validate the unit configuration according to systemd specifications.
    pub fn validate(&self) -> (r: Result<(), String>)
        ensures
            r is Ok <==> self.valid(),
            (r matches Err(m) ==> self.explains_failure(m@)),
    {
        match &self.documentation {
            Some(docs) => {
                match first_bad_doc_uri(docs) {
                    Some(i) => {
                        let mut msg = String::from_str("Invalid documentation URI '");
                        msg.append(docs[i].as_str());
                        msg.append("': must start with http://, https://, file:, info:, or man:");
                        proof {
                            assert(msg@ == Unit::doc_uri_error_text(docs@[i as int]@));
                        }
                        return Err(msg);
                    },
                    None => {},
                }
            },
            None => {},
        }
        match &self.condition_capability {
            Some(caps) => {
                match first_bad_cap(caps) {
                    Some(i) => {
                        let mut msg = String::from_str("Invalid ConditionCapability '");
                        msg.append(caps[i].as_str());
                        msg.append("': must start with CAP_");
                        proof {
                            assert(msg@ == Unit::condition_cap_error_text(caps@[i as int]@));
                        }
                        return Err(msg);
                    },
                    None => {},
                }
            },
            None => {},
        }
        match &self.assert_capability {
            Some(caps) => {
                match first_bad_cap(caps) {
                    Some(i) => {
                        let mut msg = String::from_str("Invalid AssertCapability '");
                        msg.append(caps[i].as_str());
                        msg.append("': must start with CAP_");
                        proof {
                            assert(msg@ == Unit::assert_cap_error_text(caps@[i as int]@));
                        }
                        return Err(msg);
                    },
                    None => {},
                }
            },
            None => {},
        }
        Ok(())
    }

    /// Render the section into its text block, in the fixed field order.
    #[verifier::rlimit(100)]
    pub fn render(&self) -> (r: String)
        ensures
            r@ == self.text_spec(),
    {
        proof {
            reveal(Unit::text_spec);
        }
        let mut buf = String::from_str("[Unit]\n");
        write_scalar(&mut buf, "Description", &self.description);
        write_list(&mut buf, "Documentation", &self.documentation);
        write_list(&mut buf, "Wants", &self.wants);
        write_list(&mut buf, "Requires", &self.requires);
        write_list(&mut buf, "Requisite", &self.requisite);
        write_list(&mut buf, "BindsTo", &self.binds_to);
        write_list(&mut buf, "PartOf", &self.part_of);
        write_list(&mut buf, "Upholds", &self.upholds);
        write_list(&mut buf, "Conflicts", &self.conflicts);
        write_list(&mut buf, "Before", &self.before);
        write_list(&mut buf, "After", &self.after);
        write_list(&mut buf, "OnFailure", &self.on_failure);
        write_list(&mut buf, "OnSuccess", &self.on_success);
        write_list(&mut buf, "PropagatesReloadTo", &self.propagates_reload_to);
        write_list(&mut buf, "ReloadPropagatedFrom", &self.reload_propagated_from);
        write_list(&mut buf, "PropagatesStopTo", &self.propagates_stop_to);
        write_list(&mut buf, "StopPropagatedFrom", &self.stop_propagated_from);
        write_list(&mut buf, "JoinsNamespaceOf", &self.joins_namespace_of);
        write_list(&mut buf, "RequiresMountsFor", &self.requires_mounts_for);
        write_list(&mut buf, "WantsMountsFor", &self.wants_mounts_for);
        write_job_mode(&mut buf, "OnSuccessJobMode", &self.on_success_job_mode);
        write_job_mode(&mut buf, "OnFailureJobMode", &self.on_failure_job_mode);
        write_bool(&mut buf, "IgnoreOnIsolate", &self.ignore_on_isolate);
        write_bool(&mut buf, "StopWhenUnneeded", &self.stop_when_unneeded);
        write_bool(&mut buf, "RefuseManualStart", &self.refuse_manual_start);
        write_bool(&mut buf, "RefuseManualStop", &self.refuse_manual_stop);
        write_bool(&mut buf, "AllowIsolate", &self.allow_isolate);
        write_bool(&mut buf, "DefaultDependencies", &self.default_dependencies);
        write_bool(&mut buf, "SurviveFinalKillSignal", &self.survive_final_kill_signal);
        write_collect_mode(&mut buf, "CollectMode", &self.collect_mode);
        write_action(&mut buf, "FailureAction", &self.failure_action);
        write_action(&mut buf, "SuccessAction", &self.success_action);
        write_u8(&mut buf, "FailureActionExitStatus", &self.failure_action_exit_status);
        write_u8(&mut buf, "SuccessActionExitStatus", &self.success_action_exit_status);
        write_u64(&mut buf, "JobTimeoutSec", &self.job_timeout_sec);
        write_u64(&mut buf, "JobRunningTimeoutSec", &self.job_running_timeout_sec);
        write_action(&mut buf, "JobTimeoutAction", &self.job_timeout_action);
        write_scalar(&mut buf, "JobTimeoutRebootArgument", &self.job_timeout_reboot_argument);
        write_u64(&mut buf, "StartLimitIntervalSec", &self.start_limit_interval_sec);
        write_u32(&mut buf, "StartLimitBurst", &self.start_limit_burst);
        write_action(&mut buf, "StartLimitAction", &self.start_limit_action);
        write_scalar(&mut buf, "RebootArgument", &self.reboot_argument);
        write_scalar(&mut buf, "SourcePath", &self.source_path);
        write_architecture(&mut buf, "ConditionArchitecture", &self.condition_architecture);
        write_scalar(&mut buf, "ConditionFirmware", &self.condition_firmware);
        write_virtualization(&mut buf, "ConditionVirtualization", &self.condition_virtualization);
        write_scalar(&mut buf, "ConditionHost", &self.condition_host);
        write_scalar(&mut buf, "ConditionKernelCommandLine", &self.condition_kernel_command_line);
        write_scalar(&mut buf, "ConditionKernelVersion", &self.condition_kernel_version);
        write_scalar(&mut buf, "ConditionCredential", &self.condition_credential);
        write_scalar(&mut buf, "ConditionEnvironment", &self.condition_environment);
        write_security_tech_list(&mut buf, "ConditionSecurity", &self.condition_security);
        write_list(&mut buf, "ConditionCapability", &self.condition_capability);
        write_bool(&mut buf, "ConditionACPower", &self.condition_ac_power);
        write_scalar(&mut buf, "ConditionNeedsUpdate", &self.condition_needs_update);
        write_bool(&mut buf, "ConditionFirstBoot", &self.condition_first_boot);
        write_scalar(&mut buf, "ConditionPathExists", &self.condition_path_exists);
        write_scalar(&mut buf, "ConditionPathExistsGlob", &self.condition_path_exists_glob);
        write_scalar(&mut buf, "ConditionPathIsDirectory", &self.condition_path_is_directory);
        write_scalar(&mut buf, "ConditionPathIsSymbolicLink", &self.condition_path_is_symbolic_link);
        write_scalar(&mut buf, "ConditionPathIsMountPoint", &self.condition_path_is_mount_point);
        write_scalar(&mut buf, "ConditionPathIsReadWrite", &self.condition_path_is_read_write);
        write_scalar(&mut buf, "ConditionPathIsEncrypted", &self.condition_path_is_encrypted);
        write_scalar(&mut buf, "ConditionDirectoryNotEmpty", &self.condition_directory_not_empty);
        write_scalar(&mut buf, "ConditionFileNotEmpty", &self.condition_file_not_empty);
        write_scalar(&mut buf, "ConditionFileIsExecutable", &self.condition_file_is_executable);
        write_scalar(&mut buf, "ConditionUser", &self.condition_user);
        write_scalar(&mut buf, "ConditionGroup", &self.condition_group);
        write_list(&mut buf, "ConditionControlGroupController", &self.condition_control_group_controller);
        write_scalar(&mut buf, "ConditionMemory", &self.condition_memory);
        write_scalar(&mut buf, "ConditionCPUs", &self.condition_cpus);
        write_list(&mut buf, "ConditionCPUFeature", &self.condition_cpu_feature);
        write_scalar(&mut buf, "ConditionOSRelease", &self.condition_os_release);
        write_scalar(&mut buf, "ConditionMemoryPressure", &self.condition_memory_pressure);
        write_scalar(&mut buf, "ConditionCPUPressure", &self.condition_cpu_pressure);
        write_scalar(&mut buf, "ConditionIOPressure", &self.condition_io_pressure);
        write_architecture(&mut buf, "AssertArchitecture", &self.assert_architecture);
        write_scalar(&mut buf, "AssertFirmware", &self.assert_firmware);
        write_virtualization(&mut buf, "AssertVirtualization", &self.assert_virtualization);
        write_scalar(&mut buf, "AssertHost", &self.assert_host);
        write_scalar(&mut buf, "AssertKernelCommandLine", &self.assert_kernel_command_line);
        write_scalar(&mut buf, "AssertKernelVersion", &self.assert_kernel_version);
        write_scalar(&mut buf, "AssertCredential", &self.assert_credential);
        write_scalar(&mut buf, "AssertEnvironment", &self.assert_environment);
        write_security_tech_list(&mut buf, "AssertSecurity", &self.assert_security);
        write_list(&mut buf, "AssertCapability", &self.assert_capability);
        write_bool(&mut buf, "AssertACPower", &self.assert_ac_power);
        write_scalar(&mut buf, "AssertNeedsUpdate", &self.assert_needs_update);
        write_bool(&mut buf, "AssertFirstBoot", &self.assert_first_boot);
        write_scalar(&mut buf, "AssertPathExists", &self.assert_path_exists);
        write_scalar(&mut buf, "AssertPathExistsGlob", &self.assert_path_exists_glob);
        write_scalar(&mut buf, "AssertPathIsDirectory", &self.assert_path_is_directory);
        write_scalar(&mut buf, "AssertPathIsSymbolicLink", &self.assert_path_is_symbolic_link);
        write_scalar(&mut buf, "AssertPathIsMountPoint", &self.assert_path_is_mount_point);
        write_scalar(&mut buf, "AssertPathIsReadWrite", &self.assert_path_is_read_write);
        write_scalar(&mut buf, "AssertPathIsEncrypted", &self.assert_path_is_encrypted);
        write_scalar(&mut buf, "AssertDirectoryNotEmpty", &self.assert_directory_not_empty);
        write_scalar(&mut buf, "AssertFileNotEmpty", &self.assert_file_not_empty);
        write_scalar(&mut buf, "AssertFileIsExecutable", &self.assert_file_is_executable);
        write_scalar(&mut buf, "AssertUser", &self.assert_user);
        write_scalar(&mut buf, "AssertGroup", &self.assert_group);
        write_list(&mut buf, "AssertControlGroupController", &self.assert_control_group_controller);
        write_scalar(&mut buf, "AssertMemory", &self.assert_memory);
        write_scalar(&mut buf, "AssertCPUs", &self.assert_cpus);
        write_list(&mut buf, "AssertCPUFeature", &self.assert_cpu_feature);
        write_scalar(&mut buf, "AssertOSRelease", &self.assert_os_release);
        write_scalar(&mut buf, "AssertMemoryPressure", &self.assert_memory_pressure);
        write_scalar(&mut buf, "AssertCPUPressure", &self.assert_cpu_pressure);
        write_scalar(&mut buf, "AssertIOPressure", &self.assert_io_pressure);
        buf
    }
    pub fn description(self, value: String) -> (r: Self)
        ensures
            r == (Unit { description: Some(value), ..self }),
    {
        Unit { description: Some(value), ..self }
    }

    pub fn documentation(self, value: Vec<String>) -> (r: Self)
        ensures
            r == (Unit { documentation: Some(value), ..self }),
    {
        Unit { documentation: Some(value), ..self }
    }

    pub fn wants(self, value: Vec<String>) -> (r: Self)
        ensures
            r == (Unit { wants: Some(value), ..self }),
    {
        Unit { wants: Some(value), ..self }
    }

    pub fn requires_units(self, value: Vec<String>) -> (r: Self)
        ensures
            r == (Unit { requires: Some(value), ..self }),
    {
        Unit { requires: Some(value), ..self }
    }

    pub fn requisite(self, value: Vec<String>) -> (r: Self)
        ensures
            r == (Unit { requisite: Some(value), ..self }),
    {
        Unit { requisite: Some(value), ..self }
    }

    pub fn binds_to(self, value: Vec<String>) -> (r: Self)
        ensures
            r == (Unit { binds_to: Some(value), ..self }),
    {
        Unit { binds_to: Some(value), ..self }
    }

    pub fn part_of(self, value: Vec<String>) -> (r: Self)
        ensures
            r == (Unit { part_of: Some(value), ..self }),
    {
        Unit { part_of: Some(value), ..self }
    }

    pub fn upholds(self, value: Vec<String>) -> (r: Self)
        ensures
            r == (Unit { upholds: Some(value), ..self }),
    {
        Unit { upholds: Some(value), ..self }
    }

    pub fn conflicts(self, value: Vec<String>) -> (r: Self)
        ensures
            r == (Unit { conflicts: Some(value), ..self }),
    {
        Unit { conflicts: Some(value), ..self }
    }

    pub fn before(self, value: Vec<String>) -> (r: Self)
        ensures
            r == (Unit { before: Some(value), ..self }),
    {
        Unit { before: Some(value), ..self }
    }

    pub fn after(self, value: Vec<String>) -> (r: Self)
        ensures
            r == (Unit { after: Some(value), ..self }),
    {
        Unit { after: Some(value), ..self }
    }

    pub fn on_failure(self, value: Vec<String>) -> (r: Self)
        ensures
            r == (Unit { on_failure: Some(value), ..self }),
    {
        Unit { on_failure: Some(value), ..self }
    }

    pub fn on_success(self, value: Vec<String>) -> (r: Self)
        ensures
            r == (Unit { on_success: Some(value), ..self }),
    {
        Unit { on_success: Some(value), ..self }
    }

    pub fn propagates_reload_to(self, value: Vec<String>) -> (r: Self)
        ensures
            r == (Unit { propagates_reload_to: Some(value), ..self }),
    {
        Unit { propagates_reload_to: Some(value), ..self }
    }

    pub fn reload_propagated_from(self, value: Vec<String>) -> (r: Self)
        ensures
            r == (Unit { reload_propagated_from: Some(value), ..self }),
    {
        Unit { reload_propagated_from: Some(value), ..self }
    }

    pub fn propagates_stop_to(self, value: Vec<String>) -> (r: Self)
        ensures
            r == (Unit { propagates_stop_to: Some(value), ..self }),
    {
        Unit { propagates_stop_to: Some(value), ..self }
    }

    pub fn stop_propagated_from(self, value: Vec<String>) -> (r: Self)
        ensures
            r == (Unit { stop_propagated_from: Some(value), ..self }),
    {
        Unit { stop_propagated_from: Some(value), ..self }
    }

    pub fn joins_namespace_of(self, value: Vec<String>) -> (r: Self)
        ensures
            r == (Unit { joins_namespace_of: Some(value), ..self }),
    {
        Unit { joins_namespace_of: Some(value), ..self }
    }

    pub fn requires_mounts_for(self, value: Vec<String>) -> (r: Self)
        ensures
            r == (Unit { requires_mounts_for: Some(value), ..self }),
    {
        Unit { requires_mounts_for: Some(value), ..self }
    }

    pub fn wants_mounts_for(self, value: Vec<String>) -> (r: Self)
        ensures
            r == (Unit { wants_mounts_for: Some(value), ..self }),
    {
        Unit { wants_mounts_for: Some(value), ..self }
    }

    pub fn on_success_job_mode(self, value: JobMode) -> (r: Self)
        ensures
            r == (Unit { on_success_job_mode: Some(value), ..self }),
    {
        Unit { on_success_job_mode: Some(value), ..self }
    }

    pub fn on_failure_job_mode(self, value: JobMode) -> (r: Self)
        ensures
            r == (Unit { on_failure_job_mode: Some(value), ..self }),
    {
        Unit { on_failure_job_mode: Some(value), ..self }
    }

    pub fn ignore_on_isolate(self, value: bool) -> (r: Self)
        ensures
            r == (Unit { ignore_on_isolate: Some(value), ..self }),
    {
        Unit { ignore_on_isolate: Some(value), ..self }
    }

    pub fn stop_when_unneeded(self, value: bool) -> (r: Self)
        ensures
            r == (Unit { stop_when_unneeded: Some(value), ..self }),
    {
        Unit { stop_when_unneeded: Some(value), ..self }
    }

    pub fn refuse_manual_start(self, value: bool) -> (r: Self)
        ensures
            r == (Unit { refuse_manual_start: Some(value), ..self }),
    {
        Unit { refuse_manual_start: Some(value), ..self }
    }

    pub fn refuse_manual_stop(self, value: bool) -> (r: Self)
        ensures
            r == (Unit { refuse_manual_stop: Some(value), ..self }),
    {
        Unit { refuse_manual_stop: Some(value), ..self }
    }

    pub fn allow_isolate(self, value: bool) -> (r: Self)
        ensures
            r == (Unit { allow_isolate: Some(value), ..self }),
    {
        Unit { allow_isolate: Some(value), ..self }
    }

    pub fn default_dependencies(self, value: bool) -> (r: Self)
        ensures
            r == (Unit { default_dependencies: Some(value), ..self }),
    {
        Unit { default_dependencies: Some(value), ..self }
    }

    pub fn survive_final_kill_signal(self, value: bool) -> (r: Self)
        ensures
            r == (Unit { survive_final_kill_signal: Some(value), ..self }),
    {
        Unit { survive_final_kill_signal: Some(value), ..self }
    }

    pub fn collect_mode(self, value: CollectMode) -> (r: Self)
        ensures
            r == (Unit { collect_mode: Some(value), ..self }),
    {
        Unit { collect_mode: Some(value), ..self }
    }

    pub fn failure_action(self, value: Action) -> (r: Self)
        ensures
            r == (Unit { failure_action: Some(value), ..self }),
    {
        Unit { failure_action: Some(value), ..self }
    }

    pub fn success_action(self, value: Action) -> (r: Self)
        ensures
            r == (Unit { success_action: Some(value), ..self }),
    {
        Unit { success_action: Some(value), ..self }
    }

    pub fn failure_action_exit_status(self, value: u8) -> (r: Self)
        ensures
            r == (Unit { failure_action_exit_status: Some(value), ..self }),
    {
        Unit { failure_action_exit_status: Some(value), ..self }
    }

    pub fn success_action_exit_status(self, value: u8) -> (r: Self)
        ensures
            r == (Unit { success_action_exit_status: Some(value), ..self }),
    {
        Unit { success_action_exit_status: Some(value), ..self }
    }

    pub fn job_timeout_sec(self, value: u64) -> (r: Self)
        ensures
            r == (Unit { job_timeout_sec: Some(value), ..self }),
    {
        Unit { job_timeout_sec: Some(value), ..self }
    }

    pub fn job_running_timeout_sec(self, value: u64) -> (r: Self)
        ensures
            r == (Unit { job_running_timeout_sec: Some(value), ..self }),
    {
        Unit { job_running_timeout_sec: Some(value), ..self }
    }

    pub fn job_timeout_action(self, value: Action) -> (r: Self)
        ensures
            r == (Unit { job_timeout_action: Some(value), ..self }),
    {
        Unit { job_timeout_action: Some(value), ..self }
    }

    pub fn job_timeout_reboot_argument(self, value: String) -> (r: Self)
        ensures
            r == (Unit { job_timeout_reboot_argument: Some(value), ..self }),
    {
        Unit { job_timeout_reboot_argument: Some(value), ..self }
    }

    pub fn start_limit_interval_sec(self, value: u64) -> (r: Self)
        ensures
            r == (Unit { start_limit_interval_sec: Some(value), ..self }),
    {
        Unit { start_limit_interval_sec: Some(value), ..self }
    }

    pub fn start_limit_burst(self, value: u32) -> (r: Self)
        ensures
            r == (Unit { start_limit_burst: Some(value), ..self }),
    {
        Unit { start_limit_burst: Some(value), ..self }
    }

    pub fn start_limit_action(self, value: Action) -> (r: Self)
        ensures
            r == (Unit { start_limit_action: Some(value), ..self }),
    {
        Unit { start_limit_action: Some(value), ..self }
    }

    pub fn reboot_argument(self, value: String) -> (r: Self)
        ensures
            r == (Unit { reboot_argument: Some(value), ..self }),
    {
        Unit { reboot_argument: Some(value), ..self }
    }

    pub fn source_path(self, value: String) -> (r: Self)
        ensures
            r == (Unit { source_path: Some(value), ..self }),
    {
        Unit { source_path: Some(value), ..self }
    }

    pub fn condition_architecture(self, value: Architecture) -> (r: Self)
        ensures
            r == (Unit { condition_architecture: Some(value), ..self }),
    {
        Unit { condition_architecture: Some(value), ..self }
    }

    pub fn condition_firmware(self, value: String) -> (r: Self)
        ensures
            r == (Unit { condition_firmware: Some(value), ..self }),
    {
        Unit { condition_firmware: Some(value), ..self }
    }

    pub fn condition_virtualization(self, value: Virtualization) -> (r: Self)
        ensures
            r == (Unit { condition_virtualization: Some(value), ..self }),
    {
        Unit { condition_virtualization: Some(value), ..self }
    }

    pub fn condition_host(self, value: String) -> (r: Self)
        ensures
            r == (Unit { condition_host: Some(value), ..self }),
    {
        Unit { condition_host: Some(value), ..self }
    }

    pub fn condition_kernel_command_line(self, value: String) -> (r: Self)
        ensures
            r == (Unit { condition_kernel_command_line: Some(value), ..self }),
    {
        Unit { condition_kernel_command_line: Some(value), ..self }
    }

    pub fn condition_kernel_version(self, value: String) -> (r: Self)
        ensures
            r == (Unit { condition_kernel_version: Some(value), ..self }),
    {
        Unit { condition_kernel_version: Some(value), ..self }
    }

    pub fn condition_credential(self, value: String) -> (r: Self)
        ensures
            r == (Unit { condition_credential: Some(value), ..self }),
    {
        Unit { condition_credential: Some(value), ..self }
    }

    pub fn condition_environment(self, value: String) -> (r: Self)
        ensures
            r == (Unit { condition_environment: Some(value), ..self }),
    {
        Unit { condition_environment: Some(value), ..self }
    }

    pub fn condition_security(self, value: Vec<SecurityTech>) -> (r: Self)
        ensures
            r == (Unit { condition_security: Some(value), ..self }),
    {
        Unit { condition_security: Some(value), ..self }
    }

    pub fn condition_capability(self, value: Vec<String>) -> (r: Self)
        ensures
            r == (Unit { condition_capability: Some(value), ..self }),
    {
        Unit { condition_capability: Some(value), ..self }
    }

    pub fn condition_ac_power(self, value: bool) -> (r: Self)
        ensures
            r == (Unit { condition_ac_power: Some(value), ..self }),
    {
        Unit { condition_ac_power: Some(value), ..self }
    }

    pub fn condition_needs_update(self, value: String) -> (r: Self)
        ensures
            r == (Unit { condition_needs_update: Some(value), ..self }),
    {
        Unit { condition_needs_update: Some(value), ..self }
    }

    pub fn condition_first_boot(self, value: bool) -> (r: Self)
        ensures
            r == (Unit { condition_first_boot: Some(value), ..self }),
    {
        Unit { condition_first_boot: Some(value), ..self }
    }

    pub fn condition_path_exists(self, value: String) -> (r: Self)
        ensures
            r == (Unit { condition_path_exists: Some(value), ..self }),
    {
        Unit { condition_path_exists: Some(value), ..self }
    }

    pub fn condition_path_exists_glob(self, value: String) -> (r: Self)
        ensures
            r == (Unit { condition_path_exists_glob: Some(value), ..self }),
    {
        Unit { condition_path_exists_glob: Some(value), ..self }
    }

    pub fn condition_path_is_directory(self, value: String) -> (r: Self)
        ensures
            r == (Unit { condition_path_is_directory: Some(value), ..self }),
    {
        Unit { condition_path_is_directory: Some(value), ..self }
    }

    pub fn condition_path_is_symbolic_link(self, value: String) -> (r: Self)
        ensures
            r == (Unit { condition_path_is_symbolic_link: Some(value), ..self }),
    {
        Unit { condition_path_is_symbolic_link: Some(value), ..self }
    }

    pub fn condition_path_is_mount_point(self, value: String) -> (r: Self)
        ensures
            r == (Unit { condition_path_is_mount_point: Some(value), ..self }),
    {
        Unit { condition_path_is_mount_point: Some(value), ..self }
    }

    pub fn condition_path_is_read_write(self, value: String) -> (r: Self)
        ensures
            r == (Unit { condition_path_is_read_write: Some(value), ..self }),
    {
        Unit { condition_path_is_read_write: Some(value), ..self }
    }

    pub fn condition_path_is_encrypted(self, value: String) -> (r: Self)
        ensures
            r == (Unit { condition_path_is_encrypted: Some(value), ..self }),
    {
        Unit { condition_path_is_encrypted: Some(value), ..self }
    }

    pub fn condition_directory_not_empty(self, value: String) -> (r: Self)
        ensures
            r == (Unit { condition_directory_not_empty: Some(value), ..self }),
    {
        Unit { condition_directory_not_empty: Some(value), ..self }
    }

    pub fn condition_file_not_empty(self, value: String) -> (r: Self)
        ensures
            r == (Unit { condition_file_not_empty: Some(value), ..self }),
    {
        Unit { condition_file_not_empty: Some(value), ..self }
    }

    pub fn condition_file_is_executable(self, value: String) -> (r: Self)
        ensures
            r == (Unit { condition_file_is_executable: Some(value), ..self }),
    {
        Unit { condition_file_is_executable: Some(value), ..self }
    }

    pub fn condition_user(self, value: String) -> (r: Self)
        ensures
            r == (Unit { condition_user: Some(value), ..self }),
    {
        Unit { condition_user: Some(value), ..self }
    }

    pub fn condition_group(self, value: String) -> (r: Self)
        ensures
            r == (Unit { condition_group: Some(value), ..self }),
    {
        Unit { condition_group: Some(value), ..self }
    }

    pub fn condition_control_group_controller(self, value: Vec<String>) -> (r: Self)
        ensures
            r == (Unit { condition_control_group_controller: Some(value), ..self }),
    {
        Unit { condition_control_group_controller: Some(value), ..self }
    }

    pub fn condition_memory(self, value: String) -> (r: Self)
        ensures
            r == (Unit { condition_memory: Some(value), ..self }),
    {
        Unit { condition_memory: Some(value), ..self }
    }

    pub fn condition_cpus(self, value: String) -> (r: Self)
        ensures
            r == (Unit { condition_cpus: Some(value), ..self }),
    {
        Unit { condition_cpus: Some(value), ..self }
    }

    pub fn condition_cpu_feature(self, value: Vec<String>) -> (r: Self)
        ensures
            r == (Unit { condition_cpu_feature: Some(value), ..self }),
    {
        Unit { condition_cpu_feature: Some(value), ..self }
    }

    pub fn condition_os_release(self, value: String) -> (r: Self)
        ensures
            r == (Unit { condition_os_release: Some(value), ..self }),
    {
        Unit { condition_os_release: Some(value), ..self }
    }

    pub fn condition_memory_pressure(self, value: String) -> (r: Self)
        ensures
            r == (Unit { condition_memory_pressure: Some(value), ..self }),
    {
        Unit { condition_memory_pressure: Some(value), ..self }
    }

    pub fn condition_cpu_pressure(self, value: String) -> (r: Self)
        ensures
            r == (Unit { condition_cpu_pressure: Some(value), ..self }),
    {
        Unit { condition_cpu_pressure: Some(value), ..self }
    }

    pub fn condition_io_pressure(self, value: String) -> (r: Self)
        ensures
            r == (Unit { condition_io_pressure: Some(value), ..self }),
    {
        Unit { condition_io_pressure: Some(value), ..self }
    }

    pub fn assert_architecture(self, value: Architecture) -> (r: Self)
        ensures
            r == (Unit { assert_architecture: Some(value), ..self }),
    {
        Unit { assert_architecture: Some(value), ..self }
    }

    pub fn assert_firmware(self, value: String) -> (r: Self)
        ensures
            r == (Unit { assert_firmware: Some(value), ..self }),
    {
        Unit { assert_firmware: Some(value), ..self }
    }

    pub fn assert_virtualization(self, value: Virtualization) -> (r: Self)
        ensures
            r == (Unit { assert_virtualization: Some(value), ..self }),
    {
        Unit { assert_virtualization: Some(value), ..self }
    }

    pub fn assert_host(self, value: String) -> (r: Self)
        ensures
            r == (Unit { assert_host: Some(value), ..self }),
    {
        Unit { assert_host: Some(value), ..self }
    }

    pub fn assert_kernel_command_line(self, value: String) -> (r: Self)
        ensures
            r == (Unit { assert_kernel_command_line: Some(value), ..self }),
    {
        Unit { assert_kernel_command_line: Some(value), ..self }
    }

    pub fn assert_kernel_version(self, value: String) -> (r: Self)
        ensures
            r == (Unit { assert_kernel_version: Some(value), ..self }),
    {
        Unit { assert_kernel_version: Some(value), ..self }
    }

    pub fn assert_credential(self, value: String) -> (r: Self)
        ensures
            r == (Unit { assert_credential: Some(value), ..self }),
    {
        Unit { assert_credential: Some(value), ..self }
    }

    pub fn assert_environment(self, value: String) -> (r: Self)
        ensures
            r == (Unit { assert_environment: Some(value), ..self }),
    {
        Unit { assert_environment: Some(value), ..self }
    }

    pub fn assert_security(self, value: Vec<SecurityTech>) -> (r: Self)
        ensures
            r == (Unit { assert_security: Some(value), ..self }),
    {
        Unit { assert_security: Some(value), ..self }
    }

    pub fn assert_capability(self, value: Vec<String>) -> (r: Self)
        ensures
            r == (Unit { assert_capability: Some(value), ..self }),
    {
        Unit { assert_capability: Some(value), ..self }
    }

    pub fn assert_ac_power(self, value: bool) -> (r: Self)
        ensures
            r == (Unit { assert_ac_power: Some(value), ..self }),
    {
        Unit { assert_ac_power: Some(value), ..self }
    }

    pub fn assert_needs_update(self, value: String) -> (r: Self)
        ensures
            r == (Unit { assert_needs_update: Some(value), ..self }),
    {
        Unit { assert_needs_update: Some(value), ..self }
    }

    pub fn assert_first_boot(self, value: bool) -> (r: Self)
        ensures
            r == (Unit { assert_first_boot: Some(value), ..self }),
    {
        Unit { assert_first_boot: Some(value), ..self }
    }

    pub fn assert_path_exists(self, value: String) -> (r: Self)
        ensures
            r == (Unit { assert_path_exists: Some(value), ..self }),
    {
        Unit { assert_path_exists: Some(value), ..self }
    }

    pub fn assert_path_exists_glob(self, value: String) -> (r: Self)
        ensures
            r == (Unit { assert_path_exists_glob: Some(value), ..self }),
    {
        Unit { assert_path_exists_glob: Some(value), ..self }
    }

    pub fn assert_path_is_directory(self, value: String) -> (r: Self)
        ensures
            r == (Unit { assert_path_is_directory: Some(value), ..self }),
    {
        Unit { assert_path_is_directory: Some(value), ..self }
    }

    pub fn assert_path_is_symbolic_link(self, value: String) -> (r: Self)
        ensures
            r == (Unit { assert_path_is_symbolic_link: Some(value), ..self }),
    {
        Unit { assert_path_is_symbolic_link: Some(value), ..self }
    }

    pub fn assert_path_is_mount_point(self, value: String) -> (r: Self)
        ensures
            r == (Unit { assert_path_is_mount_point: Some(value), ..self }),
    {
        Unit { assert_path_is_mount_point: Some(value), ..self }
    }

    pub fn assert_path_is_read_write(self, value: String) -> (r: Self)
        ensures
            r == (Unit { assert_path_is_read_write: Some(value), ..self }),
    {
        Unit { assert_path_is_read_write: Some(value), ..self }
    }

    pub fn assert_path_is_encrypted(self, value: String) -> (r: Self)
        ensures
            r == (Unit { assert_path_is_encrypted: Some(value), ..self }),
    {
        Unit { assert_path_is_encrypted: Some(value), ..self }
    }

    pub fn assert_directory_not_empty(self, value: String) -> (r: Self)
        ensures
            r == (Unit { assert_directory_not_empty: Some(value), ..self }),
    {
        Unit { assert_directory_not_empty: Some(value), ..self }
    }

    pub fn assert_file_not_empty(self, value: String) -> (r: Self)
        ensures
            r == (Unit { assert_file_not_empty: Some(value), ..self }),
    {
        Unit { assert_file_not_empty: Some(value), ..self }
    }

    pub fn assert_file_is_executable(self, value: String) -> (r: Self)
        ensures
            r == (Unit { assert_file_is_executable: Some(value), ..self }),
    {
        Unit { assert_file_is_executable: Some(value), ..self }
    }

    pub fn assert_user(self, value: String) -> (r: Self)
        ensures
            r == (Unit { assert_user: Some(value), ..self }),
    {
        Unit { assert_user: Some(value), ..self }
    }

    pub fn assert_group(self, value: String) -> (r: Self)
        ensures
            r == (Unit { assert_group: Some(value), ..self }),
    {
        Unit { assert_group: Some(value), ..self }
    }

    pub fn assert_control_group_controller(self, value: Vec<String>) -> (r: Self)
        ensures
            r == (Unit { assert_control_group_controller: Some(value), ..self }),
    {
        Unit { assert_control_group_controller: Some(value), ..self }
    }

    pub fn assert_memory(self, value: String) -> (r: Self)
        ensures
            r == (Unit { assert_memory: Some(value), ..self }),
    {
        Unit { assert_memory: Some(value), ..self }
    }

    pub fn assert_cpus(self, value: String) -> (r: Self)
        ensures
            r == (Unit { assert_cpus: Some(value), ..self }),
    {
        Unit { assert_cpus: Some(value), ..self }
    }

    pub fn assert_cpu_feature(self, value: Vec<String>) -> (r: Self)
        ensures
            r == (Unit { assert_cpu_feature: Some(value), ..self }),
    {
        Unit { assert_cpu_feature: Some(value), ..self }
    }

    pub fn assert_os_release(self, value: String) -> (r: Self)
        ensures
            r == (Unit { assert_os_release: Some(value), ..self }),
    {
        Unit { assert_os_release: Some(value), ..self }
    }

    pub fn assert_memory_pressure(self, value: String) -> (r: Self)
        ensures
            r == (Unit { assert_memory_pressure: Some(value), ..self }),
    {
        Unit { assert_memory_pressure: Some(value), ..self }
    }

    pub fn assert_cpu_pressure(self, value: String) -> (r: Self)
        ensures
            r == (Unit { assert_cpu_pressure: Some(value), ..self }),
    {
        Unit { assert_cpu_pressure: Some(value), ..self }
    }

    pub fn assert_io_pressure(self, value: String) -> (r: Self)
        ensures
            r == (Unit { assert_io_pressure: Some(value), ..self }),
    {
        Unit { assert_io_pressure: Some(value), ..self }
    }
}

impl Default for Unit {
    /// The all-absent section value.
    fn default() -> (r: Self)
        ensures
            r == Unit::unset(),
    {
        Unit {
            description: None,
            documentation: None,
            wants: None,
            requires: None,
            requisite: None,
            binds_to: None,
            part_of: None,
            upholds: None,
            conflicts: None,
            before: None,
            after: None,
            on_failure: None,
            on_success: None,
            propagates_reload_to: None,
            reload_propagated_from: None,
            propagates_stop_to: None,
            stop_propagated_from: None,
            joins_namespace_of: None,
            requires_mounts_for: None,
            wants_mounts_for: None,
            on_success_job_mode: None,
            on_failure_job_mode: None,
            ignore_on_isolate: None,
            stop_when_unneeded: None,
            refuse_manual_start: None,
            refuse_manual_stop: None,
            allow_isolate: None,
            default_dependencies: None,
            survive_final_kill_signal: None,
            collect_mode: None,
            failure_action: None,
            success_action: None,
            failure_action_exit_status: None,
            success_action_exit_status: None,
            job_timeout_sec: None,
            job_running_timeout_sec: None,
            job_timeout_action: None,
            job_timeout_reboot_argument: None,
            start_limit_interval_sec: None,
            start_limit_burst: None,
            start_limit_action: None,
            reboot_argument: None,
            source_path: None,
            condition_architecture: None,
            condition_firmware: None,
            condition_virtualization: None,
            condition_host: None,
            condition_kernel_command_line: None,
            condition_kernel_version: None,
            condition_credential: None,
            condition_environment: None,
            condition_security: None,
            condition_capability: None,
            condition_ac_power: None,
            condition_needs_update: None,
            condition_first_boot: None,
            condition_path_exists: None,
            condition_path_exists_glob: None,
            condition_path_is_directory: None,
            condition_path_is_symbolic_link: None,
            condition_path_is_mount_point: None,
            condition_path_is_read_write: None,
            condition_path_is_encrypted: None,
            condition_directory_not_empty: None,
            condition_file_not_empty: None,
            condition_file_is_executable: None,
            condition_user: None,
            condition_group: None,
            condition_control_group_controller: None,
            condition_memory: None,
            condition_cpus: None,
            condition_cpu_feature: None,
            condition_os_release: None,
            condition_memory_pressure: None,
            condition_cpu_pressure: None,
            condition_io_pressure: None,
            assert_architecture: None,
            assert_firmware: None,
            assert_virtualization: None,
            assert_host: None,
            assert_kernel_command_line: None,
            assert_kernel_version: None,
            assert_credential: None,
            assert_environment: None,
            assert_security: None,
            assert_capability: None,
            assert_ac_power: None,
            assert_needs_update: None,
            assert_first_boot: None,
            assert_path_exists: None,
            assert_path_exists_glob: None,
            assert_path_is_directory: None,
            assert_path_is_symbolic_link: None,
            assert_path_is_mount_point: None,
            assert_path_is_read_write: None,
            assert_path_is_encrypted: None,
            assert_directory_not_empty: None,
            assert_file_not_empty: None,
            assert_file_is_executable: None,
            assert_user: None,
            assert_group: None,
            assert_control_group_controller: None,
            assert_memory: None,
            assert_cpus: None,
            assert_cpu_feature: None,
            assert_os_release: None,
            assert_memory_pressure: None,
            assert_cpu_pressure: None,
            assert_io_pressure: None,
        }
    }
}

/// A default-constructed [Unit] section renders to exactly its one header
/// line: every field is unset, so no field line is emitted.
pub proof fn lemma_unset_unit_renders_header()
    ensures
        Unit::unset().text_spec() == "[Unit]\n"@,
{
    reveal(Unit::text_spec);
    assert(Unit::unset().text_spec() =~= "[Unit]\n"@);
}

} // verus!
