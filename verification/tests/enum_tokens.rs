//! The closed option vocabularies: every variant renders exactly its
//! documented lowercase/hyphenated token.

use systemd_service::systemd::Action;
use systemd_service::systemd::Architecture;
use systemd_service::systemd::CollectMode;
use systemd_service::systemd::ExitType;
use systemd_service::systemd::JobMode;
use systemd_service::systemd::NotifyAccess;
use systemd_service::systemd::OomPolicy;
use systemd_service::systemd::RestartMode;
use systemd_service::systemd::RestartType;
use systemd_service::systemd::SecurityTech;
use systemd_service::systemd::ServiceType;
use systemd_service::systemd::TimeoutFailureMode;
use systemd_service::systemd::Virtualization;

#[test]
fn service_type_tokens() {
    let cases = [
        (ServiceType::Simple, "simple"),
        (ServiceType::Exec, "exec"),
        (ServiceType::Forking, "forking"),
        (ServiceType::Oneshot, "oneshot"),
        (ServiceType::Dbus, "dbus"),
        (ServiceType::Notify, "notify"),
        (ServiceType::NotifyReload, "notify-reload"),
        (ServiceType::Idle, "idle"),
    ];
    for (value, token) in cases {
        assert_eq!(value.token(), token);
    }
}

#[test]
fn exit_type_tokens() {
    assert_eq!(ExitType::Main.token(), "main");
    assert_eq!(ExitType::Cgroup.token(), "cgroup");
}

#[test]
fn restart_type_tokens() {
    let cases = [
        (RestartType::No, "no"),
        (RestartType::OnSuccess, "on-success"),
        (RestartType::OnFailure, "on-failure"),
        (RestartType::OnAbnormal, "on-abnormal"),
        (RestartType::OnWatchdog, "on-watchdog"),
        (RestartType::OnAbort, "on-abort"),
        (RestartType::Always, "always"),
    ];
    for (value, token) in cases {
        assert_eq!(value.token(), token);
    }
}

#[test]
fn restart_mode_tokens() {
    assert_eq!(RestartMode::Normal.token(), "normal");
    assert_eq!(RestartMode::Direct.token(), "direct");
    assert_eq!(RestartMode::Debug.token(), "debug");
}

#[test]
fn notify_access_tokens() {
    assert_eq!(NotifyAccess::NoAccess.token(), "none");
    assert_eq!(NotifyAccess::Main.token(), "main");
    assert_eq!(NotifyAccess::Exec.token(), "exec");
    assert_eq!(NotifyAccess::All.token(), "all");
}

#[test]
fn timeout_failure_mode_tokens() {
    assert_eq!(TimeoutFailureMode::Terminate.token(), "terminate");
    assert_eq!(TimeoutFailureMode::Abort.token(), "abort");
    assert_eq!(TimeoutFailureMode::Kill.token(), "kill");
}

#[test]
fn oom_policy_tokens() {
    assert_eq!(OomPolicy::Continue.token(), "continue");
    assert_eq!(OomPolicy::Stop.token(), "stop");
    assert_eq!(OomPolicy::Kill.token(), "kill");
}

#[test]
fn collect_mode_tokens() {
    assert_eq!(CollectMode::Inactive.token(), "inactive");
    assert_eq!(CollectMode::InactiveOrFailed.token(), "inactive-or-failed");
}

#[test]
fn job_mode_tokens() {
    let cases = [
        (JobMode::Fail, "fail"),
        (JobMode::Replace, "replace"),
        (JobMode::ReplaceIrreversibly, "replace-irreversibly"),
        (JobMode::Isolate, "isolate"),
        (JobMode::Flush, "flush"),
        (JobMode::IgnoreDependencies, "ignore-dependencies"),
        (JobMode::IgnoreRequirements, "ignore-requirements"),
    ];
    for (value, token) in cases {
        assert_eq!(value.token(), token);
    }
}

#[test]
fn action_tokens() {
    let cases = [
        (Action::NoAction, "none"),
        (Action::Reboot, "reboot"),
        (Action::RebootForce, "reboot-force"),
        (Action::RebootImmediate, "reboot-immediate"),
        (Action::Poweroff, "poweroff"),
        (Action::PoweroffForce, "poweroff-force"),
        (Action::PoweroffImmediate, "poweroff-immediate"),
        (Action::Exit, "exit"),
        (Action::ExitForce, "exit-force"),
        (Action::SoftReboot, "soft-reboot"),
        (Action::SoftRebootForce, "soft-reboot-force"),
        (Action::Kexec, "kexec"),
        (Action::KexecForce, "kexec-force"),
        (Action::Halt, "halt"),
        (Action::HaltForce, "halt-force"),
        (Action::HaltImmediate, "halt-immediate"),
    ];
    for (value, token) in cases {
        assert_eq!(value.token(), token);
    }
}

#[test]
fn security_tech_tokens() {
    let cases = [
        (SecurityTech::Selinux, "selinux"),
        (SecurityTech::Apparmor, "apparmor"),
        (SecurityTech::Tomoyo, "tomoyo"),
        (SecurityTech::Smack, "smack"),
        (SecurityTech::Ima, "ima"),
        (SecurityTech::Audit, "audit"),
        (SecurityTech::UefiSecureboot, "uefi-secureboot"),
        (SecurityTech::Tpm2, "tpm2"),
        (SecurityTech::Cvm, "cvm"),
        (SecurityTech::MeasuredUki, "measured-uki"),
    ];
    for (value, token) in cases {
        assert_eq!(value.token(), token);
    }
}

#[test]
fn architecture_tokens() {
    let cases = [
        (Architecture::X86, "x86"),
        (Architecture::X8664, "x86-64"),
        (Architecture::Ppc, "ppc"),
        (Architecture::PpcLe, "ppc-le"),
        (Architecture::Ppc64, "ppc64"),
        (Architecture::Ppc64Le, "ppc64-le"),
        (Architecture::Ia64, "ia64"),
        (Architecture::Parisc, "parisc"),
        (Architecture::Parisc64, "parisc64"),
        (Architecture::S390, "s390"),
        (Architecture::S390x, "s390x"),
        (Architecture::Sparc, "sparc"),
        (Architecture::Sparc64, "sparc64"),
        (Architecture::Mips, "mips"),
        (Architecture::MipsLe, "mips-le"),
        (Architecture::Mips64, "mips64"),
        (Architecture::Mips64Le, "mips64-le"),
        (Architecture::Alpha, "alpha"),
        (Architecture::Arm, "arm"),
        (Architecture::ArmBe, "arm-be"),
        (Architecture::Arm64, "arm64"),
        (Architecture::Arm64Be, "arm64-be"),
        (Architecture::Sh, "sh"),
        (Architecture::Sh64, "sh64"),
        (Architecture::M68k, "m68k"),
        (Architecture::Tilegx, "tilegx"),
        (Architecture::Cris, "cris"),
        (Architecture::Arc, "arc"),
        (Architecture::ArcBe, "arc-be"),
        (Architecture::Native, "native"),
    ];
    for (value, token) in cases {
        assert_eq!(value.token(), token);
    }
}

#[test]
fn virtualization_tokens() {
    let cases = [
        (Virtualization::Vm, "vm"),
        (Virtualization::Container, "container"),
        (Virtualization::Qemu, "qemu"),
        (Virtualization::Kvm, "kvm"),
        (Virtualization::Amazon, "amazon"),
        (Virtualization::Zvm, "zvm"),
        (Virtualization::Vmware, "vmware"),
        (Virtualization::Microsoft, "microsoft"),
        (Virtualization::Oracle, "oracle"),
        (Virtualization::Powervm, "powervm"),
        (Virtualization::Xen, "xen"),
        (Virtualization::Bochs, "bochs"),
        (Virtualization::Uml, "uml"),
        (Virtualization::Bhyve, "bhyve"),
        (Virtualization::Qnx, "qnx"),
        (Virtualization::Apple, "apple"),
        (Virtualization::Sre, "sre"),
        (Virtualization::Openvz, "openvz"),
        (Virtualization::Lxc, "lxc"),
        (Virtualization::LxcLibvirt, "lxc-libvirt"),
        (Virtualization::SystemdNspawn, "systemd-nspawn"),
        (Virtualization::Docker, "docker"),
        (Virtualization::Podman, "podman"),
        (Virtualization::Rkt, "rkt"),
        (Virtualization::Wsl, "wsl"),
        (Virtualization::Proot, "proot"),
        (Virtualization::Pouch, "pouch"),
        (Virtualization::Acrn, "acrn"),
        (Virtualization::PrivateUsers, "private-users"),
    ];
    for (value, token) in cases {
        assert_eq!(value.token(), token);
    }
}
