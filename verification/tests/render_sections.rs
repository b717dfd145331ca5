//! Rendering: field formatters, section field order, and enum tokens.

use systemd_service::systemd::Action;
use systemd_service::systemd::Architecture;
use systemd_service::systemd::CollectMode;
use systemd_service::systemd::Exec;
use systemd_service::systemd::Install;
use systemd_service::systemd::JobMode;
use systemd_service::systemd::SecurityTech;
use systemd_service::systemd::Service;
use systemd_service::systemd::ServiceType;
use systemd_service::systemd::Unit;
use systemd_service::systemd::Virtualization;

#[test]
fn default_unit_renders_header_only() {
    assert_eq!(Unit::default().render(), "[Unit]\n");
    assert_eq!(Unit::new().render(), "[Unit]\n");
}

#[test]
fn default_service_renders_header_only() {
    assert_eq!(Service::default().render(), "[Service]\n");
}

#[test]
fn default_install_renders_header_only() {
    assert_eq!(Install::default().render(), "[Install]\n");
}

#[test]
fn default_exec_renders_nothing() {
    assert_eq!(Exec::default().render(), "");
    assert_eq!(Exec::new().render(), "");
}

#[test]
fn scalar_field_renders_one_line() {
    let unit = Unit::default().description("My service".to_string());
    assert_eq!(unit.render(), "[Unit]\nDescription=My service\n");
}

#[test]
fn space_joined_list_renders_one_line() {
    let install = Install::default().wanted_by(vec!["a".to_string(), "b".to_string()]);
    assert_eq!(install.render(), "[Install]\nWantedBy=a b\n");
}

#[test]
fn empty_space_joined_list_renders_no_line() {
    let install = Install::default().wanted_by(Vec::new());
    assert_eq!(install.render(), "[Install]\n");
}

#[test]
fn per_line_list_renders_one_line_per_element() {
    let service = Service::default().exec_start(vec!["a".to_string(), "b".to_string()]);
    assert_eq!(service.render(), "[Service]\nExecStart=a\nExecStart=b\n");
}

#[test]
fn empty_per_line_list_renders_no_line() {
    let service = Service::default().exec_start(Vec::new());
    assert_eq!(service.render(), "[Service]\n");
}

#[test]
fn bool_fields_render_yes_and_no() {
    assert_eq!(
        Unit::default().ignore_on_isolate(true).render(),
        "[Unit]\nIgnoreOnIsolate=yes\n"
    );
    assert_eq!(
        Unit::default().ignore_on_isolate(false).render(),
        "[Unit]\nIgnoreOnIsolate=no\n"
    );
    assert_eq!(Unit::default().render(), "[Unit]\n");
}

#[test]
fn duplicates_and_order_are_preserved_per_line() {
    let service = Service::default().exec_start_pre(vec![
        "/bin/a".to_string(),
        "/bin/a".to_string(),
        "/bin/b".to_string(),
    ]);
    assert_eq!(
        service.render(),
        "[Service]\nExecStartPre=/bin/a\nExecStartPre=/bin/a\nExecStartPre=/bin/b\n"
    );
}

#[test]
fn unit_fields_render_in_fixed_order() {
    let unit = Unit::default()
        .condition_ac_power(true)
        .after(vec!["network.target".to_string()])
        .description("d".to_string());
    assert_eq!(
        unit.render(),
        "[Unit]\nDescription=d\nAfter=network.target\nConditionACPower=yes\n"
    );
}

#[test]
fn enum_tokens_render_exactly() {
    assert_eq!(
        Unit::default().collect_mode(CollectMode::InactiveOrFailed).render(),
        "[Unit]\nCollectMode=inactive-or-failed\n"
    );
    assert_eq!(
        Unit::default().on_failure_job_mode(JobMode::ReplaceIrreversibly).render(),
        "[Unit]\nOnFailureJobMode=replace-irreversibly\n"
    );
    assert_eq!(
        Unit::default().failure_action(Action::SoftRebootForce).render(),
        "[Unit]\nFailureAction=soft-reboot-force\n"
    );
    assert_eq!(
        Unit::default().failure_action(Action::NoAction).render(),
        "[Unit]\nFailureAction=none\n"
    );
    assert_eq!(
        Unit::default().condition_architecture(Architecture::X8664).render(),
        "[Unit]\nConditionArchitecture=x86-64\n"
    );
    assert_eq!(
        Unit::default().condition_virtualization(Virtualization::LxcLibvirt).render(),
        "[Unit]\nConditionVirtualization=lxc-libvirt\n"
    );
    assert_eq!(
        Service::default().service_type(ServiceType::NotifyReload).render(),
        "[Service]\nType=notify-reload\n"
    );
}

#[test]
fn security_list_renders_space_joined_tokens() {
    let unit = Unit::default().condition_security(vec![
        SecurityTech::Selinux,
        SecurityTech::UefiSecureboot,
        SecurityTech::Tpm2,
    ]);
    assert_eq!(
        unit.render(),
        "[Unit]\nConditionSecurity=selinux uefi-secureboot tpm2\n"
    );
}

#[test]
fn numeric_fields_render_decimal() {
    assert_eq!(
        Unit::default().failure_action_exit_status(255).render(),
        "[Unit]\nFailureActionExitStatus=255\n"
    );
    assert_eq!(
        Unit::default().job_timeout_sec(0).render(),
        "[Unit]\nJobTimeoutSec=0\n"
    );
    assert_eq!(
        Unit::default().start_limit_burst(4294967295).render(),
        "[Unit]\nStartLimitBurst=4294967295\n"
    );
    let mut exec = Exec::default();
    exec.nice = Some(-20);
    assert_eq!(exec.render(), "Nice=-20\n");
    let mut exec2 = Exec::default();
    exec2.oom_score_adjust = Some(1000);
    assert_eq!(exec2.render(), "OOMScoreAdjust=1000\n");
}

#[test]
fn exec_renders_without_header() {
    let exec = Exec::default()
        .working_directory("/srv".to_string())
        .user("games".to_string())
        .environment(vec!["A=1".to_string(), "B=2".to_string()])
        .private_tmp(true);
    assert_eq!(
        exec.render(),
        "WorkingDirectory=/srv\nUser=games\nEnvironment=A=1 B=2\nPrivateTmp=yes\n"
    );
}

#[test]
fn exec_per_line_paths() {
    let mut exec = Exec::default();
    exec.read_write_paths = Some(vec!["/var".to_string(), "/run".to_string()]);
    exec.environment_file = Some(vec!["/etc/one.conf".to_string()]);
    assert_eq!(
        exec.render(),
        "EnvironmentFile=/etc/one.conf\nReadWritePaths=/var\nReadWritePaths=/run\n"
    );
}

#[test]
fn execution_record_renders_inside_the_service_block() {
    let service = Service::default().execution(
        Exec::default()
            .working_directory("/srv".to_string())
            .user("games".to_string())
            .private_tmp(true),
    );
    assert_eq!(
        service.render(),
        "[Service]\nWorkingDirectory=/srv\nUser=games\nPrivateTmp=yes\n"
    );
}

#[test]
fn execution_lines_follow_the_service_fields() {
    let service = Service::default()
        .exec_start(vec!["/usr/bin/web".to_string()])
        .reload_signal("SIGHUP".to_string())
        .execution(Exec::default().no_new_privileges(true));
    assert_eq!(
        service.render(),
        "[Service]\nExecStart=/usr/bin/web\nReloadSignal=SIGHUP\nNoNewPrivileges=yes\n"
    );
}

#[test]
fn unset_execution_record_renders_nothing() {
    let service = Service::default().execution(Exec::default());
    assert_eq!(service.render(), "[Service]\n");
}

#[test]
fn builders_overwrite_previous_value() {
    let unit = Unit::default()
        .description("first".to_string())
        .description("second".to_string());
    assert_eq!(unit.render(), "[Unit]\nDescription=second\n");
}
