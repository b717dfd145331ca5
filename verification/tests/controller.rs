//! The service controller: document assembly, and the step-by-step decision
//! protocol for install, uninstall, start, stop, restart and status.

use systemd_service::error::Error;
use systemd_service::service::Status;
use systemd_service::systemd::Config;
use systemd_service::systemd::Event;
use systemd_service::systemd::Exec;
use systemd_service::systemd::Install;
use systemd_service::systemd::Op;
use systemd_service::systemd::Phase;
use systemd_service::systemd::Service;
use systemd_service::systemd::Step;
use systemd_service::systemd::Systemd;
use systemd_service::systemd::Unit;

fn manager(name: &str) -> Systemd {
    Systemd::new(Config {
        name: name.to_string(),
        unit: Unit::default(),
        service: Service::default(),
        install: Install::default(),
    })
}

fn command_ok(stdout: &str) -> Event {
    Event::CommandOutcome { ok: true, stdout: stdout.to_string(), stderr: String::new() }
}

fn command_failed(stderr: &str) -> Event {
    Event::CommandOutcome { ok: false, stdout: String::new(), stderr: stderr.to_string() }
}

#[test]
fn default_config_renders_three_headers_in_order() {
    let config = Config {
        name: "foo".to_string(),
        unit: Unit::default(),
        service: Service::default(),
        install: Install::default(),
    };
    assert_eq!(config.render(), "[Unit]\n[Service]\n[Install]\n");
    assert_eq!(config.unit_name(), "foo.service");
}

#[test]
fn config_path_is_derived_from_the_name() {
    let mgr = manager("foo");
    assert_eq!(mgr.config_path(), "/etc/systemd/system/foo.service");
}

#[test]
fn install_rejects_an_existing_file_without_running_commands() {
    let mgr = manager("foo");
    let (phase, step) = mgr.begin(Op::Install);
    assert_eq!(
        step,
        Step::CheckPath { path: "/etc/systemd/system/foo.service".to_string() }
    );
    let (phase, next) = mgr.step(phase, Event::PathChecked { exists: true });
    assert_eq!(next, None);
    assert_eq!(
        phase,
        Phase::Complete(Err(Error::ValidationError(
            "Service file '\"/etc/systemd/system/foo.service\"' already exists".to_string()
        )))
    );
    let (phase, next) = mgr.step(phase, command_ok(""));
    assert_eq!(next, None);
    assert!(matches!(phase, Phase::Complete(Err(Error::ValidationError(_)))));
}

#[test]
fn install_writes_enables_and_reloads() {
    let mgr = manager("foo");
    let (phase, step) = mgr.begin(Op::Install);
    assert!(matches!(step, Step::CheckPath { .. }));
    let (phase, next) = mgr.step(phase, Event::PathChecked { exists: false });
    assert_eq!(
        next,
        Some(Step::WriteFile {
            path: "/etc/systemd/system/foo.service".to_string(),
            contents: "[Unit]\n[Service]\n[Install]\n".to_string(),
            mode: 0o644,
        })
    );
    let (phase, next) = mgr.step(phase, Event::FileOutcome { ok: true, detail: String::new() });
    assert_eq!(
        next,
        Some(Step::RunCommand {
            program: "systemctl".to_string(),
            args: vec!["enable".to_string(), "foo.service".to_string()],
        })
    );
    let (phase, next) = mgr.step(phase, command_ok(""));
    assert_eq!(
        next,
        Some(Step::RunCommand {
            program: "systemctl".to_string(),
            args: vec!["daemon-reload".to_string()],
        })
    );
    let (phase, next) = mgr.step(phase, command_ok(""));
    assert_eq!(next, None);
    assert_eq!(phase, Phase::Complete(Ok(None)));
}

#[test]
fn install_surfaces_write_enable_and_reload_failures() {
    let mgr = manager("foo");
    let (phase, _) = mgr.begin(Op::Install);
    let (phase, _) = mgr.step(phase, Event::PathChecked { exists: false });
    let (phase, next) = mgr.step(
        phase,
        Event::FileOutcome { ok: false, detail: "permission denied".to_string() },
    );
    assert_eq!(next, None);
    assert_eq!(
        phase,
        Phase::Complete(Err(Error::IoError("permission denied".to_string())))
    );

    let (phase, _) = mgr.begin(Op::Install);
    let (phase, _) = mgr.step(phase, Event::PathChecked { exists: false });
    let (phase, _) = mgr.step(phase, Event::FileOutcome { ok: true, detail: String::new() });
    let (phase, next) = mgr.step(phase, command_failed("unit masked"));
    assert_eq!(next, None);
    assert_eq!(
        phase,
        Phase::Complete(Err(Error::CommandError(
            "Failed to enable service: unit masked".to_string()
        )))
    );

    let (phase, _) = mgr.begin(Op::Install);
    let (phase, _) = mgr.step(phase, Event::PathChecked { exists: false });
    let (phase, _) = mgr.step(phase, Event::FileOutcome { ok: true, detail: String::new() });
    let (phase, _) = mgr.step(phase, command_ok(""));
    let (phase, next) = mgr.step(phase, command_failed("bus timeout"));
    assert_eq!(next, None);
    assert_eq!(
        phase,
        Phase::Complete(Err(Error::CommandError(
            "Failed to reload systemd daemon: bus timeout".to_string()
        )))
    );
}

#[test]
fn uninstall_disables_then_removes_the_file() {
    let mgr = manager("foo");
    let (phase, step) = mgr.begin(Op::Uninstall);
    assert_eq!(
        step,
        Step::RunCommand {
            program: "systemctl".to_string(),
            args: vec!["disable".to_string(), "foo.service".to_string()],
        }
    );
    let (phase, next) = mgr.step(phase, command_ok(""));
    assert_eq!(
        next,
        Some(Step::RemoveFile { path: "/etc/systemd/system/foo.service".to_string() })
    );
    let (phase, next) = mgr.step(phase, Event::FileOutcome { ok: true, detail: String::new() });
    assert_eq!(next, None);
    assert_eq!(phase, Phase::Complete(Ok(None)));
}

#[test]
fn uninstall_surfaces_disable_and_delete_failures() {
    let mgr = manager("foo");
    let (phase, _) = mgr.begin(Op::Uninstall);
    let (phase, next) = mgr.step(phase, command_failed("not enabled"));
    assert_eq!(next, None);
    assert_eq!(
        phase,
        Phase::Complete(Err(Error::CommandError(
            "Failed to disable service: not enabled".to_string()
        )))
    );

    let (phase, _) = mgr.begin(Op::Uninstall);
    let (phase, _) = mgr.step(phase, command_ok(""));
    let (phase, next) = mgr.step(
        phase,
        Event::FileOutcome { ok: false, detail: "no such file".to_string() },
    );
    assert_eq!(next, None);
    assert_eq!(phase, Phase::Complete(Err(Error::IoError("no such file".to_string()))));
}

#[test]
fn start_stop_restart_run_one_command_each() {
    let mgr = manager("foo");
    for (op, verb) in [(Op::Start, "start"), (Op::Stop, "stop"), (Op::Restart, "restart")] {
        let (phase, step) = mgr.begin(op);
        assert_eq!(
            step,
            Step::RunCommand {
                program: "systemctl".to_string(),
                args: vec![verb.to_string(), "foo.service".to_string()],
            }
        );
        let (phase, next) = mgr.step(phase, command_ok(""));
        assert_eq!(next, None);
        assert_eq!(phase, Phase::Complete(Ok(None)));
    }
}

#[test]
fn start_stop_restart_failures_carry_the_captured_stderr() {
    let mgr = manager("foo");
    let cases = [
        (Op::Start, "Failed to start service: e1"),
        (Op::Stop, "Failed to stop service: e2"),
        (Op::Restart, "Failed to restart service: e3"),
    ];
    let stderrs = ["e1", "e2", "e3"];
    for (i, (op, message)) in cases.iter().enumerate() {
        let (phase, _) = mgr.begin(*op);
        let (phase, next) = mgr.step(phase, command_failed(stderrs[i]));
        assert_eq!(next, None);
        assert_eq!(
            phase,
            Phase::Complete(Err(Error::CommandError(message.to_string())))
        );
    }
}

#[test]
fn status_active_and_activating_mean_running() {
    let mgr = manager("foo");
    let (phase, step) = mgr.begin(Op::Status);
    assert_eq!(
        step,
        Step::RunCommand {
            program: "systemctl".to_string(),
            args: vec!["is-active".to_string(), "foo.service".to_string()],
        }
    );
    let (phase, next) = mgr.step(phase, command_ok("active\n"));
    assert_eq!(next, None);
    assert_eq!(phase, Phase::Complete(Ok(Some(Status::Running))));

    let (phase, _) = mgr.begin(Op::Status);
    let (phase, _) = mgr.step(phase, command_ok("activating\n"));
    assert_eq!(phase, Phase::Complete(Ok(Some(Status::Running))));
}

#[test]
fn status_failed_token_means_failed() {
    let mgr = manager("foo");
    let (phase, _) = mgr.begin(Op::Status);
    let (phase, next) = mgr.step(phase, command_ok("failed\n"));
    assert_eq!(next, None);
    assert_eq!(phase, Phase::Complete(Ok(Some(Status::Failed))));
}

#[test]
fn status_unknown_token_means_not_installed() {
    let mgr = manager("foo");
    let (phase, _) = mgr.begin(Op::Status);
    let (phase, next) = mgr.step(phase, command_ok("deactivating\n"));
    assert_eq!(next, None);
    assert_eq!(phase, Phase::Complete(Ok(Some(Status::NotInstalled))));
}

#[test]
fn status_inactive_is_disambiguated_by_the_listing() {
    let mgr = manager("foo");
    let (phase, _) = mgr.begin(Op::Status);
    let (phase, next) = mgr.step(phase, command_ok("inactive\n"));
    assert_eq!(
        next,
        Some(Step::RunCommand {
            program: "systemctl".to_string(),
            args: vec![
                "list-unit-files".to_string(),
                "-t".to_string(),
                "service".to_string(),
                "foo.service".to_string(),
            ],
        })
    );
    let listing = "UNIT FILE      STATE\nfoo.service    disabled\n";
    let (phase, next) = mgr.step(phase, command_ok(listing));
    assert_eq!(next, None);
    assert_eq!(phase, Phase::Complete(Ok(Some(Status::Stopped))));

    let (phase, _) = mgr.begin(Op::Status);
    let (phase, _) = mgr.step(phase, command_ok("inactive\n"));
    let (phase, next) = mgr.step(phase, command_ok("0 unit files listed.\n"));
    assert_eq!(next, None);
    assert_eq!(phase, Phase::Complete(Ok(Some(Status::NotInstalled))));
}

#[test]
fn status_query_failure_is_an_error_not_a_status() {
    let mgr = manager("foo");
    let (phase, _) = mgr.begin(Op::Status);
    let (phase, next) = mgr.step(phase, command_failed("boom"));
    assert_eq!(next, None);
    assert_eq!(
        phase,
        Phase::Complete(Err(Error::CommandError(
            "Failed to get service status: boom".to_string()
        )))
    );

    let (phase, _) = mgr.begin(Op::Status);
    let (phase, _) = mgr.step(phase, command_ok("inactive\n"));
    let (phase, next) = mgr.step(phase, command_failed("listing broke"));
    assert_eq!(next, None);
    assert_eq!(
        phase,
        Phase::Complete(Err(Error::CommandError(
            "Failed to list unit files: listing broke".to_string()
        )))
    );
}

#[test]
fn status_trims_whitespace_around_the_token() {
    let mgr = manager("foo");
    let (phase, _) = mgr.begin(Op::Status);
    let (phase, _) = mgr.step(phase, command_ok("  active \t\n"));
    assert_eq!(phase, Phase::Complete(Ok(Some(Status::Running))));
}

#[test]
fn an_unrunnable_command_is_an_io_error() {
    let mgr = manager("foo");
    let (phase, _) = mgr.begin(Op::Start);
    let (phase, next) = mgr.step(
        phase,
        Event::CommandUnavailable { detail: "No such file or directory".to_string() },
    );
    assert_eq!(next, None);
    assert_eq!(
        phase,
        Phase::Complete(Err(Error::IoError("No such file or directory".to_string())))
    );
}

#[test]
fn availability_probe_returns_without_failing() {
    let _ = Systemd::is_available();
}

#[test]
fn error_messages_carry_their_kind() {
    assert_eq!(
        Error::IoError("disk full".to_string()).message(),
        "I/O Error: disk full"
    );
    assert_eq!(
        Error::ValidationError("bad".to_string()).message(),
        "Validation Error: bad"
    );
    assert_eq!(
        Error::CommandError("x".to_string()).message(),
        "Command Error: x"
    );
}

#[test]
fn status_labels_match_the_display_vocabulary() {
    assert_eq!(Status::Running.label(), "Running");
    assert_eq!(Status::Stopped.label(), "Stopped");
    assert_eq!(Status::Unknown.label(), "Unknown");
    assert_eq!(Status::NotInstalled.label(), "Not installed");
    assert_eq!(Status::Failed.label(), "Failed");
}

#[test]
fn installed_document_carries_the_execution_settings() {
    let mgr = Systemd::new(Config {
        name: "web".to_string(),
        unit: Unit::default(),
        service: Service::default()
            .exec_start(vec!["/usr/bin/web".to_string()])
            .execution(Exec::default().user("www".to_string())),
        install: Install::default(),
    });
    let (phase, _) = mgr.begin(Op::Install);
    let (_, next) = mgr.step(phase, Event::PathChecked { exists: false });
    assert_eq!(
        next,
        Some(Step::WriteFile {
            path: "/etc/systemd/system/web.service".to_string(),
            contents: "[Unit]\n[Service]\nExecStart=/usr/bin/web\nUser=www\n[Install]\n"
                .to_string(),
            mode: 0o644,
        })
    );
}

#[test]
fn a_populated_config_renders_all_three_blocks() {
    let config = Config {
        name: "web".to_string(),
        unit: Unit::default()
            .description("Web".to_string())
            .after(vec!["network.target".to_string()]),
        service: Service::default().exec_start(vec!["/usr/bin/web".to_string()]),
        install: Install::default().wanted_by(vec!["multi-user.target".to_string()]),
    };
    assert_eq!(
        config.render(),
        "[Unit]\nDescription=Web\nAfter=network.target\n[Service]\nExecStart=/usr/bin/web\n[Install]\nWantedBy=multi-user.target\n"
    );
}
