//! Validation: numeric ranges, string-shape rules, and their error messages.

use systemd_service::systemd::Exec;
use systemd_service::systemd::Install;
use systemd_service::systemd::Service;
use systemd_service::systemd::Unit;

#[test]
fn nice_range_is_enforced() {
    let mut exec = Exec::default();
    exec.nice = Some(25);
    assert_eq!(
        exec.validate(),
        Err("Nice level 25 must be between -20 and 19".to_string())
    );
    exec.nice = Some(19);
    assert_eq!(exec.validate(), Ok(()));
    exec.nice = Some(-21);
    assert_eq!(
        exec.validate(),
        Err("Nice level -21 must be between -20 and 19".to_string())
    );
    exec.nice = Some(-20);
    assert_eq!(exec.validate(), Ok(()));
}

#[test]
fn oom_score_adjust_range_is_enforced() {
    let mut exec = Exec::default();
    exec.oom_score_adjust = Some(1001);
    assert_eq!(
        exec.validate(),
        Err("OOMScoreAdjust 1001 must be between -1000 and 1000".to_string())
    );
    exec.oom_score_adjust = Some(-1001);
    assert_eq!(
        exec.validate(),
        Err("OOMScoreAdjust -1001 must be between -1000 and 1000".to_string())
    );
    exec.oom_score_adjust = Some(-1000);
    assert_eq!(exec.validate(), Ok(()));
    exec.oom_score_adjust = Some(1000);
    assert_eq!(exec.validate(), Ok(()));
}

#[test]
fn environment_entries_need_a_key_and_separator() {
    let exec = Exec::default().environment(vec!["FOO".to_string()]);
    assert_eq!(
        exec.validate(),
        Err("Environment variable 'FOO' must be in KEY=VALUE format".to_string())
    );
    let exec = Exec::default().environment(vec!["FOO=bar".to_string()]);
    assert_eq!(exec.validate(), Ok(()));
    let exec = Exec::default().environment(vec!["=bar".to_string()]);
    assert_eq!(
        exec.validate(),
        Err("Invalid environment variable format: '=bar'".to_string())
    );
    let exec = Exec::default().environment(vec!["A=1".to_string(), "B".to_string()]);
    assert!(exec.validate().is_err());
}

#[test]
fn pass_and_unset_environment_reject_separators() {
    let mut exec = Exec::default();
    exec.pass_environment = Some(vec!["HOME".to_string()]);
    assert_eq!(exec.validate(), Ok(()));
    exec.pass_environment = Some(vec!["HOME=x".to_string()]);
    assert_eq!(
        exec.validate(),
        Err("PassEnvironment variable 'HOME=x' should not contain '='".to_string())
    );
    let mut exec = Exec::default();
    exec.unset_environment = Some(vec!["TERM=x".to_string()]);
    assert_eq!(
        exec.validate(),
        Err("UnsetEnvironment variable 'TERM=x' should not contain '='".to_string())
    );
}

#[test]
fn capabilities_need_the_cap_prefix() {
    let mut exec = Exec::default();
    exec.capability_bounding_set = Some(vec!["MKNOD".to_string()]);
    assert_eq!(
        exec.validate(),
        Err("Capability 'MKNOD' must start with 'CAP_'".to_string())
    );
    exec.capability_bounding_set = Some(vec!["CAP_MKNOD".to_string()]);
    assert_eq!(exec.validate(), Ok(()));
    let mut exec = Exec::default();
    exec.ambient_capabilities = Some(vec!["NET_ADMIN".to_string()]);
    assert!(exec.validate().is_err());
}

#[test]
fn supplementary_groups_and_image_options_reject_empties() {
    let mut exec = Exec::default();
    exec.supplementary_groups = Some(vec!["wheel".to_string(), "".to_string()]);
    assert_eq!(
        exec.validate(),
        Err("Supplementary group names cannot be empty".to_string())
    );
    let mut exec = Exec::default();
    exec.root_image_options = Some(vec!["".to_string()]);
    assert_eq!(
        exec.validate(),
        Err("RootImageOptions cannot contain empty strings".to_string())
    );
    let mut exec = Exec::default();
    exec.root_image_options = Some(vec!["ro".to_string()]);
    assert_eq!(exec.validate(), Ok(()));
}

#[test]
fn documentation_uris_need_an_accepted_scheme() {
    let unit = Unit::default().documentation(vec!["ftp://x".to_string()]);
    assert_eq!(
        unit.validate(),
        Err(
            "Invalid documentation URI 'ftp://x': must start with http://, https://, file:, info:, or man:"
                .to_string()
        )
    );
    let unit = Unit::default().documentation(vec![
        "https://x".to_string(),
        "man:systemd(1)".to_string(),
        "http://example.com".to_string(),
        "file:/a".to_string(),
        "info:gpg".to_string(),
    ]);
    assert_eq!(unit.validate(), Ok(()));
}

#[test]
fn unit_capability_conditions_need_the_cap_prefix() {
    let unit = Unit::default().condition_capability(vec!["MKNOD".to_string()]);
    assert_eq!(
        unit.validate(),
        Err("Invalid ConditionCapability 'MKNOD': must start with CAP_".to_string())
    );
    let unit = Unit::default().condition_capability(vec!["CAP_MKNOD".to_string()]);
    assert_eq!(unit.validate(), Ok(()));
    let unit = Unit::default().assert_capability(vec!["SYS_ADMIN".to_string()]);
    assert_eq!(
        unit.validate(),
        Err("Invalid AssertCapability 'SYS_ADMIN': must start with CAP_".to_string())
    );
}

#[test]
fn default_sections_validate_cleanly() {
    assert_eq!(Unit::default().validate(), Ok(()));
    assert_eq!(Service::default().validate(), Ok(()));
    assert_eq!(Install::default().validate(), Ok(()));
    assert_eq!(Exec::default().validate(), Ok(()));
}

#[test]
fn default_instance_shape_is_enforced() {
    let install = Install::default().default_instance("".to_string());
    assert_eq!(
        install.validate(),
        Err("Invalid DefaultInstance: cannot be empty".to_string())
    );
    let install = Install::default().default_instance("a b".to_string());
    assert_eq!(
        install.validate(),
        Err(
            "Invalid DefaultInstance 'a b': must contain only alphanumeric characters, underscores, and hyphens"
                .to_string()
        )
    );
    let install = Install::default().default_instance("web-1_a".to_string());
    assert_eq!(install.validate(), Ok(()));
}

#[test]
fn default_instance_accepts_unicode_alphanumerics() {
    let install = Install::default().default_instance("caf\u{e9}9".to_string());
    assert_eq!(install.validate(), Ok(()));
    let install = Install::default().default_instance("a/b".to_string());
    assert!(install.validate().is_err());
}

#[test]
fn validation_and_rendering_are_decoupled() {
    let mut exec = Exec::default();
    exec.nice = Some(99);
    assert!(exec.validate().is_err());
    assert_eq!(exec.render(), "Nice=99\n");
}
