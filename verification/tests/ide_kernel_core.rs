use ide_kernel::ide::{aci_emit_plan, cli_action, kernel_status, version, CliAction};

#[test]
fn test_version_is_semver() {
    let v = version();
    assert!(!v.is_empty(), "version must not be empty");
    let parts: Vec<&str> = v.split('.').collect();
    assert_eq!(parts.len(), 3, "version must be semver: got {v}");
}

#[test]
fn test_kernel_status_is_known() {
    let s = kernel_status();
    assert!(
        ["placeholder", "in-progress", "stable"].contains(&s),
        "unknown kernel status: {s}"
    );
}

fn args(items: &[&str]) -> Vec<String> {
    items.iter().map(|s| s.to_string()).collect()
}

#[test]
fn cli_flags_are_read() {
    assert_eq!(cli_action(&args(&["ide-cli"])), CliAction::MissingFlag);
    assert_eq!(cli_action(&args(&["ide-cli", "--version"])), CliAction::ShowVersion);
    assert_eq!(cli_action(&args(&["ide-cli", "-V"])), CliAction::ShowVersion);
    assert_eq!(cli_action(&args(&["ide-cli", "-h"])), CliAction::ShowHelp);
    assert_eq!(cli_action(&args(&["ide-cli", "--help"])), CliAction::ShowHelp);
    assert_eq!(
        cli_action(&args(&["ide-cli", "--aci-emit"])),
        CliAction::EmitAssertion(None)
    );
    assert_eq!(
        cli_action(&args(&["ide-cli", "--aci-emit", "ide1.0:test:custom"])),
        CliAction::EmitAssertion(Some("ide1.0:test:custom".to_string()))
    );
    assert_eq!(
        cli_action(&args(&["ide-cli", "--bogus"])),
        CliAction::UnknownFlag("--bogus".to_string())
    );
}

#[test]
fn aci_plan_defaults_and_custom_id() {
    let p = aci_emit_plan(None);
    assert_eq!(p.assertion_id, "ide1.0:smoke:smoke-1");
    assert_eq!(p.layer, "it");
    assert_eq!(p.scope_project, "ide1.0");
    assert_eq!(p.scope_module, "smoke");
    assert_eq!(p.expect.value, 100);
    assert_eq!(p.actual.value, 5);
    assert_eq!(p.expect.value_type, "response_within_ms");
    assert_eq!(p.status, "PASS");
    assert_eq!(p.severity, "info");
    let c = aci_emit_plan(Some("ide1.0:test:custom".to_string()));
    assert_eq!(c.assertion_id, "ide1.0:test:custom");
}
