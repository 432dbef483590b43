use kilocode_extension::sidecar;
use kilocode_extension::simple;

#[test]
fn simple_hook_returns_fixed_command() {
    let ext = simple::KilocodeExtension::new();
    let cmd = ext.language_server_command("rust-analyzer").unwrap();
    assert_eq!(cmd.command, "echo");
    assert_eq!(
        cmd.args,
        vec!["Kilocode AI Extension Loaded - Sidecar at http://localhost:3001".to_string()]
    );
    assert!(cmd.env.is_empty());
}

#[test]
fn simple_hook_is_input_independent() {
    let ext = simple::KilocodeExtension::new();
    let a = ext.language_server_command("one-language-server").unwrap();
    let b = ext.language_server_command("").unwrap();
    assert_eq!(a.command, b.command);
    assert_eq!(a.args, b.args);
    assert_eq!(a.env, b.env);
}

#[test]
fn sidecar_new_holds_no_handle() {
    let ext = sidecar::KilocodeExtension::new();
    assert_eq!(ext.sidecar_process, None);
    assert_eq!(ext.service_port, 3001);
    assert!(ext.needs_spawn());
}

#[test]
fn sidecar_hook_returns_fixed_command() {
    let ext = sidecar::KilocodeExtension::new();
    let cmd = ext
        .language_server_command("rust-analyzer", Ok(()))
        .unwrap();
    assert_eq!(cmd.command, "echo");
    assert_eq!(cmd.args, vec!["Kilocode AI Assistant Ready".to_string()]);
    assert!(cmd.env.is_empty());
}

#[test]
fn sidecar_hook_is_input_independent() {
    let ext = sidecar::KilocodeExtension::new();
    let a = ext.language_server_command("one-language-server", Ok(())).unwrap();
    let b = ext
        .language_server_command("", Err("spawn went wrong".to_string()))
        .unwrap();
    assert_eq!(a.command, b.command);
    assert_eq!(a.args, b.args);
    assert_eq!(a.env, b.env);
}

#[test]
fn spawn_command_is_the_fixed_diagnostic() {
    let ext = sidecar::KilocodeExtension::new();
    let cmd = ext.spawn_command();
    assert_eq!(cmd.command, "echo");
    assert_eq!(cmd.args, vec!["Kilocode sidecar would start here".to_string()]);
    assert!(cmd.env.is_empty());
}

#[test]
fn ensure_started_twice_holds_exactly_one_handle() {
    let mut ext = sidecar::KilocodeExtension::new();

    // First "ensure started": no handle held, so a spawn is needed; the
    // obtained handle is stored.
    assert!(ext.needs_spawn());
    assert!(ext.record_spawn_outcome(Ok(11)).is_ok());
    assert_eq!(ext.sidecar_process, Some(11));

    // Second "ensure started": a handle is held, so it is a no-op.
    assert!(!ext.needs_spawn());
    assert_eq!(ext.sidecar_process, Some(11));
}

#[test]
fn spawn_failure_is_described_and_not_propagated() {
    let mut ext = sidecar::KilocodeExtension::new();
    assert!(ext.needs_spawn());
    let ensured = ext.record_spawn_outcome(Err("No such file or directory".to_string()));
    assert_eq!(
        ensured,
        Err("Failed to start sidecar: No such file or directory".to_string())
    );
    assert_eq!(ext.sidecar_process, None);

    // The hook still returns its fixed command: the failure stays behind.
    let cmd = ext
        .language_server_command("rust-analyzer", ensured)
        .unwrap();
    assert_eq!(cmd.command, "echo");
    assert_eq!(cmd.args, vec!["Kilocode AI Assistant Ready".to_string()]);
}

#[test]
fn teardown_clears_the_handle() {
    let mut ext = sidecar::KilocodeExtension::new();
    assert!(ext.record_spawn_outcome(Ok(5)).is_ok());
    assert_eq!(ext.teardown(), Some(5));
    assert_eq!(ext.sidecar_process, None);
}

#[test]
fn teardown_without_a_handle_is_harmless() {
    let mut ext = sidecar::KilocodeExtension::new();
    assert_eq!(ext.teardown(), None);
    assert_eq!(ext.sidecar_process, None);
}
