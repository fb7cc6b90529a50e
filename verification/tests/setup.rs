use rawlink::setup::{create_veth, run_command, veth_args, veth_command, CommandOutcome, SetupError};

fn completed(exit_ok: bool, stderr: &str) -> CommandOutcome {
    CommandOutcome::Completed {
        exit_ok,
        stderr: stderr.to_string(),
    }
}

#[test]
fn create_veth_succeeds_on_zero_exit() {
    let r = create_veth(completed(true, ""));
    assert!(r.is_ok());
}

#[test]
fn create_veth_absent_tool_is_spawn_kind() {
    // The tool was absent from the execution path: no diagnostic text exists.
    let r = create_veth(CommandOutcome::SpawnFailed);
    match r {
        Err(SetupError::CommandFailed { cmd, msg }) => {
            assert_eq!(cmd, "ip");
            assert!(msg.is_none());
        }
        _ => panic!("expected a command failure"),
    }
}

#[test]
fn create_veth_duplicate_pair_keeps_diagnostic() {
    // A second invocation: the pair exists, the tool exits non-zero and
    // writes its duplicate-name rejection to standard error.
    let r = create_veth(completed(false, "RTNETLINK answers: File exists"));
    match r {
        Err(SetupError::CommandFailed { cmd, msg }) => {
            assert_eq!(cmd, "ip");
            let text = msg.expect("a completed failure carries diagnostics");
            assert_eq!(text, "RTNETLINK answers: File exists");
            assert!(!text.is_empty());
        }
        _ => panic!("expected a command failure"),
    }
}

#[test]
fn run_command_reports_success_only_on_zero_exit() {
    assert!(run_command("tool", completed(true, "noise on stderr")).is_ok());
    assert!(run_command("tool", completed(false, "")).is_err());
    assert!(run_command("tool", CommandOutcome::SpawnFailed).is_err());
}

#[test]
fn run_command_failure_names_the_command() {
    let r = run_command("tool", completed(false, "boom"));
    match r {
        Err(SetupError::CommandFailed { cmd, msg }) => {
            assert_eq!(cmd, "tool");
            assert_eq!(msg.as_deref(), Some("boom"));
        }
        _ => panic!("expected a command failure"),
    }
}

#[test]
fn setup_error_message_without_diagnostics() {
    let e = SetupError::CommandFailed {
        cmd: "ip".to_string(),
        msg: None,
    };
    assert_eq!(e.message(), "command 'ip' failed");
}

#[test]
fn setup_error_message_with_diagnostics() {
    let e = SetupError::CommandFailed {
        cmd: "ip".to_string(),
        msg: Some("RTNETLINK answers: File exists".to_string()),
    };
    assert_eq!(
        e.message(),
        "command 'ip' failed: RTNETLINK answers: File exists"
    );
}

#[test]
fn veth_grammar_is_fixed() {
    assert_eq!(veth_command(), "ip");
    assert_eq!(
        veth_args(),
        vec!["link", "add", "veth0", "type", "veth", "peer", "name", "veth0-peer"]
    );
}
