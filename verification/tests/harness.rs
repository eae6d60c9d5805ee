use dsh_desktop::harness::{
    harness_command, harness_step, runtime_exited, split_command, terminate_step,
    HarnessEvent, HarnessStep, RuntimeProbe, TerminateStep,
};

#[test]
fn defaults_to_the_dsh_web_command() {
    assert_eq!(
        harness_command(None, None, None),
        ["dsh", "web", "--host", "127.0.0.1"]
    );
}

#[test]
fn command_uses_bin_split_args_and_port() {
    assert_eq!(
        harness_command(
            Some(String::from("/opt/dsh")),
            Some(String::from("  web --profile\tdesktop ")),
            Some(String::from("4199")),
        ),
        ["/opt/dsh", "web", "--profile", "desktop", "--host", "127.0.0.1", "--port", "4199"]
    );
    assert_eq!(
        harness_command(Some(String::from("sh")), Some(String::new()), None),
        ["sh", "--host", "127.0.0.1"]
    );
}

#[test]
fn splits_the_binary_from_its_arguments() {
    let command = harness_command(None, None, None);
    let (bin, args) = split_command(command).expect("non-empty");
    assert_eq!(bin, "dsh");
    assert_eq!(args, ["web", "--host", "127.0.0.1"]);
    assert_eq!(split_command(Vec::new()), Err(String::from("DSH_BIN is empty")));
}

#[test]
fn harness_lines_publish_the_loopback_url() {
    match harness_step(HarnessEvent::Line(String::from(
        "dsh web: http://127.0.0.1:4199",
    ))) {
        HarnessStep::Published(url) => assert_eq!(url.port(), Some(4199)),
        other => panic!("unexpected step {other:?}"),
    }
    assert_eq!(
        harness_step(HarnessEvent::Line(String::from("booting..."))),
        HarnessStep::KeepWaiting
    );
}

#[test]
fn exited_or_silent_harness_fails() {
    assert_eq!(
        harness_step(HarnessEvent::Exited(String::from("exit status: 1"))),
        HarnessStep::Failed(String::from(
            "harness exited with exit status: 1 before publishing its URL"
        ))
    );
    match harness_step(HarnessEvent::Disconnected(String::from("exit status: 0"))) {
        HarnessStep::Failed(error) => assert!(error.contains("exited"), "{error}"),
        other => panic!("unexpected step {other:?}"),
    }
    assert_eq!(
        harness_step(HarnessEvent::TimedOut),
        HarnessStep::Failed(String::from(
            "timed out waiting for the harness to publish its URL"
        ))
    );
}

#[test]
fn terminate_escalates_only_after_the_grace_window() {
    assert_eq!(terminate_step(false, false), TerminateStep::Done);
    assert_eq!(terminate_step(false, true), TerminateStep::Done);
    assert_eq!(terminate_step(true, false), TerminateStep::ProbeAgain);
    assert_eq!(terminate_step(true, true), TerminateStep::ForceKill);
}

#[test]
fn runtime_exit_is_seen_on_stdin_eof_or_reparenting() {
    assert!(runtime_exited(RuntimeProbe::StdinRead(0)));
    assert!(!runtime_exited(RuntimeProbe::StdinRead(12)));
    assert!(runtime_exited(RuntimeProbe::StdinFailed));
    assert!(runtime_exited(RuntimeProbe::ParentPid(1)));
    assert!(!runtime_exited(RuntimeProbe::ParentPid(4242)));
}
