use dsh_desktop::attach::{launch_plan, parse_attach_args, LaunchPlan};

#[test]
fn parses_attach_flag() {
    let args = vec![String::from("--attach"), String::from("http://127.0.0.1:3080")];
    let url = parse_attach_args(&args).expect("attach ok").expect("url");
    assert_eq!(url.host_str(), Some("127.0.0.1"));
    assert_eq!(url.port(), Some(3080));
}

#[test]
fn attach_absent_is_none() {
    assert!(parse_attach_args(&[]).expect("ok").is_none());
    let other = vec![String::from("--other")];
    assert!(parse_attach_args(&other).expect("ok").is_none());
}

#[test]
fn attach_rejects_non_loopback_and_malformed() {
    for bad in [
        vec![String::from("--attach"), String::from("http://192.168.1.5:3080")],
        vec![String::from("--attach"), String::from("http://127.0.0.1")],
        vec![String::from("--attach"), String::from("not a url")],
        vec![String::from("--attach")],
    ] {
        assert!(parse_attach_args(&bad).is_err(), "accepted {bad:?}");
    }
}

fn strings(items: &[&str]) -> Vec<String> {
    items.iter().map(|s| s.to_string()).collect()
}

#[test]
fn attach_error_messages() {
    assert_eq!(
        parse_attach_args(&strings(&["--attach"])),
        Err(String::from("--attach needs a loopback URL"))
    );
    assert_eq!(
        parse_attach_args(&strings(&["--attach", "not a url"])),
        Err(String::from(
            "--attach URL must be a loopback http URL with a port, got \"not a url\""
        ))
    );
    assert_eq!(
        parse_attach_args(&strings(&["--attach", "say \"hi\""])),
        Err(String::from(
            "--attach URL must be a loopback http URL with a port, got \"say \\\"hi\\\"\""
        ))
    );
}

#[test]
fn last_attach_wins_and_first_error_stops() {
    let url = parse_attach_args(&strings(&[
        "--attach",
        "http://127.0.0.1:3080",
        "--verbose",
        "--attach",
        "http://localhost:4000",
    ]))
    .expect("ok")
    .expect("url");
    assert_eq!(url.host_str(), Some("localhost"));
    assert_eq!(url.port(), Some(4000));
    // The value after `--attach` is consumed even when it is another flag.
    assert!(parse_attach_args(&strings(&["--attach", "--attach", "http://127.0.0.1:3080"])).is_err());
    assert!(parse_attach_args(&strings(&["--attach", "http://127.0.0.1:3080", "--attach"])).is_err());
}

#[test]
fn launch_plan_selects_the_window() {
    let plan = launch_plan(&strings(&["--attach", "http://127.0.0.1:3080"]));
    match &plan {
        LaunchPlan::Attach(url) => assert_eq!(url.as_str(), "http://127.0.0.1:3080/"),
        other => panic!("unexpected plan {other:?}"),
    }
    assert_eq!(plan.window_title(), "DeepSeek Harness");

    let plan = launch_plan(&[]);
    assert_eq!(
        plan,
        LaunchPlan::StartupError(String::from(
            "launch through the desktop profile instead: dsh --profile desktop (no --attach given)"
        ))
    );
    assert_eq!(plan.window_title(), "DeepSeek Harness - failed to start");

    let plan = launch_plan(&strings(&["--attach"]));
    assert_eq!(
        plan,
        LaunchPlan::StartupError(String::from("--attach needs a loopback URL"))
    );
}
