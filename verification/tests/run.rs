use cyrus_setup::event::{ReduceOutcome, SetupEvent};
use cyrus_setup::launch::{
    cyrus_exe_name, locate_cyrus_bin, setup_args, tunnel_args, CyrusBin, LaunchArg, TunnelArg,
};
use cyrus_setup::run::{run_setup_step, RunAction, RunEvent};
use cyrus_setup::sign_in::{
    apply_event_for_active_attempt, begin_attempt, complete_for_active_attempt, finish_with_error,
    AttemptUpdate, SignInState,
};
use cyrus_setup::text::{is_white_space, trim_line};

fn step(event: RunEvent) -> RunAction {
    run_setup_step(&TunnelArg::Quick, event)
}

fn failure(event: RunEvent) -> String {
    match step(event) {
        RunAction::Fail(message) => message,
        other => panic!("unexpected {other:?}"),
    }
}

fn text(s: &str) -> LaunchArg {
    LaunchArg::Text(s.to_string())
}

fn done() -> SetupEvent {
    SetupEvent::Done {
        public_url: None,
        shim_base_url: None,
        connector_id: None,
        link_id: None,
        tool_count: Some(34),
        fully_reused: Some(false),
    }
}

fn action_needed() -> SetupEvent {
    SetupEvent::NeedsUserAction {
        step: "chrome".to_string(),
        instruction: "log in".to_string(),
    }
}

/// Runs a whole attempt on scripted replies; `Apply` is answered by the attempt guard.
fn drive(sign_in: &mut SignInState<u8>, attempt_id: &str, replies: Vec<RunEvent>) {
    let mut replies = replies.into_iter();
    let mut action = step(RunEvent::Located { found: true });
    loop {
        action = match action {
            RunAction::Apply(event) => step(RunEvent::Updated(apply_event_for_active_attempt(
                sign_in, attempt_id, event,
            ))),
            RunAction::Complete => {
                complete_for_active_attempt(sign_in, attempt_id);
                return;
            }
            RunAction::Fail(message) => {
                finish_with_error(sign_in, attempt_id, message);
                return;
            }
            RunAction::Stop => return,
            _ => step(replies.next().expect("the run should have ended")),
        };
    }
}

fn running(attempt_id: &str) -> SignInState<u8> {
    let mut sign_in = SignInState::Other(7);
    begin_attempt(&mut sign_in, attempt_id.to_string());
    sign_in
}

fn error_of(sign_in: SignInState<u8>) -> Option<String> {
    match sign_in {
        SignInState::HannahMontanaSetup(state) => state.error,
        other => panic!("unexpected {other:?}"),
    }
}

#[test]
fn tunnel_args_emit_expected_flag_vectors() {
    assert_eq!(tunnel_args(&TunnelArg::Quick), vec!["--tunnel", "quick"]);
    assert_eq!(tunnel_args(&TunnelArg::Named), vec!["--tunnel", "named"]);
    assert_eq!(
        tunnel_args(&TunnelArg::Ngrok("my.ngrok-free.app".to_string())),
        vec!["--tunnel", "ngrok", "--ngrok-domain", "my.ngrok-free.app"]
    );
}

#[test]
fn setup_args_put_the_tunnel_after_json() {
    assert_eq!(
        setup_args(&TunnelArg::Ngrok("d".to_string())),
        vec![
            text("setup"),
            text("--repo"),
            LaunchArg::WorkingDir,
            text("--json"),
            text("--tunnel"),
            text("ngrok"),
            text("--ngrok-domain"),
            text("d"),
        ]
    );
    assert_eq!(setup_args(&TunnelArg::Quick).len(), 6);
    assert_ne!(setup_args(&TunnelArg::Quick), setup_args(&TunnelArg::Named));
}

#[test]
fn exe_name_depends_on_the_platform() {
    assert_eq!(cyrus_exe_name(true), "cyrus.exe");
    assert_eq!(cyrus_exe_name(false), "cyrus");
}

#[test]
fn binary_comes_from_env_then_sibling_then_path() {
    assert_eq!(
        locate_cyrus_bin(Some(("/opt/cyrus", 10)), Some(("/bin/cyrus", true))),
        Some(CyrusBin::EnvOverride("/opt/cyrus"))
    );
    assert_eq!(
        locate_cyrus_bin(Some(("", 0)), Some(("/bin/cyrus", true))),
        Some(CyrusBin::Sibling("/bin/cyrus"))
    );
    assert_eq!(
        locate_cyrus_bin(None, Some(("/bin/cyrus", true))),
        Some(CyrusBin::Sibling("/bin/cyrus"))
    );
    assert_eq!(
        locate_cyrus_bin(None, Some(("/bin/cyrus", false))),
        Some(CyrusBin::OnPath("cyrus".to_string()))
    );
    assert_eq!(
        locate_cyrus_bin(Some(("", 0)), None),
        Some(CyrusBin::OnPath("cyrus".to_string()))
    );
}

#[test]
fn launch_decisions() {
    match step(RunEvent::Located { found: true }) {
        RunAction::Launch(args) => assert_eq!(args, setup_args(&TunnelArg::Quick)),
        other => panic!("unexpected {other:?}"),
    }
    assert_eq!(
        failure(RunEvent::Located { found: false }),
        "Could not locate the cyrus binary. Set CYRUS_BIN or add cyrus to PATH."
    );
    assert!(matches!(
        step(RunEvent::Launched { has_stdout: true }),
        RunAction::ReadLine
    ));
    assert_eq!(
        failure(RunEvent::Launched { has_stdout: false }),
        "cyrus did not provide a stdout stream"
    );
    assert_eq!(
        failure(RunEvent::LaunchFailed {
            bin: "/opt/cyrus".to_string(),
            err: "not found".to_string(),
        }),
        "Failed to launch /opt/cyrus: not found"
    );
}

#[test]
fn read_decisions() {
    for blank in ["", "  \t", "\u{a0}\u{3000}"] {
        assert!(matches!(
            step(RunEvent::Line(blank.to_string())),
            RunAction::ReadLine
        ));
    }
    match step(RunEvent::Line(" {\"event\": \"done\"}\r".to_string())) {
        RunAction::Parse(text) => assert_eq!(text, "{\"event\": \"done\"}"),
        other => panic!("unexpected {other:?}"),
    }
    assert!(matches!(step(RunEvent::EndOfOutput), RunAction::Wait));
    assert_eq!(
        failure(RunEvent::ReadFailed {
            err: "broken".to_string()
        }),
        "Error reading cyrus output: broken"
    );
    assert!(matches!(step(RunEvent::Parsed(None)), RunAction::ReadLine));
    match step(RunEvent::Parsed(Some(done()))) {
        RunAction::Apply(event) => assert_eq!(event, done()),
        other => panic!("unexpected {other:?}"),
    }
}

#[test]
fn update_decisions() {
    assert!(matches!(
        step(RunEvent::Updated(AttemptUpdate::Stale)),
        RunAction::Stop
    ));
    assert!(matches!(
        step(RunEvent::Updated(AttemptUpdate::Applied(
            ReduceOutcome::Continue
        ))),
        RunAction::ReadLine
    ));
    assert!(matches!(
        step(RunEvent::Updated(AttemptUpdate::Applied(
            ReduceOutcome::Completed
        ))),
        RunAction::Complete
    ));
    assert!(matches!(
        step(RunEvent::Updated(AttemptUpdate::Applied(
            ReduceOutcome::Failed
        ))),
        RunAction::Stop
    ));
}

#[test]
fn exit_decisions() {
    assert_eq!(
        failure(RunEvent::Exited {
            success: true,
            status: "exit status: 0".to_string(),
        }),
        "cyrus exited before completing setup"
    );
    assert_eq!(
        failure(RunEvent::Exited {
            success: false,
            status: "exit status: 3".to_string(),
        }),
        "cyrus exited with exit status: 3"
    );
    assert_eq!(
        failure(RunEvent::WaitFailed {
            err: "gone".to_string()
        }),
        "Failed to wait for cyrus: gone"
    );
}

#[test]
fn trimming_removes_white_space_at_both_ends_only() {
    assert_eq!(trim_line("\t a b \u{2003}\n"), "a b");
    assert_eq!(trim_line(""), "");
    assert_eq!(trim_line(" \u{85} "), "");
    assert_eq!(trim_line("é x"), "é x");
    assert_eq!(trim_line(" \u{200b}x\u{feff} "), "\u{200b}x\u{feff}");
}

#[test]
fn trimming_agrees_with_std_on_every_character() {
    for c in '\0'..=char::MAX {
        assert_eq!(is_white_space(c), c.is_whitespace());
    }
}

#[test]
fn run_with_noise_ends_configured() {
    let mut sign_in = running("a");
    drive(
        &mut sign_in,
        "a",
        vec![
            RunEvent::Launched { has_stdout: true },
            RunEvent::Line("   ".to_string()),
            RunEvent::Line("not json".to_string()),
            RunEvent::Parsed(None),
            RunEvent::Line("{..}".to_string()),
            RunEvent::Parsed(Some(action_needed())),
            RunEvent::Line("{..}".to_string()),
            RunEvent::Parsed(Some(done())),
        ],
    );
    assert!(matches!(sign_in, SignInState::HannahMontanaConfigured));
}

#[test]
fn run_with_an_error_event_ends_failed() {
    let mut sign_in = running("a");
    drive(
        &mut sign_in,
        "a",
        vec![
            RunEvent::Launched { has_stdout: true },
            RunEvent::Line("{..}".to_string()),
            RunEvent::Parsed(Some(SetupEvent::Error {
                message: "boom".to_string(),
                remedy: None,
            })),
        ],
    );
    assert_eq!(error_of(sign_in).as_deref(), Some("boom"));
}

#[test]
fn run_whose_stream_ends_early_shows_the_exit_status() {
    let mut sign_in = running("a");
    drive(
        &mut sign_in,
        "a",
        vec![
            RunEvent::Launched { has_stdout: true },
            RunEvent::Line("{..}".to_string()),
            RunEvent::Parsed(Some(action_needed())),
            RunEvent::EndOfOutput,
            RunEvent::Exited {
                success: false,
                status: "signal: 9 (SIGKILL)".to_string(),
            },
        ],
    );
    if let SignInState::HannahMontanaSetup(state) = &sign_in {
        assert_eq!(state.needs_user_action, None);
    }
    assert_eq!(
        error_of(sign_in).as_deref(),
        Some("cyrus exited with signal: 9 (SIGKILL)")
    );
}

#[test]
fn superseded_run_stops_without_a_trace() {
    let mut sign_in = running("new");
    let before = format!("{sign_in:?}");
    drive(
        &mut sign_in,
        "old",
        vec![
            RunEvent::Launched { has_stdout: true },
            RunEvent::Line("{..}".to_string()),
            RunEvent::Parsed(Some(done())),
        ],
    );
    assert_eq!(format!("{sign_in:?}"), before);
}

#[test]
fn run_superseded_between_turns_stops_and_spares_the_newer_attempt() {
    let mut sign_in = running("old");
    let update = apply_event_for_active_attempt(&mut sign_in, "old", action_needed());
    assert!(matches!(
        step(RunEvent::Updated(update)),
        RunAction::ReadLine
    ));

    begin_attempt(&mut sign_in, "new".to_string());
    let before = format!("{sign_in:?}");
    let update = apply_event_for_active_attempt(&mut sign_in, "old", done());
    assert!(matches!(step(RunEvent::Updated(update)), RunAction::Stop));
    assert_eq!(format!("{sign_in:?}"), before);
}

fn boom() -> SetupEvent {
    SetupEvent::Error {
        message: "boom".to_string(),
        remedy: Some("hint".to_string()),
    }
}

fn output(events: Vec<SetupEvent>) -> Vec<RunEvent> {
    let mut replies = vec![RunEvent::Launched { has_stdout: true }];
    for event in events {
        replies.push(RunEvent::Line("{..}".to_string()));
        replies.push(RunEvent::Parsed(Some(event)));
    }
    replies
}

#[test]
fn first_terminal_event_decides_the_run() {
    let mut sign_in = running("a");
    drive(&mut sign_in, "a", output(vec![action_needed(), done(), boom()]));
    assert!(matches!(sign_in, SignInState::HannahMontanaConfigured));

    let mut sign_in = running("a");
    drive(&mut sign_in, "a", output(vec![action_needed(), boom(), done()]));
    assert_eq!(error_of(sign_in).as_deref(), Some("boom"));
}

#[test]
fn what_follows_a_terminal_event_makes_no_difference() {
    let mut shown = Vec::new();
    for events in [
        vec![action_needed(), boom()],
        vec![action_needed(), boom(), done()],
        vec![action_needed(), boom(), action_needed(), boom()],
    ] {
        let mut sign_in = running("a");
        let mut replies = output(events);
        replies.push(RunEvent::ReadFailed {
            err: "late".to_string(),
        });
        drive(&mut sign_in, "a", replies);
        shown.push(format!("{sign_in:?}"));
    }
    assert_eq!(shown[0], shown[1]);
    assert_eq!(shown[0], shown[2]);
}

#[test]
fn stream_without_terminal_event_ends_with_the_error_of_its_end() {
    let ends = [
        (
            vec![
                RunEvent::EndOfOutput,
                RunEvent::Exited {
                    success: true,
                    status: "exit status: 0".to_string(),
                },
            ],
            "cyrus exited before completing setup",
        ),
        (
            vec![
                RunEvent::EndOfOutput,
                RunEvent::WaitFailed {
                    err: "gone".to_string(),
                },
            ],
            "Failed to wait for cyrus: gone",
        ),
        (
            vec![RunEvent::ReadFailed {
                err: "broken".to_string(),
            }],
            "Error reading cyrus output: broken",
        ),
    ];
    for (end, message) in ends {
        let mut sign_in = running("a");
        if let SignInState::HannahMontanaSetup(state) = &mut sign_in {
            state.remedy = Some("old hint".to_string());
        }
        let mut replies = output(vec![action_needed()]);
        replies.extend(end);
        drive(&mut sign_in, "a", replies);
        match sign_in {
            SignInState::HannahMontanaSetup(state) => {
                assert_eq!(state.error.as_deref(), Some(message));
                assert_eq!(state.remedy, None);
                assert_eq!(state.needs_user_action, None);
            }
            other => panic!("unexpected {other:?}"),
        }
    }
}
