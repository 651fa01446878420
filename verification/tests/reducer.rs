use cyrus_setup::event::{reduce, ReduceOutcome, SetupEvent};
use cyrus_setup::progress::{HannahMontanaSetupState, StepStatus};
use serde_json::Value;

fn text(object: &Value, key: &str) -> String {
    object[key].as_str().expect("a string member").to_string()
}

fn optional_text(object: &Value, key: &str) -> Option<String> {
    object[key].as_str().map(|t| t.to_string())
}

fn parse(line: &str) -> SetupEvent {
    let object: Value = serde_json::from_str(line).expect("event should parse");
    match object["event"].as_str().expect("a tag") {
        "step_started" => SetupEvent::StepStarted {
            step: text(&object, "step"),
            label: optional_text(&object, "label"),
        },
        "step_done" => SetupEvent::StepDone {
            step: text(&object, "step"),
            detail: optional_text(&object, "detail"),
        },
        "needs_user_action" => SetupEvent::NeedsUserAction {
            step: text(&object, "step"),
            instruction: text(&object, "instruction"),
        },
        "user_action_resolved" => SetupEvent::UserActionResolved {
            step: text(&object, "step"),
        },
        "done" => SetupEvent::Done {
            public_url: optional_text(&object, "public_url"),
            shim_base_url: optional_text(&object, "shim_base_url"),
            connector_id: optional_text(&object, "connector_id"),
            link_id: optional_text(&object, "link_id"),
            tool_count: object["tool_count"].as_u64().map(|n| n as u32),
            fully_reused: object["fully_reused"].as_bool(),
        },
        "error" => SetupEvent::Error {
            message: text(&object, "message"),
            remedy: optional_text(&object, "remedy"),
        },
        other => panic!("unknown event {other}"),
    }
}

fn snapshot(
    state: &HannahMontanaSetupState,
) -> (
    String,
    Vec<(String, String, StepStatus, Option<String>)>,
    Option<String>,
    Option<String>,
    Option<String>,
) {
    (
        state.attempt_id.clone(),
        state
            .steps
            .iter()
            .map(|s| (s.key.clone(), s.label.clone(), s.status, s.detail.clone()))
            .collect(),
        state.needs_user_action.clone(),
        state.error.clone(),
        state.remedy.clone(),
    )
}

fn started(step: &str) -> SetupEvent {
    SetupEvent::StepStarted {
        step: step.to_string(),
        label: None,
    }
}

fn done() -> SetupEvent {
    SetupEvent::Done {
        public_url: None,
        shim_base_url: None,
        connector_id: None,
        link_id: None,
        tool_count: None,
        fully_reused: None,
    }
}

#[test]
fn reduces_full_sequence_to_completed() {
    let lines = [
        r#"{"event":"step_started","step":"secrets","label":"Loading secrets"}"#,
        r#"{"event":"step_done","step":"secrets","detail":"loaded"}"#,
        r#"{"event":"step_started","step":"chrome","label":"Connecting Chrome"}"#,
        r#"{"event":"needs_user_action","step":"chrome","instruction":"log in to ChatGPT"}"#,
        r#"{"event":"user_action_resolved","step":"chrome"}"#,
        r#"{"event":"step_done","step":"chrome","detail":"reusing running Chrome"}"#,
        r#"{"event":"step_started","step":"tunnel","label":"Opening tunnel"}"#,
        r#"{"event":"step_done","step":"tunnel","detail":"up"}"#,
        r#"{"event":"step_started","step":"stack","label":"Starting stack"}"#,
        r#"{"event":"step_done","step":"stack","detail":"running"}"#,
        r#"{"event":"step_started","step":"connector","label":"Wiring connector"}"#,
        r#"{"event":"step_done","step":"connector","detail":"wired"}"#,
        r#"{"event":"step_started","step":"codex_config","label":"Writing config"}"#,
        r#"{"event":"step_done","step":"codex_config","detail":"written"}"#,
        r#"{"event":"done","public_url":"https://x","shim_base_url":"https://y","connector_id":"c","link_id":"l","tool_count":34,"fully_reused":false}"#,
    ];

    let mut state = HannahMontanaSetupState::new("attempt-1".to_string());
    let mut outcome = ReduceOutcome::Continue;
    for line in lines {
        outcome = reduce(&mut state, parse(line));
    }

    assert_eq!(outcome, ReduceOutcome::Completed);
    assert_eq!(state.error, None);
    assert_eq!(state.needs_user_action, None);
    assert!(
        state
            .steps
            .iter()
            .all(|step| step.status == StepStatus::Done),
        "every step should be marked done"
    );
    let chrome = state
        .steps
        .iter()
        .find(|step| step.key == "chrome")
        .expect("chrome step present");
    assert_eq!(chrome.detail.as_deref(), Some("reusing running Chrome"));
}

#[test]
fn needs_user_action_is_tracked_then_cleared() {
    let mut state = HannahMontanaSetupState::new("attempt-1".to_string());

    reduce(
        &mut state,
        parse(r#"{"event":"step_started","step":"chrome","label":"Connecting Chrome"}"#),
    );
    reduce(
        &mut state,
        parse(r#"{"event":"needs_user_action","step":"chrome","instruction":"log in to ChatGPT"}"#),
    );
    assert_eq!(
        state.needs_user_action.as_deref(),
        Some("log in to ChatGPT")
    );

    reduce(
        &mut state,
        parse(r#"{"event":"user_action_resolved","step":"chrome"}"#),
    );
    assert_eq!(state.needs_user_action, None);
}

#[test]
fn error_event_sets_failed_terminal_state() {
    let mut state = HannahMontanaSetupState::new("attempt-1".to_string());
    reduce(
        &mut state,
        parse(r#"{"event":"step_started","step":"secrets","label":"Loading secrets"}"#),
    );

    let outcome = reduce(
        &mut state,
        parse(r#"{"event":"error","message":"chrome not found"}"#),
    );

    assert_eq!(outcome, ReduceOutcome::Failed);
    assert_eq!(state.error.as_deref(), Some("chrome not found"));
    assert_eq!(state.needs_user_action, None);
}

#[test]
fn new_run_lists_the_six_steps_pending() {
    let state = HannahMontanaSetupState::new("a".to_string());
    let expected = [
        ("secrets", "Preparing credentials"),
        ("chrome", "Connecting to Chrome"),
        ("tunnel", "Opening the public tunnel"),
        ("stack", "Starting local servers"),
        ("connector", "Wiring the ChatGPT connector"),
        ("codex_config", "Configuring codex"),
    ];
    assert_eq!(state.attempt_id, "a");
    assert_eq!(state.steps.len(), expected.len());
    for (step, (key, label)) in state.steps.iter().zip(expected) {
        assert_eq!(step.key, key);
        assert_eq!(step.label, label);
        assert_eq!(step.status, StepStatus::Pending);
        assert_eq!(step.detail, None);
    }
    assert_eq!(state.needs_user_action, None);
    assert_eq!(state.error, None);
    assert_eq!(state.remedy, None);
}

#[test]
fn step_mut_finds_the_step_and_writes_through() {
    let mut state = HannahMontanaSetupState::new("a".to_string());
    state.step_mut("tunnel").expect("tunnel step").status = StepStatus::Done;
    assert_eq!(state.steps[2].status, StepStatus::Done);
    assert_eq!(state.steps[1].status, StepStatus::Pending);
    assert!(state.step_mut("tunne").is_none());
    assert!(state.step_mut("").is_none());
}

#[test]
fn step_mut_takes_the_first_of_two_with_one_key() {
    let mut state = HannahMontanaSetupState::new("a".to_string());
    let twin = state.steps[0].clone();
    state.steps.push(twin);
    state.step_mut("secrets").expect("a step").detail = Some("x".to_string());
    assert_eq!(state.steps[0].detail.as_deref(), Some("x"));
    assert_eq!(state.steps[6].detail, None);
}

#[test]
fn step_started_runs_one_step_and_keeps_the_prompt() {
    let mut state = HannahMontanaSetupState::new("a".to_string());
    state.needs_user_action = Some("click".to_string());
    assert_eq!(reduce(&mut state, started("stack")), ReduceOutcome::Continue);
    for (i, step) in state.steps.iter().enumerate() {
        let expected = if i == 3 {
            StepStatus::Running
        } else {
            StepStatus::Pending
        };
        assert_eq!(step.status, expected);
    }
    assert_eq!(state.needs_user_action.as_deref(), Some("click"));
}

#[test]
fn unknown_step_changes_no_step_but_its_end_clears_the_prompt() {
    let mut state = HannahMontanaSetupState::new("a".to_string());
    let before = snapshot(&state);
    reduce(&mut state, started("warp"));
    assert_eq!(snapshot(&state), before);

    state.needs_user_action = Some("click".to_string());
    let outcome = reduce(
        &mut state,
        SetupEvent::StepDone {
            step: "warp".to_string(),
            detail: Some("d".to_string()),
        },
    );
    assert_eq!(outcome, ReduceOutcome::Continue);
    assert_eq!(snapshot(&state), before);
}

#[test]
fn step_done_replaces_the_detail_even_by_none() {
    let mut state = HannahMontanaSetupState::new("a".to_string());
    for detail in [Some("up".to_string()), None] {
        reduce(
            &mut state,
            SetupEvent::StepDone {
                step: "tunnel".to_string(),
                detail: detail.clone(),
            },
        );
        assert_eq!(state.steps[2].status, StepStatus::Done);
        assert_eq!(state.steps[2].detail, detail);
    }
}

#[test]
fn error_keeps_steps_and_sets_the_remedy() {
    let mut state = HannahMontanaSetupState::new("a".to_string());
    reduce(&mut state, started("chrome"));
    state.needs_user_action = Some("click".to_string());
    reduce(
        &mut state,
        SetupEvent::Error {
            message: "boom".to_string(),
            remedy: Some("free the port".to_string()),
        },
    );
    assert_eq!(state.steps[1].status, StepStatus::Running);
    assert_eq!(state.error.as_deref(), Some("boom"));
    assert_eq!(state.remedy.as_deref(), Some("free the port"));
    assert_eq!(state.needs_user_action, None);

    reduce(
        &mut state,
        SetupEvent::Error {
            message: "again".to_string(),
            remedy: None,
        },
    );
    assert_eq!(state.error.as_deref(), Some("again"));
    assert_eq!(state.remedy, None);
}

#[test]
fn done_clears_the_error_but_not_the_remedy_and_is_idempotent() {
    let mut state = HannahMontanaSetupState::new("a".to_string());
    state.error = Some("boom".to_string());
    state.remedy = Some("hint".to_string());
    state.steps[0].detail = Some("loaded".to_string());
    assert_eq!(reduce(&mut state, done()), ReduceOutcome::Completed);
    assert_eq!(state.error, None);
    assert_eq!(state.remedy.as_deref(), Some("hint"));
    assert_eq!(state.steps[0].detail.as_deref(), Some("loaded"));
    assert!(state.steps.iter().all(|s| s.status == StepStatus::Done));
    let once = snapshot(&state);
    reduce(&mut state, done());
    assert_eq!(snapshot(&state), once);
}

#[test]
fn events_keep_steps_labels_and_attempt() {
    let fresh = HannahMontanaSetupState::new("a".to_string());
    let mut state = fresh.clone();
    let events = vec![
        started("connector"),
        started("nowhere"),
        SetupEvent::StepDone {
            step: "connector".to_string(),
            detail: Some("wired".to_string()),
        },
        SetupEvent::NeedsUserAction {
            step: "chrome".to_string(),
            instruction: "click".to_string(),
        },
        SetupEvent::UserActionResolved {
            step: "chrome".to_string(),
        },
        SetupEvent::Error {
            message: "boom".to_string(),
            remedy: None,
        },
        done(),
    ];
    for event in events {
        reduce(&mut state, event);
        assert_eq!(state.attempt_id, "a");
        assert_eq!(state.steps.len(), fresh.steps.len());
        for (step, original) in state.steps.iter().zip(&fresh.steps) {
            assert_eq!(step.key, original.key);
            assert_eq!(step.label, original.label);
        }
    }
    for (i, step) in fresh.steps.iter().enumerate() {
        assert!(fresh.steps[..i].iter().all(|earlier| earlier.key != step.key));
    }
}

#[test]
fn step_done_clears_a_prompt_of_another_step() {
    let mut state = HannahMontanaSetupState::new("a".to_string());
    reduce(
        &mut state,
        SetupEvent::NeedsUserAction {
            step: "chrome".to_string(),
            instruction: "click".to_string(),
        },
    );
    reduce(
        &mut state,
        SetupEvent::StepDone {
            step: "secrets".to_string(),
            detail: None,
        },
    );
    assert_eq!(state.needs_user_action, None);
}
