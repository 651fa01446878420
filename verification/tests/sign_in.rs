use cyrus_setup::event::{ReduceOutcome, SetupEvent};
use cyrus_setup::progress::StepStatus;
use cyrus_setup::sign_in::{
    apply_event_for_active_attempt, attempt_matches, begin_attempt, complete_for_active_attempt,
    finish_with_error, start_hannah_montana_setup, AttemptUpdate, SignInState,
};

fn started(step: &str) -> SetupEvent {
    SetupEvent::StepStarted {
        step: step.to_string(),
        label: None,
    }
}

fn running(attempt_id: &str) -> SignInState<u8> {
    let mut sign_in = SignInState::Other(7);
    begin_attempt(&mut sign_in, attempt_id.to_string());
    sign_in
}

#[test]
fn start_shows_a_fresh_run_under_a_random_uuid() {
    let mut sign_in: SignInState<u8> = SignInState::Other(7);
    let first = start_hannah_montana_setup(&mut sign_in);
    assert!(attempt_matches(&sign_in, &first));

    assert_eq!(first.len(), 36);
    for (i, c) in first.chars().enumerate() {
        match i {
            8 | 13 | 18 | 23 => assert_eq!(c, '-'),
            14 => assert_eq!(c, '4'),
            19 => assert!("89ab".contains(c)),
            _ => assert!(c.is_ascii_digit() || ('a'..='f').contains(&c)),
        }
    }

    let second = start_hannah_montana_setup(&mut sign_in);
    assert_ne!(first, second);
    assert!(attempt_matches(&sign_in, &second));
    assert!(!attempt_matches(&sign_in, &first));
}

#[test]
fn begin_attempt_replaces_a_failed_run() {
    let mut sign_in = running("old");
    finish_with_error(&mut sign_in, "old", "boom".to_string());
    begin_attempt(&mut sign_in, "new".to_string());
    match sign_in {
        SignInState::HannahMontanaSetup(state) => {
            assert_eq!(state.attempt_id, "new");
            assert_eq!(state.error, None);
            assert_eq!(state.steps.len(), 6);
            assert!(state.steps.iter().all(|s| s.status == StepStatus::Pending));
        }
        other => panic!("unexpected {other:?}"),
    }
}

#[test]
fn attempt_matches_only_a_setup_with_that_id() {
    assert!(attempt_matches(&running("a"), "a"));
    assert!(!attempt_matches(&running("a"), "b"));
    assert!(!attempt_matches(&running("a"), ""));
    let configured: SignInState<u8> = SignInState::HannahMontanaConfigured;
    assert!(!attempt_matches(&configured, "a"));
    let other: SignInState<u8> = SignInState::Other(7);
    assert!(!attempt_matches(&other, "a"));
}

#[test]
fn active_attempt_is_updated() {
    let mut sign_in = running("a");
    let update = apply_event_for_active_attempt(&mut sign_in, "a", started("chrome"));
    assert_eq!(update, AttemptUpdate::Applied(ReduceOutcome::Continue));
    let update = apply_event_for_active_attempt(
        &mut sign_in,
        "a",
        SetupEvent::Error {
            message: "boom".to_string(),
            remedy: Some("hint".to_string()),
        },
    );
    assert_eq!(update, AttemptUpdate::Applied(ReduceOutcome::Failed));
    match sign_in {
        SignInState::HannahMontanaSetup(state) => {
            assert_eq!(state.steps[1].status, StepStatus::Running);
            assert_eq!(state.error.as_deref(), Some("boom"));
            assert_eq!(state.remedy.as_deref(), Some("hint"));
        }
        other => panic!("unexpected {other:?}"),
    }
}

#[test]
fn stale_attempt_changes_nothing() {
    let mut sign_in = running("new");
    let before = format!("{sign_in:?}");
    let update = apply_event_for_active_attempt(&mut sign_in, "old", started("chrome"));
    assert_eq!(update, AttemptUpdate::Stale);
    assert!(!complete_for_active_attempt(&mut sign_in, "old"));
    assert!(!finish_with_error(&mut sign_in, "old", "boom".to_string()));
    assert_eq!(format!("{sign_in:?}"), before);
}

#[test]
fn other_states_are_left_alone() {
    for mut sign_in in [SignInState::Other(7u8), SignInState::HannahMontanaConfigured] {
        let before = format!("{sign_in:?}");
        let update = apply_event_for_active_attempt(&mut sign_in, "a", started("chrome"));
        assert_eq!(update, AttemptUpdate::Stale);
        assert!(!complete_for_active_attempt(&mut sign_in, "a"));
        assert!(!finish_with_error(&mut sign_in, "a", "boom".to_string()));
        assert_eq!(format!("{sign_in:?}"), before);
    }
}

#[test]
fn completing_configures_once() {
    let mut sign_in = running("a");
    assert!(complete_for_active_attempt(&mut sign_in, "a"));
    assert!(matches!(sign_in, SignInState::HannahMontanaConfigured));
    assert!(!complete_for_active_attempt(&mut sign_in, "a"));
    assert!(!finish_with_error(&mut sign_in, "a", "late".to_string()));
    assert!(matches!(sign_in, SignInState::HannahMontanaConfigured));
}

#[test]
fn finish_with_error_drops_prompt_and_remedy() {
    let mut sign_in = running("a");
    if let SignInState::HannahMontanaSetup(state) = &mut sign_in {
        state.needs_user_action = Some("click".to_string());
        state.remedy = Some("hint".to_string());
    }
    assert!(finish_with_error(&mut sign_in, "a", "boom".to_string()));
    match sign_in {
        SignInState::HannahMontanaSetup(state) => {
            assert_eq!(state.attempt_id, "a");
            assert_eq!(state.needs_user_action, None);
            assert_eq!(state.error.as_deref(), Some("boom"));
            assert_eq!(state.remedy, None);
        }
        other => panic!("unexpected {other:?}"),
    }
}
