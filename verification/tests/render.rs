use cyrus_setup::progress::{HannahMontanaSetupState, StepStatus};
use cyrus_setup::render::{setup_lines, LineColor, LineSpan, ProgressLine, TextStyle};

const PLAIN: TextStyle = TextStyle {
    fg: None,
    bold: false,
    dim: false,
};
const BOLD: TextStyle = TextStyle {
    fg: None,
    bold: true,
    dim: false,
};
const DIM: TextStyle = TextStyle {
    fg: None,
    bold: false,
    dim: true,
};

fn colored(color: LineColor) -> TextStyle {
    TextStyle {
        fg: Some(color),
        bold: false,
        dim: false,
    }
}

fn whole(text: &str, style: TextStyle) -> ProgressLine {
    ProgressLine::Whole {
        text: text.to_string(),
        style,
    }
}

fn span(text: &str, style: TextStyle) -> LineSpan {
    LineSpan::Text {
        text: text.to_string(),
        style,
    }
}

fn heading() -> Vec<ProgressLine> {
    vec![
        ProgressLine::Spans(vec![span("  ", PLAIN), span("Setting up cyrus", BOLD)]),
        whole("", PLAIN),
    ]
}

fn retry() -> ProgressLine {
    ProgressLine::Spans(vec![
        span("  Press ", DIM),
        LineSpan::ConfirmBinding,
        span(" to retry", DIM),
    ])
}

#[test]
fn new_run_shows_heading_and_pending_steps() {
    let lines = setup_lines(&HannahMontanaSetupState::new("a".to_string()));
    assert_eq!(lines.len(), 8);
    assert_eq!(lines[..2], heading()[..]);
    assert_eq!(lines[2], whole("    Preparing credentials", DIM));
    assert_eq!(lines[7], whole("    Configuring codex", DIM));
}

#[test]
fn steps_show_marker_style_and_detail() {
    let mut state = HannahMontanaSetupState::new("a".to_string());
    state.steps[0].status = StepStatus::Done;
    state.steps[0].detail = Some("loaded".to_string());
    state.steps[1].status = StepStatus::Running;
    state.steps[1].detail = Some(String::new());
    let lines = setup_lines(&state);
    assert_eq!(
        lines[2],
        whole(
            "  ✓ Preparing credentials — loaded",
            colored(LineColor::Green)
        )
    );
    assert_eq!(
        lines[3],
        whole("  ⏳ Connecting to Chrome", colored(LineColor::Cyan))
    );
}

#[test]
fn prompt_and_error_follow_the_steps() {
    let mut state = HannahMontanaSetupState::new("a".to_string());
    state.steps.clear();
    state.needs_user_action = Some("log in".to_string());
    state.error = Some("boom".to_string());
    state.remedy = Some("free the port".to_string());
    let mut expected = heading();
    expected.extend([
        whole("", PLAIN),
        ProgressLine::Spans(vec![
            span("  ", PLAIN),
            span(
                "Action needed: ",
                TextStyle {
                    fg: Some(LineColor::Yellow),
                    bold: true,
                    dim: false,
                },
            ),
            span("log in", colored(LineColor::Yellow)),
        ]),
        whole("", PLAIN),
        whole("  boom", colored(LineColor::Red)),
        whole("", PLAIN),
        ProgressLine::Spans(vec![span("  Try: ", DIM), span("free the port", PLAIN)]),
        whole("", PLAIN),
        retry(),
    ]);
    assert_eq!(setup_lines(&state), expected);
}

#[test]
fn empty_remedy_is_not_shown() {
    let mut state = HannahMontanaSetupState::new("a".to_string());
    state.error = Some("boom".to_string());
    state.remedy = Some(String::new());
    let lines = setup_lines(&state);
    assert_eq!(lines.len(), 12);
    assert_eq!(lines[9], whole("  boom", colored(LineColor::Red)));
    assert_eq!(lines[11], retry());
}

#[test]
fn remedy_without_error_is_not_shown() {
    let mut state = HannahMontanaSetupState::new("a".to_string());
    state.remedy = Some("hint".to_string());
    let lines = setup_lines(&state);
    assert_eq!(lines.len(), 8);
    assert!(!lines.contains(&retry()));
}
