//! The lines that show the progress of a run, before any terminal library sees them.
use vstd::prelude::*;
use vstd::string::StringExecFns;

use crate::progress::{ HannahMontanaSetupState, SetupStep, SetupView, StepStatus, StepView};
use crate::text::opt_view;

verus! {

/// The colours that progress lines use.
#[derive(Debug, Clone, Copy, PartialEq, Eq, Structural)]
pub enum LineColor {
    Green,
    Cyan,
    Yellow,
    Red,
}

/// How a piece of text looks.
#[derive(Debug, Clone, Copy, PartialEq, Eq, Structural)]
pub struct TextStyle {
    pub fg: Option<LineColor>,
    pub bold: bool,
    pub dim: bool,
}

/// The terminal's own look.
pub open spec fn plain() -> TextStyle {
    TextStyle { fg: None, bold: false, dim: false }
}

/// The terminal's own look, in bold.
pub open spec fn bold() -> TextStyle {
    TextStyle { bold: true, ..plain() }
}

/// The terminal's own look, dimmed.
pub open spec fn dim() -> TextStyle {
    TextStyle { dim: true, ..plain() }
}

/// The terminal's own look, in a colour.
pub open spec fn colored(color: LineColor) -> TextStyle {
    TextStyle { fg: Some(color), ..plain() }
}

/// A piece of a line.
#[derive(Debug, Clone, PartialEq, Eq)]
pub enum LineSpan {
    Text { text: String, style: TextStyle },
    /// The name of the key that confirms, as the host shows it.
    ConfirmBinding,
}

/// What a [`LineSpan`] holds.
#[verifier::ext_equal]
pub enum SpanView {
    Text { text: Seq<char>, style: TextStyle },
    ConfirmBinding,
}

impl View for LineSpan {
    type V = SpanView;

    open spec fn view(&self) -> SpanView {
        match *self {
            LineSpan::Text { text, style } => SpanView::Text { text: text@, style },
            LineSpan::ConfirmBinding => SpanView::ConfirmBinding,
        }
    }
}

/// One line of the progress display.
#[derive(Debug, Clone, PartialEq, Eq)]
pub enum ProgressLine {
    /// A single text; the style is that of the whole line.
    Whole { text: String, style: TextStyle },
    /// Pieces, each with its own style.
    Spans(Vec<LineSpan>),
}

/// What a [`ProgressLine`] holds.
#[verifier::ext_equal]
pub enum LineView {
    Whole { text: Seq<char>, style: TextStyle },
    Spans(Seq<SpanView>),
}

impl View for ProgressLine {
    type V = LineView;

    open spec fn view(&self) -> LineView {
        match *self {
            ProgressLine::Whole { text, style } => LineView::Whole { text: text@, style },
            ProgressLine::Spans(spans) => LineView::Spans(
                spans@.map_values(|span: LineSpan| span@),
            ),
        }
    }
}

/// What each of a list of lines holds.
pub open spec fn line_views(lines: Seq<ProgressLine>) -> Seq<LineView> {
    lines.map_values(|line: ProgressLine| line@)
}

/// A line without text.
pub open spec fn blank() -> LineView {
    LineView::Whole { text: Seq::empty(), style: plain() }
}

/// The mark in front of a step.
pub open spec fn marker(status: StepStatus) -> Seq<char> {
    match status {
        StepStatus::Done => "✓"@,
        StepStatus::Running => "⏳"@,
        StepStatus::Pending => " "@,
    }
}

/// The look of a step.
pub open spec fn step_style(status: StepStatus) -> TextStyle {
    match status {
        StepStatus::Done => colored(LineColor::Green),
        StepStatus::Running => colored(LineColor::Cyan),
        StepStatus::Pending => dim(),
    }
}

/// The text of a step: indent, mark, label, and the detail if there is one that is not empty.
pub open spec fn step_text(step: StepView) -> Seq<char> {
    let text = "  "@ + marker(step.status) + " "@ + step.label;
    match step.detail {
        Some(detail) if detail.len() > 0 => text + " — "@ + detail,
        _ => text,
    }
}

/// The line of a step.
pub open spec fn step_line(step: StepView) -> LineView {
    LineView::Whole { text: step_text(step), style: step_style(step.status) }
}

/// The heading and the blank line under it.
pub open spec fn heading() -> Seq<LineView> {
    seq![
        LineView::Spans(
            seq![
                SpanView::Text { text: "  "@, style: plain() },
                SpanView::Text { text: "Setting up cyrus"@, style: bold() },
            ],
        ),
        blank(),
    ]
}

/// The prompt for the user to act, if there is one.
pub open spec fn prompt_lines(needs_user_action: Option<Seq<char>>) -> Seq<LineView> {
    match needs_user_action {
        Some(instruction) => seq![
            blank(),
            LineView::Spans(
                seq![
                    SpanView::Text { text: "  "@, style: plain() },
                    SpanView::Text {
                        text: "Action needed: "@,
                        style: TextStyle { bold: true, ..colored(LineColor::Yellow) },
                    },
                    SpanView::Text { text: instruction, style: colored(LineColor::Yellow) },
                ],
            ),
        ],
        None => Seq::empty(),
    }
}

/// The hint that goes with an error, if there is one that is not empty.
pub open spec fn remedy_lines(remedy: Option<Seq<char>>) -> Seq<LineView> {
    match remedy {
        Some(hint) if hint.len() > 0 => seq![
            blank(),
            LineView::Spans(
                seq![
                    SpanView::Text { text: "  Try: "@, style: dim() },
                    SpanView::Text { text: hint, style: plain() },
                ],
            ),
        ],
        _ => Seq::empty(),
    }
}

/// The offer to retry.
pub open spec fn retry_lines() -> Seq<LineView> {
    seq![
        blank(),
        LineView::Spans(
            seq![
                SpanView::Text { text: "  Press "@, style: dim() },
                SpanView::ConfirmBinding,
                SpanView::Text { text: " to retry"@, style: dim() },
            ],
        ),
    ]
}

/// The error with its hint and the offer to retry, if there is an error.
pub open spec fn error_lines(error: Option<Seq<char>>, remedy: Option<Seq<char>>) -> Seq<LineView> {
    match error {
        Some(message) => seq![
            blank(),
            LineView::Whole { text: "  "@ + message, style: colored(LineColor::Red) },
        ] + remedy_lines(remedy) + retry_lines(),
        None => Seq::empty(),
    }
}

/// The whole display.
pub open spec fn display(state: SetupView) -> Seq<LineView> {
    heading() + state.steps.map_values(|step: StepView| step_line(step)) + prompt_lines(
        state.needs_user_action,
    ) + error_lines(state.error, state.remedy)
}

/// The terminal's own look.
fn plain_style() -> (style: TextStyle)
    ensures
        style == plain(),
{
    TextStyle { fg: None, bold: false, dim: false }
}

/// The terminal's own look, dimmed.
fn dim_style() -> (style: TextStyle)
    ensures
        style == dim(),
{
    TextStyle { fg: None, bold: false, dim: true }
}

/// The terminal's own look, in a colour.
fn color_style(color: LineColor) -> (style: TextStyle)
    ensures
        style == colored(color),
{
    TextStyle { fg: Some(color), bold: false, dim: false }
}

/// A piece of text with a style.
fn span(text: &str, style: TextStyle) -> (piece: LineSpan)
    ensures
        piece@ == (SpanView::Text { text: text@, style }),
{
    LineSpan::Text { text: text.to_string(), style }
}

/// A line without text.
fn blank_line() -> (line: ProgressLine)
    ensures
        line@ == blank(),
{
    ProgressLine::Whole { text: String::new(), style: plain_style() }
}

/// The line of a step.
fn line_of_step(step: &SetupStep) -> (line: ProgressLine)
    ensures
        line@ == step_line(step@),
{
    let (mark, style): (&str, TextStyle) = match step.status {
        StepStatus::Done => ("✓", color_style(LineColor::Green)),
        StepStatus::Running => ("⏳", color_style(LineColor::Cyan)),
        StepStatus::Pending => (" ", dim_style()),
    };
    let mut text: String = "  ".to_string();
    text.append(mark);
    text.append(" ");
    text.append(step.label.as_str());
    if let Some(detail) = &step.detail {
        if !detail.as_str().is_empty() {
            text.append(" — ");
            text.append(detail.as_str());
        }
    }
    ProgressLine::Whole { text, style }
}

/// Adds the heading and the blank line under it.
fn push_heading(lines: &mut Vec<ProgressLine>)
    ensures
        line_views(final(lines)@) == line_views(old(lines)@) + heading(),
{
    let title: Vec<LineSpan> = vec![
        span("  ", plain_style()),
        span("Setting up cyrus", TextStyle { fg: None, bold: true, dim: false }),
    ];
    lines.push(ProgressLine::Spans(title));
    lines.push(blank_line());
    assert(line_views(lines@) =~~= line_views(old(lines)@) + heading());
}

/// Adds the prompt for the user to act, if there is one.
fn push_prompt(lines: &mut Vec<ProgressLine>, needs_user_action: &Option<String>)
    ensures
        line_views(final(lines)@) == line_views(old(lines)@) + prompt_lines(
            opt_view(*needs_user_action),
        ),
{
    if let Some(instruction) = needs_user_action {
        let prompt: Vec<LineSpan> = vec![
            span("  ", plain_style()),
            span(
                "Action needed: ",
                TextStyle { fg: Some(LineColor::Yellow), bold: true, dim: false },
            ),
            span(instruction.as_str(), color_style(LineColor::Yellow)),
        ];
        lines.push(blank_line());
        lines.push(ProgressLine::Spans(prompt));
    }
    assert(line_views(lines@) =~~= line_views(old(lines)@) + prompt_lines(
        opt_view(*needs_user_action),
    ));
}

/// Adds the hint that goes with an error, if there is one that is not empty.
fn push_remedy(lines: &mut Vec<ProgressLine>, remedy: &Option<String>)
    ensures
        line_views(final(lines)@) == line_views(old(lines)@) + remedy_lines(opt_view(*remedy)),
{
    if let Some(hint) = remedy {
        if !hint.as_str().is_empty() {
            let line: Vec<LineSpan> = vec![
                span("  Try: ", dim_style()),
                span(hint.as_str(), plain_style()),
            ];
            lines.push(blank_line());
            lines.push(ProgressLine::Spans(line));
        }
    }
    assert(line_views(lines@) =~~= line_views(old(lines)@) + remedy_lines(opt_view(*remedy)));
}

/// Adds the error with its hint and the offer to retry, if there is an error.
fn push_error(lines: &mut Vec<ProgressLine>, error: &Option<String>, remedy: &Option<String>)
    ensures
        line_views(final(lines)@) == line_views(old(lines)@) + error_lines(
            opt_view(*error),
            opt_view(*remedy),
        ),
{
    if let Some(message) = error {
        let mut text: String = "  ".to_string();
        text.append(message.as_str());
        lines.push(blank_line());
        lines.push(ProgressLine::Whole { text, style: color_style(LineColor::Red) });
        assert(line_views(lines@) =~~= line_views(old(lines)@) + seq![
            blank(),
            LineView::Whole { text: "  "@ + message@, style: colored(LineColor::Red) },
        ]);
        push_remedy(lines, remedy);
        let ghost before = line_views(lines@);
        let retry: Vec<LineSpan> = vec![
            span("  Press ", dim_style()),
            LineSpan::ConfirmBinding,
            span(" to retry", dim_style()),
        ];
        lines.push(blank_line());
        lines.push(ProgressLine::Spans(retry));
        assert(line_views(lines@) =~~= before + retry_lines());
    }
    assert(line_views(lines@) =~= line_views(old(lines)@) + error_lines(
        opt_view(*error),
        opt_view(*remedy),
    ));
}

/// The lines that show the progress of a run, from top to bottom.
pub fn setup_lines(state: &HannahMontanaSetupState) -> (lines: Vec<ProgressLine>)
    ensures
        lines@.len() == display(state@).len(),
        line_views(lines@) == display(state@),
{
    let mut lines: Vec<ProgressLine> = Vec::new();
    push_heading(&mut lines);
    assert(line_views(lines@) == heading());
    let ghost all = state@.steps.map_values(|step: StepView| step_line(step));
    let mut i: usize = 0;
    while i < state.steps.len()
        invariant
            i <= state.steps.len(),
            all == state@.steps.map_values(|step: StepView| step_line(step)),
            line_views(lines@) == heading() + all.take(i as int),
        decreases state.steps.len() - i,
    {
        let ghost before = lines@;
        lines.push(line_of_step(&state.steps[i]));
        assert(line_views(lines@) == line_views(before).push(all[i as int]));
        assert(all.take(i + 1) == all.take(i as int).push(all[i as int]));
        i = i + 1;
    }
    assert(all.take(i as int) == all);
    push_prompt(&mut lines, &state.needs_user_action);
    push_error(&mut lines, &state.error, &state.remedy);
    assert(line_views(lines@).len() == lines@.len());
    lines
}

} // verus!
