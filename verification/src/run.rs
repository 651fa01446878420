//! The decisions of a setup run, one at a time.
//!
//! The host performs a [`RunAction`], describes what came of it as a [`RunEvent`], and asks
//! [`run_setup_step`] for the next action, until it has performed one that ends the run.
use vstd::prelude::*;
use vstd::string::StringExecFns;

use crate::event::{ReduceOutcome, SetupEvent};
use crate::launch::{arg_views, command_line, setup_args, LaunchArg, LaunchArgView, TunnelArg};
use crate::sign_in::AttemptUpdate;
use crate::text::{trim_line, trimmed};

verus! {

/// What the host reports to the run.
#[derive(Debug)]
pub enum RunEvent {
    /// The search for the `cyrus` binary is over.
    Located { found: bool },
    /// The process runs; `has_stdout` tells whether its output can be read.
    Launched { has_stdout: bool },
    /// The process could not be spawned.
    LaunchFailed { bin: String, err: String },
    /// A line of output, without its line end.
    Line(String),
    /// There is no more output.
    EndOfOutput,
    /// The output could not be read.
    ReadFailed { err: String },
    /// The text of a [`RunAction::Parse`] as an event, if it is one.
    Parsed(Option<SetupEvent>),
    /// What became of the event of a [`RunAction::Apply`].
    Updated(AttemptUpdate),
    /// The process ended.
    Exited { success: bool, status: String },
    /// The end of the process could not be awaited.
    WaitFailed { err: String },
}

/// What the host does next for the run.
#[derive(Debug)]
pub enum RunAction {
    /// Spawn the binary with these arguments and report `Launched` or `LaunchFailed`.
    Launch(Vec<LaunchArg>),
    /// Read a line of output and report `Line`, `EndOfOutput` or `ReadFailed`.
    ReadLine,
    /// Parse this text as one JSON object and report `Parsed`.
    Parse(String),
    /// Apply this event for the run's attempt and report `Updated`.
    Apply(SetupEvent),
    /// Await the end of the process and report `Exited` or `WaitFailed`.
    Wait,
    /// Complete the run's attempt and end the run.
    Complete,
    /// Record this error for the run's attempt and end the run.
    Fail(String),
    /// End the run.
    Stop,
}

/// What a [`RunAction`] holds.
pub enum RunActionView {
    Launch(Seq<LaunchArgView>),
    ReadLine,
    Parse(Seq<char>),
    Apply(SetupEvent),
    Wait,
    Complete,
    Fail(Seq<char>),
    Stop,
}

impl View for RunAction {
    type V = RunActionView;

    open spec fn view(&self) -> RunActionView {
        match *self {
            RunAction::Launch(args) => RunActionView::Launch(arg_views(args@)),
            RunAction::ReadLine => RunActionView::ReadLine,
            RunAction::Parse(text) => RunActionView::Parse(text@),
            RunAction::Apply(event) => RunActionView::Apply(event),
            RunAction::Wait => RunActionView::Wait,
            RunAction::Complete => RunActionView::Complete,
            RunAction::Fail(message) => RunActionView::Fail(message@),
            RunAction::Stop => RunActionView::Stop,
        }
    }
}

/// The action that follows a report.
pub open spec fn next_action(tunnel: TunnelArg, event: RunEvent) -> RunActionView {
    match event {
        RunEvent::Located { found: true } => RunActionView::Launch(command_line(tunnel)),
        RunEvent::Located { found: false } => RunActionView::Fail(
            "Could not locate the cyrus binary. Set CYRUS_BIN or add cyrus to PATH."@,
        ),
        RunEvent::Launched { has_stdout: true } => RunActionView::ReadLine,
        RunEvent::Launched { has_stdout: false } => RunActionView::Fail(
            "cyrus did not provide a stdout stream"@,
        ),
        RunEvent::LaunchFailed { bin, err } => RunActionView::Fail(
            "Failed to launch "@ + bin@ + ": "@ + err@,
        ),
        RunEvent::Line(line) => if trimmed(line@).len() == 0 {
            RunActionView::ReadLine
        } else {
            RunActionView::Parse(trimmed(line@))
        },
        RunEvent::EndOfOutput => RunActionView::Wait,
        RunEvent::ReadFailed { err } => RunActionView::Fail(
            "Error reading cyrus output: "@ + err@,
        ),
        RunEvent::Parsed(Some(setup_event)) => RunActionView::Apply(setup_event),
        RunEvent::Parsed(None) => RunActionView::ReadLine,
        RunEvent::Updated(AttemptUpdate::Applied(ReduceOutcome::Continue)) =>
            RunActionView::ReadLine,
        RunEvent::Updated(AttemptUpdate::Applied(ReduceOutcome::Completed)) =>
            RunActionView::Complete,
        RunEvent::Updated(AttemptUpdate::Applied(ReduceOutcome::Failed)) => RunActionView::Stop,
        RunEvent::Updated(AttemptUpdate::Stale) => RunActionView::Stop,
        RunEvent::Exited { success: true, .. } => RunActionView::Fail(
            "cyrus exited before completing setup"@,
        ),
        RunEvent::Exited { success: false, status } => RunActionView::Fail(
            "cyrus exited with "@ + status@,
        ),
        RunEvent::WaitFailed { err } => RunActionView::Fail("Failed to wait for cyrus: "@ + err@),
    }
}

/// Joins a message and the text of its cause.
fn with_cause(message: &str, cause: &str) -> (text: String)
    ensures
        text@ == message@ + cause@,
{
    let mut text: String = message.to_string();
    text.append(cause);
    text
}

/// Decides what the run does after a report.
pub fn run_setup_step(tunnel: &TunnelArg, event: RunEvent) -> (action: RunAction)
    ensures
        action@ == next_action(*tunnel, event),
{
    match event {
        RunEvent::Located { found } => if found {
            RunAction::Launch(setup_args(tunnel))
        } else {
            RunAction::Fail(
                "Could not locate the cyrus binary. Set CYRUS_BIN or add cyrus to PATH.".to_string(),
            )
        },
        RunEvent::Launched { has_stdout } => if has_stdout {
            RunAction::ReadLine
        } else {
            RunAction::Fail("cyrus did not provide a stdout stream".to_string())
        },
        RunEvent::LaunchFailed { bin, err } => {
            let mut message: String = with_cause("Failed to launch ", bin.as_str());
            message.append(": ");
            message.append(err.as_str());
            RunAction::Fail(message)
        },
        RunEvent::Line(line) => {
            let text = trim_line(line.as_str());
            if text.is_empty() {
                RunAction::ReadLine
            } else {
                RunAction::Parse(text.to_string())
            }
        },
        RunEvent::EndOfOutput => RunAction::Wait,
        RunEvent::ReadFailed { err } => RunAction::Fail(
            with_cause("Error reading cyrus output: ", err.as_str()),
        ),
        RunEvent::Parsed(Some(setup_event)) => RunAction::Apply(setup_event),
        // A line that is no event is ignored.
        RunEvent::Parsed(None) => RunAction::ReadLine,
        RunEvent::Updated(update) => match update {
            // The attempt is no longer active; a newer run superseded this one.
            AttemptUpdate::Stale => RunAction::Stop,
            AttemptUpdate::Applied(ReduceOutcome::Continue) => RunAction::ReadLine,
            AttemptUpdate::Applied(ReduceOutcome::Completed) => RunAction::Complete,
            // The reducer has recorded the error; stop reading.
            AttemptUpdate::Applied(ReduceOutcome::Failed) => RunAction::Stop,
        },
        // The stream ended without a terminal `done` or `error`: surface the exit status.
        RunEvent::Exited { success, status } => if success {
            RunAction::Fail("cyrus exited before completing setup".to_string())
        } else {
            RunAction::Fail(with_cause("cyrus exited with ", status.as_str()))
        },
        RunEvent::WaitFailed { err } => RunAction::Fail(
            with_cause("Failed to wait for cyrus: ", err.as_str()),
        ),
    }
}

} // verus!
