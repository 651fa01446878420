//! Events of the `cyrus setup --json` stream, and the reducer that applies them.
use vstd::prelude::*;

use crate::progress::{
    first_with_key, lists_setup_steps, pending_steps, HannahMontanaSetupState, SetupView, StepStatus,
    StepView,
};
use crate::text::opt_view;

verus! {

/// One JSON object emitted on a line of the `cyrus setup --json` stream.
#[derive(Debug, PartialEq)]
pub enum SetupEvent {
    StepStarted { step: String, label: Option<String> },
    StepDone { step: String, detail: Option<String> },
    NeedsUserAction { step: String, instruction: String },
    UserActionResolved { step: String },
    Done {
        public_url: Option<String>,
        shim_base_url: Option<String>,
        connector_id: Option<String>,
        link_id: Option<String>,
        tool_count: Option<u32>,
        fully_reused: Option<bool>,
    },
    Error {
        message: String,
        /// Actionable hint for the failed step; absent for errors that do not stem from the
        /// engine (e.g. failing to spawn `cyrus`).
        remedy: Option<String>,
    },
}

/// Outcome of applying one event to the progress model.
#[derive(Debug, Clone, Copy, PartialEq, Eq, Structural)]
pub enum ReduceOutcome {
    /// Setup is still running; keep reading events.
    Continue,
    /// Setup finished successfully (a `done` event was seen).
    Completed,
    /// Setup failed (an `error` event was seen); `state.error` is set.
    Failed,
}

/// `steps` with the first step of the given key running.
pub open spec fn with_started(steps: Seq<StepView>, key: Seq<char>) -> Seq<StepView> {
    Seq::new(
        steps.len(),
        |i: int|
            if first_with_key(steps, key, i) {
                StepView { status: StepStatus::Running, ..steps[i] }
            } else {
                steps[i]
            },
    )
}

/// `steps` with the first step of the given key done and its detail replaced.
pub open spec fn with_done(
    steps: Seq<StepView>,
    key: Seq<char>,
    detail: Option<Seq<char>>,
) -> Seq<StepView> {
    Seq::new(
        steps.len(),
        |i: int|
            if first_with_key(steps, key, i) {
                StepView { status: StepStatus::Done, detail, ..steps[i] }
            } else {
                steps[i]
            },
    )
}

/// `steps` with every step done, details kept.
pub open spec fn all_done(steps: Seq<StepView>) -> Seq<StepView> {
    steps.map_values(|step: StepView| StepView { status: StepStatus::Done, ..step })
}

/// The progress after an event.
pub open spec fn reduced(state: SetupView, event: SetupEvent) -> SetupView {
    match event {
        SetupEvent::StepStarted { step, .. } => SetupView {
            steps: with_started(state.steps, step@),
            ..state
        },
        SetupEvent::StepDone { step, detail } => SetupView {
            steps: with_done(state.steps, step@, opt_view(detail)),
            needs_user_action: None,
            ..state
        },
        SetupEvent::NeedsUserAction { instruction, .. } => SetupView {
            needs_user_action: Some(instruction@),
            ..state
        },
        SetupEvent::UserActionResolved { .. } => SetupView { needs_user_action: None, ..state },
        SetupEvent::Done { .. } => SetupView {
            steps: all_done(state.steps),
            needs_user_action: None,
            error: None,
            ..state
        },
        SetupEvent::Error { message, remedy } => SetupView {
            needs_user_action: None,
            error: Some(message@),
            remedy: opt_view(remedy),
            ..state
        },
    }
}

/// What an event means for the run.
pub open spec fn outcome(event: SetupEvent) -> ReduceOutcome {
    match event {
        SetupEvent::Done { .. } => ReduceOutcome::Completed,
        SetupEvent::Error { .. } => ReduceOutcome::Failed,
        _ => ReduceOutcome::Continue,
    }
}

/// No event changes which steps are listed.
pub proof fn lemma_reduced_lists_steps(state: SetupView, event: SetupEvent)
    requires
        lists_setup_steps(state),
    ensures
        lists_setup_steps(reduced(state, event)),
{
    let before = state.steps;
    let after = reduced(state, event).steps;
    assert forall|i: int| 0 <= i < after.len() implies {
        &&& (#[trigger] after[i]).key == pending_steps()[i].key
        &&& after[i].label == pending_steps()[i].label
    } by {
        assert(after[i].key == before[i].key && after[i].label == before[i].label);
    }
}

/// Applies a single parsed event to the progress model, returning whether the run should
/// continue, has completed, or has failed.
pub fn reduce(state: &mut HannahMontanaSetupState, event: SetupEvent) -> (result: ReduceOutcome)
    ensures
        result == outcome(event),
        final(state)@ == reduced(old(state)@, event),
        lists_setup_steps(old(state)@) ==> lists_setup_steps(final(state)@),
{
    proof {
        if lists_setup_steps(state@) {
            lemma_reduced_lists_steps(state@, event);
        }
    }
    match event {
        SetupEvent::StepStarted { step, .. } => {
            if let Some(s) = state.step_mut(step.as_str()) {
                s.status = StepStatus::Running;
            }
            assert(state@.steps == with_started(old(state)@.steps, step@));
            ReduceOutcome::Continue
        },
        SetupEvent::StepDone { step, detail } => {
            if let Some(s) = state.step_mut(step.as_str()) {
                s.status = StepStatus::Done;
                s.detail = detail;
            }
            assert(state@.steps == with_done(old(state)@.steps, step@, opt_view(detail)));
            // A finished step clears the action prompt.
            state.needs_user_action = None;
            ReduceOutcome::Continue
        },
        SetupEvent::NeedsUserAction { instruction, .. } => {
            state.needs_user_action = Some(instruction);
            ReduceOutcome::Continue
        },
        SetupEvent::UserActionResolved { .. } => {
            state.needs_user_action = None;
            ReduceOutcome::Continue
        },
        SetupEvent::Done { .. } => {
            let mut i: usize = 0;
            while i < state.steps.len()
                invariant
                    i <= state.steps.len(),
                    state@ == (SetupView { steps: state@.steps, ..old(state)@ }),
                    state@.steps.len() == old(state)@.steps.len(),
                    forall|j: int| 0 <= j < i ==> state@.steps[j] == all_done(old(state)@.steps)[j],
                    forall|j: int|
                        i <= j < state@.steps.len() ==> state@.steps[j] == old(state)@.steps[j],
                decreases state.steps.len() - i,
            {
                let ghost before = state@.steps;
                state.steps[i].status = StepStatus::Done;
                assert(state@.steps == before.update(
                    i as int,
                    StepView { status: StepStatus::Done, ..before[i as int] },
                ));
                i = i + 1;
            }
            assert(state@.steps == all_done(old(state)@.steps));
            state.needs_user_action = None;
            state.error = None;
            ReduceOutcome::Completed
        },
        SetupEvent::Error { message, remedy } => {
            state.needs_user_action = None;
            state.error = Some(message);
            state.remedy = remedy;
            ReduceOutcome::Failed
        },
    }
}

} // verus!
