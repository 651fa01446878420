//! The progress model of a setup run.
use vstd::prelude::*;

use crate::text::opt_view;

verus! {

/// Where a setup step stands.
#[derive(Debug, Clone, Copy, PartialEq, Eq, Structural)]
pub enum StepStatus {
    Pending,
    Running,
    Done,
}

/// One line of the progress list.
#[derive(Debug, Clone)]
pub struct SetupStep {
    /// The value of an event's `step` field that names this step.
    pub key: String,
    pub label: String,
    pub status: StepStatus,
    pub detail: Option<String>,
}

/// What a [`SetupStep`] holds.
#[verifier::ext_equal]
pub struct StepView {
    pub key: Seq<char>,
    pub label: Seq<char>,
    pub status: StepStatus,
    pub detail: Option<Seq<char>>,
}

impl View for SetupStep {
    type V = StepView;

    open spec fn view(&self) -> StepView {
        StepView {
            key: self.key@,
            label: self.label@,
            status: self.status,
            detail: opt_view(self.detail),
        }
    }
}

/// Progress model for an in-flight (or failed) setup run.
#[derive(Debug, Clone)]
pub struct HannahMontanaSetupState {
    /// Distinguishes one spawned run from another, so that a stale run does not clobber the
    /// state of a newer attempt.
    pub attempt_id: String,
    pub steps: Vec<SetupStep>,
    /// Prompt for the user to act (e.g. "log in to ChatGPT"), if any.
    pub needs_user_action: Option<String>,
    /// Terminal error; when set the run has failed and can be retried.
    pub error: Option<String>,
    /// Actionable hint shown alongside `error`, when the engine supplied one.
    pub remedy: Option<String>,
}

/// What a list of steps holds.
pub open spec fn step_views(steps: Seq<SetupStep>) -> Seq<StepView> {
    steps.map_values(|step: SetupStep| step@)
}

/// What a [`HannahMontanaSetupState`] holds.
#[verifier::ext_equal]
pub struct SetupView {
    pub attempt_id: Seq<char>,
    pub steps: Seq<StepView>,
    pub needs_user_action: Option<Seq<char>>,
    pub error: Option<Seq<char>>,
    pub remedy: Option<Seq<char>>,
}

impl View for HannahMontanaSetupState {
    type V = SetupView;

    open spec fn view(&self) -> SetupView {
        SetupView {
            attempt_id: self.attempt_id@,
            steps: step_views(self.steps@),
            needs_user_action: opt_view(self.needs_user_action),
            error: opt_view(self.error),
            remedy: opt_view(self.remedy),
        }
    }
}

/// A step that no event has named yet.
pub open spec fn pending_step(key: Seq<char>, label: Seq<char>) -> StepView {
    StepView { key, label, status: StepStatus::Pending, detail: None }
}

/// The ordered setup steps reported by `cyrus setup --json`, before the first event.
pub open spec fn pending_steps() -> Seq<StepView> {
    seq![
        pending_step("secrets"@, "Preparing credentials"@),
        pending_step("chrome"@, "Connecting to Chrome"@),
        pending_step("tunnel"@, "Opening the public tunnel"@),
        pending_step("stack"@, "Starting local servers"@),
        pending_step("connector"@, "Wiring the ChatGPT connector"@),
        pending_step("codex_config"@, "Configuring codex"@),
    ]
}

/// The progress of a run that has reported nothing.
pub open spec fn initial(attempt_id: Seq<char>) -> SetupView {
    SetupView {
        attempt_id,
        steps: pending_steps(),
        needs_user_action: None,
        error: None,
        remedy: None,
    }
}

/// The progress list shows the setup steps, in order, under their labels.
pub open spec fn lists_setup_steps(state: SetupView) -> bool {
    &&& state.steps.len() == pending_steps().len()
    &&& forall|i: int|
        0 <= i < state.steps.len() ==> {
            &&& (#[trigger] state.steps[i]).key == pending_steps()[i].key
            &&& state.steps[i].label == pending_steps()[i].label
        }
}

/// `steps[i]` is the first step with the given key.
pub open spec fn first_with_key(steps: Seq<StepView>, key: Seq<char>, i: int) -> bool {
    &&& 0 <= i < steps.len()
    &&& steps[i].key == key
    &&& forall|j: int| 0 <= j < i ==> (#[trigger] steps[j]).key != key
}

/// Replacing a step replaces its view.
proof fn lemma_update_step(steps: Seq<SetupStep>, i: int)
    requires
        0 <= i < steps.len(),
    ensures
        forall|step: SetupStep| #[trigger]
            step_views(steps.update(i, step)) == step_views(steps).update(i, step@),
{
    assert forall|step: SetupStep| #[trigger]
        step_views(steps.update(i, step)) == step_views(steps).update(i, step@) by {
        assert(step_views(steps.update(i, step)) =~= step_views(steps).update(i, step@));
    }
}

/// Builds one entry of the initial progress list.
fn new_step(key: &str, label: &str) -> (step: SetupStep)
    ensures
        step@ == pending_step(key@, label@),
{
    SetupStep {
        key: key.to_string(),
        label: label.to_string(),
        status: StepStatus::Pending,
        detail: None,
    }
}

impl HannahMontanaSetupState {
    /// The progress of a new run: every step pending, no prompt and no error.
    pub fn new(attempt_id: String) -> (state: Self)
        ensures
            state@ == initial(attempt_id@),
            lists_setup_steps(state@),
    {
        let steps: Vec<SetupStep> = vec![
            new_step("secrets", "Preparing credentials"),
            new_step("chrome", "Connecting to Chrome"),
            new_step("tunnel", "Opening the public tunnel"),
            new_step("stack", "Starting local servers"),
            new_step("connector", "Wiring the ChatGPT connector"),
            // Not "Writing config": the provider is injected at launch, nothing is written to
            // the user's codex config (the engine cleans stale blocks).
            new_step("codex_config", "Configuring codex"),
        ];
        assert(step_views(steps@) == pending_steps());
        HannahMontanaSetupState {
            attempt_id,
            steps,
            needs_user_action: None,
            error: None,
            remedy: None,
        }
    }

    /// The first step with the given key, for the caller to update in place.
    ///
    /// What the caller leaves behind the reference becomes that step; nothing else changes.
    pub fn step_mut(&mut self, key: &str) -> (found: Option<&mut SetupStep>)
        ensures
            match found {
                Some(step) => exists|i: int|
                    {
                        &&& #[trigger] first_with_key(old(self)@.steps, key@, i)
                        &&& *step == old(self).steps[i]
                        &&& final(self)@ == (SetupView {
                            steps: old(self)@.steps.update(i, (*final(step))@),
                            ..old(self)@
                        })
                    },
                None => {
                    &&& *final(self) == *old(self)
                    &&& forall|i: int|
                        0 <= i < old(self)@.steps.len() ==> (#[trigger] old(self)@.steps[i]).key
                            != key@
                },
            },
    {
        let wanted: String = key.to_string();
        let mut i: usize = 0;
        while i < self.steps.len()
            invariant
                i <= self.steps.len(),
                *self == *old(self),
                wanted@ == key@,
                forall|j: int| 0 <= j < i ==> (#[trigger] self@.steps[j]).key != key@,
            decreases self.steps.len() - i,
        {
            assert(self@.steps[i as int] == self.steps[i as int]@);
            if self.steps[i].key == wanted {
                assert(first_with_key(self@.steps, key@, i as int));
                proof {
                    lemma_update_step(self.steps@, i as int);
                }
                return Some(&mut self.steps[i]);
            }
            i = i + 1;
        }
        None
    }
}

} // verus!
