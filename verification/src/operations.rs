//! What each operation does, told by its inputs and results alone.
//!
//! Every law here speaks of one operation on all of its inputs. It spells out texts, styles and
//! fields, so that it can be read without the definitions that the contracts use.
use vstd::prelude::*;

use crate::event::{outcome, reduced, ReduceOutcome, SetupEvent};
use crate::launch::{
    arg_views, command_line, exe_name, located, string_views, tunnel_flags, CyrusBin, CyrusBinView,
    LaunchArg, LaunchArgView, TunnelArg,
};
use crate::laws::{law_trimming_is_exact, law_tunnel_flags_tell_selections_apart};
use crate::progress::{
    first_with_key, initial, lists_setup_steps, HannahMontanaSetupState, SetupStep, SetupView,
    StepStatus, StepView,
};
use crate::render::{
    display, line_views, step_line, LineColor, LineSpan, LineView, ProgressLine, SpanView, TextStyle,
};
use crate::run::{next_action, RunAction, RunActionView, RunEvent};
use crate::sign_in::{
    active, applied, completed, failed, update_of, AttemptUpdate, SignInState, SignInView,
};
use crate::text::{trimmed, white_space};

verus! {

// ---- Views show everything ----

/// The view of a step shows each of its fields.
pub proof fn law_step_view_shows_every_field(step: SetupStep)
    ensures
        step@.key == step.key@,
        step@.label == step.label@,
        step@.status == step.status,
        step@.detail is Some <==> step.detail is Some,
        step.detail is Some ==> step@.detail->0 == step.detail->0@,
{
}

/// The view of a run's progress shows each of its fields, and every step in its place.
pub proof fn law_progress_view_shows_every_field(state: HannahMontanaSetupState)
    ensures
        state@.attempt_id == state.attempt_id@,
        state@.steps.len() == state.steps@.len(),
        forall|i: int|
            0 <= i < state.steps@.len() ==> #[trigger] state@.steps[i] == state.steps@[i]@,
        state@.needs_user_action is Some <==> state.needs_user_action is Some,
        state.needs_user_action is Some ==> state@.needs_user_action->0
            == state.needs_user_action->0@,
        state@.error is Some <==> state.error is Some,
        state.error is Some ==> state@.error->0 == state.error->0@,
        state@.remedy is Some <==> state.remedy is Some,
        state.remedy is Some ==> state@.remedy->0 == state.remedy->0@,
{
}

/// The view of the sign-in state shows which state it is and what it carries.
pub proof fn law_sign_in_view_shows_the_state<O>(
    sign_in: SignInState<O>,
    state: HannahMontanaSetupState,
    other: O,
)
    ensures
        sign_in == SignInState::<O>::HannahMontanaSetup(state) ==> sign_in@
            == SignInView::<O>::Setup(state@),
        sign_in == SignInState::<O>::HannahMontanaConfigured ==> sign_in@
            == SignInView::<O>::Configured,
        sign_in == SignInState::<O>::Other(other) ==> sign_in@ == SignInView::<O>::Other(other),
{
}

/// The view of an action shows which action it is and what it carries.
pub proof fn law_action_view_shows_the_action(action: RunAction)
    ensures
        match action {
            RunAction::Launch(args) => {
                &&& action@ matches RunActionView::Launch(shown)
                &&& shown.len() == args@.len()
                &&& forall|i: int|
                    0 <= i < args@.len() ==> match args@[i] {
                        LaunchArg::Text(text) => #[trigger] shown[i] == LaunchArgView::Text(text@),
                        LaunchArg::WorkingDir => shown[i] == LaunchArgView::WorkingDir,
                    }
            },
            RunAction::ReadLine => action@ == RunActionView::ReadLine,
            RunAction::Parse(text) => action@ == RunActionView::Parse(text@),
            RunAction::Apply(event) => action@ == RunActionView::Apply(event),
            RunAction::Wait => action@ == RunActionView::Wait,
            RunAction::Complete => action@ == RunActionView::Complete,
            RunAction::Fail(message) => action@ == RunActionView::Fail(message@),
            RunAction::Stop => action@ == RunActionView::Stop,
        },
{
}

/// The views of argument lists show every argument in its place.
pub proof fn law_argument_views_show_every_argument(strings: Seq<String>, args: Seq<LaunchArg>)
    ensures
        string_views(strings).len() == strings.len(),
        forall|i: int|
            0 <= i < strings.len() ==> #[trigger] string_views(strings)[i] == strings[i]@,
        arg_views(args).len() == args.len(),
        forall|i: int|
            0 <= i < args.len() ==> match args[i] {
                LaunchArg::Text(text) => #[trigger] arg_views(args)[i] == LaunchArgView::Text(
                    text@,
                ),
                LaunchArg::WorkingDir => arg_views(args)[i] == LaunchArgView::WorkingDir,
            },
{
}

/// The view of a list of lines shows every line in its place, with its text or pieces and their
/// styles.
pub proof fn law_line_views_show_every_line(lines: Seq<ProgressLine>)
    ensures
        line_views(lines).len() == lines.len(),
        forall|i: int|
            0 <= i < lines.len() ==> match lines[i] {
                ProgressLine::Whole { text, style } => #[trigger] line_views(lines)[i]
                    == (LineView::Whole { text: text@, style }),
                ProgressLine::Spans(spans) => {
                    &&& line_views(lines)[i] matches LineView::Spans(shown)
                    &&& shown.len() == spans@.len()
                    &&& forall|j: int|
                        0 <= j < spans@.len() ==> match spans@[j] {
                            LineSpan::Text { text, style } => #[trigger] shown[j] == (
                            SpanView::Text { text: text@, style }),
                            LineSpan::ConfirmBinding => shown[j] == SpanView::ConfirmBinding,
                        }
                },
            },
{
}

// ---- A new run ----

/// A new run belongs to its attempt and lists the six steps by key and label, each pending and
/// without detail; it shows no prompt, no error and no hint.
pub proof fn law_new_run_is_blank(attempt_id: Seq<char>)
    ensures
        initial(attempt_id).attempt_id == attempt_id,
        initial(attempt_id).needs_user_action is None,
        initial(attempt_id).error is None,
        initial(attempt_id).remedy is None,
        initial(attempt_id).steps.len() == 6,
        initial(attempt_id).steps[0].key == "secrets"@,
        initial(attempt_id).steps[0].label == "Preparing credentials"@,
        initial(attempt_id).steps[1].key == "chrome"@,
        initial(attempt_id).steps[1].label == "Connecting to Chrome"@,
        initial(attempt_id).steps[2].key == "tunnel"@,
        initial(attempt_id).steps[2].label == "Opening the public tunnel"@,
        initial(attempt_id).steps[3].key == "stack"@,
        initial(attempt_id).steps[3].label == "Starting local servers"@,
        initial(attempt_id).steps[4].key == "connector"@,
        initial(attempt_id).steps[4].label == "Wiring the ChatGPT connector"@,
        initial(attempt_id).steps[5].key == "codex_config"@,
        initial(attempt_id).steps[5].label == "Configuring codex"@,
        forall|i: int|
            0 <= i < 6 ==> (#[trigger] initial(attempt_id).steps[i]).status == StepStatus::Pending
                && initial(attempt_id).steps[i].detail is None,
{
}

/// A progress list is the setup's exactly when it agrees with a new run's on every key and label.
pub proof fn law_listed_steps_are_those_of_a_new_run(state: SetupView, attempt_id: Seq<char>)
    ensures
        lists_setup_steps(state) <==> {
            &&& state.steps.len() == initial(attempt_id).steps.len()
            &&& forall|i: int|
                0 <= i < state.steps.len() ==> {
                    &&& (#[trigger] state.steps[i]).key == initial(attempt_id).steps[i].key
                    &&& state.steps[i].label == initial(attempt_id).steps[i].label
                }
        },
{
}

// ---- The reducer ----

/// A step is the first with its key exactly when it has the key and no step before it does.
pub proof fn law_first_step_with_a_key(steps: Seq<StepView>, key: Seq<char>, i: int)
    requires
        0 <= i < steps.len(),
    ensures
        first_with_key(steps, key, i) <==> (steps[i].key == key && forall|j: int|
            0 <= j < i ==> (#[trigger] steps[j]).key != key),
        !first_with_key(steps, key, -1),
        !first_with_key(steps, key, steps.len() as int),
{
}

/// When a step starts, the first step with that key is running; the status of every other step,
/// and every key, label and detail, stay. Nothing but the steps changes, and the run goes on.
pub proof fn law_started_step_is_running(state: SetupView, step: String, label: Option<String>)
    ensures
        ({
            let event = SetupEvent::StepStarted { step, label };
            let after = reduced(state, event);
            &&& outcome(event) == ReduceOutcome::Continue
            &&& after.attempt_id == state.attempt_id
            &&& after.needs_user_action == state.needs_user_action
            &&& after.error == state.error
            &&& after.remedy == state.remedy
            &&& after.steps.len() == state.steps.len()
            &&& forall|i: int|
                #![trigger after.steps[i]]
                0 <= i < state.steps.len() ==> {
                    let named = state.steps[i].key == step@ && forall|j: int|
                        0 <= j < i ==> (#[trigger] state.steps[j]).key != step@;
                    &&& after.steps[i].key == state.steps[i].key
                    &&& after.steps[i].label == state.steps[i].label
                    &&& after.steps[i].detail == state.steps[i].detail
                    &&& named ==> after.steps[i].status == StepStatus::Running
                    &&& !named ==> after.steps[i].status == state.steps[i].status
                }
        }),
{
}

/// When a step is done, the first step with that key is done and has exactly the detail that the
/// event gives, be it none; every other step stays as it is, and so does every key and label. The
/// prompt is gone, error and hint stay, and the run goes on.
pub proof fn law_done_step_has_the_reported_detail(
    state: SetupView,
    step: String,
    detail: Option<String>,
)
    ensures
        ({
            let event = SetupEvent::StepDone { step, detail };
            let after = reduced(state, event);
            &&& outcome(event) == ReduceOutcome::Continue
            &&& after.attempt_id == state.attempt_id
            &&& after.needs_user_action is None
            &&& after.error == state.error
            &&& after.remedy == state.remedy
            &&& after.steps.len() == state.steps.len()
            &&& forall|i: int|
                #![trigger after.steps[i]]
                0 <= i < state.steps.len() ==> {
                    let named = state.steps[i].key == step@ && forall|j: int|
                        0 <= j < i ==> (#[trigger] state.steps[j]).key != step@;
                    &&& after.steps[i].key == state.steps[i].key
                    &&& after.steps[i].label == state.steps[i].label
                    &&& named ==> {
                        &&& after.steps[i].status == StepStatus::Done
                        &&& after.steps[i].detail is Some <==> detail is Some
                        &&& detail is Some ==> after.steps[i].detail->0 == detail->0@
                    }
                    &&& !named ==> after.steps[i] == state.steps[i]
                }
        }),
{
}

/// A request to the user is shown word for word; nothing else changes, and the run goes on.
pub proof fn law_prompt_is_shown_word_for_word(state: SetupView, step: String, instruction: String)
    ensures
        ({
            let event = SetupEvent::NeedsUserAction { step, instruction };
            let after = reduced(state, event);
            &&& outcome(event) == ReduceOutcome::Continue
            &&& after.needs_user_action is Some
            &&& after.needs_user_action->0 == instruction@
            &&& after.attempt_id == state.attempt_id
            &&& after.steps == state.steps
            &&& after.error == state.error
            &&& after.remedy == state.remedy
        }),
{
}

/// A resolved request takes the prompt away, whatever step it names; nothing else changes, and the
/// run goes on.
pub proof fn law_resolving_only_takes_the_prompt(state: SetupView, step: String)
    ensures
        ({
            let event = SetupEvent::UserActionResolved { step };
            let after = reduced(state, event);
            &&& outcome(event) == ReduceOutcome::Continue
            &&& after.needs_user_action is None
            &&& after.attempt_id == state.attempt_id
            &&& after.steps == state.steps
            &&& after.error == state.error
            &&& after.remedy == state.remedy
        }),
{
}

/// The end of setup marks every step done and keeps key, label and detail of each; prompt and error
/// are gone, the hint stays. The run has completed, whatever else the event carries.
pub proof fn law_end_of_setup_marks_every_step(state: SetupView, event: SetupEvent)
    requires
        event is Done,
    ensures
        ({
            let after = reduced(state, event);
            &&& outcome(event) == ReduceOutcome::Completed
            &&& after.attempt_id == state.attempt_id
            &&& after.needs_user_action is None
            &&& after.error is None
            &&& after.remedy == state.remedy
            &&& after.steps.len() == state.steps.len()
            &&& forall|i: int|
                #![trigger after.steps[i]]
                0 <= i < state.steps.len() ==> {
                    &&& after.steps[i].status == StepStatus::Done
                    &&& after.steps[i].key == state.steps[i].key
                    &&& after.steps[i].label == state.steps[i].label
                    &&& after.steps[i].detail == state.steps[i].detail
                }
        }),
{
}

/// An error is shown word for word with the hint that came with it, or none if none came; the prompt
/// is gone and every step stays. The run has failed.
pub proof fn law_error_is_shown_word_for_word(
    state: SetupView,
    message: String,
    remedy: Option<String>,
)
    ensures
        ({
            let event = SetupEvent::Error { message, remedy };
            let after = reduced(state, event);
            &&& outcome(event) == ReduceOutcome::Failed
            &&& after.error is Some
            &&& after.error->0 == message@
            &&& after.remedy is Some <==> remedy is Some
            &&& remedy is Some ==> after.remedy->0 == remedy->0@
            &&& after.needs_user_action is None
            &&& after.attempt_id == state.attempt_id
            &&& after.steps == state.steps
        }),
{
}

// ---- The attempt guard ----

/// An attempt is active exactly when a run is shown that carries its identifier, however far that
/// run has come.
pub proof fn law_active_means_same_identifier<O>(state: SetupView, attempt_id: Seq<char>, other: O)
    ensures
        active(SignInView::<O>::Setup(state), attempt_id) <==> state.attempt_id == attempt_id,
        !active(SignInView::<O>::Configured, attempt_id),
        !active(SignInView::<O>::Other(other), attempt_id),
{
}

/// Whatever a run is shown, and however far it has come, an event, a success and an error under
/// another identifier are refused and change nothing.
pub proof fn law_other_identifier_is_refused<O>(
    state: SetupView,
    attempt_id: Seq<char>,
    event: SetupEvent,
    message: Seq<char>,
)
    requires
        state.attempt_id != attempt_id,
    ensures
        ({
            let shown = SignInView::<O>::Setup(state);
            &&& update_of(shown, attempt_id, event) == AttemptUpdate::Stale
            &&& applied(shown, attempt_id, event) == shown
            &&& completed(shown, attempt_id) == shown
            &&& failed(shown, attempt_id, message) == shown
        }),
{
}

/// Where no run is shown, every event, success and error of a run is refused and changes nothing.
pub proof fn law_states_without_a_run_are_safe<O>(
    other: O,
    attempt_id: Seq<char>,
    event: SetupEvent,
    message: Seq<char>,
)
    ensures
        ({
            let configured = SignInView::<O>::Configured;
            let elsewhere = SignInView::<O>::Other(other);
            &&& update_of(configured, attempt_id, event) == AttemptUpdate::Stale
            &&& applied(configured, attempt_id, event) == configured
            &&& completed(configured, attempt_id) == configured
            &&& failed(configured, attempt_id, message) == configured
            &&& update_of(elsewhere, attempt_id, event) == AttemptUpdate::Stale
            &&& applied(elsewhere, attempt_id, event) == elsewhere
            &&& completed(elsewhere, attempt_id) == elsewhere
            &&& failed(elsewhere, attempt_id, message) == elsewhere
        }),
{
}

/// Under its own identifier, a run's events reach the reducer as they are, its success configures,
/// and its error is shown word for word without a hint or a prompt, with identifier and steps kept.
pub proof fn law_own_identifier_is_served<O>(
    state: SetupView,
    event: SetupEvent,
    message: Seq<char>,
)
    ensures
        ({
            let shown = SignInView::<O>::Setup(state);
            let id = state.attempt_id;
            &&& update_of(shown, id, event) == AttemptUpdate::Applied(outcome(event))
            &&& applied(shown, id, event) == SignInView::<O>::Setup(reduced(state, event))
            &&& completed(shown, id) == SignInView::<O>::Configured
            &&& failed(shown, id, message) matches SignInView::Setup(after)
            &&& after.error == Some(message)
            &&& after.remedy is None
            &&& after.needs_user_action is None
            &&& after.attempt_id == id
            &&& after.steps == state.steps
        }),
{
}

/// No event and no error, under whatever identifier, changes the identifier of the run that is
/// shown or puts one on show that was not.
pub proof fn law_shown_identifier_never_changes<O>(
    sign_in: SignInView<O>,
    attempt_id: Seq<char>,
    event: SetupEvent,
    message: Seq<char>,
)
    ensures
        match sign_in {
            SignInView::Setup(state) => {
                &&& applied(sign_in, attempt_id, event) matches SignInView::Setup(after)
                &&& after.attempt_id == state.attempt_id
                &&& failed(sign_in, attempt_id, message) matches SignInView::Setup(broken)
                &&& broken.attempt_id == state.attempt_id
            },
            _ => {
                &&& !(applied(sign_in, attempt_id, event) is Setup)
                &&& !(failed(sign_in, attempt_id, message) is Setup)
            },
        },
{
}

// ---- The binary ----

/// The view of a binary shows where it comes from and which it is.
pub proof fn law_binary_view_shows_the_binary<P>(bin: CyrusBin<P>)
    ensures
        match bin {
            CyrusBin::EnvOverride(path) => bin@ == CyrusBinView::EnvOverride(path),
            CyrusBin::Sibling(path) => bin@ == CyrusBinView::Sibling(path),
            CyrusBin::OnPath(command) => bin@ == CyrusBinView::<P>::OnPath(command@),
        },
{
}

/// A value of the environment variable that has any bytes at all wins over everything else. Without
/// one, set but empty or not set, a sibling that exists wins; without either, the bare command.
pub proof fn law_binary_look_ups_have_an_order<P>(
    path: P,
    len: usize,
    beside: P,
    sibling: Option<(P, bool)>,
    env_bin: Option<(P, usize)>,
)
    ensures
        len >= 1 ==> located(Some((path, len)), sibling) == CyrusBinView::EnvOverride(path),
        located(Some((path, 0)), sibling) == located(None, sibling),
        located(None, Some((beside, true))) == CyrusBinView::Sibling(beside),
        located(env_bin, Some((beside, false))) == located(env_bin, None),
        located(None::<(P, usize)>, None) == CyrusBinView::<P>::OnPath("cyrus"@),
{
}

/// The executable is called `cyrus`, with the suffix `.exe` on Windows.
pub proof fn law_executable_name_has_a_suffix_on_windows()
    ensures
        exe_name(false) == "cyrus"@,
        exe_name(true) == exe_name(false) + ".exe"@,
{
    reveal_strlit("cyrus");
    reveal_strlit(".exe");
    reveal_strlit("cyrus.exe");
    assert(exe_name(true) =~= exe_name(false) + ".exe"@);
}

// ---- The command line ----

/// The flags of a selection: two for a quick or named tunnel, four for ngrok, the last of which is
/// the domain as it was given.
pub proof fn law_flags_name_the_selection(domain: String)
    ensures
        tunnel_flags(TunnelArg::Quick).len() == 2,
        tunnel_flags(TunnelArg::Quick)[0] == "--tunnel"@,
        tunnel_flags(TunnelArg::Quick)[1] == "quick"@,
        tunnel_flags(TunnelArg::Named).len() == 2,
        tunnel_flags(TunnelArg::Named)[0] == "--tunnel"@,
        tunnel_flags(TunnelArg::Named)[1] == "named"@,
        tunnel_flags(TunnelArg::Ngrok(domain)).len() == 4,
        tunnel_flags(TunnelArg::Ngrok(domain))[0] == "--tunnel"@,
        tunnel_flags(TunnelArg::Ngrok(domain))[1] == "ngrok"@,
        tunnel_flags(TunnelArg::Ngrok(domain))[2] == "--ngrok-domain"@,
        tunnel_flags(TunnelArg::Ngrok(domain))[3] == domain@,
{
}

/// The arguments from the fifth on are the flags of this very selection.
pub open spec fn ends_with_selection(args: Seq<LaunchArgView>, tunnel: TunnelArg) -> bool {
    match tunnel {
        TunnelArg::Quick => {
            &&& args.len() == 6
            &&& args[4] == LaunchArgView::Text("--tunnel"@)
            &&& args[5] == LaunchArgView::Text("quick"@)
        },
        TunnelArg::Named => {
            &&& args.len() == 6
            &&& args[4] == LaunchArgView::Text("--tunnel"@)
            &&& args[5] == LaunchArgView::Text("named"@)
        },
        TunnelArg::Ngrok(domain) => {
            &&& args.len() == 8
            &&& args[4] == LaunchArgView::Text("--tunnel"@)
            &&& args[5] == LaunchArgView::Text("ngrok"@)
            &&& args[6] == LaunchArgView::Text("--ngrok-domain"@)
            &&& args[7] == LaunchArgView::Text(domain@)
        },
    }
}

/// For every selection the command line starts with `setup`, `--repo`, the working directory and
/// `--json`, in this order, and goes on with the flags of that selection and nothing else.
pub proof fn law_command_line_is_setup_in_the_working_dir(tunnel: TunnelArg)
    ensures
        command_line(tunnel)[0] == LaunchArgView::Text("setup"@),
        command_line(tunnel)[1] == LaunchArgView::Text("--repo"@),
        command_line(tunnel)[2] == LaunchArgView::WorkingDir,
        command_line(tunnel)[3] == LaunchArgView::Text("--json"@),
        ends_with_selection(command_line(tunnel), tunnel),
{
}

/// Once the binary has been found, a run launches it on the user's own selection: the working
/// directory is the value of `--repo`, and the flags are those of the selection.
pub proof fn law_run_launches_the_selected_tunnel(tunnel: TunnelArg)
    ensures
        ({
            &&& next_action(tunnel, RunEvent::Located { found: true }) matches RunActionView::Launch(
                args,
            )
            &&& args[0] == LaunchArgView::Text("setup"@)
            &&& args[1] == LaunchArgView::Text("--repo"@)
            &&& args[2] == LaunchArgView::WorkingDir
            &&& args[3] == LaunchArgView::Text("--json"@)
            &&& ends_with_selection(args, tunnel)
        }),
{
    law_command_line_is_setup_in_the_working_dir(tunnel);
}

/// Two runs launch the same command line only on the same selection.
pub proof fn law_different_selections_launch_differently(a: TunnelArg, b: TunnelArg)
    requires
        next_action(a, RunEvent::Located { found: true }) == next_action(
            b,
            RunEvent::Located { found: true },
        ),
    ensures
        a is Quick <==> b is Quick,
        a is Named <==> b is Named,
        a is Ngrok <==> b is Ngrok,
        a is Ngrok ==> a->Ngrok_0@ == b->Ngrok_0@,
{
    law_run_launches_the_selected_tunnel(a);
    law_run_launches_the_selected_tunnel(b);
    law_tunnel_flags_tell_selections_apart(a, b);
}

// ---- The decisions of a run ----

/// The selection matters to the launch alone: any other report leads to the same action under every
/// selection.
pub proof fn law_selection_matters_to_the_launch_alone(a: TunnelArg, b: TunnelArg, report: RunEvent)
    requires
        report != (RunEvent::Located { found: true }),
    ensures
        next_action(a, report) == next_action(b, report),
{
}

/// A run fails with the reason, and with nothing but the reason, wherever it cannot go on.
pub proof fn law_failures_tell_their_cause(
    tunnel: TunnelArg,
    bin: String,
    err: String,
    status: String,
)
    ensures
        next_action(tunnel, RunEvent::Located { found: false }) == RunActionView::Fail(
            "Could not locate the cyrus binary. Set CYRUS_BIN or add cyrus to PATH."@,
        ),
        next_action(tunnel, RunEvent::LaunchFailed { bin, err }) == RunActionView::Fail(
            "Failed to launch "@ + bin@ + ": "@ + err@,
        ),
        next_action(tunnel, RunEvent::Launched { has_stdout: false }) == RunActionView::Fail(
            "cyrus did not provide a stdout stream"@,
        ),
        next_action(tunnel, RunEvent::ReadFailed { err }) == RunActionView::Fail(
            "Error reading cyrus output: "@ + err@,
        ),
        next_action(tunnel, RunEvent::Exited { success: true, status }) == RunActionView::Fail(
            "cyrus exited before completing setup"@,
        ),
        next_action(tunnel, RunEvent::Exited { success: false, status }) == RunActionView::Fail(
            "cyrus exited with "@ + status@,
        ),
        next_action(tunnel, RunEvent::WaitFailed { err }) == RunActionView::Fail(
            "Failed to wait for cyrus: "@ + err@,
        ),
{
}

/// A run reads its output line by line: first when the process runs, then after every line that is
/// no event and after every event that does not end it. At the end of the output it waits for the
/// process. A `done` event completes it, an `error` event or a newer attempt stops it.
pub proof fn law_run_reads_until_decided(tunnel: TunnelArg, event: SetupEvent)
    ensures
        next_action(tunnel, RunEvent::Launched { has_stdout: true }) == RunActionView::ReadLine,
        next_action(tunnel, RunEvent::Parsed(None)) == RunActionView::ReadLine,
        next_action(tunnel, RunEvent::Parsed(Some(event))) == RunActionView::Apply(event),
        next_action(tunnel, RunEvent::EndOfOutput) == RunActionView::Wait,
        next_action(tunnel, RunEvent::Updated(AttemptUpdate::Stale)) == RunActionView::Stop,
        next_action(tunnel, RunEvent::Updated(AttemptUpdate::Applied(ReduceOutcome::Continue)))
            == RunActionView::ReadLine,
        next_action(tunnel, RunEvent::Updated(AttemptUpdate::Applied(ReduceOutcome::Completed)))
            == RunActionView::Complete,
        next_action(tunnel, RunEvent::Updated(AttemptUpdate::Applied(ReduceOutcome::Failed)))
            == RunActionView::Stop,
{
}

/// A character counts as white space exactly when its code point has the Unicode property.
pub proof fn law_white_space_is_the_unicode_property(c: char)
    ensures
        white_space(c) <==> {
            ||| 0x9 <= c as u32 <= 0xd
            ||| c as u32 == 0x20
            ||| c as u32 == 0x85
            ||| c as u32 == 0xa0
            ||| c as u32 == 0x1680
            ||| 0x2000 <= c as u32 <= 0x200a
            ||| c as u32 == 0x2028
            ||| c as u32 == 0x2029
            ||| c as u32 == 0x202f
            ||| c as u32 == 0x205f
            ||| c as u32 == 0x3000
        },
{
}

/// A line of nothing but white space is skipped. Of any other line, the part from its first to its
/// last character that is not white space is parsed, as it stands.
pub proof fn law_lines_are_parsed_without_surrounding_space(
    tunnel: TunnelArg,
    line: String,
    start: int,
    end: int,
)
    requires
        0 <= start <= end <= line@.len(),
        forall|i: int| 0 <= i < start ==> white_space(#[trigger] line@[i]),
        forall|i: int| end <= i < line@.len() ==> white_space(#[trigger] line@[i]),
        start < end ==> !white_space(line@[start]) && !white_space(line@[end - 1]),
    ensures
        start == end ==> next_action(tunnel, RunEvent::Line(line)) == RunActionView::ReadLine,
        start < end ==> next_action(tunnel, RunEvent::Line(line)) == RunActionView::Parse(
            line@.subrange(start, end),
        ),
{
    let text = line@;
    law_trimming_is_exact(text);
    let (a, b) = choose|a: int, b: int|
        0 <= a <= b <= text.len() && trimmed(text) == #[trigger] text.subrange(a, b) && (forall|
            i: int,
        |
            0 <= i < a || b <= i < text.len() ==> white_space(#[trigger] text[i]));
    if start < end {
        assert(a <= start && end <= b) by {
            assert(!white_space(text[start]) && !white_space(text[end - 1]));
        }
        assert(trimmed(text)[0] == text[a]);
        assert(trimmed(text).last() == text[b - 1]);
        assert(a == start && b == end);
    } else if a < b {
        assert(trimmed(text)[0] == text[a]);
        assert(white_space(text[a]));
    }
}

// ---- The display ----

/// A look given by its colour, weight and brightness.
pub open spec fn look(fg: Option<LineColor>, bold: bool, dim: bool) -> TextStyle {
    TextStyle { fg, bold, dim }
}

/// The line of a step goes by its status and label, whatever its detail: green after a check mark
/// when done, cyan after an hourglass when running, dim behind four spaces when pending. After the
/// label comes a dash and the detail if there is one that is not empty, and nothing otherwise.
pub proof fn law_step_line_goes_by_status(step: StepView)
    ensures
        ({
            let tail = if step.detail is Some && step.detail->0.len() > 0 {
                " — "@ + step.detail->0
            } else {
                Seq::<char>::empty()
            };
            &&& step.status == StepStatus::Done ==> step_line(step) == (LineView::Whole {
                text: "  ✓ "@ + step.label + tail,
                style: look(Some(LineColor::Green), false, false),
            })
            &&& step.status == StepStatus::Running ==> step_line(step) == (LineView::Whole {
                text: "  ⏳ "@ + step.label + tail,
                style: look(Some(LineColor::Cyan), false, false),
            })
            &&& step.status == StepStatus::Pending ==> step_line(step) == (LineView::Whole {
                text: "    "@ + step.label + tail,
                style: look(None, false, true),
            })
        }),
{
    reveal_strlit("  ");
    reveal_strlit(" ");
    reveal_strlit("✓");
    reveal_strlit("⏳");
    reveal_strlit("  ✓ ");
    reveal_strlit("  ⏳ ");
    reveal_strlit("    ");
    let tail = if step.detail is Some && step.detail->0.len() > 0 {
        " — "@ + step.detail->0
    } else {
        Seq::<char>::empty()
    };
    let text = step_line(step)->text;
    assert("  "@ + "✓"@ + " "@ =~= "  ✓ "@);
    assert("  "@ + "⏳"@ + " "@ =~= "  ⏳ "@);
    assert("  "@ + " "@ + " "@ =~= "    "@);
    match step.status {
        StepStatus::Done => assert(text =~= "  ✓ "@ + step.label + tail),
        StepStatus::Running => assert(text =~= "  ⏳ "@ + step.label + tail),
        StepStatus::Pending => assert(text =~= "    "@ + step.label + tail),
    }
}

/// Under the bold heading and a blank line, the display has one line per step, in order, each by
/// the step's status, label and detail.
pub proof fn law_display_shows_every_step(state: SetupView, i: int)
    requires
        0 <= i < state.steps.len(),
    ensures
        ({
            let step = state.steps[i];
            let tail = if step.detail is Some && step.detail->0.len() > 0 {
                " — "@ + step.detail->0
            } else {
                Seq::<char>::empty()
            };
            &&& step.status == StepStatus::Done ==> display(state)[2 + i] == (LineView::Whole {
                text: "  ✓ "@ + step.label + tail,
                style: look(Some(LineColor::Green), false, false),
            })
            &&& step.status == StepStatus::Running ==> display(state)[2 + i] == (LineView::Whole {
                text: "  ⏳ "@ + step.label + tail,
                style: look(Some(LineColor::Cyan), false, false),
            })
            &&& step.status == StepStatus::Pending ==> display(state)[2 + i] == (LineView::Whole {
                text: "    "@ + step.label + tail,
                style: look(None, false, true),
            })
        }),
{
    law_step_line_goes_by_status(state.steps[i]);
}

/// The number of lines above the prompt.
pub open spec fn lines_to_prompt(state: SetupView) -> int {
    2 + state.steps.len() as int
}

/// The number of lines above the error.
pub open spec fn lines_to_error(state: SetupView) -> int {
    lines_to_prompt(state) + if state.needs_user_action is Some {
        2int
    } else {
        0
    }
}

/// The number of lines above the offer to retry a failed run.
pub open spec fn lines_to_retry(state: SetupView) -> int {
    lines_to_error(state) + 2 + if state.remedy is Some && state.remedy->0.len() > 0 {
        2int
    } else {
        0
    }
}

/// The display is the heading, a line per step, the prompt if there is one, and, if the run has
/// failed, the error, the hint if there is one that is not empty, and the offer to retry; a blank
/// line goes before each part but the heading and after the heading. Each part has its own texts,
/// weights and colours, and there are no other lines.
pub proof fn law_display_parts(state: SetupView)
    ensures
        ({
            let d = display(state);
            let blank = LineView::Whole { text: Seq::empty(), style: look(None, false, false) };
            let plain = look(None, false, false);
            let dim = look(None, false, true);
            let prompt = lines_to_prompt(state);
            let error = lines_to_error(state);
            let retry = lines_to_retry(state);
            &&& d.len() == if state.error is Some {
                retry + 2
            } else {
                error
            }
            &&& d[0] == LineView::Spans(
                seq![
                    SpanView::Text { text: "  "@, style: plain },
                    SpanView::Text {
                        text: "Setting up cyrus"@,
                        style: look(None, true, false),
                    },
                ],
            )
            &&& d[1] == blank
            &&& state.needs_user_action is Some ==> {
                &&& d[prompt] == blank
                &&& d[prompt + 1] == LineView::Spans(
                    seq![
                        SpanView::Text { text: "  "@, style: plain },
                        SpanView::Text {
                            text: "Action needed: "@,
                            style: look(Some(LineColor::Yellow), true, false),
                        },
                        SpanView::Text {
                            text: state.needs_user_action->0,
                            style: look(Some(LineColor::Yellow), false, false),
                        },
                    ],
                )
            }
            &&& state.error is Some ==> {
                &&& d[error] == blank
                &&& d[error + 1] == (LineView::Whole {
                    text: "  "@ + state.error->0,
                    style: look(Some(LineColor::Red), false, false),
                })
                &&& state.remedy is Some && state.remedy->0.len() > 0 ==> {
                    &&& d[error + 2] == blank
                    &&& d[error + 3] == LineView::Spans(
                        seq![
                            SpanView::Text { text: "  Try: "@, style: dim },
                            SpanView::Text { text: state.remedy->0, style: plain },
                        ],
                    )
                }
                &&& d[retry] == blank
                &&& d[retry + 1] == LineView::Spans(
                    seq![
                        SpanView::Text { text: "  Press "@, style: dim },
                        SpanView::ConfirmBinding,
                        SpanView::Text { text: " to retry"@, style: dim },
                    ],
                )
            }
        }),
{
}

} // verus!
