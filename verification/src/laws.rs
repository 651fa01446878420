//! What holds of the model as a whole: of every event, of two updates in a row, of a whole run.
use vstd::prelude::*;

use crate::event::{all_done, lemma_reduced_lists_steps, outcome, reduced, ReduceOutcome, SetupEvent};
use crate::launch::{command_line, text_args, tunnel_flags, LaunchArgView, TunnelArg};
use crate::progress::{first_with_key, initial, lists_setup_steps, pending_steps, SetupView, StepStatus, StepView};
use crate::render::{display, prompt_lines, remedy_lines, retry_lines, step_line};
use crate::run::{next_action, RunActionView, RunEvent};
use crate::sign_in::{active, applied, completed, failed, update_of, AttemptUpdate, SignInView};
use crate::text::{opt_view, trimmed, trimmed_end, trimmed_start, white_space};

verus! {

// ---- The reducer ----

/// No two steps share a key.
pub open spec fn distinct_keys(steps: Seq<StepView>) -> bool {
    forall|i: int, j: int|
        0 <= i < j < steps.len() ==> (#[trigger] steps[i]).key != (#[trigger] steps[j]).key
}

/// The setup steps have distinct keys.
proof fn lemma_pending_keys_distinct()
    ensures
        distinct_keys(pending_steps()),
{
    reveal_strlit("secrets");
    reveal_strlit("chrome");
    reveal_strlit("tunnel");
    reveal_strlit("stack");
    reveal_strlit("connector");
    reveal_strlit("codex_config");
    assert("chrome"@[0] == 'c' && "tunnel"@[0] == 't');
    assert("secrets"@.len() == 7 && "chrome"@.len() == 6 && "tunnel"@.len() == 6 && "stack"@.len()
        == 5 && "connector"@.len() == 9 && "codex_config"@.len() == 12);
}

/// A new run lists every setup step, and whatever an event says, the list keeps its steps, their
/// order and their labels. No two steps of such a list share a key.
pub proof fn law_step_list_is_fixed(attempt_id: Seq<char>, state: SetupView, event: SetupEvent)
    ensures
        lists_setup_steps(initial(attempt_id)),
        lists_setup_steps(state) ==> lists_setup_steps(reduced(state, event)),
        lists_setup_steps(state) ==> distinct_keys(state.steps),
{
    lemma_pending_keys_distinct();
    if lists_setup_steps(state) {
        let steps = state.steps;
        lemma_reduced_lists_steps(state, event);
        assert forall|i: int, j: int| 0 <= i < j < steps.len() implies (#[trigger] steps[i]).key != (
        #[trigger] steps[j]).key by {
            assert(pending_steps()[i].key != pending_steps()[j].key);
        }
    }
}

/// No event changes which attempt the progress belongs to.
pub proof fn law_reduce_keeps_attempt(state: SetupView, event: SetupEvent)
    ensures
        reduced(state, event).attempt_id == state.attempt_id,
{
}

/// An event that names a step changes that step alone: the first with its key. An event that
/// names no step of the list changes no step.
pub proof fn law_step_events_are_local(state: SetupView, event: SetupEvent, key: Seq<char>)
    requires
        match event {
            SetupEvent::StepStarted { step, .. } => step@ == key,
            SetupEvent::StepDone { step, .. } => step@ == key,
            _ => false,
        },
    ensures
        reduced(state, event).steps.len() == state.steps.len(),
        forall|i: int|
            #![trigger reduced(state, event).steps[i]]
            0 <= i < state.steps.len() && !first_with_key(state.steps, key, i) ==> reduced(
                state,
                event,
            ).steps[i] == state.steps[i],
        forall|i: int|
            #![trigger reduced(state, event).steps[i]]
            first_with_key(state.steps, key, i) ==> reduced(state, event).steps[i].status == if event
                is StepDone {
                StepStatus::Done
            } else {
                StepStatus::Running
            },
        (forall|i: int| 0 <= i < state.steps.len() ==> (#[trigger] state.steps[i]).key != key)
            ==> reduced(state, event).steps == state.steps,
{
    if forall|i: int| 0 <= i < state.steps.len() ==> (#[trigger] state.steps[i]).key != key {
        assert(reduced(state, event).steps =~= state.steps);
    }
}

/// A `done` event leaves every step done, nothing for the user to do and no error; a second one
/// changes nothing.
pub proof fn law_done_completes(state: SetupView, event: SetupEvent, again: SetupEvent)
    requires
        event is Done,
        again is Done,
    ensures
        outcome(event) == ReduceOutcome::Completed,
        reduced(state, event).steps.len() == state.steps.len(),
        forall|i: int|
            0 <= i < state.steps.len() ==> (#[trigger] reduced(state, event).steps[i]).status
                == StepStatus::Done,
        reduced(state, event).needs_user_action is None,
        reduced(state, event).error is None,
        reduced(reduced(state, event), again) == reduced(state, event),
{
    assert(all_done(all_done(state.steps)) =~= all_done(state.steps));
}

/// A run has failed exactly when an `error` event came, and the error it gave is then set; a run
/// has completed exactly when a `done` event came; any other event leaves error and hint alone.
pub proof fn law_outcome_tells_the_event(state: SetupView, event: SetupEvent)
    ensures
        outcome(event) == ReduceOutcome::Failed <==> event is Error,
        outcome(event) == ReduceOutcome::Completed <==> event is Done,
        outcome(event) == ReduceOutcome::Failed ==> {
            &&& reduced(state, event).error == Some(event->message@)
            &&& reduced(state, event).remedy == opt_view(event->remedy)
            &&& reduced(state, event).needs_user_action is None
            &&& reduced(state, event).steps == state.steps
        },
        outcome(event) == ReduceOutcome::Continue ==> {
            &&& reduced(state, event).error == state.error
            &&& reduced(state, event).remedy == state.remedy
        },
{
}

/// A prompt for the user is shown as it came, and resolving it (or finishing a step) takes it
/// away; a run that showed no prompt is then as it was before the prompt came.
pub proof fn law_prompt_is_tracked_then_cleared(
    state: SetupView,
    prompt: SetupEvent,
    resolved: SetupEvent,
    finished: SetupEvent,
)
    requires
        prompt is NeedsUserAction,
        resolved is UserActionResolved,
        finished is StepDone,
    ensures
        reduced(state, prompt).needs_user_action == Some(prompt->instruction@),
        reduced(reduced(state, prompt), resolved) == (SetupView {
            needs_user_action: None,
            ..state
        }),
        state.needs_user_action is None ==> reduced(reduced(state, prompt), resolved) == state,
        reduced(reduced(state, prompt), finished).needs_user_action is None,
{
}

// ---- The attempt guard ----

/// A run whose attempt is not the one shown changes nothing, whatever it reports.
pub proof fn law_stale_attempt_changes_nothing<O>(
    sign_in: SignInView<O>,
    attempt_id: Seq<char>,
    event: SetupEvent,
    message: Seq<char>,
)
    requires
        !active(sign_in, attempt_id),
    ensures
        update_of(sign_in, attempt_id, event) == AttemptUpdate::Stale,
        applied(sign_in, attempt_id, event) == sign_in,
        completed(sign_in, attempt_id) == sign_in,
        failed(sign_in, attempt_id, message) == sign_in,
{
}

/// Once a newer attempt has begun, every earlier one is stale, and the newer one is active with
/// nothing left of what was shown before.
pub proof fn law_new_attempt_supersedes<O>(newer: Seq<char>, earlier: Seq<char>)
    requires
        newer != earlier,
    ensures
        active(SignInView::<O>::Setup(initial(newer)), newer),
        !active(SignInView::<O>::Setup(initial(newer)), earlier),
        initial(newer).error is None,
        initial(newer).needs_user_action is None,
        forall|i: int|
            0 <= i < initial(newer).steps.len() ==> (#[trigger] initial(newer).steps[i]).status
                == StepStatus::Pending,
{
}

/// An active attempt stays active under its own events and errors, and succeeds once: when it has
/// completed it is no longer active.
pub proof fn law_active_until_completed<O>(
    sign_in: SignInView<O>,
    attempt_id: Seq<char>,
    event: SetupEvent,
    message: Seq<char>,
)
    requires
        active(sign_in, attempt_id),
    ensures
        update_of(sign_in, attempt_id, event) == AttemptUpdate::Applied(outcome(event)),
        active(applied(sign_in, attempt_id, event), attempt_id),
        active(failed(sign_in, attempt_id, message), attempt_id),
        completed(sign_in, attempt_id) == SignInView::<O>::Configured,
        !active(completed(sign_in, attempt_id), attempt_id),
{
}

// ---- Whole runs ----

/// One turn of a run: the host performs `action`, and the run decides what follows.
///
/// `reply` is what the host reports of an action that reaches outside; the update that follows
/// `Apply` is that of the attempt guard. `None` means that the run has ended.
pub open spec fn run_turn<O>(
    sign_in: SignInView<O>,
    attempt_id: Seq<char>,
    tunnel: TunnelArg,
    action: RunActionView,
    reply: RunEvent,
) -> (SignInView<O>, Option<RunActionView>) {
    match action {
        RunActionView::Apply(event) => (
            applied(sign_in, attempt_id, event),
            Some(next_action(tunnel, RunEvent::Updated(update_of(sign_in, attempt_id, event)))),
        ),
        RunActionView::Complete => (completed(sign_in, attempt_id), None),
        RunActionView::Fail(message) => (failed(sign_in, attempt_id, message), None),
        RunActionView::Stop => (sign_in, None),
        _ => (sign_in, Some(next_action(tunnel, reply))),
    }
}

/// A run from `action` on, with one reply of the host per turn, until it ends or the replies do.
pub open spec fn run_from<O>(
    sign_in: SignInView<O>,
    attempt_id: Seq<char>,
    tunnel: TunnelArg,
    action: Option<RunActionView>,
    replies: Seq<RunEvent>,
) -> (SignInView<O>, Option<RunActionView>)
    decreases replies.len(),
{
    match action {
        Some(todo) if replies.len() > 0 => {
            let (after, next) = run_turn(sign_in, attempt_id, tunnel, todo, replies[0]);
            run_from(after, attempt_id, tunnel, next, replies.drop_first())
        },
        _ => (sign_in, action),
    }
}

/// A reply that the host makes up itself, unlike the attempt guard's update.
pub open spec fn from_outside(reply: RunEvent) -> bool {
    !(reply is Updated)
}

/// Whatever other runs have done to the sign-in state in between, a turn of a run changes it only
/// while it shows the run's own attempt, and then leaves that attempt or success on show. A run that
/// finds itself superseded when it has an event to apply stops.
pub proof fn law_turn_touches_only_its_attempt<O>(
    sign_in: SignInView<O>,
    attempt_id: Seq<char>,
    tunnel: TunnelArg,
    action: RunActionView,
    reply: RunEvent,
)
    ensures
        ({
            let (after, next) = run_turn(sign_in, attempt_id, tunnel, action, reply);
            if active(sign_in, attempt_id) {
                active(after, attempt_id) || after == SignInView::<O>::Configured
            } else {
                after == sign_in && (action is Apply ==> next == Some(RunActionView::Stop))
            }
        }),
{
}

/// A stale run leaves the sign-in state alone however long it goes on: a newer attempt, a finished
/// setup and every other state of the sign-in flow are safe from it.
pub proof fn law_stale_run_changes_nothing<O>(
    sign_in: SignInView<O>,
    attempt_id: Seq<char>,
    tunnel: TunnelArg,
    action: Option<RunActionView>,
    replies: Seq<RunEvent>,
)
    requires
        !active(sign_in, attempt_id),
    ensures
        run_from(sign_in, attempt_id, tunnel, action, replies).0 == sign_in,
    decreases replies.len(),
{
    if action is Some && replies.len() > 0 {
        let (after, next) = run_turn(sign_in, attempt_id, tunnel, action->0, replies[0]);
        assert(after == sign_in);
        law_stale_run_changes_nothing(after, attempt_id, tunnel, next, replies.drop_first());
    }
}

/// A setup run, if one is shown, lists the setup steps.
pub open spec fn shows_setup_steps<O>(sign_in: SignInView<O>) -> bool {
    sign_in matches SignInView::Setup(state) ==> lists_setup_steps(state)
}

/// However a run goes, the list that it shows keeps its steps, their order and their labels.
pub proof fn law_run_keeps_step_list<O>(
    sign_in: SignInView<O>,
    attempt_id: Seq<char>,
    tunnel: TunnelArg,
    action: Option<RunActionView>,
    replies: Seq<RunEvent>,
)
    requires
        shows_setup_steps(sign_in),
    ensures
        shows_setup_steps(run_from(sign_in, attempt_id, tunnel, action, replies).0),
    decreases replies.len(),
{
    if action is Some && replies.len() > 0 {
        let (after, next) = run_turn(sign_in, attempt_id, tunnel, action->0, replies[0]);
        if let RunActionView::Apply(event) = action->0 {
            if let SignInView::Setup(state) = sign_in {
                lemma_reduced_lists_steps(state, event);
            }
        }
        law_run_keeps_step_list(after, attempt_id, tunnel, next, replies.drop_first());
    }
}

/// The run shows success, or its attempt with an error that can be retried.
pub open spec fn configured_or_failed<O>(sign_in: SignInView<O>, attempt_id: Seq<char>) -> bool {
    match sign_in {
        SignInView::Configured => true,
        SignInView::Setup(state) => state.attempt_id == attempt_id && state.error is Some,
        SignInView::Other(_) => false,
    }
}

/// What holds of an undisturbed run between two turns.
spec fn run_invariant<O>(
    sign_in: SignInView<O>,
    attempt_id: Seq<char>,
    action: Option<RunActionView>,
) -> bool {
    match action {
        Some(todo) => active(sign_in, attempt_id) && (todo is Stop ==> configured_or_failed(
            sign_in,
            attempt_id,
        )),
        None => configured_or_failed(sign_in, attempt_id),
    }
}

/// An undisturbed run keeps its invariant.
proof fn lemma_run_invariant<O>(
    sign_in: SignInView<O>,
    attempt_id: Seq<char>,
    tunnel: TunnelArg,
    action: Option<RunActionView>,
    replies: Seq<RunEvent>,
)
    requires
        run_invariant(sign_in, attempt_id, action),
        forall|i: int| 0 <= i < replies.len() ==> from_outside(#[trigger] replies[i]),
    ensures
        run_invariant(
            run_from(sign_in, attempt_id, tunnel, action, replies).0,
            attempt_id,
            run_from(sign_in, attempt_id, tunnel, action, replies).1,
        ),
    decreases replies.len(),
{
    if action is Some && replies.len() > 0 {
        let (after, next) = run_turn(sign_in, attempt_id, tunnel, action->0, replies[0]);
        assert(from_outside(replies[0]));
        assert(run_invariant(after, attempt_id, next));
        lemma_run_invariant(after, attempt_id, tunnel, next, replies.drop_first());
    }
}

/// A run that no other attempt disturbs never ends silently: when it has ended, setup is
/// configured or the attempt shows an error; until then the attempt is the one shown.
pub proof fn law_run_ends_configured_or_failed<O>(
    sign_in: SignInView<O>,
    attempt_id: Seq<char>,
    tunnel: TunnelArg,
    found: bool,
    replies: Seq<RunEvent>,
)
    requires
        active(sign_in, attempt_id),
        forall|i: int| 0 <= i < replies.len() ==> from_outside(#[trigger] replies[i]),
    ensures
        ({
            let first = next_action(tunnel, RunEvent::Located { found });
            let (after, next) = run_from(sign_in, attempt_id, tunnel, Some(first), replies);
            if next is Some {
                active(after, attempt_id)
            } else {
                configured_or_failed(after, attempt_id)
            }
        }),
{
    let first = next_action(tunnel, RunEvent::Located { found });
    lemma_run_invariant(sign_in, attempt_id, tunnel, Some(first), replies);
}

/// A run completes its attempt only right after a `done` event was applied for it.
pub proof fn law_complete_only_after_done(tunnel: TunnelArg, report: RunEvent)
    ensures
        next_action(tunnel, report) is Complete <==> report == RunEvent::Updated(
            AttemptUpdate::Applied(ReduceOutcome::Completed),
        ),
{
}

/// A line of output, and the event that its text is, if it is one.
pub struct OutputLine {
    pub line: String,
    pub event: Option<SetupEvent>,
}

/// The event that a line carries: none for a blank line, whatever the parser would say.
pub open spec fn event_of(output: OutputLine) -> Option<SetupEvent> {
    if trimmed(output.line@).len() == 0 {
        None
    } else {
        output.event
    }
}

/// What the host reports while the run deals with one line; the last reply, to `Apply`, is not
/// looked at.
pub open spec fn line_replies(output: OutputLine) -> Seq<RunEvent> {
    if trimmed(output.line@).len() == 0 {
        seq![RunEvent::Line(output.line)]
    } else if output.event is None {
        seq![RunEvent::Line(output.line), RunEvent::Parsed(None)]
    } else {
        seq![RunEvent::Line(output.line), RunEvent::Parsed(output.event), RunEvent::EndOfOutput]
    }
}

/// What the host reports while the run deals with these lines.
pub open spec fn stream_replies(lines: Seq<OutputLine>) -> Seq<RunEvent>
    decreases lines.len(),
{
    if lines.len() == 0 {
        Seq::empty()
    } else {
        line_replies(lines[0]) + stream_replies(lines.drop_first())
    }
}

/// The progress after the events of these lines, one after another.
pub open spec fn folded(state: SetupView, lines: Seq<OutputLine>) -> SetupView
    decreases lines.len(),
{
    if lines.len() == 0 {
        state
    } else {
        let after = match event_of(lines[0]) {
            Some(event) => reduced(state, event),
            None => state,
        };
        folded(after, lines.drop_first())
    }
}

/// No line ends the run.
pub open spec fn no_terminal_event(lines: Seq<OutputLine>) -> bool {
    forall|i: int|
        0 <= i < lines.len() ==> match event_of(#[trigger] lines[i]) {
            Some(event) => outcome(event) == ReduceOutcome::Continue,
            None => true,
        }
}

/// A run over two stretches of replies is a run over the first, continued over the second.
proof fn lemma_run_splits<O>(
    sign_in: SignInView<O>,
    attempt_id: Seq<char>,
    tunnel: TunnelArg,
    action: Option<RunActionView>,
    head: Seq<RunEvent>,
    tail: Seq<RunEvent>,
)
    ensures
        run_from(sign_in, attempt_id, tunnel, action, head + tail) == ({
            let (after, next) = run_from(sign_in, attempt_id, tunnel, action, head);
            run_from(after, attempt_id, tunnel, next, tail)
        }),
    decreases head.len(),
{
    if head.len() == 0 {
        assert(head + tail =~= tail);
    } else if action is Some {
        let (after, next) = run_turn(sign_in, attempt_id, tunnel, action->0, head[0]);
        assert((head + tail).drop_first() =~= head.drop_first() + tail);
        lemma_run_splits(after, attempt_id, tunnel, next, head.drop_first(), tail);
    }
}

/// A run deals with a line that does not end it.
proof fn lemma_run_line<O>(
    state: SetupView,
    attempt_id: Seq<char>,
    tunnel: TunnelArg,
    output: OutputLine,
)
    requires
        state.attempt_id == attempt_id,
        event_of(output) matches Some(event) ==> outcome(event) == ReduceOutcome::Continue,
    ensures
        run_from(
            SignInView::<O>::Setup(state),
            attempt_id,
            tunnel,
            Some(RunActionView::ReadLine),
            line_replies(output),
        ) == (
            SignInView::<O>::Setup(
                match event_of(output) {
                    Some(event) => reduced(state, event),
                    None => state,
                },
            ),
            Some(RunActionView::ReadLine),
        ),
{
    reveal_with_fuel(run_from, 4);
    let replies = line_replies(output);
    assert(replies.drop_first().len() == replies.len() - 1);
    assert(replies.drop_first().drop_first().len() == replies.len() - 2 || replies.len() < 2);
}

/// While no terminal event comes, the progress that an undisturbed run shows is that of its events
/// applied one after another: blank lines and lines that are no event leave no trace, and the run
/// goes on reading.
pub proof fn law_stream_is_folded<O>(
    state: SetupView,
    attempt_id: Seq<char>,
    tunnel: TunnelArg,
    lines: Seq<OutputLine>,
)
    requires
        state.attempt_id == attempt_id,
        no_terminal_event(lines),
    ensures
        run_from(
            SignInView::<O>::Setup(state),
            attempt_id,
            tunnel,
            Some(RunActionView::ReadLine),
            stream_replies(lines),
        ) == (SignInView::<O>::Setup(folded(state, lines)), Some(RunActionView::ReadLine)),
        folded(state, lines).attempt_id == attempt_id,
    decreases lines.len(),
{
    if lines.len() > 0 {
        let after = match event_of(lines[0]) {
            Some(event) => reduced(state, event),
            None => state,
        };
        assert(no_terminal_event(lines.drop_first())) by {
            assert forall|i: int| 0 <= i < lines.drop_first().len() implies match event_of(
                #[trigger] lines.drop_first()[i],
            ) {
                Some(event) => outcome(event) == ReduceOutcome::Continue,
                None => true,
            } by {
                assert(lines.drop_first()[i] == lines[i + 1]);
            }
        }
        lemma_run_line::<O>(state, attempt_id, tunnel, lines[0]);
        lemma_run_splits(
            SignInView::<O>::Setup(state),
            attempt_id,
            tunnel,
            Some(RunActionView::ReadLine),
            line_replies(lines[0]),
            stream_replies(lines.drop_first()),
        );
        law_stream_is_folded::<O>(after, attempt_id, tunnel, lines.drop_first());
    }
}

/// An undisturbed run that reads a `done` event ends with setup configured, and one that reads an
/// `error` event ends with that error and hint shown; what follows in the stream is not read.
pub proof fn law_terminal_event_ends_run<O>(
    state: SetupView,
    attempt_id: Seq<char>,
    tunnel: TunnelArg,
    event: SetupEvent,
    rest: Seq<RunEvent>,
)
    requires
        state.attempt_id == attempt_id,
        outcome(event) != ReduceOutcome::Continue,
        rest.len() >= 2,
    ensures
        run_from(
            SignInView::<O>::Setup(state),
            attempt_id,
            tunnel,
            Some(RunActionView::Apply(event)),
            rest,
        ) == (
            if event is Done {
                SignInView::<O>::Configured
            } else {
                SignInView::<O>::Setup(reduced(state, event))
            },
            None::<RunActionView>,
        ),
{
    reveal_with_fuel(run_from, 3);
    assert(rest.drop_first().len() == rest.len() - 1);
}

/// How the output of the engine comes to an end.
pub enum StreamEnd {
    /// The output ends, and the process is seen to end.
    Exited { success: bool, status: String },
    /// The output ends, and the end of the process cannot be awaited.
    WaitFailed { err: String },
    /// The output cannot be read any further.
    ReadFailed { err: String },
}

/// What the host reports at the end of the output.
pub open spec fn end_replies(end: StreamEnd) -> Seq<RunEvent> {
    match end {
        StreamEnd::Exited { success, status } => seq![
            RunEvent::EndOfOutput,
            RunEvent::Exited { success, status },
        ],
        StreamEnd::WaitFailed { err } => seq![
            RunEvent::EndOfOutput,
            RunEvent::WaitFailed { err },
        ],
        StreamEnd::ReadFailed { err } => seq![RunEvent::ReadFailed { err }],
    }
}

/// The error that tells how the output ended.
pub open spec fn end_message(end: StreamEnd) -> Seq<char> {
    match end {
        StreamEnd::Exited { success: true, .. } => "cyrus exited before completing setup"@,
        StreamEnd::Exited { success: false, status } => "cyrus exited with "@ + status@,
        StreamEnd::WaitFailed { err } => "Failed to wait for cyrus: "@ + err@,
        StreamEnd::ReadFailed { err } => "Error reading cyrus output: "@ + err@,
    }
}

/// An undisturbed run whose stream ends without a terminal event, or cannot be read to its end,
/// ends with an error that tells which, with no hint and nothing for the user to do.
pub proof fn law_truncated_stream_is_an_error<O>(
    state: SetupView,
    attempt_id: Seq<char>,
    tunnel: TunnelArg,
    end: StreamEnd,
    rest: Seq<RunEvent>,
)
    requires
        state.attempt_id == attempt_id,
        rest.len() >= 1,
    ensures
        run_from(
            SignInView::<O>::Setup(state),
            attempt_id,
            tunnel,
            Some(RunActionView::ReadLine),
            end_replies(end) + rest,
        ) == (
            SignInView::<O>::Setup(
                SetupView {
                    needs_user_action: None,
                    error: Some(end_message(end)),
                    remedy: None,
                    ..state
                },
            ),
            None::<RunActionView>,
        ),
{
    reveal_with_fuel(run_from, 4);
    let replies = end_replies(end) + rest;
    assert(replies[0] == end_replies(end)[0]);
    if end is ReadFailed {
        assert(replies.drop_first() =~= rest);
    } else {
        assert(replies.drop_first()[0] == end_replies(end)[1]);
        assert(replies.drop_first().drop_first() =~= rest);
    }
}

/// The line carries a `done` event.
pub open spec fn carries_done(output: OutputLine) -> bool {
    event_of(output) matches Some(event) && event is Done
}

/// The line carries an `error` event.
pub open spec fn carries_error(output: OutputLine) -> bool {
    event_of(output) matches Some(event) && event is Error
}

/// Some line carries a `done` event that no line with an `error` event precedes.
pub open spec fn done_comes_first(lines: Seq<OutputLine>) -> bool {
    exists|i: int|
        0 <= i < lines.len() && carries_done(#[trigger] lines[i]) && forall|j: int|
            0 <= j < i ==> !carries_error(#[trigger] lines[j])
}

/// Some line carries a terminal event.
pub open spec fn has_terminal_event(lines: Seq<OutputLine>) -> bool {
    exists|i: int|
        0 <= i < lines.len() && (carries_done(#[trigger] lines[i]) || carries_error(lines[i]))
}

/// What an undisturbed run leaves on show: the first terminal event decides, or else the end of
/// the output.
pub open spec fn stream_result<O>(
    state: SetupView,
    lines: Seq<OutputLine>,
    end: StreamEnd,
) -> SignInView<O>
    decreases lines.len(),
{
    if lines.len() == 0 {
        SignInView::Setup(
            SetupView {
                needs_user_action: None,
                error: Some(end_message(end)),
                remedy: None,
                ..state
            },
        )
    } else {
        match event_of(lines[0]) {
            Some(event) => match outcome(event) {
                ReduceOutcome::Completed => SignInView::Configured,
                ReduceOutcome::Failed => SignInView::Setup(reduced(state, event)),
                ReduceOutcome::Continue => stream_result(
                    reduced(state, event),
                    lines.drop_first(),
                    end,
                ),
            },
            None => stream_result(state, lines.drop_first(), end),
        }
    }
}

/// A run deals with a line that ends it; one more reply lets it perform its last action.
proof fn lemma_run_terminal_line<O>(
    state: SetupView,
    attempt_id: Seq<char>,
    tunnel: TunnelArg,
    output: OutputLine,
    rest: Seq<RunEvent>,
)
    requires
        state.attempt_id == attempt_id,
        event_of(output) matches Some(event) && outcome(event) != ReduceOutcome::Continue,
        rest.len() >= 1,
    ensures
        run_from(
            SignInView::<O>::Setup(state),
            attempt_id,
            tunnel,
            Some(RunActionView::ReadLine),
            line_replies(output) + rest,
        ) == (
            if carries_done(output) {
                SignInView::<O>::Configured
            } else {
                SignInView::<O>::Setup(reduced(state, event_of(output)->0))
            },
            None::<RunActionView>,
        ),
{
    let event = event_of(output)->0;
    let replies = line_replies(output) + rest;
    let after_parse = seq![RunEvent::EndOfOutput] + rest;
    assert(replies[0] == RunEvent::Line(output.line));
    assert(replies.drop_first()[0] == RunEvent::Parsed(output.event));
    assert(replies.drop_first().drop_first() =~= after_parse);
    law_terminal_event_ends_run::<O>(state, attempt_id, tunnel, event, after_parse);
    reveal_with_fuel(run_from, 3);
}

/// A run over a whole stream shows what the stream decides.
proof fn lemma_run_stream<O>(
    state: SetupView,
    attempt_id: Seq<char>,
    tunnel: TunnelArg,
    lines: Seq<OutputLine>,
    end: StreamEnd,
    rest: Seq<RunEvent>,
)
    requires
        state.attempt_id == attempt_id,
        rest.len() >= 1,
    ensures
        run_from(
            SignInView::<O>::Setup(state),
            attempt_id,
            tunnel,
            Some(RunActionView::ReadLine),
            stream_replies(lines) + end_replies(end) + rest,
        ) == (stream_result::<O>(state, lines, end), None::<RunActionView>),
    decreases lines.len(),
{
    let shown = SignInView::<O>::Setup(state);
    let reading = Some(RunActionView::ReadLine);
    let replies = stream_replies(lines) + end_replies(end) + rest;
    if lines.len() == 0 {
        assert(replies =~= end_replies(end) + rest);
        law_truncated_stream_is_an_error::<O>(state, attempt_id, tunnel, end, rest);
    } else {
        let later = stream_replies(lines.drop_first()) + end_replies(end) + rest;
        assert(replies =~= line_replies(lines[0]) + later);
        match event_of(lines[0]) {
            Some(event) if outcome(event) != ReduceOutcome::Continue => {
                lemma_run_terminal_line::<O>(state, attempt_id, tunnel, lines[0], later);
            },
            _ => {
                let after = match event_of(lines[0]) {
                    Some(event) => reduced(state, event),
                    None => state,
                };
                lemma_run_line::<O>(state, attempt_id, tunnel, lines[0]);
                lemma_run_splits(
                    shown,
                    attempt_id,
                    tunnel,
                    reading,
                    line_replies(lines[0]),
                    later,
                );
                lemma_run_stream::<O>(after, attempt_id, tunnel, lines.drop_first(), end, rest);
            },
        }
    }
}

/// What the stream decides, told by the order of its terminal events.
proof fn lemma_stream_result<O>(state: SetupView, lines: Seq<OutputLine>, end: StreamEnd)
    ensures
        stream_result::<O>(state, lines, end) == SignInView::<O>::Configured <==> done_comes_first(
            lines,
        ),
        !done_comes_first(lines) ==> {
            &&& stream_result::<O>(state, lines, end) matches SignInView::Setup(after)
            &&& after.attempt_id == state.attempt_id
            &&& after.error is Some
        },
    decreases lines.len(),
{
    if lines.len() > 0 {
        let tail = lines.drop_first();
        let after = match event_of(lines[0]) {
            Some(event) => reduced(state, event),
            None => state,
        };
        lemma_stream_result::<O>(after, tail, end);
        if carries_done(lines[0]) {
            assert(done_comes_first(lines));
        } else if carries_error(lines[0]) {
            assert(!done_comes_first(lines));
        } else {
            assert(forall|i: int| 0 <= i < tail.len() ==> #[trigger] tail[i] == lines[i + 1]);
            if done_comes_first(tail) {
                let i = choose|i: int|
                    0 <= i < tail.len() && carries_done(#[trigger] tail[i]) && forall|j: int|
                        0 <= j < i ==> !carries_error(#[trigger] tail[j]);
                assert forall|j: int| 0 <= j < i + 1 implies !carries_error(#[trigger] lines[j]) by {
                    if j > 0 {
                        assert(tail[j - 1] == lines[j]);
                    }
                }
                assert(carries_done(lines[i + 1]));
            }
            if done_comes_first(lines) {
                let i = choose|i: int|
                    0 <= i < lines.len() && carries_done(#[trigger] lines[i]) && forall|j: int|
                        0 <= j < i ==> !carries_error(#[trigger] lines[j]);
                assert(carries_done(tail[i - 1]));
                assert forall|j: int| 0 <= j < i - 1 implies !carries_error(#[trigger] tail[j]) by {
                    assert(tail[j] == lines[j + 1]);
                }
            }
        }
    }
}

/// After a terminal event the stream has decided.
proof fn lemma_terminal_event_decides<O>(
    state: SetupView,
    head: Seq<OutputLine>,
    tail: Seq<OutputLine>,
    end: StreamEnd,
    other_end: StreamEnd,
)
    requires
        has_terminal_event(head),
    ensures
        stream_result::<O>(state, head + tail, end) == stream_result::<O>(state, head, other_end),
    decreases head.len(),
{
    let lines = head + tail;
    assert(lines[0] == head[0]);
    assert(lines.drop_first() =~= head.drop_first() + tail);
    if !carries_done(head[0]) && !carries_error(head[0]) {
        let i = choose|i: int|
            0 <= i < head.len() && (carries_done(#[trigger] head[i]) || carries_error(head[i]));
        assert(head.drop_first()[i - 1] == head[i]);
        let after = match event_of(head[0]) {
            Some(event) => reduced(state, event),
            None => state,
        };
        lemma_terminal_event_decides::<O>(after, head.drop_first(), tail, end, other_end);
    }
}

/// An undisturbed run over any output, however the output ends, comes to an end itself. It ends
/// with setup configured exactly when some line carries a `done` event that no line with an
/// `error` event precedes; otherwise its attempt shows an error that can be retried.
pub proof fn law_first_terminal_event_decides<O>(
    state: SetupView,
    attempt_id: Seq<char>,
    tunnel: TunnelArg,
    lines: Seq<OutputLine>,
    end: StreamEnd,
    rest: Seq<RunEvent>,
)
    requires
        state.attempt_id == attempt_id,
        rest.len() >= 1,
    ensures
        ({
            let (after, next) = run_from(
                SignInView::<O>::Setup(state),
                attempt_id,
                tunnel,
                Some(RunActionView::ReadLine),
                stream_replies(lines) + end_replies(end) + rest,
            );
            &&& next is None
            &&& after == stream_result::<O>(state, lines, end)
            &&& after == SignInView::<O>::Configured <==> done_comes_first(lines)
            &&& !done_comes_first(lines) ==> {
                &&& after matches SignInView::Setup(failed_state)
                &&& failed_state.attempt_id == attempt_id
                &&& failed_state.error is Some
            }
        }),
{
    lemma_run_stream::<O>(state, attempt_id, tunnel, lines, end, rest);
    lemma_stream_result::<O>(state, lines, end);
}

/// What follows the first terminal event makes no difference to an undisturbed run: neither the
/// lines after it nor how the output ends.
pub proof fn law_nothing_counts_after_a_terminal_event<O>(
    state: SetupView,
    attempt_id: Seq<char>,
    tunnel: TunnelArg,
    head: Seq<OutputLine>,
    tail: Seq<OutputLine>,
    end: StreamEnd,
    rest: Seq<RunEvent>,
    other_tail: Seq<OutputLine>,
    other_end: StreamEnd,
    other_rest: Seq<RunEvent>,
)
    requires
        state.attempt_id == attempt_id,
        has_terminal_event(head),
        rest.len() >= 1,
        other_rest.len() >= 1,
    ensures
        run_from(
            SignInView::<O>::Setup(state),
            attempt_id,
            tunnel,
            Some(RunActionView::ReadLine),
            stream_replies(head + tail) + end_replies(end) + rest,
        ) == run_from(
            SignInView::<O>::Setup(state),
            attempt_id,
            tunnel,
            Some(RunActionView::ReadLine),
            stream_replies(head + other_tail) + end_replies(other_end) + other_rest,
        ),
{
    lemma_run_stream::<O>(state, attempt_id, tunnel, head + tail, end, rest);
    lemma_run_stream::<O>(state, attempt_id, tunnel, head + other_tail, other_end, other_rest);
    lemma_terminal_event_decides::<O>(state, head, tail, end, end);
    lemma_terminal_event_decides::<O>(state, head, other_tail, other_end, end);
}

// ---- The command line ----

/// The command line tells tunnel selections apart, and the tunnel flags come last.
pub proof fn law_tunnel_flags_tell_selections_apart(a: TunnelArg, b: TunnelArg)
    requires
        command_line(a) == command_line(b),
    ensures
        match (a, b) {
            (TunnelArg::Quick, TunnelArg::Quick) => true,
            (TunnelArg::Named, TunnelArg::Named) => true,
            (TunnelArg::Ngrok(x), TunnelArg::Ngrok(y)) => x@ == y@,
            _ => false,
        },
        command_line(a).skip(4) == text_args(tunnel_flags(a)),
{
    reveal_strlit("quick");
    reveal_strlit("named");
    assert("quick"@[0] == 'q' && "named"@[0] == 'n');
    assert(command_line(a).skip(4) =~= text_args(tunnel_flags(a)));
    assert(command_line(b).skip(4) =~= text_args(tunnel_flags(b)));
    assert(text_args(tunnel_flags(a)).len() == tunnel_flags(a).len());
    assert(text_args(tunnel_flags(b)).len() == tunnel_flags(b).len());
    assert(text_args(tunnel_flags(a))[1] == LaunchArgView::Text(tunnel_flags(a)[1]));
    assert(text_args(tunnel_flags(b))[1] == LaunchArgView::Text(tunnel_flags(b)[1]));
    if a is Ngrok && b is Ngrok {
        assert(text_args(tunnel_flags(a))[3] == LaunchArgView::Text(tunnel_flags(a)[3]));
        assert(text_args(tunnel_flags(b))[3] == LaunchArgView::Text(tunnel_flags(b)[3]));
    }
}

// ---- Trimming ----

/// Trimming takes a stretch of white space off each end and nothing else: what is left is empty or
/// starts and ends with a character that is not white space.
pub proof fn law_trimming_is_exact(text: Seq<char>)
    ensures
        exists|start: int, end: int|
            0 <= start <= end <= text.len() && trimmed(text) == #[trigger] text.subrange(start, end)
                && (forall|i: int|
                0 <= i < start || end <= i < text.len() ==> white_space(#[trigger] text[i])),
        trimmed(text).len() > 0 ==> !white_space(trimmed(text)[0]) && !white_space(
            trimmed(text).last(),
        ),
{
    let end = lemma_trimmed_end(text);
    let kept = text.take(end);
    let start = lemma_trimmed_start(kept);
    assert(trimmed(text) =~= text.subrange(start, end));
    assert forall|i: int| 0 <= i < start || end <= i < text.len() implies white_space(
        #[trigger] text[i],
    ) by {
        if i < start {
            assert(kept[i] == text[i]);
        }
    }
}

/// Where the white space at the end starts.
proof fn lemma_trimmed_end(text: Seq<char>) -> (end: int)
    ensures
        0 <= end <= text.len(),
        trimmed_end(text) == text.take(end),
        forall|i: int| end <= i < text.len() ==> white_space(#[trigger] text[i]),
        end > 0 ==> !white_space(text[end - 1]),
    decreases text.len(),
{
    if text.len() > 0 && white_space(text.last()) {
        let end = lemma_trimmed_end(text.drop_last());
        assert(text.drop_last().take(end) =~= text.take(end));
        assert forall|i: int| end <= i < text.len() implies white_space(#[trigger] text[i]) by {
            if i < text.len() - 1 {
                assert(text.drop_last()[i] == text[i]);
            }
        }
        end
    } else {
        assert(text.take(text.len() as int) =~= text);
        text.len() as int
    }
}

/// Where the white space at the start ends.
proof fn lemma_trimmed_start(text: Seq<char>) -> (start: int)
    ensures
        0 <= start <= text.len(),
        trimmed_start(text) == text.skip(start),
        forall|i: int| 0 <= i < start ==> white_space(#[trigger] text[i]),
        start < text.len() ==> !white_space(text[start]),
    decreases text.len(),
{
    if text.len() > 0 && white_space(text[0]) {
        let rest = text.drop_first();
        let start = lemma_trimmed_start(rest);
        assert(rest.skip(start) =~= text.skip(start + 1));
        assert forall|i: int| 0 <= i < start + 1 implies white_space(#[trigger] text[i]) by {
            if i > 0 {
                assert(rest[i - 1] == text[i]);
            }
        }
        start + 1
    } else {
        assert(text.skip(0) =~= text);
        0
    }
}

// ---- The display ----

/// Every step has its line, in order, under the heading; the prompt follows if there is one. The
/// offer to retry ends the display exactly when the run has failed, and the hint stands above it
/// when there is one that is not empty. There are no other lines.
pub proof fn law_display_follows_state(state: SetupView)
    ensures
        display(state).len() == 2 + state.steps.len() + (if state.needs_user_action is Some {
            2int
        } else {
            0
        }) + (if state.error is Some {
            4int + (if state.remedy is Some && state.remedy->0.len() > 0 {
                2int
            } else {
                0
            })
        } else {
            0
        }),
        forall|i: int|
            #![trigger state.steps[i]]
            0 <= i < state.steps.len() ==> display(state)[2 + i] == step_line(state.steps[i]),
        state.error is Some <==> display(state).contains(retry_lines()[1]),
        state.error is Some ==> display(state).last() == retry_lines()[1],
        state.error is Some && state.remedy is Some && state.remedy->0.len() > 0 ==> display(
            state,
        )[display(state).len() - 3] == remedy_lines(state.remedy)[1],
        state.needs_user_action is Some ==> display(state)[3 + state.steps.len() as int]
            == prompt_lines(state.needs_user_action)[1],
{
    if state.error is Some {
        assert(display(state)[display(state).len() - 1] == retry_lines()[1]);
    }
}

} // verus!
