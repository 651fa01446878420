//! The sign-in state that setup runs share, and the guard that keeps a stale run from it.
//!
//! Several runs may be alive at once when the user retries. Each carries the identifier of its
//! attempt, and every update compares it with the attempt that the sign-in state shows.
use vstd::prelude::*;

use crate::event::{outcome, reduce, reduced, ReduceOutcome, SetupEvent};
use crate::progress::{initial, HannahMontanaSetupState, SetupView};

verus! {

/// The sign-in screen, as far as setup runs know it.
///
/// `O` is whatever the host keeps for the states that setup runs neither enter nor read.
#[derive(Debug, Clone)]
pub enum SignInState<O> {
    /// A setup run is in flight or has failed.
    HannahMontanaSetup(HannahMontanaSetupState),
    /// A setup run has succeeded; the onboarding step is complete.
    HannahMontanaConfigured,
    /// Any other state of the sign-in flow.
    Other(O),
}

/// What a [`SignInState`] holds.
pub enum SignInView<O> {
    Setup(SetupView),
    Configured,
    Other(O),
}

impl<O> View for SignInState<O> {
    type V = SignInView<O>;

    open spec fn view(&self) -> SignInView<O> {
        match *self {
            SignInState::HannahMontanaSetup(state) => SignInView::Setup(state@),
            SignInState::HannahMontanaConfigured => SignInView::Configured,
            SignInState::Other(other) => SignInView::Other(other),
        }
    }
}

/// What became of an event that a run handed in.
#[derive(Debug, Clone, Copy, PartialEq, Eq, Structural)]
pub enum AttemptUpdate {
    /// The event was applied; a frame is due.
    Applied(ReduceOutcome),
    /// The attempt is no longer active; a newer run superseded it.
    Stale,
}

/// The sign-in state shows the given attempt.
pub open spec fn active<O>(sign_in: SignInView<O>, attempt_id: Seq<char>) -> bool {
    sign_in matches SignInView::Setup(state) && state.attempt_id == attempt_id
}

/// The sign-in state after an event of the given attempt.
pub open spec fn applied<O>(
    sign_in: SignInView<O>,
    attempt_id: Seq<char>,
    event: SetupEvent,
) -> SignInView<O> {
    match sign_in {
        SignInView::Setup(state) if state.attempt_id == attempt_id => SignInView::Setup(
            reduced(state, event),
        ),
        _ => sign_in,
    }
}

/// What an event of the given attempt leads to.
pub open spec fn update_of<O>(
    sign_in: SignInView<O>,
    attempt_id: Seq<char>,
    event: SetupEvent,
) -> AttemptUpdate {
    if active(sign_in, attempt_id) {
        AttemptUpdate::Applied(outcome(event))
    } else {
        AttemptUpdate::Stale
    }
}

/// The sign-in state after the given attempt has succeeded.
pub open spec fn completed<O>(sign_in: SignInView<O>, attempt_id: Seq<char>) -> SignInView<O> {
    if active(sign_in, attempt_id) {
        SignInView::Configured
    } else {
        sign_in
    }
}

/// The sign-in state after the given attempt has failed outside the engine.
pub open spec fn failed<O>(
    sign_in: SignInView<O>,
    attempt_id: Seq<char>,
    message: Seq<char>,
) -> SignInView<O> {
    match sign_in {
        SignInView::Setup(state) if state.attempt_id == attempt_id => SignInView::Setup(
            SetupView { needs_user_action: None, error: Some(message), remedy: None, ..state },
        ),
        _ => sign_in,
    }
}

/// A lower-case hexadecimal digit.
pub open spec fn hex_digit(c: char) -> bool {
    '0' <= c <= '9' || 'a' <= c <= 'f'
}

/// The hyphenated lower-case text of a random (version 4) UUID.
pub open spec fn random_uuid_text(text: Seq<char>) -> bool {
    &&& text.len() == 36
    &&& forall|i: int|
        0 <= i < 36 ==> if i == 8 || i == 13 || i == 18 || i == 23 {
            #[trigger] text[i] == '-'
        } else {
            hex_digit(text[i])
        }
    &&& text[14] == '4'
    &&& text[19] == '8' || text[19] == '9' || text[19] == 'a' || text[19] == 'b'
}

/// Draws the identifier of a new attempt: `uuid::Uuid::new_v4`, as text.
///
/// Trusted: the text is the hyphenated lower-case form, with the version digit `4` and a variant
/// digit of `8`, `9`, `a` or `b`. That two draws differ is a matter of chance and is not claimed.
/// `new_v4` panics where the operating system yields no random bytes.
#[verifier::external_body]
fn new_attempt_id() -> (attempt_id: String)
    ensures
        random_uuid_text(attempt_id@),
{
    uuid::Uuid::new_v4().to_string()
}

/// Shows a fresh run under the given attempt identifier, whatever was shown before.
pub fn begin_attempt<O>(sign_in: &mut SignInState<O>, attempt_id: String)
    ensures
        final(sign_in)@ == SignInView::<O>::Setup(initial(attempt_id@)),
{
    *sign_in = SignInState::HannahMontanaSetup(HannahMontanaSetupState::new(attempt_id));
}

/// Begins (or restarts) a setup run: installs the initial progress under a new attempt identifier
/// and returns that identifier. A frame is due, and the run is the caller's to start.
pub fn start_hannah_montana_setup<O>(sign_in: &mut SignInState<O>) -> (attempt_id: String)
    ensures
        random_uuid_text(attempt_id@),
        final(sign_in)@ == SignInView::<O>::Setup(initial(attempt_id@)),
{
    let attempt_id: String = new_attempt_id();
    begin_attempt(sign_in, attempt_id.clone());
    attempt_id
}

/// Tells whether the sign-in state shows the given attempt.
pub fn attempt_matches<O>(state: &SignInState<O>, attempt_id: &str) -> (yes: bool)
    ensures
        yes == active(state@, attempt_id@),
{
    match state {
        SignInState::HannahMontanaSetup(state) => state.attempt_id == attempt_id.to_string(),
        _ => false,
    }
}

/// Applies an event if its attempt is still the one shown. A frame is due exactly when the event
/// was applied.
pub fn apply_event_for_active_attempt<O>(
    sign_in: &mut SignInState<O>,
    attempt_id: &str,
    event: SetupEvent,
) -> (update: AttemptUpdate)
    ensures
        update == update_of(old(sign_in)@, attempt_id@, event),
        final(sign_in)@ == applied(old(sign_in)@, attempt_id@, event),
        update == AttemptUpdate::Stale ==> *final(sign_in) == *old(sign_in),
{
    match sign_in {
        SignInState::HannahMontanaSetup(state) => {
            if state.attempt_id != attempt_id.to_string() {
                return AttemptUpdate::Stale;
            }
            AttemptUpdate::Applied(reduce(state, event))
        },
        _ => AttemptUpdate::Stale,
    }
}

/// Shows a successful run as configured, so that the onboarding step completes, if its attempt is
/// still the one shown. Returns whether it was; a frame is due exactly then.
pub fn complete_for_active_attempt<O>(sign_in: &mut SignInState<O>, attempt_id: &str) -> (frame_due:
    bool)
    ensures
        frame_due == active(old(sign_in)@, attempt_id@),
        final(sign_in)@ == completed(old(sign_in)@, attempt_id@),
        !frame_due ==> *final(sign_in) == *old(sign_in),
{
    if !attempt_matches(sign_in, attempt_id) {
        return false;
    }
    *sign_in = SignInState::HannahMontanaConfigured;
    true
}

/// Records an error that does not stem from the engine, if its attempt is still the one shown.
/// Returns whether it was; a frame is due exactly then.
pub fn finish_with_error<O>(
    sign_in: &mut SignInState<O>,
    attempt_id: &str,
    message: String,
) -> (frame_due: bool)
    ensures
        frame_due == active(old(sign_in)@, attempt_id@),
        final(sign_in)@ == failed(old(sign_in)@, attempt_id@, message@),
        !frame_due ==> *final(sign_in) == *old(sign_in),
{
    match sign_in {
        SignInState::HannahMontanaSetup(state) => {
            if state.attempt_id != attempt_id.to_string() {
                return false;
            }
            state.needs_user_action = None;
            state.error = Some(message);
            // The message of such an error is self-contained.
            state.remedy = None;
            true
        },
        _ => false,
    }
}

} // verus!
