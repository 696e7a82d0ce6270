//! What holds of every run.
//!
//! A run is what a caller does that follows its [`Step`](crate::expect::Step)
//! to the end: nothing more for a value that was returned; for an alert, one
//! request to the dialog service and then the fatal error that
//! [`Alert::conclude`](crate::alert::Alert::conclude) gives for the service's
//! answer. The laws below are stated of such runs, for every container, title,
//! message and answer.

use vstd::prelude::*;
use crate::alert::{conclusion, error_alert, AlertOutcome, AlertView};
use crate::expect::{expect_step, DialogExpect, StepView};

verus! {

/// Something that a run does to the world around it.
pub enum Effect {
    /// The dialog service is asked to show this alert.
    Dialog(AlertView),
    /// The call path ends with a fatal error that carries this payload.
    Termination(Seq<char>),
}

/// The failing path, entered with `alert` in hand, as after
/// [`dialog_panic`](crate::expect::dialog_panic): the alert goes to the dialog
/// service, which answers `outcome`, and then the call path ends.
pub open spec fn failing_effects(alert: AlertView, outcome: AlertOutcome) -> Seq<Effect> {
    seq![Effect::Dialog(alert), Effect::Termination(conclusion(alert, outcome))]
}

/// The effects, in order, of the run that follows `step`.
pub open spec fn effects<T>(step: StepView<T>, outcome: AlertOutcome) -> Seq<Effect> {
    match step {
        StepView::Returned(_) => Seq::empty(),
        StepView::Notifying(alert) => failing_effects(alert, outcome),
    }
}

/// How often the dialog service is asked in `effects`.
pub open spec fn dialog_calls(effects: Seq<Effect>) -> nat
    decreases effects.len(),
{
    if effects.len() == 0 {
        0
    } else if effects.last() is Dialog {
        dialog_calls(effects.drop_last()) + 1
    } else {
        dialog_calls(effects.drop_last())
    }
}

/// A container that holds a value gives that very value back, and its run has
/// no effect at all: no dialog, no termination.
pub proof fn lemma_present_returns_value<T, C: DialogExpect<T>>(
    subject: C,
    title: Seq<char>,
    msg: Seq<char>,
    outcome: AlertOutcome,
)
    requires
        subject.held() is Some,
    ensures
        expect_step(subject.held(), title, msg) == StepView::Returned(subject.held()->0),
        effects(expect_step(subject.held(), title, msg), outcome) == Seq::<Effect>::empty(),
{
}

/// A container that holds no value returns none: its run asks for the error
/// alert with the caller's title and message, and then ends with a fatal error
/// whose payload is that message, character for character.
pub proof fn lemma_absent_terminates_with_message<T, C: DialogExpect<T>>(
    subject: C,
    title: Seq<char>,
    msg: Seq<char>,
    outcome: AlertOutcome,
)
    requires
        subject.held() is None,
    ensures
        expect_step(subject.held(), title, msg) == StepView::<T>::Notifying(
            error_alert(title, msg),
        ),
        effects(expect_step(subject.held(), title, msg), outcome) == seq![
            Effect::Dialog(error_alert(title, msg)),
            Effect::Termination(msg),
        ],
{
}

/// The dialog service is asked exactly once where no value is held and never
/// where one is, whatever the service answers.
pub proof fn lemma_one_dialog_call_when_absent<T, C: DialogExpect<T>>(
    subject: C,
    title: Seq<char>,
    msg: Seq<char>,
    outcome: AlertOutcome,
)
    ensures
        dialog_calls(effects(expect_step(subject.held(), title, msg), outcome)) == (
        if subject.held() is Some {
            0nat
        } else {
            1nat
        }),
{
    if subject.held() is None {
        let run = failing_effects(error_alert(title, msg), outcome);
        assert(run.drop_last() == seq![run[0]]);
        assert(run.drop_last().drop_last() == Seq::<Effect>::empty());
        reveal_with_fuel(dialog_calls, 3);
    }
}

/// The fatal error does not wait on the dialog: a service that fails, or that
/// the platform lacks, leaves the run what it is after an alert that was
/// shown, termination and payload included.
pub proof fn lemma_termination_ignores_outcome(
    alert: AlertView,
    outcome: AlertOutcome,
    other: AlertOutcome,
)
    ensures
        conclusion(alert, outcome) == alert.text,
        failing_effects(alert, outcome) == failing_effects(alert, other),
        failing_effects(alert, outcome).last() == Effect::Termination(alert.text),
{
}

/// Entering the failing path directly has the effects of taking apart a
/// container that holds no value, with the same title and message.
pub proof fn lemma_panic_matches_absent<T, C: DialogExpect<T>>(
    subject: C,
    title: Seq<char>,
    msg: Seq<char>,
    outcome: AlertOutcome,
)
    requires
        subject.held() is None,
    ensures
        failing_effects(error_alert(title, msg), outcome) == effects(
            expect_step(subject.held(), title, msg),
            outcome,
        ),
{
}

} // verus!
