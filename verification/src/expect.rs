//! Taking an `Option` or a `Result` apart, and the direct way into the
//! failing path.

use vstd::prelude::*;
use crate::alert::{error_alert, Alert, AlertKind, AlertView};

verus! {

/// What the caller does next.
#[derive(Debug)]
pub enum Step<T> {
    /// The value was there: hand it on. Nothing is shown, nothing ends.
    Returned(T),
    /// The value was missing: show this alert once, then end the call path
    /// with what [`Alert::conclude`] gives.
    Notifying(Alert),
}

/// A [`Step`] as plain values.
pub enum StepView<T> {
    Returned(T),
    Notifying(AlertView),
}

impl<T> View for Step<T> {
    type V = StepView<T>;

    open spec fn view(&self) -> StepView<T> {
        match *self {
            Step::Returned(v) => StepView::Returned(v),
            Step::Notifying(alert) => StepView::Notifying(alert@),
        }
    }
}

/// The step that follows from a container holding `held`.
pub open spec fn expect_step<T>(held: Option<T>, title: Seq<char>, msg: Seq<char>) -> StepView<T> {
    match held {
        Some(v) => StepView::Returned(v),
        None => StepView::Notifying(error_alert(title, msg)),
    }
}

/// A container that holds a value or does not.
pub trait DialogExpect<T>: Sized {
    /// The value held, if there is one. A failure's detail is no part of it.
    spec fn held(self) -> Option<T>;

    /// Hands back the value held, or the error alert with `title` and `msg`
    /// where none is held.
    fn dialog_expect(self, title: &str, msg: &str) -> (step: Step<T>)
        ensures
            step@ == expect_step(self.held(), title@, msg@),
    ;
}

impl<T> DialogExpect<T> for Option<T> {
    open spec fn held(self) -> Option<T> {
        self
    }

    fn dialog_expect(self, title: &str, msg: &str) -> (step: Step<T>) {
        match self {
            Some(v) => Step::Returned(v),
            None => Step::Notifying(dialog_panic_internal(title, msg)),
        }
    }
}

impl<T, E> DialogExpect<T> for Result<T, E> {
    open spec fn held(self) -> Option<T> {
        match self {
            Ok(v) => Some(v),
            Err(_) => None,
        }
    }

    fn dialog_expect(self, title: &str, msg: &str) -> (step: Step<T>) {
        match self {
            Ok(v) => Step::Returned(v),
            Err(_) => Step::Notifying(dialog_panic_internal(title, msg)),
        }
    }
}

/// Builds the error alert that both failing cases and [`dialog_panic`] share.
pub(crate) fn dialog_panic_internal(title: &str, msg: &str) -> (alert: Alert)
    ensures
        alert@ == error_alert(title@, msg@),
{
    Alert { title: title.to_owned(), text: msg.to_owned(), kind: AlertKind::Error }
}

/// Enters the failing path with no container to take apart: the error alert
/// with `title` and `msg`, to be shown and then concluded as after a
/// [`Step::Notifying`].
pub fn dialog_panic(title: &str, msg: &str) -> (alert: Alert)
    ensures
        alert@ == error_alert(title@, msg@),
{
    dialog_panic_internal(title, msg)
}

} // verus!
