//! The error alert, what the dialog service may report of it, and the fatal
//! error that follows either way.

use vstd::prelude::*;

verus! {

/// How a dialog presents its message.
#[derive(Debug, Clone, Copy, PartialEq, Eq, Structural)]
pub enum AlertKind {
    Info,
    Warning,
    Error,
}

/// A request to the dialog service: one modal message box.
#[derive(Debug)]
pub struct Alert {
    pub title: String,
    pub text: String,
    pub kind: AlertKind,
}

/// An [`Alert`] as plain values.
pub struct AlertView {
    pub title: Seq<char>,
    pub text: Seq<char>,
    pub kind: AlertKind,
}

impl View for Alert {
    type V = AlertView;

    open spec fn view(&self) -> AlertView {
        AlertView { title: self.title@, text: self.text@, kind: self.kind }
    }
}

/// What the dialog service reported after it was asked to show an alert.
#[derive(Debug, Clone, Copy, PartialEq, Eq, Structural)]
pub enum AlertOutcome {
    /// The user saw the alert and dismissed it.
    Shown,
    /// A dialog backend exists, but the alert could not be put on screen.
    Failed,
    /// The platform has no way to show a dialog.
    Unsupported,
}

/// The unrecoverable error that ends a failing call path.
#[derive(Debug)]
pub struct Fatal {
    /// The diagnostic text that the termination carries.
    pub payload: String,
}

impl View for Fatal {
    type V = Seq<char>;

    open spec fn view(&self) -> Seq<char> {
        self.payload@
    }
}

/// The error alert that carries `title` and `text`.
pub open spec fn error_alert(title: Seq<char>, text: Seq<char>) -> AlertView {
    AlertView { title, text, kind: AlertKind::Error }
}

/// The payload of the fatal error that follows `alert`, once the dialog
/// service has answered with `outcome`. The answer has no say in it.
pub open spec fn conclusion(alert: AlertView, outcome: AlertOutcome) -> Seq<char> {
    alert.text
}

impl Alert {
    /// Ends the failing path. The dialog service's answer is taken and
    /// dropped on purpose: shown or not, the fatal error carries the alert's
    /// text, unchanged.
    pub fn conclude(self, outcome: AlertOutcome) -> (fatal: Fatal)
        ensures
            fatal@ == conclusion(self@, outcome),
    {
        Fatal { payload: self.text }
    }
}

} // verus!
