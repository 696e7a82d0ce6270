//! Unwrapping that tells the user before it gives up.
//!
//! [`DialogExpect::dialog_expect`] takes an `Option` or a `Result` apart. A
//! value that is present is handed back; for a missing one the caller gets the
//! error [`Alert`] to put on screen. Whatever the dialog service then reports,
//! [`Alert::conclude`] turns the alert into the [`Fatal`] error that ends the
//! call path, with the caller's message as its payload.
//!
//! The crate decides and never acts: showing the alert and raising the fatal
//! error are left to the program around it, which follows the [`Step`] it was
//! given.

pub mod alert;
pub mod expect;
pub mod laws;

pub use alert::{Alert, AlertKind, AlertOutcome, AlertView, Fatal};
pub use expect::{dialog_panic, DialogExpect, Step, StepView};
