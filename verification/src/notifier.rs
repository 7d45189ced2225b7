//! Binding for desktop notifications: a best-effort, fire-and-forget display
//! of a phase-completion message. Failures are swallowed so that dispatch can
//! never disturb the engine.

use vstd::prelude::*;

verus! {

/// Relies on `notify_rust::Notification`: shows a dismiss-on-click desktop
/// notification with the given summary and body; any failure is ignored.
#[verifier::external_body]
pub(crate) fn show_notification(summary: &str, body: &str) {
    let _ = notify_rust::Notification::new()
        .summary(summary)
        .body(body)
        .show();
}

/// The text `format_completion` renders for a completed work phase: a
/// function of the two counters alone.
pub uninterp spec fn completion_text_of(completed: u8, total: u8) -> Seq<char>;

/// Relies on std's `format!`: renders the completion message for a finished
/// work phase, naming the iteration just completed out of the total.
#[verifier::external_body]
pub(crate) fn format_completion(completed: u8, total: u8) -> (r: String)
    ensures
        r@ == completion_text_of(completed, total),
{
    format!("Pomodoro Complete ({}/{})", completed, total)
}

} // verus!
