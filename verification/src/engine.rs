//! The interface to the execution engine, and the outcome its run reports.

use vstd::prelude::*;

use crate::errors::ValidationErrorSet;
use crate::response::PredictTime;

verus! {

/// The synchronous half of the execution engine: input validation.
///
/// The embedding application implements this for its engine; nothing is
/// assumed about an implementation's verdict, so every caller in this crate
/// states what it does for either answer. The engine's asynchronous run is
/// driven outside this crate and reported back as a [`RunOutcome`].
///
/// An implementation also owes a duty around cancellation, stated here
/// because only the engine can discharge it: the engine holds the receiving
/// half of the slot's cancellation channel, which outlives any one job. A
/// signal can be left pending by a job that was canceled or abandoned after
/// its run had already ended, so at the start of every run the engine must
/// drain the pending signals it finds before observing new ones — the
/// channel is cleared logically, by the engine, and a stale signal from a
/// previous job must never stop the next one.
pub trait Engine {
    /// Checks `input` against the engine's schema and business rules.
    fn validate(&self, input: &serde_json::Value) -> Result<(), ValidationErrorSet>;
}

/// How the execution engine's run ended, as reported by the driver.
pub enum RunOutcome {
    /// The run produced `output` after `predict_time`.
    Succeeded { output: serde_json::Value, predict_time: PredictTime },
    /// The run observed the cancellation signal and stopped.
    Canceled,
    /// The run failed for any other reason, described by `message`.
    Failed { message: String },
}

} // verus!
