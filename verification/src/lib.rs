//! Lifecycle management for a single computational job slot.
//!
//! A [`prediction::Prediction`] owns one reusable job slot: it accepts one
//! request at a time, tracks the job through its status transitions, records
//! the terminal response, and hands that response to whichever caller is
//! waiting for it. The asynchronous driver that races the execution engine
//! against process shutdown lives outside this crate; the decisions it takes
//! at every step are the verified functions here.

mod channel;
pub mod engine;
pub mod errors;
mod json;
pub mod laws;
pub mod prediction;
pub mod request;
pub mod response;
pub mod status;

pub use engine::{Engine, RunOutcome};
pub use errors::Error;
pub use prediction::{Prediction, WaitOutcome};
pub use request::{Request, WebhookEvent};
pub use response::{Metrics, PredictTime, Response};
pub use status::Status;
