//! Guarantees the slot gives across calls, proved from the step relations
//! that the operations in [`crate::prediction`] ensure.
//!
//! One behaviour is deliberately absent here because it is the absence of a
//! step: when the shutdown signal wins the race against the engine, the
//! driver stops calling in, no transition happens, and a processing job is
//! left dangling with its status unchanged.

use vstd::prelude::*;

use crate::engine::RunOutcome;
use crate::errors::{all_located, lemma_fill_loc_all_located, spec_fill_loc, Error,
    ValidationErrorSet};
use crate::prediction::{body_input_loc, cancel_step, finish_step, init_step, inv, process_step,
    reset_view, result_step, step, wait_step, PredictionView, WaitOutcome};
use crate::request::RequestView;
use crate::response::{canceled_view, success_view, PredictTime, Response};

verus! {

/// Single-flight: across any step the slot takes, `Processing` is entered
/// only from `Starting`, and `Starting` only from `Idle`. A second job can
/// therefore never become live while one occupies the slot.
pub proof fn lemma_single_flight(pre: PredictionView, post: PredictionView)
    requires
        step(pre, post),
    ensures
        post.status is Processing && !(pre.status is Processing) ==> pre.status is Starting,
        post.status is Starting && !(pre.status is Starting) ==> pre.status is Idle,
{
}

/// `init` succeeds on a slot that holds nothing — which is exactly the
/// state `setup` builds and the state a successful `result` leaves behind.
pub proof fn lemma_init_accepts_fresh_slot(
    id: Option<Seq<char>>,
    req: RequestView,
    post: PredictionView,
    r: Result<(), Error>,
)
    requires
        init_step(reset_view(), id, req, post, r),
    ensures
        r is Ok,
{
}

/// `init` on an occupied slot — any status but `Idle`, so a job that has
/// not yet been consumed by `result` — fails with `AlreadyRunning` and
/// changes nothing.
pub proof fn lemma_init_rejected_while_occupied(
    pre: PredictionView,
    id: Option<Seq<char>>,
    req: RequestView,
    post: PredictionView,
    r: Result<(), Error>,
)
    requires
        init_step(pre, id, req, post, r),
        !(pre.status is Idle),
    ensures
        r matches Err(e) && e is AlreadyRunning,
        post == pre,
{
}

/// Round trip: initializing a fresh slot, starting the job with a passing
/// validation, recording a successful run, and consuming the result yields
/// a response with status `Succeeded` that echoes the request's input, the
/// output and the id — and a second `result` fails with `NotComplete`,
/// because the first one reset the slot.
pub proof fn lemma_round_trip(
    id: Option<Seq<char>>,
    req: RequestView,
    s1: PredictionView,
    r1: Result<(), Error>,
    v: Result<(), ValidationErrorSet>,
    s2: PredictionView,
    r2: Result<flume::Sender<Response>, Error>,
    output: serde_json::Value,
    predict_time: PredictTime,
    s3: PredictionView,
    s4: PredictionView,
    r4: Result<Response, Error>,
    s5: PredictionView,
    r5: Result<Response, Error>,
)
    requires
        init_step(reset_view(), id, req, s1, r1),
        process_step(s1, v, s2, r2),
        v is Ok,
        finish_step(s2, (RunOutcome::Succeeded { output, predict_time }), s3),
        result_step(s3, s4, r4),
        result_step(s4, s5, r5),
    ensures
        r4 matches Ok(resp) && success_view(resp@, id, req.input, output, predict_time),
        r5 matches Err(e) && e is NotComplete,
{
}

/// Eager cancellation: canceling a processing job under its own id succeeds
/// at once and marks the slot `Canceled`, ahead of the engine stopping; when
/// the driver then records the engine's canceled outcome, the stored and
/// published response carries status `Canceled` — the response a concurrent
/// waiter resolves to.
pub proof fn lemma_cancel_marks_canceled(
    pre: PredictionView,
    id: Seq<char>,
    s1: PredictionView,
    r: Result<(), Error>,
    s2: PredictionView,
)
    requires
        inv(pre),
        pre.status is Processing,
        pre.id == Some(id),
        cancel_step(pre, id, s1, r),
        finish_step(s1, RunOutcome::Canceled, s2),
    ensures
        r is Ok,
        s1.status is Canceled,
        s2.response matches Some(rv) && canceled_view(rv, pre.id, pre.request->Some_0.input),
{
}

/// Two waiters agree: once the engine's outcome is recorded, the response a
/// non-submitting caller observes through `wait_for` and the response the
/// submitter consumes through `result` have identical content — and only
/// the consuming call resets the slot.
pub proof fn lemma_waiters_agree(
    pre: PredictionView,
    outcome: RunOutcome,
    s1: PredictionView,
    id: Seq<char>,
    w: Result<WaitOutcome, Error>,
    s2: PredictionView,
    r: Result<Response, Error>,
)
    requires
        finish_step(pre, outcome, s1),
        s1.id == Some(id),
        wait_step(s1, id, w),
        result_step(s1, s2, r),
    ensures
        w matches Ok(wo) && wo matches WaitOutcome::Ready(seen) && r matches Ok(consumed)
            && seen@ == consumed@,
        s2 == reset_view(),
{
}

/// A mismatched id always fails with `Unknown`, whatever the status:
/// `cancel` then leaves the slot unchanged, and `wait_for` never changes it
/// at all.
pub proof fn lemma_mismatched_id_unknown(
    pre: PredictionView,
    id: Seq<char>,
    post: PredictionView,
    rc: Result<(), Error>,
    rw: Result<WaitOutcome, Error>,
)
    requires
        pre.id != Some(id),
        cancel_step(pre, id, post, rc),
        wait_step(pre, id, rw),
    ensures
        rc matches Err(e) && e is Unknown,
        post == pre,
        rw matches Err(e) && e is Unknown,
{
}

/// A validation failure surfaces from starting the job as a `Validation`
/// error whose every entry is located — those the engine left unlocated now
/// point at the request body's input field — and the slot stays unchanged,
/// still occupied in `Starting`.
pub proof fn lemma_validation_failure_located(
    pre: PredictionView,
    es: ValidationErrorSet,
    post: PredictionView,
    r: Result<flume::Sender<Response>, Error>,
)
    requires
        pre.status is Starting,
        process_step(pre, Err(es), post, r),
    ensures
        post == pre,
        r matches Err(e) && e matches Error::Validation(f) && f@ == spec_fill_loc(
            es@,
            body_input_loc(),
        ) && all_located(f@),
{
    lemma_fill_loc_all_located(es@, body_input_loc());
}

} // verus!
