//! The job state machine: one reusable slot, one job at a time.
//!
//! A [`Prediction`] accepts a request (`init`), validates and starts it
//! (`process`), records the terminal outcome the driver reports back
//! (`finish`), lets a concurrent caller observe that outcome (`wait_for`),
//! lets the canceler stop it (`cancel`), and hands the outcome to its
//! consumer (`result`), which frees the slot again.
//!
//! The asynchronous driver — racing the engine against process shutdown,
//! awaiting the completion channel — lives outside this crate. Every decision
//! it takes is one of the functions here, and each transition is stated as a
//! relation between the slot's view before and after the call. When the
//! shutdown signal wins the race the driver simply stops calling in, so the
//! slot keeps its `Processing` status: the job is left dangling by design,
//! because the process is terminating.

use vstd::prelude::*;

use crate::channel::{new_bounded, new_unbounded, receiver_closed, send_one};
use crate::engine::{Engine, RunOutcome};
use crate::errors::{all_located, lemma_fill_loc_all_located, locs_view, spec_fill_loc, Error,
    ValidationErrorSet};
use crate::request::{Request, RequestView};
use crate::response::{canceled_view, clone_opt_string, failed_view, success_view, Response,
    ResponseView};
use crate::status::Status;

verus! {

/// The job slot. Holds the current job's id, status, request and terminal
/// response, the sending half of the cancellation channel (whose receiving
/// half lives inside the execution engine), and the receiving half of the
/// completion channel for the current job.
pub struct Prediction {
    /// Identifies the current or most recent job.
    pub id: Option<String>,
    status: Status,
    request: Option<Request>,
    response: Option<Response>,
    cancel: flume::Sender<()>,
    complete: Option<flume::Receiver<Response>>,
}

/// Mathematical model of the slot. The channels appear only as the presence
/// of a completion receiver: what travels on them is runtime behaviour of
/// the other endpoints and is not modelled.
#[verifier::ext_equal]
pub ghost struct PredictionView {
    pub id: Option<Seq<char>>,
    pub status: Status,
    pub request: Option<RequestView>,
    pub response: Option<ResponseView>,
    pub has_complete: bool,
}

impl View for Prediction {
    type V = PredictionView;

    closed spec fn view(&self) -> PredictionView {
        PredictionView {
            id: self.id.deep_view(),
            status: self.status,
            request: self.request.deep_view(),
            response: self.response.deep_view(),
            has_complete: self.complete is Some,
        }
    }
}

/// The slot's structural invariant. A live job keeps its request and has no
/// response yet; a response exists only in a terminal status; a processing
/// job has its completion channel; a slot canceled eagerly (before the
/// engine reported back) still keeps its request so the terminal response
/// can echo it; an idle slot holds nothing.
pub open spec fn inv(v: PredictionView) -> bool {
    &&& (v.status is Starting || v.status is Processing) ==> (v.request is Some
        && v.response is None)
    &&& v.response is Some ==> v.status.is_terminal()
    &&& v.status is Processing ==> v.has_complete
    &&& (v.status is Canceled && v.response is None) ==> v.request is Some
    &&& v.status is Idle ==> (v.id is None && v.request is None && v.response is None
        && !v.has_complete)
}

/// The view of a slot that holds nothing: fresh from `setup`, or reset.
pub open spec fn reset_view() -> PredictionView {
    PredictionView {
        id: None,
        status: Status::Idle,
        request: None,
        response: None,
        has_complete: false,
    }
}

/// The path under which validation failures are reported: the `input` field
/// of the request body.
pub open spec fn body_input_loc() -> Seq<Seq<char>> {
    seq!["body"@, "input"@]
}

/// What `init` does: on an idle slot it stores the id and request and moves
/// to `Starting`; on any other slot it fails with `AlreadyRunning` and
/// changes nothing.
pub open spec fn init_step(
    pre: PredictionView,
    id: Option<Seq<char>>,
    req: RequestView,
    post: PredictionView,
    r: Result<(), Error>,
) -> bool {
    if pre.status is Idle {
        &&& r is Ok
        &&& post == (PredictionView {
            id: id,
            status: Status::Starting,
            request: Some(req),
            response: None,
            has_complete: pre.has_complete,
        })
    } else {
        &&& r matches Err(e) && e is AlreadyRunning
        &&& post == pre
    }
}

/// What starting a validated job does. Outside `Starting` it fails with
/// `AlreadyRunning`. In `Starting`, a validation failure surfaces as
/// `Validation` with every error located under the request body's input
/// field, and the slot stays occupied in `Starting`; a validation success
/// moves to `Processing` and installs a fresh completion channel.
pub open spec fn process_step(
    pre: PredictionView,
    validation: Result<(), ValidationErrorSet>,
    post: PredictionView,
    r: Result<flume::Sender<Response>, Error>,
) -> bool {
    if !(pre.status is Starting) {
        &&& r matches Err(e) && e is AlreadyRunning
        &&& post == pre
    } else {
        match validation {
            Ok(_) => {
                &&& r is Ok
                &&& post == (PredictionView { status: Status::Processing, has_complete: true, ..pre })
            },
            Err(es) => {
                &&& r matches Err(e) && e matches Error::Validation(f) && f@ == spec_fill_loc(
                    es@,
                    body_input_loc(),
                )
                &&& post == pre
            },
        }
    }
}

/// What recording the engine's outcome does: the status follows the outcome,
/// the stored response is the matching terminal snapshot echoing the stored
/// request's input, and id, request and completion channel stay put.
pub open spec fn finish_step(pre: PredictionView, outcome: RunOutcome, post: PredictionView) -> bool {
    &&& pre.request matches Some(req)
    &&& post.id == pre.id
    &&& post.request == pre.request
    &&& post.has_complete == pre.has_complete
    &&& match outcome {
        RunOutcome::Succeeded { output, predict_time } => {
            &&& post.status is Succeeded
            &&& post.response matches Some(rv) && success_view(
                rv,
                pre.id,
                pre.request->Some_0.input,
                output,
                predict_time,
            )
        },
        RunOutcome::Canceled => {
            &&& post.status is Canceled
            &&& post.response matches Some(rv) && canceled_view(
                rv,
                pre.id,
                pre.request->Some_0.input,
            )
        },
        RunOutcome::Failed { message } => {
            &&& post.status is Failed
            &&& post.response matches Some(rv) && failed_view(
                rv,
                pre.id,
                pre.request->Some_0.input,
                message@,
            )
        },
    }
}

/// What `cancel` does: a mismatched id fails with `Unknown`; outside
/// `Processing` it fails with `AlreadyRunning`; otherwise the cancellation
/// signal is sent and the status is eagerly set to `Canceled`, ahead of the
/// engine observing the signal.
pub open spec fn cancel_step(
    pre: PredictionView,
    id: Seq<char>,
    post: PredictionView,
    r: Result<(), Error>,
) -> bool {
    if pre.id != Some(id) {
        &&& r matches Err(e) && e is Unknown
        &&& post == pre
    } else if !(pre.status is Processing) {
        &&& r matches Err(e) && e is AlreadyRunning
        &&& post == pre
    } else {
        &&& r is Ok
        &&& post == (PredictionView { status: Status::Canceled, ..pre })
    }
}

/// What `result` does: with a terminal status and a stored response it hands
/// that response out and resets the slot; otherwise it fails with
/// `NotComplete` and changes nothing.
pub open spec fn result_step(
    pre: PredictionView,
    post: PredictionView,
    r: Result<Response, Error>,
) -> bool {
    if pre.status.is_terminal() && pre.response is Some {
        &&& r matches Ok(resp) && resp@ == pre.response->Some_0
        &&& post == reset_view()
    } else {
        &&& r matches Err(e) && e is NotComplete
        &&& post == pre
    }
}

/// What waiting observes once the completion channel's closed-state is
/// known, without ever changing the slot: `Unknown` on a mismatched id; the
/// cached response, unconsumed, where one exists; `AlreadyRunning` when no
/// job is producing a result; and, for a processing job, the channel to
/// await — or `Unknown` where its producer already vanished.
pub open spec fn wait_checked_step(
    pre: PredictionView,
    id: Seq<char>,
    channel_closed: bool,
    r: Result<WaitOutcome, Error>,
) -> bool {
    if pre.id != Some(id) {
        r matches Err(e) && e is Unknown
    } else {
        match pre.response {
            Some(rv) => r matches Ok(w) && w matches WaitOutcome::Ready(resp) && resp@ == rv,
            None => if !(pre.status is Processing) {
                r matches Err(e) && e is AlreadyRunning
            } else if channel_closed {
                r matches Err(e) && e is Unknown
            } else {
                r matches Ok(w) && w is Pending
            },
        }
    }
}

/// What `wait_for` observes, without ever changing the slot: as
/// [`wait_checked_step`], except that the channel's runtime closed-state is
/// probed inside, so the processing branch promises one of its two
/// outcomes.
pub open spec fn wait_step(pre: PredictionView, id: Seq<char>, r: Result<WaitOutcome, Error>) -> bool {
    if pre.id != Some(id) {
        r matches Err(e) && e is Unknown
    } else {
        match pre.response {
            Some(rv) => r matches Ok(w) && w matches WaitOutcome::Ready(resp) && resp@ == rv,
            None => if !(pre.status is Processing) {
                r matches Err(e) && e is AlreadyRunning
            } else {
                ||| r matches Ok(w) && w is Pending
                ||| r matches Err(e) && e is Unknown
            },
        }
    }
}

/// What the abandonment path does: the slot is forced back to idle.
pub open spec fn reset_step(pre: PredictionView, post: PredictionView) -> bool {
    post == reset_view()
}

/// Any one call on the slot that can change it.
pub open spec fn step(pre: PredictionView, post: PredictionView) -> bool {
    ||| exists|id: Option<Seq<char>>, req: RequestView, r: Result<(), Error>|
        init_step(pre, id, req, post, r)
    ||| exists|v: Result<(), ValidationErrorSet>, r: Result<flume::Sender<Response>, Error>|
        process_step(pre, v, post, r)
    ||| exists|outcome: RunOutcome| finish_step(pre, outcome, post)
    ||| exists|id: Seq<char>, r: Result<(), Error>| cancel_step(pre, id, post, r)
    ||| exists|r: Result<Response, Error>| result_step(pre, post, r)
    ||| reset_step(pre, post)
}

/// What a caller that did not submit the job gets from `wait_for`.
pub enum WaitOutcome {
    /// The terminal response, already cached in the slot; it stays cached.
    Ready(Response),
    /// A handle on the completion channel: the job is still processing, and
    /// the response will be published here when it finishes.
    Pending(flume::Receiver<Response>),
}

impl Prediction {
    /// Builds an idle slot bound to a fresh cancellation channel, and hands
    /// back the channel's receiving half for the execution engine to observe
    /// during runs. The channel outlives each job, and the slot holds only
    /// its sending half, so it is the engine's duty (see [`Engine`]) to
    /// drain stale signals at the start of every run.
    pub fn setup() -> (r: (Prediction, flume::Receiver<()>))
        ensures
            inv(r.0@),
            r.0@ == reset_view(),
    {
        let (cancel_tx, cancel_rx) = new_unbounded::<()>();
        let p = Prediction {
            id: None,
            status: Status::Idle,
            request: None,
            response: None,
            cancel: cancel_tx,
            complete: None,
        };
        proof {
            assert(p@ =~= reset_view());
        }
        (p, cancel_rx)
    }

    /// The slot's current status.
    pub fn status(&self) -> (s: Status)
        ensures
            s == self@.status,
    {
        self.status
    }

    /// Occupies an idle slot with a new job: stores `id` and `req` and moves
    /// to `Starting`. Fails with `AlreadyRunning` on a slot in any other
    /// status, leaving it unchanged.
    pub fn init(&mut self, id: Option<String>, req: Request) -> (r: Result<(), Error>)
        requires
            inv(old(self)@),
        ensures
            inv(final(self)@),
            init_step(old(self)@, id.deep_view(), req@, final(self)@, r),
    {
        if !matches!(self.status, Status::Idle) {
            return Err(Error::AlreadyRunning);
        }
        self.id = id;
        self.request = Some(req);
        self.status = Status::Starting;
        proof {
            assert(self@ =~= (PredictionView {
                id: id.deep_view(),
                status: Status::Starting,
                request: Some(req@),
                response: None,
                has_complete: old(self)@.has_complete,
            }));
        }
        Ok(())
    }

    /// Starts a job whose validation verdict is already known. On success the
    /// slot moves to `Processing`, a fresh single-slot completion channel is
    /// installed, and its sending half is returned for the driver to publish
    /// the terminal response on. A validation failure is surfaced with every
    /// error located under the request body's input field, and the slot stays
    /// occupied in `Starting`: the caller must still drive it to a terminal
    /// state or abandon it.
    pub fn process_validated(&mut self, validation: Result<(), ValidationErrorSet>) -> (r: Result<
        flume::Sender<Response>,
        Error,
    >)
        requires
            inv(old(self)@),
        ensures
            inv(final(self)@),
            process_step(old(self)@, validation, final(self)@, r),
    {
        if !matches!(self.status, Status::Starting) {
            return Err(Error::AlreadyRunning);
        }
        match validation {
            Ok(_) => {},
            Err(es) => {
                let loc: [&str; 2] = ["body", "input"];
                let filled = es.fill_loc(&loc);
                proof {
                    assert(locs_view(loc@) =~= body_input_loc());
                }
                return Err(Error::Validation(filled));
            },
        }
        self.status = Status::Processing;
        let (complete_tx, complete_rx) = new_bounded::<Response>(1);
        self.complete = Some(complete_rx);
        proof {
            assert(self@ =~= (PredictionView {
                status: Status::Processing,
                has_complete: true,
                ..old(self)@
            }));
        }
        Ok(complete_tx)
    }

    /// Validates the stored request against the execution engine and starts
    /// the job. Whatever verdict the engine returns, the slot takes exactly
    /// one of the steps of [`process_step`]: the caller learns `Ok` exactly
    /// when the slot was in `Starting` and the engine accepted the input.
    pub fn process<E: Engine>(&mut self, engine: &E) -> (r: Result<flume::Sender<Response>, Error>)
        requires
            inv(old(self)@),
        ensures
            inv(final(self)@),
            exists|v: Result<(), ValidationErrorSet>|
                process_step(old(self)@, v, final(self)@, r),
            r is Ok ==> old(self)@.status is Starting && final(self)@ == (PredictionView {
                status: Status::Processing,
                has_complete: true,
                ..old(self)@
            }),
            r is Err ==> final(self)@ == old(self)@,
            old(self)@.status !is Starting ==> (r matches Err(e) && e is AlreadyRunning),
            (old(self)@.status is Starting && r is Err) ==> (r matches Err(e)
                && e matches Error::Validation(f) && all_located(f@)),
    {
        if !matches!(self.status, Status::Starting) {
            let r = Err(Error::AlreadyRunning);
            proof {
                let v: Result<(), ValidationErrorSet> = Ok(());
                assert(process_step(old(self)@, v, self@, r));
            }
            return r;
        }
        let validation = match &self.request {
            Some(req) => engine.validate(&req.input),
            None => unreached(),
        };
        let ghost v = validation;
        let r = self.process_validated(validation);
        proof {
            assert(process_step(old(self)@, v, self@, r));
            if old(self)@.status is Starting && r is Err {
                lemma_fill_loc_all_located(v->Err_0@, body_input_loc());
            }
        }
        r
    }

    /// Records the outcome the driver got from the execution engine: stores
    /// the matching terminal response, sets the status accordingly, and
    /// publishes an identical copy of the response on the completion channel
    /// whose sending half the driver got from `process`. The slot may already
    /// be `Canceled` here: an eager cancellation races the engine's own
    /// completion, and under the slot's lock the later write — this one —
    /// wins.
    pub fn finish(&mut self, complete: &flume::Sender<Response>, outcome: RunOutcome)
        requires
            inv(old(self)@),
            old(self)@.status is Processing || old(self)@.status is Canceled,
            old(self)@.response is None,
        ensures
            inv(final(self)@),
            finish_step(old(self)@, outcome, final(self)@),
    {
        let id = clone_opt_string(&self.id);
        let (resp, new_status) = match outcome {
            RunOutcome::Succeeded { output, predict_time } => {
                let req = match &self.request {
                    Some(req) => req,
                    None => unreached(),
                };
                (Response::success(id, req, output, predict_time), Status::Succeeded)
            },
            RunOutcome::Canceled => {
                let req = match &self.request {
                    Some(req) => req,
                    None => unreached(),
                };
                (Response::canceled(id, req), Status::Canceled)
            },
            RunOutcome::Failed { message } => {
                let req = match &self.request {
                    Some(req) => req,
                    None => unreached(),
                };
                (Response::error(id, req, message.as_str()), Status::Failed)
            },
        };
        self.status = new_status;
        let published = resp.clone();
        send_one(complete, published);
        self.response = Some(resp);
    }

    /// Requests cancellation of the current job by id: sends on the
    /// cancellation channel (the engine observes it cooperatively) and
    /// eagerly marks the slot `Canceled`, ahead of the engine actually
    /// stopping. Fails with `Unknown` on a mismatched id and with
    /// `AlreadyRunning` when no job is processing.
    pub fn cancel(&mut self, id: String) -> (r: Result<(), Error>)
        requires
            inv(old(self)@),
        ensures
            inv(final(self)@),
            cancel_step(old(self)@, id@, final(self)@, r),
    {
        let id_matches = match &self.id {
            Some(cur) => *cur == id,
            None => false,
        };
        if !id_matches {
            return Err(Error::Unknown);
        }
        if !matches!(self.status, Status::Processing) {
            return Err(Error::AlreadyRunning);
        }
        send_one(&self.cancel, ());
        self.status = Status::Canceled;
        proof {
            assert(self@ =~= (PredictionView { status: Status::Canceled, ..old(self)@ }));
        }
        Ok(())
    }

    /// Observes the current job's outcome without consuming it, given the
    /// completion channel's probed closed-state. Returns the cached terminal
    /// response where one exists — waiting never resets the slot — or the
    /// channel to await while the job is still processing. Fails with
    /// `Unknown` on a mismatched id or a closed channel, and with
    /// `AlreadyRunning` when no job is actively producing a result.
    pub fn wait_for_checked(&self, id: String, channel_closed: bool) -> (r: Result<
        WaitOutcome,
        Error,
    >)
        requires
            inv(self@),
        ensures
            wait_checked_step(self@, id@, channel_closed, r),
    {
        let id_matches = match &self.id {
            Some(cur) => *cur == id,
            None => false,
        };
        if !id_matches {
            return Err(Error::Unknown);
        }
        match &self.response {
            Some(resp) => {
                return Ok(WaitOutcome::Ready(resp.clone()));
            },
            None => {},
        }
        if !matches!(self.status, Status::Processing) {
            return Err(Error::AlreadyRunning);
        }
        // A dropped producer means the job finished and vanished without a
        // value; defensively reported as an unknown job.
        if channel_closed {
            return Err(Error::Unknown);
        }
        let complete = match &self.complete {
            Some(rx) => rx,
            None => unreached(),
        };
        Ok(WaitOutcome::Pending(complete.clone()))
    }

    /// As [`Prediction::wait_for_checked`], probing the completion channel
    /// itself: the one call whose outcome depends on the channel's runtime
    /// state rather than the slot alone.
    pub fn wait_for(&self, id: String) -> (r: Result<WaitOutcome, Error>)
        requires
            inv(self@),
        ensures
            wait_step(self@, id@, r),
    {
        let channel_closed = match &self.complete {
            Some(rx) => receiver_closed(rx),
            None => false,
        };
        self.wait_for_checked(id, channel_closed)
    }

    /// Consumes the cached terminal response and resets the slot to idle,
    /// ready for the next submission. Fails with `NotComplete`, changing
    /// nothing, unless the status is terminal and a response is cached.
    pub fn result(&mut self) -> (r: Result<Response, Error>)
        requires
            inv(old(self)@),
        ensures
            inv(final(self)@),
            result_step(old(self)@, final(self)@, r),
    {
        if !self.status.terminal() {
            return Err(Error::NotComplete);
        }
        let resp = match self.response.take() {
            Some(resp) => resp,
            None => {
                proof {
                    assert(self@ =~= old(self)@);
                }
                return Err(Error::NotComplete);
            },
        };
        self.reset();
        Ok(resp)
    }

    /// The teardown path of an abandoned submission: sends the cancellation
    /// signal and forces the slot back to idle, guaranteeing the slot is
    /// never left stuck occupied by a caller that vanished. Outside of
    /// `result`, this is the only way the slot is reset.
    pub fn abandon(&mut self)
        requires
            inv(old(self)@),
        ensures
            inv(final(self)@),
            reset_step(old(self)@, final(self)@),
    {
        send_one(&self.cancel, ());
        self.reset();
    }

    /// Clears every per-job field and returns to `Idle`. The cancellation
    /// channel is kept, not recreated — the slot holds only its sending
    /// half, so it cannot replace or drain it. Clearing it logically is the
    /// engine's stated duty (see [`Engine`]): each run first drains the
    /// signals already pending, so one left by a previous job — sent by
    /// `cancel` or `abandon` after that job's run had already ended — cannot
    /// affect the next job.
    fn reset(&mut self)
        ensures
            final(self)@ == reset_view(),
    {
        self.id = None;
        self.request = None;
        self.response = None;
        self.complete = None;
        self.status = Status::Idle;
        proof {
            assert(self@ =~= reset_view());
        }
    }
}

} // verus!
