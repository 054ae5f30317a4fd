//! The terminal snapshot of one job: what the caller gets back.

use vstd::prelude::*;

use crate::request::Request;
use crate::status::Status;

verus! {

/// How long the execution engine spent running the job, split into whole
/// seconds and the remaining nanoseconds.
#[derive(Clone, Copy, Debug, PartialEq, Eq, Structural)]
pub struct PredictTime {
    pub secs: u64,
    pub nanos: u32,
}

/// The measurements recorded alongside a successful response.
#[derive(Clone, Copy, Debug, PartialEq, Eq, Structural)]
pub struct Metrics {
    pub predict_time: PredictTime,
}

/// A terminal or near-terminal snapshot of one job. Once constructed by a
/// terminal transition it is immutable and freely copyable across waiters.
#[derive(Debug)]
pub struct Response {
    /// Echo of the request's input.
    pub input: Option<serde_json::Value>,
    /// The engine's output, present exactly on success.
    pub output: Option<serde_json::Value>,
    /// The id the job was submitted under.
    pub id: Option<String>,
    /// The model version that served the job.
    pub version: Option<String>,
    /// Milliseconds since the Unix epoch, where recorded.
    pub created_at: Option<i64>,
    pub started_at: Option<i64>,
    pub completed_at: Option<i64>,
    /// Log text accumulated for the job; empty by default.
    pub logs: String,
    /// Where the job stands; never `Idle` in a constructed response.
    pub status: Status,
    /// Human-readable failure text, present exactly on failure.
    pub error: Option<String>,
    /// The measurements recorded alongside a successful run.
    pub metrics: Option<Metrics>,
}

/// Mathematical model of a [`Response`].
#[verifier::ext_equal]
pub ghost struct ResponseView {
    pub input: Option<serde_json::Value>,
    pub output: Option<serde_json::Value>,
    pub id: Option<Seq<char>>,
    pub version: Option<Seq<char>>,
    pub created_at: Option<i64>,
    pub started_at: Option<i64>,
    pub completed_at: Option<i64>,
    pub logs: Seq<char>,
    pub status: Status,
    pub error: Option<Seq<char>>,
    pub metrics: Option<Metrics>,
}

impl DeepView for Response {
    type V = ResponseView;

    open spec fn deep_view(&self) -> ResponseView {
        self.view()
    }
}

impl View for Response {
    type V = ResponseView;

    open spec fn view(&self) -> ResponseView {
        ResponseView {
            input: self.input,
            output: self.output,
            id: self.id.deep_view(),
            version: self.version.deep_view(),
            created_at: self.created_at,
            started_at: self.started_at,
            completed_at: self.completed_at,
            logs: self.logs@,
            status: self.status,
            error: self.error.deep_view(),
            metrics: self.metrics,
        }
    }
}

/// The response a successful run produces: output and timing present, the
/// input echoed, no error text; every unset field is absent or empty.
pub open spec fn success_view(
    r: ResponseView,
    id: Option<Seq<char>>,
    input: serde_json::Value,
    output: serde_json::Value,
    predict_time: PredictTime,
) -> bool {
    &&& r.id == id
    &&& r.input == Some(input)
    &&& r.output == Some(output)
    &&& r.status is Succeeded
    &&& r.error is None
    &&& r.metrics == Some(Metrics { predict_time })
    &&& r.version is None
    &&& r.created_at is None
    &&& r.logs == Seq::<char>::empty()
    &&& r.started_at is None
    &&& r.completed_at is None
}

/// The response a failed run produces: the engine's message, no output, no
/// measurements.
pub open spec fn failed_view(
    r: ResponseView,
    id: Option<Seq<char>>,
    input: serde_json::Value,
    message: Seq<char>,
) -> bool {
    &&& r.id == id
    &&& r.input == Some(input)
    &&& r.output is None
    &&& r.status is Failed
    &&& r.error == Some(message)
    &&& r.metrics is None
    &&& r.version is None
    &&& r.created_at is None
    &&& r.logs == Seq::<char>::empty()
    &&& r.started_at is None
    &&& r.completed_at is None
}

/// The response a canceled run produces: no output, no error text, no
/// measurements.
pub open spec fn canceled_view(r: ResponseView, id: Option<Seq<char>>, input: serde_json::Value) -> bool {
    &&& r.id == id
    &&& r.input == Some(input)
    &&& r.output is None
    &&& r.status is Canceled
    &&& r.error is None
    &&& r.metrics is None
    &&& r.version is None
    &&& r.created_at is None
    &&& r.logs == Seq::<char>::empty()
    &&& r.started_at is None
    &&& r.completed_at is None
}

fn clone_opt_value(v: &Option<serde_json::Value>) -> (r: Option<serde_json::Value>)
    ensures
        r == *v,
{
    match v {
        Some(inner) => Some(inner.clone()),
        None => None,
    }
}

pub(crate) fn clone_opt_string(s: &Option<String>) -> (r: Option<String>)
    ensures
        r == *s,
{
    match s {
        Some(inner) => Some(inner.clone()),
        None => None,
    }
}

impl Clone for Response {
    /// A response is freely copyable: the copy equals the original.
    fn clone(&self) -> (res: Self)
        ensures
            res == *self,
    {
        Response {
            input: clone_opt_value(&self.input),
            output: clone_opt_value(&self.output),
            id: clone_opt_string(&self.id),
            version: clone_opt_string(&self.version),
            created_at: self.created_at,
            started_at: self.started_at,
            completed_at: self.completed_at,
            logs: self.logs.clone(),
            status: self.status,
            error: clone_opt_string(&self.error),
            metrics: self.metrics,
        }
    }
}

impl Default for Response {
    /// The base snapshot every constructor starts from: nothing recorded,
    /// every optional field absent, status still `Starting`.
    fn default() -> (r: Self)
        ensures
            r@.id is None,
            r@.input is None,
            r@.output is None,
            r@.version is None,
            r@.error is None,
            r@.metrics is None,
            r@.created_at is None,
            r@.started_at is None,
            r@.completed_at is None,
            r@.logs == Seq::<char>::empty(),
            r@.status is Starting,
    {
        Response {
            input: None,
            output: None,
            id: None,
            version: None,
            created_at: None,
            started_at: None,
            completed_at: None,
            logs: String::new(),
            status: Status::Starting,
            error: None,
            metrics: None,
        }
    }
}

impl Response {
    /// The terminal snapshot of a job whose run returned `output` after
    /// `predict_time`.
    pub fn success(
        id: Option<String>,
        req: &Request,
        output: serde_json::Value,
        predict_time: PredictTime,
    ) -> (r: Self)
        ensures
            success_view(r@, id.deep_view(), req@.input, output, predict_time),
    {
        let mut r = Response::default();
        r.id = id;
        r.input = Some(req.input.clone());
        r.output = Some(output);
        r.status = Status::Succeeded;
        r.metrics = Some(Metrics { predict_time });
        r
    }

    /// The terminal snapshot of a job whose run failed with `message`.
    pub fn error(id: Option<String>, req: &Request, message: &str) -> (r: Self)
        ensures
            failed_view(r@, id.deep_view(), req@.input, message@),
    {
        let mut r = Response::default();
        r.id = id;
        r.input = Some(req.input.clone());
        r.status = Status::Failed;
        r.error = Some(String::from_str(message));
        r
    }

    /// The terminal snapshot of a job that was canceled before completing.
    pub fn canceled(id: Option<String>, req: &Request) -> (r: Self)
        ensures
            canceled_view(r@, id.deep_view(), req@.input),
    {
        let mut r = Response::default();
        r.id = id;
        r.input = Some(req.input.clone());
        r.status = Status::Canceled;
        r
    }
}

} // verus!
