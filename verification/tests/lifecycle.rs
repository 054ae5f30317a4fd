use cog::engine::{Engine, RunOutcome};
use cog::errors::{Error, ValidationErrorSet};
use cog::prediction::{Prediction, WaitOutcome};
use cog::request::Request;
use cog::response::{Metrics, PredictTime, Response};
use cog::status::Status;

struct AcceptingEngine;

impl Engine for AcceptingEngine {
    fn validate(&self, _input: &serde_json::Value) -> Result<(), ValidationErrorSet> {
        Ok(())
    }
}

fn request_with_input(input: serde_json::Value) -> Request {
    Request {
        webhook: None,
        webhook_event_filters: None,
        output_file_prefix: None,
        input,
    }
}

#[test]
fn init_succeeds_only_on_idle_slot() {
    let (mut p, _cancel_rx) = Prediction::setup();
    assert_eq!(p.status(), Status::Idle);

    let req = request_with_input(serde_json::Value::from(1));
    assert!(p.init(Some("a".to_string()), req).is_ok());
    assert_eq!(p.status(), Status::Starting);

    let req2 = request_with_input(serde_json::Value::from(2));
    assert!(matches!(
        p.init(Some("b".to_string()), req2),
        Err(Error::AlreadyRunning)
    ));
    assert_eq!(p.status(), Status::Starting);
}

#[test]
fn round_trip_success_and_reset() {
    let (mut p, _cancel_rx) = Prediction::setup();
    let input = serde_json::Value::from(vec![1, 2, 3]);
    let req = request_with_input(input.clone());
    p.init(Some("job-1".to_string()), req).unwrap();

    let tx = p.process(&AcceptingEngine).unwrap();
    assert_eq!(p.status(), Status::Processing);

    let output = serde_json::Value::String("done".to_string());
    p.finish(
        &tx,
        RunOutcome::Succeeded {
            output: output.clone(),
            predict_time: PredictTime { secs: 2, nanos: 500_000_000 },
        },
    );
    assert_eq!(p.status(), Status::Succeeded);

    let resp = p.result().unwrap();
    assert_eq!(resp.status, Status::Succeeded);
    assert_eq!(resp.output, Some(output));
    assert_eq!(resp.input, Some(input));
    assert_eq!(resp.id, Some("job-1".to_string()));
    assert_eq!(
        resp.metrics,
        Some(Metrics { predict_time: PredictTime { secs: 2, nanos: 500_000_000 } })
    );
    assert_eq!(resp.error, None);
    assert_eq!(resp.logs, String::new());

    // Unset fields default absent: nothing stamps the instants here.
    assert_eq!(resp.created_at, None);
    assert_eq!(resp.started_at, None);
    assert_eq!(resp.completed_at, None);
    assert_eq!(resp.version, None);

    // The slot was reset: a second consume finds nothing...
    assert!(matches!(p.result(), Err(Error::NotComplete)));
    assert_eq!(p.status(), Status::Idle);

    // ...and a new job can be submitted.
    let req = request_with_input(serde_json::Value::Null);
    assert!(p.init(None, req).is_ok());
}

#[test]
fn cancel_marks_canceled_and_waiter_resolves() {
    let (mut p, cancel_rx) = Prediction::setup();
    let req = request_with_input(serde_json::Value::from(10));
    p.init(Some("job-c".to_string()), req).unwrap();
    let tx = p.process(&AcceptingEngine).unwrap();

    // A concurrent waiter subscribes before the cancellation.
    let pending = match p.wait_for("job-c".to_string()).unwrap() {
        WaitOutcome::Pending(rx) => rx,
        WaitOutcome::Ready(_) => panic!("no response can be cached yet"),
    };

    // Cancellation by the correct id succeeds immediately and eagerly.
    p.cancel("job-c".to_string()).unwrap();
    assert_eq!(p.status(), Status::Canceled);
    assert_eq!(cancel_rx.try_recv(), Ok(()));

    // The engine observes the signal and the driver records the outcome;
    // the waiter resolves to a canceled response.
    p.finish(&tx, RunOutcome::Canceled);
    let seen = pending.recv().unwrap();
    assert_eq!(seen.status, Status::Canceled);
    assert_eq!(seen.input, Some(serde_json::Value::from(10)));
    assert_eq!(seen.output, None);
    assert_eq!(seen.error, None);
}

#[test]
fn shutdown_race_leaves_processing() {
    let (mut p, _cancel_rx) = Prediction::setup();
    let req = request_with_input(serde_json::Value::from(5));
    p.init(Some("job-s".to_string()), req).unwrap();
    let tx = p.process(&AcceptingEngine).unwrap();

    // The shutdown signal fired first: the driver abandons the race without
    // reporting an outcome. The slot keeps its status; the job dangles.
    drop(tx);
    assert_eq!(p.status(), Status::Processing);

    // The completion channel's producer is gone, which a late waiter sees
    // as an unknown job.
    assert!(matches!(
        p.wait_for("job-s".to_string()),
        Err(Error::Unknown)
    ));
}

#[test]
fn waiters_observe_identical_response() {
    let (mut p, _cancel_rx) = Prediction::setup();
    let input = serde_json::Value::from(7);
    let req = request_with_input(input.clone());
    p.init(Some("job-w".to_string()), req).unwrap();
    let tx = p.process(&AcceptingEngine).unwrap();

    let pending = match p.wait_for("job-w".to_string()).unwrap() {
        WaitOutcome::Pending(rx) => rx,
        WaitOutcome::Ready(_) => panic!("no response can be cached yet"),
    };

    let output = serde_json::Value::from(49);
    p.finish(
        &tx,
        RunOutcome::Succeeded {
            output,
            predict_time: PredictTime { secs: 0, nanos: 1 },
        },
    );

    // One waiter reads the published copy from the channel; another sees the
    // cached response without consuming it; the submitter consumes it.
    let published = pending.recv().unwrap();
    let cached = match p.wait_for("job-w".to_string()).unwrap() {
        WaitOutcome::Ready(resp) => resp,
        WaitOutcome::Pending(_) => panic!("the response is cached by now"),
    };
    assert_eq!(p.status(), Status::Succeeded);
    let consumed = p.result().unwrap();

    for resp in [&published, &cached, &consumed] {
        assert_eq!(resp.status, Status::Succeeded);
        assert_eq!(resp.id, Some("job-w".to_string()));
        assert_eq!(resp.input, Some(input.clone()));
        assert_eq!(resp.output, Some(serde_json::Value::from(49)));
        assert_eq!(resp.metrics, Some(Metrics { predict_time: PredictTime { secs: 0, nanos: 1 } }));
    }

    // Only the consuming call reset the slot.
    assert_eq!(p.status(), Status::Idle);
    assert!(matches!(
        p.wait_for("job-w".to_string()),
        Err(Error::Unknown)
    ));
}

#[test]
fn failed_run_records_message() {
    let (mut p, _cancel_rx) = Prediction::setup();
    let req = request_with_input(serde_json::Value::from("in"));
    p.init(Some("job-f".to_string()), req).unwrap();
    let tx = p.process(&AcceptingEngine).unwrap();

    p.finish(&tx, RunOutcome::Failed { message: "model exploded".to_string() });
    assert_eq!(p.status(), Status::Failed);

    let resp = p.result().unwrap();
    assert_eq!(resp.status, Status::Failed);
    assert_eq!(resp.error, Some("model exploded".to_string()));
    assert_eq!(resp.output, None);
    assert_eq!(resp.metrics, None);
    assert_eq!(resp.input, Some(serde_json::Value::from("in")));
}

#[test]
fn mismatched_id_is_unknown_regardless_of_status() {
    let (mut p, _cancel_rx) = Prediction::setup();

    // Idle: no job at all.
    assert!(matches!(p.wait_for("x".to_string()), Err(Error::Unknown)));
    assert!(matches!(p.cancel("x".to_string()), Err(Error::Unknown)));

    let req = request_with_input(serde_json::Value::Null);
    p.init(Some("right".to_string()), req).unwrap();

    // Starting.
    assert!(matches!(p.wait_for("wrong".to_string()), Err(Error::Unknown)));
    assert!(matches!(p.cancel("wrong".to_string()), Err(Error::Unknown)));

    let tx = p.process(&AcceptingEngine).unwrap();

    // Processing.
    assert!(matches!(p.wait_for("wrong".to_string()), Err(Error::Unknown)));
    assert!(matches!(p.cancel("wrong".to_string()), Err(Error::Unknown)));
    assert_eq!(p.status(), Status::Processing);

    // Terminal.
    p.finish(&tx, RunOutcome::Canceled);
    assert!(matches!(p.wait_for("wrong".to_string()), Err(Error::Unknown)));
    assert!(matches!(p.cancel("wrong".to_string()), Err(Error::Unknown)));
}

#[test]
fn cancel_outside_processing_is_already_running() {
    let (mut p, _cancel_rx) = Prediction::setup();
    let req = request_with_input(serde_json::Value::Null);
    p.init(Some("j".to_string()), req).unwrap();

    // Starting, correct id: not processing yet.
    assert!(matches!(
        p.cancel("j".to_string()),
        Err(Error::AlreadyRunning)
    ));

    // And a waiter in Starting is told nothing is producing a result.
    assert!(matches!(
        p.wait_for("j".to_string()),
        Err(Error::AlreadyRunning)
    ));
}

#[test]
fn result_before_terminal_is_not_complete() {
    let (mut p, _cancel_rx) = Prediction::setup();
    assert!(matches!(p.result(), Err(Error::NotComplete)));

    let req = request_with_input(serde_json::Value::Null);
    p.init(None, req).unwrap();
    assert!(matches!(p.result(), Err(Error::NotComplete)));

    let _tx = p.process(&AcceptingEngine).unwrap();
    assert!(matches!(p.result(), Err(Error::NotComplete)));
}

#[test]
fn abandon_cancels_and_frees_the_slot() {
    let (mut p, cancel_rx) = Prediction::setup();
    let req = request_with_input(serde_json::Value::from(3));
    p.init(Some("gone".to_string()), req).unwrap();
    let _tx = p.process(&AcceptingEngine).unwrap();

    // The guard's teardown path: the submitting caller vanished.
    p.abandon();
    assert_eq!(cancel_rx.try_recv(), Ok(()));
    assert_eq!(p.status(), Status::Idle);

    // The slot is usable again.
    let req = request_with_input(serde_json::Value::from(4));
    assert!(p.init(Some("next".to_string()), req).is_ok());
}

#[test]
fn wait_for_checked_reflects_the_probe() {
    let (mut p, _cancel_rx) = Prediction::setup();
    let req = request_with_input(serde_json::Value::from(8));
    p.init(Some("job-p".to_string()), req).unwrap();
    let _tx = p.process(&AcceptingEngine).unwrap();

    // With a live producer the waiter gets the channel to await; with a
    // vanished one it is told the job is unknown.
    assert!(matches!(
        p.wait_for_checked("job-p".to_string(), false),
        Ok(WaitOutcome::Pending(_))
    ));
    assert!(matches!(
        p.wait_for_checked("job-p".to_string(), true),
        Err(Error::Unknown)
    ));
}

#[test]
fn response_constructors_shape_the_snapshot() {
    let req = request_with_input(serde_json::Value::from(vec!["a", "b"]));

    let ok = Response::success(
        Some("s".to_string()),
        &req,
        serde_json::Value::from(9),
        PredictTime { secs: 1, nanos: 0 },
    );
    assert_eq!(ok.status, Status::Succeeded);
    assert_eq!(ok.input, Some(serde_json::Value::from(vec!["a", "b"])));
    assert_eq!(ok.output, Some(serde_json::Value::from(9)));
    assert_eq!(ok.error, None);

    let failed = Response::error(None, &req, "boom");
    assert_eq!(failed.status, Status::Failed);
    assert_eq!(failed.error, Some("boom".to_string()));
    assert_eq!(failed.output, None);
    assert_eq!(failed.metrics, None);

    let canceled = Response::canceled(None, &req);
    assert_eq!(canceled.status, Status::Canceled);
    assert_eq!(canceled.error, None);
    assert_eq!(canceled.output, None);

    // A response is freely copyable across waiters.
    let copy = ok.clone();
    assert_eq!(copy.status, ok.status);
    assert_eq!(copy.input, ok.input);
    assert_eq!(copy.output, ok.output);
    assert_eq!(copy.id, ok.id);
    assert_eq!(copy.metrics, ok.metrics);
}
