use cog::engine::Engine;
use cog::errors::{Error, ValidationError, ValidationErrorSet};
use cog::prediction::Prediction;
use cog::request::Request;
use cog::status::Status;

struct RejectingEngine;

impl Engine for RejectingEngine {
    fn validate(&self, _input: &serde_json::Value) -> Result<(), ValidationErrorSet> {
        Err(ValidationErrorSet {
            errors: vec![
                ValidationError { loc: None, message: "field is required".to_string() },
                ValidationError {
                    loc: Some(vec!["header".to_string()]),
                    message: "kept as reported".to_string(),
                },
            ],
        })
    }
}

struct AcceptingEngine;

impl Engine for AcceptingEngine {
    fn validate(&self, _input: &serde_json::Value) -> Result<(), ValidationErrorSet> {
        Ok(())
    }
}

fn plain_request() -> Request {
    Request {
        webhook: None,
        webhook_event_filters: None,
        output_file_prefix: None,
        input: serde_json::Value::from(0),
    }
}

#[test]
fn validation_failure_is_located_at_body_input() {
    let (mut p, _cancel_rx) = Prediction::setup();
    p.init(Some("v".to_string()), plain_request()).unwrap();

    let err = p.process(&RejectingEngine).unwrap_err();
    let set = match err {
        Error::Validation(set) => set,
        other => panic!("expected a validation error, got {other:?}"),
    };
    assert_eq!(set.errors.len(), 2);

    // An unlocated error is annotated with the request body's input field.
    assert_eq!(
        set.errors[0].loc,
        Some(vec!["body".to_string(), "input".to_string()])
    );
    assert_eq!(set.errors[0].message, "field is required".to_string());

    // An error that already carried a location keeps it.
    assert_eq!(set.errors[1].loc, Some(vec!["header".to_string()]));
    assert_eq!(set.errors[1].message, "kept as reported".to_string());
}

#[test]
fn validation_failure_leaves_slot_in_starting() {
    let (mut p, _cancel_rx) = Prediction::setup();
    p.init(Some("v2".to_string()), plain_request()).unwrap();

    assert!(matches!(
        p.process(&RejectingEngine),
        Err(Error::Validation(_))
    ));

    // The slot stays occupied in Starting: a new submission is refused...
    assert_eq!(p.status(), Status::Starting);
    assert!(matches!(
        p.init(Some("v3".to_string()), plain_request()),
        Err(Error::AlreadyRunning)
    ));

    // ...but the same job can be started once the input passes validation.
    assert!(p.process(&AcceptingEngine).is_ok());
    assert_eq!(p.status(), Status::Processing);
}

#[test]
fn process_outside_starting_is_already_running() {
    let (mut p, _cancel_rx) = Prediction::setup();
    assert!(matches!(
        p.process(&AcceptingEngine),
        Err(Error::AlreadyRunning)
    ));

    p.init(None, plain_request()).unwrap();
    let _tx = p.process(&AcceptingEngine).unwrap();
    assert!(matches!(
        p.process(&AcceptingEngine),
        Err(Error::AlreadyRunning)
    ));
}

#[test]
fn fill_loc_annotates_only_unlocated_errors() {
    let set = ValidationErrorSet {
        errors: vec![
            ValidationError { loc: None, message: "first".to_string() },
            ValidationError { loc: Some(vec!["query".to_string()]), message: "second".to_string() },
            ValidationError { loc: None, message: "third".to_string() },
        ],
    };
    let filled = set.fill_loc(&["body", "input"]);
    assert_eq!(
        filled.errors[0].loc,
        Some(vec!["body".to_string(), "input".to_string()])
    );
    assert_eq!(filled.errors[1].loc, Some(vec!["query".to_string()]));
    assert_eq!(
        filled.errors[2].loc,
        Some(vec!["body".to_string(), "input".to_string()])
    );
    assert_eq!(filled.errors.len(), 3);
}

#[test]
fn input_echo_is_a_deep_copy() {
    // The response echoes the request's input even for a nested value; a
    // wrapper that mangled the clone would be caught here.
    let nested = serde_json::Value::from(vec![
        serde_json::Value::from(1),
        serde_json::Value::String("two".to_string()),
        serde_json::Value::from(vec![3, 4]),
    ]);
    let req = Request {
        webhook: Some("https://example.com/hook".to_string()),
        webhook_event_filters: Some(vec![cog::request::WebhookEvent::Completed]),
        output_file_prefix: Some("out/".to_string()),
        input: nested.clone(),
    };
    let resp = cog::response::Response::canceled(Some("d".to_string()), &req);
    assert_eq!(resp.input, Some(nested));
}
