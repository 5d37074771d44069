use model_operator::crd::{default_liveness, default_readiness, default_replicas, default_rollout};
use model_operator::error::Error;
use model_operator::event::{emit_event, make_reporter, with_event, EventType, Outcome};

#[test]
fn defaults_match_schema() {
    assert_eq!(default_replicas(), 1);
    assert_eq!(default_rollout(), "rolling");
    assert_eq!(default_liveness(), "/health");
    assert_eq!(default_readiness(), "/ready");
}

#[test]
fn reporter_identity_is_stable() {
    let r = make_reporter();
    assert_eq!(r.controller, "model-operator");
    assert_eq!(r.instance, Some("dev".to_string()));
}

#[test]
fn event_action_mirrors_reason() {
    let e = emit_event("LiveSvcCreated", "Created live svc", EventType::Normal);
    assert_eq!(e.reason, "LiveSvcCreated");
    assert_eq!(e.action, "LiveSvcCreated");
    assert_eq!(e.note, "Created live svc");
    assert_eq!(e.type_, EventType::Normal);
}

#[test]
fn with_event_emits_on_writes_only() {
    let (res, ev) = with_event(Ok(Outcome::Created), "made it", "StepDone", "StepFailed");
    assert_eq!(res, Ok(Outcome::Created));
    let ev = ev.unwrap();
    assert_eq!(ev.reason, "StepDone");
    assert_eq!(ev.note, "made it");
    assert_eq!(ev.type_, EventType::Normal);

    let (res, ev) = with_event(Ok(Outcome::Updated), "made it", "StepDone", "StepFailed");
    assert_eq!(res, Ok(Outcome::Updated));
    assert!(ev.is_some());

    let (res, ev) = with_event(Ok(Outcome::NoOp), "made it", "StepDone", "StepFailed");
    assert_eq!(res, Ok(Outcome::NoOp));
    assert!(ev.is_none());
}

#[test]
fn with_event_warns_and_propagates_errors() {
    let err = Error::Kube("connection refused".to_string());
    let (res, ev) = with_event(Err(err.clone()), "made it", "StepDone", "StepFailed");
    assert_eq!(res, Err(err));
    let ev = ev.unwrap();
    assert_eq!(ev.type_, EventType::Warning);
    assert_eq!(ev.reason, "StepFailed");
    assert_eq!(ev.note, "Kubernetes API error: connection refused");
}

#[test]
fn error_text_includes_message() {
    let err = Error::Kube("timeout".to_string());
    assert_eq!(err.text(), "Kubernetes API error: timeout");
}
