use model_operator::crd::{ModelDeployment, ModelDeploymentSpec, ModelVariant};
use model_operator::event::Outcome;
use model_operator::finalizer::{
    ensure_finalizer_present, finalizer_sentinel, has_finalizer, is_deleting, remove_finalizer,
};

fn parent() -> ModelDeployment {
    ModelDeployment {
        name: "demo".to_string(),
        namespace: None,
        uid: "uid-1".to_string(),
        deletion_timestamp: None,
        finalizers: None,
        spec: ModelDeploymentSpec {
            live: ModelVariant { image: "m:1".to_string(), replicas: 1 },
            shadow: None,
            traffic_mirror: false,
            rollout_strategy: "rolling".to_string(),
            resources: None,
            autoscaling: None,
            probes: None,
            config_ref: None,
        },
        status: None,
    }
}

#[test]
fn sentinel_value() {
    assert_eq!(finalizer_sentinel(), "ml.jedimindtricks.example/finalizer");
}

#[test]
fn is_deleting_follows_timestamp() {
    let mut md = parent();
    assert!(!is_deleting(&md));
    md.deletion_timestamp = Some("now".to_string());
    assert!(is_deleting(&md));
}

#[test]
fn ensure_adds_once() {
    let md = parent();
    let f = finalizer_sentinel();
    assert!(!has_finalizer(&md, f));

    let (out, md) = ensure_finalizer_present(md, f);
    assert_eq!(out, Outcome::Created);
    assert!(has_finalizer(&md, f));
    assert_eq!(md.finalizers, Some(vec![f.to_string()]));

    let (out2, md) = ensure_finalizer_present(md, f);
    assert_eq!(out2, Outcome::NoOp);
    assert_eq!(md.finalizers, Some(vec![f.to_string()]));
}

#[test]
fn ensure_keeps_foreign_finalizers() {
    let mut md = parent();
    md.finalizers = Some(vec!["other.example/cleanup".to_string()]);
    let f = finalizer_sentinel();
    let (out, md) = ensure_finalizer_present(md, f);
    assert_eq!(out, Outcome::Created);
    assert_eq!(
        md.finalizers,
        Some(vec!["other.example/cleanup".to_string(), f.to_string()])
    );
}

#[test]
fn remove_strips_every_occurrence() {
    let mut md = parent();
    let f = finalizer_sentinel();
    md.finalizers = Some(vec![
        f.to_string(),
        "other.example/cleanup".to_string(),
        f.to_string(),
    ]);
    let (out, md) = remove_finalizer(md, f);
    assert_eq!(out, Outcome::Updated);
    assert_eq!(md.finalizers, Some(vec!["other.example/cleanup".to_string()]));
    assert!(!has_finalizer(&md, f));
}

#[test]
fn remove_on_absent_list_is_updated_and_empty() {
    let md = parent();
    let f = finalizer_sentinel();
    let (out, md) = remove_finalizer(md, f);
    assert_eq!(out, Outcome::Updated);
    assert_eq!(md.finalizers, Some(vec![]));
}
