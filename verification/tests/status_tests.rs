use model_operator::crd::{ChildStatus, ModelDeploymentSpec, ModelVariant};
use model_operator::status::compute_model_deployment_status;

fn base_spec(live_replicas: i32) -> ModelDeploymentSpec {
    ModelDeploymentSpec {
        live: ModelVariant { image: "m:1".to_string(), replicas: live_replicas },
        shadow: None,
        traffic_mirror: false,
        rollout_strategy: "rolling".to_string(),
        resources: None,
        autoscaling: None,
        probes: None,
        config_ref: None,
    }
}

fn observed(available: i32, updated: i32) -> Option<ChildStatus> {
    Some(ChildStatus { available_replicas: Some(available), updated_replicas: Some(updated) })
}

#[test]
fn zero_replicas_is_available_not_degraded() {
    let spec = base_spec(0);
    let st = compute_model_deployment_status(&spec, &None, &None);
    assert_eq!(st.phase, Some("Available".to_string()));
}

#[test]
fn no_available_replicas_is_degraded() {
    let spec = base_spec(3);
    let st = compute_model_deployment_status(&spec, &observed(0, 0), &None);
    assert_eq!(st.phase, Some("Degraded".to_string()));
    let conds = st.conditions.unwrap();
    assert_eq!(conds[2].type_, "Degraded");
    assert_eq!(conds[2].status, "True");
    assert_eq!(conds[2].reason, Some("NoAvailableReplicas".to_string()));
    assert_eq!(
        conds[2].message,
        Some("No live replicas are currently available.".to_string())
    );
}

#[test]
fn partially_available_is_progressing() {
    let spec = base_spec(3);
    let st = compute_model_deployment_status(&spec, &observed(1, 1), &None);
    assert_eq!(st.phase, Some("Progressing".to_string()));
}

#[test]
fn shadow_zero_replicas_is_satisfied() {
    let mut spec = base_spec(2);
    spec.shadow = Some(ModelVariant { image: "m:2".to_string(), replicas: 0 });
    let st = compute_model_deployment_status(&spec, &observed(2, 2), &None);
    assert_eq!(st.phase, Some("Available".to_string()));
}

#[test]
fn shadow_lagging_blocks_available() {
    let mut spec = base_spec(2);
    spec.shadow = Some(ModelVariant { image: "m:2".to_string(), replicas: 1 });
    let st = compute_model_deployment_status(&spec, &observed(2, 2), &observed(0, 0));
    assert_eq!(st.phase, Some("Progressing".to_string()));
}

#[test]
fn ready_message_exact() {
    let mut spec = base_spec(2);
    spec.shadow = Some(ModelVariant { image: "m:2".to_string(), replicas: 1 });
    let st = compute_model_deployment_status(&spec, &observed(2, 2), &observed(1, 1));
    assert_eq!(st.phase, Some("Available".to_string()));
    let conds = st.conditions.unwrap();
    assert_eq!(conds[0].type_, "Ready");
    assert_eq!(conds[0].status, "True");
    assert_eq!(conds[0].reason, Some("AllReplicasAvailable".to_string()));
    assert_eq!(conds[0].message, Some("live 2/2 shadow 1/1 available".to_string()));
}

#[test]
fn conditions_mutually_consistent_on_samples() {
    let cases = [
        (base_spec(0), None),
        (base_spec(2), observed(0, 0)),
        (base_spec(2), observed(1, 1)),
        (base_spec(2), observed(2, 2)),
    ];
    for (spec, live) in cases {
        let st = compute_model_deployment_status(&spec, &live, &None);
        let conds = st.conditions.unwrap();
        let ready = conds[0].status == "True";
        let progressing = conds[1].status == "True";
        let degraded = conds[2].status == "True";
        assert_eq!(ready, !progressing);
        if degraded {
            assert!(!ready);
        }
    }
}

#[test]
fn absent_observation_counts_as_zero() {
    let spec = base_spec(2);
    let st = compute_model_deployment_status(
        &spec,
        &Some(ChildStatus { available_replicas: None, updated_replicas: None }),
        &None,
    );
    assert_eq!(st.phase, Some("Degraded".to_string()));
    let conds = st.conditions.unwrap();
    assert_eq!(conds[0].message, Some("live 0/2 shadow 0/0 available".to_string()));
}
