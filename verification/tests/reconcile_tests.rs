use model_operator::child::Child;
use model_operator::crd::{ChildStatus, ModelDeployment, ModelDeploymentSpec, ModelVariant};
use model_operator::event::Event;
use model_operator::reconsile::{reconsile, Action, Cluster, PassResult};

fn parent(name: &str) -> ModelDeployment {
    ModelDeployment {
        name: name.to_string(),
        namespace: Some("ns1".to_string()),
        uid: "uid-1234".to_string(),
        deletion_timestamp: None,
        finalizers: None,
        spec: ModelDeploymentSpec {
            live: ModelVariant { image: "m:1".to_string(), replicas: 2 },
            shadow: None,
            traffic_mirror: false,
            rollout_strategy: "rolling".to_string(),
            resources: None,
            autoscaling: None,
            probes: None,
            config_ref: None,
        },
        status: None,
    }
}

fn reasons(events: &[Event]) -> Vec<String> {
    events.iter().map(|e| e.reason.clone()).collect()
}

fn child_name(child: &Child) -> String {
    match child {
        Child::Service(s) => s.meta.name.clone(),
        Child::Workload(w) => w.meta.name.clone(),
        Child::Mirror(m) => m.meta.name.clone(),
        Child::Ingress(i) => i.meta.name.clone(),
    }
}

fn owner_name(child: &Child) -> (String, bool) {
    let meta = match child {
        Child::Service(s) => &s.meta,
        Child::Workload(w) => &w.meta,
        Child::Mirror(m) => &m.meta,
        Child::Ingress(i) => &i.meta,
    };
    (meta.owner.name.clone(), meta.owner.controller)
}

#[test]
fn create_fresh() {
    let md = parent("demo");
    let r = reconsile(md, Cluster::empty());
    assert_eq!(r.action, Action::RequeueSecs(60));

    let live_svc = r.cluster.live_svc.as_ref().unwrap();
    assert_eq!(child_name(&live_svc.child), "demo-live-svc");
    let live_wl = r.cluster.live_workload.as_ref().unwrap();
    assert_eq!(child_name(&live_wl.child), "demo-live");
    assert!(r.cluster.shadow_svc.is_none());
    assert!(r.cluster.shadow_workload.is_none());
    assert!(r.cluster.mirror_route.is_none());
    assert!(r.cluster.ingress_route.is_none());

    // The sentinel was added before any child.
    let fins = r.parent.finalizers.clone().unwrap();
    assert_eq!(fins, vec!["ml.jedimindtricks.example/finalizer".to_string()]);

    // No replicas are available yet, so the parent is not Ready.
    let status = r.parent.status.clone().unwrap();
    let conds = status.conditions.unwrap();
    assert_eq!(conds[0].type_, "Ready");
    assert_eq!(conds[0].status, "False");
    assert_eq!(status.phase, Some("Degraded".to_string()));

    assert_eq!(
        reasons(&r.events),
        vec!["FinalizerCreated", "LiveSvcCreated", "LiveDeploymentCreated", "Reconciled"]
    );
}

#[test]
fn every_child_carries_controller_owner_reference() {
    let mut md = parent("demo");
    md.spec.shadow = Some(ModelVariant { image: "m:2".to_string(), replicas: 1 });
    md.spec.traffic_mirror = true;
    let r = reconsile(md, Cluster::empty());
    for slot in [
        &r.cluster.live_svc,
        &r.cluster.shadow_svc,
        &r.cluster.live_workload,
        &r.cluster.shadow_workload,
        &r.cluster.mirror_route,
        &r.cluster.ingress_route,
    ] {
        let st = slot.as_ref().unwrap();
        let (owner, controller) = owner_name(&st.child);
        assert_eq!(owner, "demo");
        assert!(controller);
    }
}

#[test]
fn reach_available() {
    let md = parent("demo");
    let r1 = reconsile(md, Cluster::empty());

    // The workload controller reports two available replicas.
    let mut cluster = r1.cluster;
    cluster.live_workload.as_mut().unwrap().status =
        Some(ChildStatus { available_replicas: Some(2), updated_replicas: Some(2) });

    let r2 = reconsile(r1.parent, cluster);
    let status = r2.parent.status.clone().unwrap();
    assert_eq!(status.phase, Some("Available".to_string()));
    let conds = status.conditions.unwrap();
    assert_eq!(conds[0].status, "True");
    assert_eq!(conds[0].message, Some("live 2/2 shadow 0/0 available".to_string()));
}

#[test]
fn idle_pass_is_silent() {
    let md = parent("demo");
    let r1 = reconsile(md, Cluster::empty());
    let r2: PassResult = reconsile(r1.parent.clone(), r1.cluster.clone());
    assert!(r2.events.is_empty());
    assert_eq!(r2.cluster, r1.cluster);
    assert_eq!(r2.action, Action::RequeueSecs(60));
}

#[test]
fn add_shadow() {
    let md = parent("demo");
    let r1 = reconsile(md, Cluster::empty());

    let mut md2 = r1.parent;
    md2.spec.shadow = Some(ModelVariant { image: "m:2".to_string(), replicas: 1 });
    let r2 = reconsile(md2, r1.cluster);

    let ssvc = r2.cluster.shadow_svc.as_ref().unwrap();
    assert_eq!(child_name(&ssvc.child), "demo-shadow-svc");
    let swl = r2.cluster.shadow_workload.as_ref().unwrap();
    assert_eq!(child_name(&swl.child), "demo-shadow");
    match &swl.child {
        Child::Workload(w) => {
            assert_eq!(w.meta.labels.as_ref().unwrap().role, "shadow");
            assert_eq!(w.image, "m:2");
            assert_eq!(w.replicas, 1);
        },
        _ => panic!("expected a workload"),
    }
    // The stamped annotation equals the fingerprint of the builder output.
    assert_eq!(swl.fp, model_operator::fingerprint::fingerprint(&swl.child));
    assert_eq!(
        reasons(&r2.events),
        vec!["ShadowSvcCreated", "ShadowDeploymentCreated", "Reconciled"]
    );
}

#[test]
fn shadow_absent_leaves_shadow_slots_untouched() {
    let md = parent("demo");
    let r1 = reconsile(md, Cluster::empty());
    let r2 = reconsile(r1.parent, r1.cluster);
    assert!(r2.cluster.shadow_svc.is_none());
    assert!(r2.cluster.shadow_workload.is_none());
}

#[test]
fn enable_mirror() {
    let mut md = parent("demo");
    md.spec.shadow = Some(ModelVariant { image: "m:2".to_string(), replicas: 1 });
    let r1 = reconsile(md, Cluster::empty());

    let mut md2 = r1.parent;
    md2.spec.traffic_mirror = true;
    let r2 = reconsile(md2, r1.cluster);

    let mirror = r2.cluster.mirror_route.as_ref().unwrap();
    match &mirror.child {
        Child::Mirror(m) => {
            assert_eq!(m.meta.name, "demo");
            assert_eq!(m.primary_name, "demo-live-svc");
            assert_eq!(m.primary_port, 8000);
            assert_eq!(m.mirror_name, "demo-shadow-svc");
            assert_eq!(m.mirror_port, 8000);
            assert_eq!(m.mirror_percent, 100);
        },
        _ => panic!("expected a mirror route"),
    }
    let ingress = r2.cluster.ingress_route.as_ref().unwrap();
    match &ingress.child {
        Child::Ingress(i) => {
            assert_eq!(i.meta.name, "demo");
            assert_eq!(i.match_rule, "Host(`demo.local`)");
            assert_eq!(i.entry_point, "web");
            assert_eq!(i.service_name, "demo");
        },
        _ => panic!("expected an ingress route"),
    }
    assert_eq!(
        reasons(&r2.events),
        vec!["TraefikServiceCreated", "IngressRouteCreated", "Reconciled"]
    );
}

#[test]
fn mirror_without_shadow_still_creates_routes() {
    let mut md = parent("demo");
    md.spec.traffic_mirror = true;
    let r = reconsile(md, Cluster::empty());
    assert!(r.cluster.shadow_svc.is_none());
    let mirror = r.cluster.mirror_route.as_ref().unwrap();
    match &mirror.child {
        Child::Mirror(m) => assert_eq!(m.mirror_name, "demo-shadow-svc"),
        _ => panic!("expected a mirror route"),
    }
    assert!(r.cluster.ingress_route.is_some());
}

#[test]
fn drift_repair() {
    let md = parent("demo");
    let r1 = reconsile(md, Cluster::empty());

    // An external actor rewrites the live workload, clobbering the
    // fingerprint annotation.
    let mut cluster = r1.cluster;
    {
        let stored = cluster.live_workload.as_mut().unwrap();
        match &mut stored.child {
            Child::Workload(w) => w.replicas = 5,
            _ => panic!("expected a workload"),
        }
        stored.fp = "someone-elses-annotation".to_string();
    }

    let r2 = reconsile(r1.parent, cluster);
    assert!(r2.events.iter().any(|e| e.reason == "LiveDeploymentCreated"));
    let stored = r2.cluster.live_workload.as_ref().unwrap();
    match &stored.child {
        Child::Workload(w) => assert_eq!(w.replicas, 2),
        _ => panic!("expected a workload"),
    }
    assert_eq!(stored.fp, model_operator::fingerprint::fingerprint(&stored.child));
}

#[test]
fn missing_namespace_defaults() {
    let mut md = parent("demo");
    md.namespace = None;
    md.spec.traffic_mirror = true;
    let r = reconsile(md, Cluster::empty());
    let mirror = r.cluster.mirror_route.as_ref().unwrap();
    match &mirror.child {
        Child::Mirror(m) => assert_eq!(m.meta.namespace, Some("default".to_string())),
        _ => panic!("expected a mirror route"),
    }
}

#[test]
fn delete_parent() {
    let md = parent("demo");
    let r1 = reconsile(md, Cluster::empty());

    let mut md2 = r1.parent;
    md2.deletion_timestamp = Some("2024-01-01T00:00:00Z".to_string());
    let r2 = reconsile(md2, r1.cluster.clone());

    assert_eq!(r2.action, Action::AwaitChange);
    assert_eq!(reasons(&r2.events), vec!["Finalizing", "Finalized"]);
    assert_eq!(r2.parent.finalizers, Some(vec![]));
    // The pass touches no child; the API server's garbage collector cascades.
    assert_eq!(r2.cluster, r1.cluster);

    // A repeated delivery of the deletion is idempotent and silent.
    let r3 = reconsile(r2.parent, r2.cluster);
    assert_eq!(r3.action, Action::AwaitChange);
    assert!(r3.events.is_empty());
}
