use model_operator::child::{
    DeploymentType, build_deployment, build_ingress_route, build_service, build_traefik_service,
    Child,
};
use model_operator::codec::serialize_child;
use model_operator::crd::{ModelDeployment, ModelDeploymentSpec, ModelVariant};
use model_operator::fingerprint::fingerprint;
use sha2::Digest;

fn parent(name: &str) -> ModelDeployment {
    ModelDeployment {
        name: name.to_string(),
        namespace: Some("ns1".to_string()),
        uid: "uid-1234".to_string(),
        deletion_timestamp: None,
        finalizers: None,
        spec: ModelDeploymentSpec {
            live: ModelVariant { image: "m:1".to_string(), replicas: 2 },
            shadow: None,
            traffic_mirror: false,
            rollout_strategy: "rolling".to_string(),
            resources: None,
            autoscaling: None,
            probes: None,
            config_ref: None,
        },
        status: None,
    }
}

#[test]
fn fingerprint_stable_across_invocations() {
    let md = parent("demo");
    let a = Child::Service(build_service(&md, "demo", DeploymentType::Live));
    let b = Child::Service(build_service(&md, "demo", DeploymentType::Live));
    assert_eq!(fingerprint(&a), fingerprint(&b));
}

#[test]
fn serialize_then_hash_matches_direct_digest() {
    let md = parent("demo");
    let child = Child::Workload(build_deployment(&md, "demo-live", "demo", "m:1", 2, DeploymentType::Live));
    let canonical: String = serialize_child(&child).into_iter().collect();
    let digest = sha2::Sha256::digest(canonical.as_bytes());
    let mut expected = String::new();
    for byte in digest {
        expected.push_str(&format!("{:02x}", byte));
    }
    assert_eq!(fingerprint(&child), expected);
}

#[test]
fn fingerprint_is_sha256_hex_shape() {
    let md = parent("demo");
    let child = Child::Service(build_service(&md, "demo", DeploymentType::Shadow));
    let fp = fingerprint(&child);
    assert_eq!(fp.len(), 64);
    assert!(fp.chars().all(|c| c.is_ascii_hexdigit() && !c.is_ascii_uppercase()));
}

#[test]
fn canonical_form_is_valid_json_with_sorted_keys() {
    let md = parent("demo");
    let child = Child::Workload(build_deployment(&md, "demo-live", "demo", "m:1", 2, DeploymentType::Live));
    let canonical: String = serialize_child(&child).into_iter().collect();
    let value: serde_json::Value = serde_json::from_str(&canonical).unwrap();
    assert_eq!(value["kind"], "Deployment");
    assert_eq!(value["apiVersion"], "apps/v1");
    assert_eq!(value["metadata"]["name"], "demo-live");
    assert_eq!(value["metadata"]["labels"]["app"], "demo");
    assert_eq!(value["metadata"]["labels"]["role"], "live");
    assert_eq!(value["metadata"]["ownerReferences"][0]["name"], "demo");
    assert_eq!(value["metadata"]["ownerReferences"][0]["controller"], true);
    assert_eq!(value["spec"]["replicas"], 2);
    assert_eq!(value["spec"]["template"]["spec"]["containers"][0]["image"], "m:1");
    assert_eq!(
        value["spec"]["template"]["spec"]["containers"][0]["ports"][0]["containerPort"],
        8000
    );
    // Keys appear in sorted order in the serialized text.
    let api_pos = canonical.find("\"apiVersion\"").unwrap();
    let kind_pos = canonical.find("\"kind\"").unwrap();
    let meta_pos = canonical.find("\"metadata\"").unwrap();
    let spec_pos = canonical.find("\"spec\"").unwrap();
    assert!(api_pos < kind_pos && kind_pos < meta_pos && meta_pos < spec_pos);
}

#[test]
fn string_escaping_round_trips_through_json() {
    let md = parent("de\"mo\\x");
    let child = Child::Service(build_service(&md, "de\"mo\\x", DeploymentType::Live));
    let canonical: String = serialize_child(&child).into_iter().collect();
    let value: serde_json::Value = serde_json::from_str(&canonical).unwrap();
    assert_eq!(value["metadata"]["labels"]["app"], "de\"mo\\x");
}

#[test]
fn canonical_form_round_trips_byte_identically() {
    let md = parent("demo");
    let children = vec![
        Child::Service(build_service(&md, "demo", DeploymentType::Live)),
        Child::Workload(build_deployment(&md, "demo-live", "demo", "m:1", 2, DeploymentType::Live)),
        Child::Mirror(build_traefik_service(&md, "demo", "ns1")),
        Child::Ingress(build_ingress_route(&md, "demo", "ns1")),
    ];
    for child in &children {
        let canonical: String = serialize_child(child).into_iter().collect();
        let value: serde_json::Value = serde_json::from_str(&canonical).unwrap();
        // Re-serializing the parsed tree gives back the exact canonical text.
        assert_eq!(serde_json::to_string(&value).unwrap(), canonical);
    }
}

#[test]
fn fingerprint_annotation_key() {
    assert_eq!(
        model_operator::fingerprint::fingerprint_annotation(),
        "ml.jedimindtricks.example/desired-fingerprint"
    );
}

#[test]
fn control_characters_escape_to_canonical_json() {
    let md = parent("demo");
    let child = Child::Workload(build_deployment(
        &md,
        "demo-live",
        "demo",
        "m:\u{1}tag",
        1,
        DeploymentType::Live,
    ));
    let canonical: String = serialize_child(&child).into_iter().collect();
    assert!(canonical.contains("\\u0001"));
    let value: serde_json::Value = serde_json::from_str(&canonical).unwrap();
    assert_eq!(value["spec"]["template"]["spec"]["containers"][0]["image"], "m:\u{1}tag");
    assert_eq!(serde_json::to_string(&value).unwrap(), canonical);
}

#[test]
fn different_content_changes_fingerprint() {
    let md = parent("demo");
    let two = Child::Workload(build_deployment(&md, "demo-live", "demo", "m:1", 2, DeploymentType::Live));
    let five = Child::Workload(build_deployment(&md, "demo-live", "demo", "m:1", 5, DeploymentType::Live));
    assert_ne!(fingerprint(&two), fingerprint(&five));
}
