//! The `ModelDeployment` custom resource: its spec, its status, and the
//! parent object itself as the reconciler sees it (name, namespace,
//! deletion timestamp, finalizers, spec and status).

use vstd::prelude::*;

verus! {

/// Spec-level image of an `Option<String>`.
pub open spec fn opt_str_view(s: Option<String>) -> Option<Seq<char>> {
    match s {
        Option::Some(x) => Option::Some(x@),
        Option::None => Option::None,
    }
}

/// Spec-level image of an `Option<i32>`.
pub open spec fn opt_int_view(s: Option<i32>) -> Option<int> {
    match s {
        Option::Some(x) => Option::Some(x as int),
        Option::None => Option::None,
    }
}

/// Desired state of one model variant: a container image and a replica count.
#[derive(Debug, Clone, PartialEq)]
pub struct ModelVariant {
    pub image: String,
    pub replicas: i32,
}

pub ghost struct ModelVariantView {
    pub image: Seq<char>,
    pub replicas: int,
}

impl View for ModelVariant {
    type V = ModelVariantView;

    open spec fn view(&self) -> ModelVariantView {
        ModelVariantView { image: self.image@, replicas: self.replicas as int }
    }
}

pub open spec fn opt_variant_view(s: Option<ModelVariant>) -> Option<ModelVariantView> {
    match s {
        Option::Some(x) => Option::Some(x@),
        Option::None => Option::None,
    }
}

/// Resource requests and limits, persisted but not consumed by the core.
#[derive(Debug, Clone, PartialEq)]
pub struct ResourceLimits {
    pub cpu: Option<String>,
    pub memory: Option<String>,
}

pub ghost struct ResourceLimitsView {
    pub cpu: Option<Seq<char>>,
    pub memory: Option<Seq<char>>,
}

impl View for ResourceLimits {
    type V = ResourceLimitsView;

    open spec fn view(&self) -> ResourceLimitsView {
        ResourceLimitsView {
            cpu: opt_str_view(self.cpu),
            memory: opt_str_view(self.memory),
        }
    }
}

pub open spec fn opt_limits_view(s: Option<ResourceLimits>) -> Option<ResourceLimitsView> {
    match s {
        Option::Some(x) => Option::Some(x@),
        Option::None => Option::None,
    }
}

#[derive(Debug, Clone, PartialEq)]
pub struct ResourceSpec {
    pub limits: Option<ResourceLimits>,
    pub requests: Option<ResourceLimits>,
}

pub ghost struct ResourceSpecView {
    pub limits: Option<ResourceLimitsView>,
    pub requests: Option<ResourceLimitsView>,
}

impl View for ResourceSpec {
    type V = ResourceSpecView;

    open spec fn view(&self) -> ResourceSpecView {
        ResourceSpecView {
            limits: opt_limits_view(self.limits),
            requests: opt_limits_view(self.requests),
        }
    }
}

/// Autoscaling bounds, persisted but not acted upon by the core.
#[derive(Debug, Clone, PartialEq)]
pub struct AutoScalingSpec {
    pub enabled: bool,
    pub min_replicas: Option<i32>,
    pub max_replicas: Option<i32>,
    pub target_cpu_utilization_percentage: Option<i32>,
}

pub ghost struct AutoScalingSpecView {
    pub enabled: bool,
    pub min_replicas: Option<int>,
    pub max_replicas: Option<int>,
    pub target_cpu_utilization_percentage: Option<int>,
}

impl View for AutoScalingSpec {
    type V = AutoScalingSpecView;

    open spec fn view(&self) -> AutoScalingSpecView {
        AutoScalingSpecView {
            enabled: self.enabled,
            min_replicas: opt_int_view(self.min_replicas),
            max_replicas: opt_int_view(self.max_replicas),
            target_cpu_utilization_percentage: opt_int_view(
                self.target_cpu_utilization_percentage,
            ),
        }
    }
}

/// Probe endpoints, persisted but not consumed by the core.
#[derive(Debug, Clone, PartialEq)]
pub struct ProbeSpec {
    pub liveness_path: String,
    pub readiness_path: String,
}

pub ghost struct ProbeSpecView {
    pub liveness_path: Seq<char>,
    pub readiness_path: Seq<char>,
}

impl View for ProbeSpec {
    type V = ProbeSpecView;

    open spec fn view(&self) -> ProbeSpecView {
        ProbeSpecView {
            liveness_path: self.liveness_path@,
            readiness_path: self.readiness_path@,
        }
    }
}

/// The declarative input: a required live variant, an optional shadow
/// variant, the traffic-mirror switch, and pass-through blocks.
#[derive(Debug, Clone, PartialEq)]
pub struct ModelDeploymentSpec {
    pub live: ModelVariant,
    pub shadow: Option<ModelVariant>,
    pub traffic_mirror: bool,
    pub rollout_strategy: String,
    pub resources: Option<ResourceSpec>,
    pub autoscaling: Option<AutoScalingSpec>,
    pub probes: Option<ProbeSpec>,
    pub config_ref: Option<String>,
}

pub ghost struct ModelDeploymentSpecView {
    pub live: ModelVariantView,
    pub shadow: Option<ModelVariantView>,
    pub traffic_mirror: bool,
    pub rollout_strategy: Seq<char>,
    pub resources: Option<ResourceSpecView>,
    pub autoscaling: Option<AutoScalingSpecView>,
    pub probes: Option<ProbeSpecView>,
    pub config_ref: Option<Seq<char>>,
}

impl View for ModelDeploymentSpec {
    type V = ModelDeploymentSpecView;

    open spec fn view(&self) -> ModelDeploymentSpecView {
        ModelDeploymentSpecView {
            live: self.live@,
            shadow: opt_variant_view(self.shadow),
            traffic_mirror: self.traffic_mirror,
            rollout_strategy: self.rollout_strategy@,
            resources: match self.resources {
                Option::Some(r) => Option::Some(r@),
                Option::None => Option::None,
            },
            autoscaling: match self.autoscaling {
                Option::Some(a) => Option::Some(a@),
                Option::None => Option::None,
            },
            probes: match self.probes {
                Option::Some(p) => Option::Some(p@),
                Option::None => Option::None,
            },
            config_ref: opt_str_view(self.config_ref),
        }
    }
}

/// Observed state of one child workload.
#[derive(Debug, Clone, Copy, PartialEq)]
pub struct ChildStatus {
    pub available_replicas: Option<i32>,
    pub updated_replicas: Option<i32>,
}

pub ghost struct ChildStatusView {
    pub available_replicas: Option<int>,
    pub updated_replicas: Option<int>,
}

impl View for ChildStatus {
    type V = ChildStatusView;

    open spec fn view(&self) -> ChildStatusView {
        ChildStatusView {
            available_replicas: opt_int_view(self.available_replicas),
            updated_replicas: opt_int_view(self.updated_replicas),
        }
    }
}

pub open spec fn opt_child_status_view(s: Option<ChildStatus>) -> Option<ChildStatusView> {
    match s {
        Option::Some(x) => Option::Some(x@),
        Option::None => Option::None,
    }
}

/// One entry of the parent's condition list.
#[derive(Debug, Clone, PartialEq)]
pub struct Condition {
    pub type_: String,
    pub status: String,
    pub reason: Option<String>,
    pub message: Option<String>,
}

pub ghost struct ConditionView {
    pub type_: Seq<char>,
    pub status: Seq<char>,
    pub reason: Option<Seq<char>>,
    pub message: Option<Seq<char>>,
}

impl View for Condition {
    type V = ConditionView;

    open spec fn view(&self) -> ConditionView {
        ConditionView {
            type_: self.type_@,
            status: self.status@,
            reason: opt_str_view(self.reason),
            message: opt_str_view(self.message),
        }
    }
}

/// The status block the core writes back onto the parent.
#[derive(Debug, Clone, PartialEq)]
pub struct ModelDeploymentStatus {
    pub phase: Option<String>,
    pub live_status: Option<ChildStatus>,
    pub shadow_status: Option<ChildStatus>,
    pub conditions: Option<Vec<Condition>>,
}

pub ghost struct ModelDeploymentStatusView {
    pub phase: Option<Seq<char>>,
    pub live_status: Option<ChildStatusView>,
    pub shadow_status: Option<ChildStatusView>,
    pub conditions: Option<Seq<ConditionView>>,
}

impl View for ModelDeploymentStatus {
    type V = ModelDeploymentStatusView;

    open spec fn view(&self) -> ModelDeploymentStatusView {
        ModelDeploymentStatusView {
            phase: opt_str_view(self.phase),
            live_status: opt_child_status_view(self.live_status),
            shadow_status: opt_child_status_view(self.shadow_status),
            conditions: match self.conditions {
                Option::Some(cs) => Option::Some(cs@.map_values(|c: Condition| c@)),
                Option::None => Option::None,
            },
        }
    }
}

/// The parent object as the reconciler sees it: identifying metadata,
/// lifecycle metadata, the declared spec, and the last observed status.
#[derive(Debug, Clone, PartialEq)]
pub struct ModelDeployment {
    pub name: String,
    pub namespace: Option<String>,
    pub uid: String,
    pub deletion_timestamp: Option<String>,
    pub finalizers: Option<Vec<String>>,
    pub spec: ModelDeploymentSpec,
    pub status: Option<ModelDeploymentStatus>,
}

pub ghost struct ModelDeploymentView {
    pub name: Seq<char>,
    pub namespace: Option<Seq<char>>,
    pub uid: Seq<char>,
    pub deletion_timestamp: Option<Seq<char>>,
    pub finalizers: Option<Seq<Seq<char>>>,
    pub spec: ModelDeploymentSpecView,
    pub status: Option<ModelDeploymentStatusView>,
}

impl View for ModelDeployment {
    type V = ModelDeploymentView;

    open spec fn view(&self) -> ModelDeploymentView {
        ModelDeploymentView {
            name: self.name@,
            namespace: opt_str_view(self.namespace),
            uid: self.uid@,
            deletion_timestamp: opt_str_view(self.deletion_timestamp),
            finalizers: match self.finalizers {
                Option::Some(fs) => Option::Some(fs@.map_values(|f: String| f@)),
                Option::None => Option::None,
            },
            spec: self.spec@,
            status: match self.status {
                Option::Some(st) => Option::Some(st@),
                Option::None => Option::None,
            },
        }
    }
}

/// The default replica count for a variant that does not give one.
pub fn default_replicas() -> (r: i32)
    ensures
        r == 1,
{
    1
}

/// The default rollout strategy.
pub fn default_rollout() -> (r: String)
    ensures
        r@ == "rolling"@,
{
    "rolling".to_owned()
}

/// The default liveness probe path.
pub fn default_liveness() -> (r: String)
    ensures
        r@ == "/health"@,
{
    "/health".to_owned()
}

/// The default readiness probe path.
pub fn default_readiness() -> (r: String)
    ensures
        r@ == "/ready"@,
{
    "/ready".to_owned()
}

} // verus!
