//! The reconcile orchestrator, modeled against a snapshot of the cluster
//! objects the parent owns: the fingerprint-gated apply engine, the per-child
//! convergence steps, and the single linear pass with its deletion branch,
//! status write and event trail.

use vstd::prelude::*;
use vstd::string::*;
use crate::child::{
    Child, ChildView, ChildMetaView, DeploymentType, build_service, build_deployment,
    build_traefik_service, build_ingress_route, spec_service_child, spec_workload_child,
    spec_mirror_child, spec_ingress_child, spec_owner_ref,
};
use crate::crd::{
    ChildStatus, ChildStatusView, ModelDeployment, ModelDeploymentView, ModelDeploymentStatus,
    ModelVariantView, opt_child_status_view,
};
use crate::error::Error;
use crate::event::{
    Event, EventView, EventType, Outcome, emit_event, spec_event, with_event,
};
use crate::finalizer::{
    finalizer_sentinel, spec_finalizer, spec_has_finalizer, spec_is_deleting, spec_add_finalizer,
    spec_remove_finalizer, spec_finalizer_list, is_deleting, has_finalizer,
    ensure_finalizer_present, remove_finalizer, lemma_remove_finalizer_absent,
};
use crate::fingerprint::{fingerprint, fp_spec};
use crate::status::{compute_model_deployment_status, spec_status};

verus! {

/// A child object as it stands in the cluster: its content, the fingerprint
/// annotation the last apply stamped on it, and (for workloads) the status
/// its controller reports.
#[derive(Debug, Clone, PartialEq)]
pub struct StoredChild {
    pub child: Child,
    pub fp: String,
    pub status: Option<ChildStatus>,
}

pub ghost struct StoredChildView {
    pub child: ChildView,
    pub fp: Seq<char>,
    pub status: Option<ChildStatusView>,
}

impl View for StoredChild {
    type V = StoredChildView;

    open spec fn view(&self) -> StoredChildView {
        StoredChildView {
            child: self.child@,
            fp: self.fp@,
            status: opt_child_status_view(self.status),
        }
    }
}

pub open spec fn opt_stored_view(s: Option<StoredChild>) -> Option<StoredChildView> {
    match s {
        Option::Some(st) => Option::Some(st@),
        Option::None => Option::None,
    }
}

/// The cluster objects one parent owns, by their fixed slots.
#[derive(Debug, Clone, PartialEq)]
pub struct Cluster {
    pub live_svc: Option<StoredChild>,
    pub shadow_svc: Option<StoredChild>,
    pub live_workload: Option<StoredChild>,
    pub shadow_workload: Option<StoredChild>,
    pub mirror_route: Option<StoredChild>,
    pub ingress_route: Option<StoredChild>,
}

pub ghost struct ClusterView {
    pub live_svc: Option<StoredChildView>,
    pub shadow_svc: Option<StoredChildView>,
    pub live_workload: Option<StoredChildView>,
    pub shadow_workload: Option<StoredChildView>,
    pub mirror_route: Option<StoredChildView>,
    pub ingress_route: Option<StoredChildView>,
}

impl View for Cluster {
    type V = ClusterView;

    open spec fn view(&self) -> ClusterView {
        ClusterView {
            live_svc: opt_stored_view(self.live_svc),
            shadow_svc: opt_stored_view(self.shadow_svc),
            live_workload: opt_stored_view(self.live_workload),
            shadow_workload: opt_stored_view(self.shadow_workload),
            mirror_route: opt_stored_view(self.mirror_route),
            ingress_route: opt_stored_view(self.ingress_route),
        }
    }
}

impl Cluster {
    /// A cluster with no children yet.
    pub fn empty() -> (r: Cluster)
        ensures
            r@.live_svc is None,
            r@.shadow_svc is None,
            r@.live_workload is None,
            r@.shadow_workload is None,
            r@.mirror_route is None,
            r@.ingress_route is None,
    {
        Cluster {
            live_svc: None,
            shadow_svc: None,
            live_workload: None,
            shadow_workload: None,
            mirror_route: None,
            ingress_route: None,
        }
    }
}

/// What the orchestrator asks of the dispatcher after a pass.
#[derive(Debug, Clone, Copy, PartialEq, Eq, Structural)]
pub enum Action {
    /// Wait for the next change notification; no periodic requeue.
    AwaitChange,
    /// Requeue after the given number of seconds.
    RequeueSecs(u64),
}

/// Everything one reconcile pass produces: the updated parent, the updated
/// cluster snapshot, the events published on the parent, in order, and the
/// requeue decision.
#[derive(Debug, Clone, PartialEq)]
pub struct PassResult {
    pub parent: ModelDeployment,
    pub cluster: Cluster,
    pub events: Vec<Event>,
    pub action: Action,
}

/// The fingerprint-gated apply: skip when the stored fingerprint annotation
/// equals the desired fingerprint, otherwise store the desired child stamped
/// with its fingerprint, keeping any reported status; `Created` when there
/// was no prior object, `Updated` otherwise.
pub open spec fn spec_apply(existing: Option<StoredChildView>, desired: ChildView) -> (
    Outcome,
    StoredChildView,
) {
    let fp = fp_spec(desired);
    match existing {
        Option::Some(st) => if st.fp == fp {
            (Outcome::NoOp, st)
        } else {
            (Outcome::Updated, StoredChildView { child: desired, fp: fp, status: st.status })
        },
        Option::None => (
            Outcome::Created,
            StoredChildView { child: desired, fp: fp, status: Option::None },
        ),
    }
}

/// Converges one cluster object onto its desired content, gated by the
/// fingerprint annotation.
pub fn reconsile_resource(existing: Option<StoredChild>, desired: Child) -> (r: (
    Outcome,
    StoredChild,
))
    ensures
        r.0 == spec_apply(opt_stored_view(existing), desired@).0,
        r.1@ == spec_apply(opt_stored_view(existing), desired@).1,
{
    let fp = fingerprint(&desired);
    match existing {
        Some(st) => {
            if st.fp == fp {
                (Outcome::NoOp, st)
            } else {
                (Outcome::Updated, StoredChild { child: desired, fp: fp, status: st.status })
            }
        },
        None => (Outcome::Created, StoredChild { child: desired, fp: fp, status: None }),
    }
}

/// Converges the service child for one role.
pub fn ensure_service(
    existing: Option<StoredChild>,
    md: &ModelDeployment,
    base_name: &str,
    role: DeploymentType,
) -> (r: (Outcome, StoredChild))
    requires
        base_name@ == md@.name,
    ensures
        r.0 == spec_apply(
            opt_stored_view(existing),
            ChildView::Service(spec_service_child(md@, role)),
        ).0,
        r.1@ == spec_apply(
            opt_stored_view(existing),
            ChildView::Service(spec_service_child(md@, role)),
        ).1,
{
    let svc = build_service(md, base_name, role);
    reconsile_resource(existing, Child::Service(svc))
}

/// Converges the workload child for one role.
pub fn ensure_deployment(
    existing: Option<StoredChild>,
    md: &ModelDeployment,
    deployment_name: &str,
    base_name: &str,
    image: &str,
    replicas: i32,
    role: DeploymentType,
) -> (r: (Outcome, StoredChild))
    requires
        base_name@ == md@.name,
    ensures
        r.0 == spec_apply(
            opt_stored_view(existing),
            ChildView::Workload(
                spec_workload_child(md@, deployment_name@, image@, replicas as int, role),
            ),
        ).0,
        r.1@ == spec_apply(
            opt_stored_view(existing),
            ChildView::Workload(
                spec_workload_child(md@, deployment_name@, image@, replicas as int, role),
            ),
        ).1,
{
    let deploy = build_deployment(md, deployment_name, base_name, image, replicas, role);
    reconsile_resource(existing, Child::Workload(deploy))
}

/// Converges the mirror route child.
pub fn ensure_traefik_service(
    existing: Option<StoredChild>,
    md: &ModelDeployment,
    base_name: &str,
    ns: &str,
) -> (r: (Outcome, StoredChild))
    requires
        base_name@ == md@.name,
    ensures
        r.0 == spec_apply(
            opt_stored_view(existing),
            ChildView::Mirror(spec_mirror_child(md@, ns@)),
        ).0,
        r.1@ == spec_apply(
            opt_stored_view(existing),
            ChildView::Mirror(spec_mirror_child(md@, ns@)),
        ).1,
{
    let obj = build_traefik_service(md, base_name, ns);
    reconsile_resource(existing, Child::Mirror(obj))
}

/// Converges the ingress route child.
pub fn ensure_ingress_route(
    existing: Option<StoredChild>,
    md: &ModelDeployment,
    base_name: &str,
    ns: &str,
) -> (r: (Outcome, StoredChild))
    requires
        base_name@ == md@.name,
    ensures
        r.0 == spec_apply(
            opt_stored_view(existing),
            ChildView::Ingress(spec_ingress_child(md@, ns@)),
        ).0,
        r.1@ == spec_apply(
            opt_stored_view(existing),
            ChildView::Ingress(spec_ingress_child(md@, ns@)),
        ).1,
{
    let obj = build_ingress_route(md, base_name, ns);
    reconsile_resource(existing, Child::Ingress(obj))
}

/// The observation read back for one workload slot: absent when the object
/// is absent, otherwise its reported counts (zeroed fields when it has not
/// reported yet).
pub open spec fn spec_child_status_of(st: Option<StoredChildView>) -> Option<ChildStatusView> {
    match st {
        Option::Some(s) => Option::Some(
            match s.status {
                Option::Some(cs) => cs,
                Option::None => ChildStatusView {
                    available_replicas: Option::None,
                    updated_replicas: Option::None,
                },
            },
        ),
        Option::None => Option::None,
    }
}

/// Reads the two workload observations from the cluster snapshot.
pub fn get_child_status(cluster: &Cluster) -> (r: (Option<ChildStatus>, Option<ChildStatus>))
    ensures
        opt_child_status_view(r.0) == spec_child_status_of(cluster@.live_workload),
        opt_child_status_view(r.1) == spec_child_status_of(cluster@.shadow_workload),
{
    let live = match &cluster.live_workload {
        Some(st) => Some(
            match st.status {
                Some(cs) => cs,
                None => ChildStatus { available_replicas: None, updated_replicas: None },
            },
        ),
        None => None,
    };
    let shadow = match &cluster.shadow_workload {
        Some(st) => Some(
            match st.status {
                Some(cs) => cs,
                None => ChildStatus { available_replicas: None, updated_replicas: None },
            },
        ),
        None => None,
    };
    (live, shadow)
}

/// Writes the status payload onto the parent.
pub fn update_status(md: ModelDeployment, status: ModelDeploymentStatus) -> (r: ModelDeployment)
    ensures
        r@ == (ModelDeploymentView { status: Option::Some(status@), ..md@ }),
{
    ModelDeployment {
        name: md.name,
        namespace: md.namespace,
        uid: md.uid,
        deletion_timestamp: md.deletion_timestamp,
        finalizers: md.finalizers,
        spec: md.spec,
        status: Some(status),
    }
}

/// The dispatcher's error policy: any failed pass is retried after ten
/// seconds.
pub fn error_policy(_object: &ModelDeployment, _error: &Error) -> (r: Action)
    ensures
        r == Action::RequeueSecs(10),
{
    Action::RequeueSecs(10)
}

/// The namespace children are created in: the parent's, or `default`.
pub open spec fn spec_ns(md: ModelDeploymentView) -> Seq<char> {
    match md.namespace {
        Option::Some(ns) => ns,
        Option::None => "default"@,
    }
}

pub open spec fn spec_desired_live_svc(md: ModelDeploymentView) -> ChildView {
    ChildView::Service(spec_service_child(md, DeploymentType::Live))
}

pub open spec fn spec_desired_shadow_svc(md: ModelDeploymentView) -> ChildView {
    ChildView::Service(spec_service_child(md, DeploymentType::Shadow))
}

pub open spec fn spec_desired_live_workload(md: ModelDeploymentView) -> ChildView {
    ChildView::Workload(
        spec_workload_child(
            md,
            md.name + "-live"@,
            md.spec.live.image,
            md.spec.live.replicas,
            DeploymentType::Live,
        ),
    )
}

pub open spec fn spec_desired_shadow_workload(
    md: ModelDeploymentView,
    sh: ModelVariantView,
) -> ChildView {
    ChildView::Workload(
        spec_workload_child(md, md.name + "-shadow"@, sh.image, sh.replicas, DeploymentType::Shadow),
    )
}

pub open spec fn spec_desired_mirror(md: ModelDeploymentView) -> ChildView {
    ChildView::Mirror(spec_mirror_child(md, spec_ns(md)))
}

pub open spec fn spec_desired_ingress(md: ModelDeploymentView) -> ChildView {
    ChildView::Ingress(spec_ingress_child(md, spec_ns(md)))
}

/// The outcome of the finalizer step: a write exactly when the sentinel was
/// absent.
pub open spec fn spec_fin_outcome(md: ModelDeploymentView) -> Outcome {
    if spec_has_finalizer(md, spec_finalizer()) {
        Outcome::NoOp
    } else {
        Outcome::Created
    }
}

/// The cluster after one pass's writes: both live children always, the
/// shadow pair when declared, the two routes when mirroring is on; every
/// other slot untouched.
pub open spec fn spec_pass_cluster(md: ModelDeploymentView, c: ClusterView) -> ClusterView {
    ClusterView {
        live_svc: Option::Some(spec_apply(c.live_svc, spec_desired_live_svc(md)).1),
        shadow_svc: match md.spec.shadow {
            Option::Some(_) => Option::Some(
                spec_apply(c.shadow_svc, spec_desired_shadow_svc(md)).1,
            ),
            Option::None => c.shadow_svc,
        },
        live_workload: Option::Some(spec_apply(c.live_workload, spec_desired_live_workload(md)).1),
        shadow_workload: match md.spec.shadow {
            Option::Some(sh) => Option::Some(
                spec_apply(c.shadow_workload, spec_desired_shadow_workload(md, sh)).1,
            ),
            Option::None => c.shadow_workload,
        },
        mirror_route: if md.spec.traffic_mirror {
            Option::Some(spec_apply(c.mirror_route, spec_desired_mirror(md)).1)
        } else {
            c.mirror_route
        },
        ingress_route: if md.spec.traffic_mirror {
            Option::Some(spec_apply(c.ingress_route, spec_desired_ingress(md)).1)
        } else {
            c.ingress_route
        },
    }
}

/// Whether any child-convergence step wrote.
pub open spec fn spec_children_changed(md: ModelDeploymentView, c: ClusterView) -> bool {
    spec_apply(c.live_svc, spec_desired_live_svc(md)).0 != Outcome::NoOp || (
    match md.spec.shadow {
        Option::Some(_) => spec_apply(c.shadow_svc, spec_desired_shadow_svc(md)).0
            != Outcome::NoOp,
        Option::None => false,
    }) || spec_apply(c.live_workload, spec_desired_live_workload(md)).0 != Outcome::NoOp || (
    match md.spec.shadow {
        Option::Some(sh) => spec_apply(c.shadow_workload, spec_desired_shadow_workload(md, sh)).0
            != Outcome::NoOp,
        Option::None => false,
    }) || (md.spec.traffic_mirror && spec_apply(c.mirror_route, spec_desired_mirror(md)).0
        != Outcome::NoOp) || (md.spec.traffic_mirror && spec_apply(
        c.ingress_route,
        spec_desired_ingress(md),
    ).0 != Outcome::NoOp)
}

/// Whether any step of the pass wrote.
pub open spec fn spec_changed(md: ModelDeploymentView, c: ClusterView) -> bool {
    spec_fin_outcome(md) != Outcome::NoOp || spec_children_changed(md, c)
}

/// The events one step earns: none on a no-op, one Normal event otherwise.
pub open spec fn success_evs(o: Outcome, reason: Seq<char>, msg: Seq<char>) -> Seq<EventView> {
    if o == Outcome::NoOp {
        Seq::empty()
    } else {
        seq![spec_event(reason, msg, EventType::Normal)]
    }
}

/// The events the child-convergence steps earn, in publication order.
pub open spec fn spec_children_events(md: ModelDeploymentView, c: ClusterView) -> Seq<EventView> {
    success_evs(
        spec_apply(c.live_svc, spec_desired_live_svc(md)).0,
        "LiveSvcCreated"@,
        "Created live svc for ModelDeployment"@,
    ) + (match md.spec.shadow {
        Option::Some(_) => success_evs(
            spec_apply(c.shadow_svc, spec_desired_shadow_svc(md)).0,
            "ShadowSvcCreated"@,
            "Created shadow svc for ModelDeployment"@,
        ),
        Option::None => Seq::<EventView>::empty(),
    }) + success_evs(
        spec_apply(c.live_workload, spec_desired_live_workload(md)).0,
        "LiveDeploymentCreated"@,
        "Created live Deployment"@,
    ) + (match md.spec.shadow {
        Option::Some(sh) => success_evs(
            spec_apply(c.shadow_workload, spec_desired_shadow_workload(md, sh)).0,
            "ShadowDeploymentCreated"@,
            "Created shadow Deployment"@,
        ),
        Option::None => Seq::<EventView>::empty(),
    }) + (if md.spec.traffic_mirror {
        success_evs(
            spec_apply(c.mirror_route, spec_desired_mirror(md)).0,
            "TraefikServiceCreated"@,
            "Created Traefik Service"@,
        )
    } else {
        Seq::<EventView>::empty()
    }) + (if md.spec.traffic_mirror {
        success_evs(
            spec_apply(c.ingress_route, spec_desired_ingress(md)).0,
            "IngressRouteCreated"@,
            "Created Ingress Route"@,
        )
    } else {
        Seq::<EventView>::empty()
    })
}

/// The events of one non-deleting pass, in publication order, closed by the
/// terminal Reconciled event exactly when something changed.
pub open spec fn spec_pass_events(md: ModelDeploymentView, c: ClusterView) -> Seq<EventView> {
    success_evs(
        spec_fin_outcome(md),
        "FinalizerCreated"@,
        "Created finalizer for ModelDeployment"@,
    ) + spec_children_events(md, c) + (if spec_changed(md, c) {
        seq![spec_event("Reconciled"@, "Reconciliation completed"@, EventType::Normal)]
    } else {
        Seq::<EventView>::empty()
    })
}

/// The parent with the sentinel ensured.
pub open spec fn spec_ensure_finalizer(md: ModelDeploymentView) -> ModelDeploymentView {
    if spec_has_finalizer(md, spec_finalizer()) {
        md
    } else {
        spec_add_finalizer(md, spec_finalizer())
    }
}

/// The parent after one non-deleting pass: sentinel ensured and status
/// recomputed from the post-write workload observations.
pub open spec fn spec_pass_parent(md: ModelDeploymentView, c: ClusterView) -> ModelDeploymentView {
    let c2 = spec_pass_cluster(md, c);
    ModelDeploymentView {
        status: Option::Some(
            spec_status(
                md.spec,
                spec_child_status_of(c2.live_workload),
                spec_child_status_of(c2.shadow_workload),
            ),
        ),
        ..spec_ensure_finalizer(md)
    }
}

/// The parent after the deletion branch: the sentinel stripped when it was
/// present.
pub open spec fn spec_deletion_parent(md: ModelDeploymentView) -> ModelDeploymentView {
    if spec_has_finalizer(md, spec_finalizer()) {
        spec_remove_finalizer(md, spec_finalizer())
    } else {
        md
    }
}

/// The events of the deletion branch.
pub open spec fn spec_deletion_events(md: ModelDeploymentView) -> Seq<EventView> {
    if spec_has_finalizer(md, spec_finalizer()) {
        seq![
            spec_event("Finalizing"@, "Deletion requested; running finalizer."@, EventType::Normal),
            spec_event(
                "Finalized"@,
                "Finalizer complete; allowing deletion."@,
                EventType::Normal,
            ),
        ]
    } else {
        Seq::<EventView>::empty()
    }
}

/// The desired children depend only on the parent's identity, namespace and
/// spec, not on its finalizers, deletion timestamp or status.
proof fn lemma_desired_ignore_lifecycle(a: ModelDeploymentView, b: ModelDeploymentView)
    requires
        a.name == b.name,
        a.uid == b.uid,
        a.namespace == b.namespace,
        a.spec == b.spec,
    ensures
        spec_desired_live_svc(a) == spec_desired_live_svc(b),
        spec_desired_shadow_svc(a) == spec_desired_shadow_svc(b),
        spec_desired_live_workload(a) == spec_desired_live_workload(b),
        forall|sh: ModelVariantView| #[trigger] spec_desired_shadow_workload(a, sh)
            == spec_desired_shadow_workload(b, sh),
        spec_desired_mirror(a) == spec_desired_mirror(b),
        spec_desired_ingress(a) == spec_desired_ingress(b),
{
}

/// One reconcile pass: the deletion branch strips the sentinel and awaits
/// change; otherwise the sentinel is ensured, every declared child is
/// converged in order, the status is recomputed from the post-write
/// observations, the event trail is published, and the pass requeues after
/// sixty seconds.
pub fn reconsile(md: ModelDeployment, cluster: Cluster) -> (r: PassResult)
    ensures
        spec_is_deleting(md@) ==> r.action == Action::AwaitChange && r.cluster@ == cluster@
            && r.parent@ == spec_deletion_parent(md@) && r.events@.map_values(|e: Event| e@)
            == spec_deletion_events(md@),
        !spec_is_deleting(md@) ==> r.action == Action::RequeueSecs(60) && r.cluster@
            == spec_pass_cluster(md@, cluster@) && r.parent@ == spec_pass_parent(md@, cluster@)
            && r.events@.map_values(|e: Event| e@) == spec_pass_events(md@, cluster@),
{
    let ghost md0 = md@;
    let mut events: Vec<Event> = Vec::new();
    let fin = finalizer_sentinel();

    if is_deleting(&md) {
        if has_finalizer(&md, fin) {
            let ev = emit_event(
                "Finalizing",
                "Deletion requested; running finalizer.",
                EventType::Normal,
            );
            events.push(ev);
            let (out, md2) = remove_finalizer(md, fin);
            let (_res, ev2) = with_event(
                Ok(out),
                "Finalizer complete; allowing deletion.",
                "Finalized",
                "FinalizingFailed",
            );
            if let Some(e2) = ev2 {
                events.push(e2);
            }
            proof {
                assert(events@.map_values(|e: Event| e@) =~= spec_deletion_events(md0));
            }
            return PassResult {
                parent: md2,
                cluster: cluster,
                events: events,
                action: Action::AwaitChange,
            };
        } else {
            proof {
                assert(events@.map_values(|e: Event| e@) =~= spec_deletion_events(md0));
            }
            return PassResult {
                parent: md,
                cluster: cluster,
                events: events,
                action: Action::AwaitChange,
            };
        }
    }

    reconsile_active(md, cluster)
}

/// The non-deleting pass: sentinel, children, status, events, requeue.
#[verifier::rlimit(100)]
fn reconsile_active(md: ModelDeployment, cluster: Cluster) -> (r: PassResult)
    requires
        !spec_is_deleting(md@),
    ensures
        r.action == Action::RequeueSecs(60),
        r.cluster@ == spec_pass_cluster(md@, cluster@),
        r.parent@ == spec_pass_parent(md@, cluster@),
        r.events@.map_values(|e: Event| e@) == spec_pass_events(md@, cluster@),
{
    let ghost md0 = md@;
    let ghost c0 = cluster@;
    let mut events: Vec<Event> = Vec::new();
    let fin = finalizer_sentinel();

    let base_name = md.name.clone();
    let ns = match &md.namespace {
        Some(n) => n.clone(),
        None => String::from_str("default"),
    };

    // Ensure the sentinel before any child is created.
    let (o_fin, md1) = ensure_finalizer_present(md, fin);
    let (_r0, ev0) = with_event(
        Ok(o_fin),
        "Created finalizer for ModelDeployment",
        "FinalizerCreated",
        "FinalizerFailed",
    );
    if let Some(e) = ev0 {
        events.push(e);
    }
    proof {
        assert(o_fin == spec_fin_outcome(md0));
        assert(md1@ == spec_ensure_finalizer(md0));
        lemma_desired_ignore_lifecycle(md1@, md0);
        assert(events@.map_values(|e: Event| e@) =~= success_evs(
            spec_fin_outcome(md0),
            "FinalizerCreated"@,
            "Created finalizer for ModelDeployment"@,
        ));
    }
    let ghost seg0 = success_evs(
        spec_fin_outcome(md0),
        "FinalizerCreated"@,
        "Created finalizer for ModelDeployment"@,
    );

    let (cluster_new, ch_changed) = converge_children(
        &md1,
        cluster,
        base_name.as_str(),
        ns.as_str(),
        &mut events,
    );
    let changed = o_fin != Outcome::NoOp || ch_changed;
    proof {
        lemma_pass_parts_ignore_lifecycle(md1@, md0, c0);
        assert(cluster_new@ == spec_pass_cluster(md0, c0));
        assert(changed == spec_changed(md0, c0));
        assert(events@.map_values(|e: Event| e@) =~= seg0 + spec_children_events(md0, c0));
    }

    // Status is computed after all desired writes of this pass.
    let (live_obs, shadow_obs) = get_child_status(&cluster_new);
    let status = compute_model_deployment_status(&md1.spec, &live_obs, &shadow_obs);
    let md2 = update_status(md1, status);

    if changed {
        let ev = emit_event("Reconciled", "Reconciliation completed", EventType::Normal);
        events.push(ev);
    }
    proof {
        assert(events@.map_values(|e: Event| e@) =~= spec_pass_events(md0, c0));
        assert(md2@ == spec_pass_parent(md0, c0));
    }

    PassResult {
        parent: md2,
        cluster: cluster_new,
        events: events,
        action: Action::RequeueSecs(60),
    }
}

/// The pass converges the same children for two parents that differ only in
/// lifecycle metadata (finalizers, deletion timestamp, status).
proof fn lemma_pass_parts_ignore_lifecycle(
    a: ModelDeploymentView,
    b: ModelDeploymentView,
    c: ClusterView,
)
    requires
        a.name == b.name,
        a.uid == b.uid,
        a.namespace == b.namespace,
        a.spec == b.spec,
    ensures
        spec_pass_cluster(a, c) == spec_pass_cluster(b, c),
        spec_children_changed(a, c) == spec_children_changed(b, c),
        spec_children_events(a, c) == spec_children_events(b, c),
{
    lemma_desired_ignore_lifecycle(a, b);
}

/// Converges every declared child in order — live service, shadow service,
/// live workload, shadow workload, then the two routes — appending each
/// step's event and reporting whether anything was written.
#[verifier::rlimit(100)]
fn converge_children(
    md: &ModelDeployment,
    cluster: Cluster,
    base_name: &str,
    ns: &str,
    events: &mut Vec<Event>,
) -> (r: (Cluster, bool))
    requires
        base_name@ == md@.name,
        ns@ == spec_ns(md@),
    ensures
        r.0@ == spec_pass_cluster(md@, cluster@),
        r.1 == spec_children_changed(md@, cluster@),
        final(events)@.map_values(|e: Event| e@) == old(events)@.map_values(|e: Event| e@)
            + spec_children_events(md@, cluster@),
{
    let ghost md0 = md@;
    let ghost c0 = cluster@;
    let mut changed = false;

    let Cluster { live_svc, shadow_svc, live_workload, shadow_workload, mirror_route, ingress_route }
        = cluster;

    // Services precede workloads so pods land on an existing selector
    // target.
    let (o_lsvc, st_lsvc) = ensure_service(live_svc, md, base_name, DeploymentType::Live);
    let (_r1, ev1) = with_event(
        Ok(o_lsvc),
        "Created live svc for ModelDeployment",
        "LiveSvcCreated",
        "LiveSvcFailed",
    );
    if let Some(e) = ev1 {
        events.push(e);
    }
    changed = changed || o_lsvc != Outcome::NoOp;
    let ghost ev_base = old(events)@.map_values(|e: Event| e@);
    let ghost seg1 = success_evs(
        spec_apply(c0.live_svc, spec_desired_live_svc(md0)).0,
        "LiveSvcCreated"@,
        "Created live svc for ModelDeployment"@,
    );
    proof {
        assert(o_lsvc == spec_apply(c0.live_svc, spec_desired_live_svc(md0)).0);
        assert(events@.map_values(|e: Event| e@) =~= ev_base + seg1);
    }

    let mut shadow_svc_slot = shadow_svc;
    if md.spec.shadow.is_some() {
        let taken = shadow_svc_slot;
        let (o, st) = ensure_service(taken, md, base_name, DeploymentType::Shadow);
        shadow_svc_slot = Some(st);
        let (_r2, ev2) = with_event(
            Ok(o),
            "Created shadow svc for ModelDeployment",
            "ShadowSvcCreated",
            "ShadowSvcFailed",
        );
        if let Some(e) = ev2 {
            events.push(e);
        }
        changed = changed || o != Outcome::NoOp;
    }
    let ghost seg2 = match md0.spec.shadow {
        Option::Some(_) => success_evs(
            spec_apply(c0.shadow_svc, spec_desired_shadow_svc(md0)).0,
            "ShadowSvcCreated"@,
            "Created shadow svc for ModelDeployment"@,
        ),
        Option::None => Seq::<EventView>::empty(),
    };
    proof {
        assert(events@.map_values(|e: Event| e@) =~= ev_base + seg1 + seg2);
    }

    let live_name = String::from_str(base_name).concat("-live");
    let (o_lwl, st_lwl) = ensure_deployment(
        live_workload,
        md,
        live_name.as_str(),
        base_name,
        md.spec.live.image.as_str(),
        md.spec.live.replicas,
        DeploymentType::Live,
    );
    let (_r3, ev3) = with_event(
        Ok(o_lwl),
        "Created live Deployment",
        "LiveDeploymentCreated",
        "LiveDeploymentFailed",
    );
    if let Some(e) = ev3 {
        events.push(e);
    }
    changed = changed || o_lwl != Outcome::NoOp;
    let ghost seg3 = success_evs(
        spec_apply(c0.live_workload, spec_desired_live_workload(md0)).0,
        "LiveDeploymentCreated"@,
        "Created live Deployment"@,
    );
    proof {
        assert(o_lwl == spec_apply(c0.live_workload, spec_desired_live_workload(md0)).0);
        assert(events@.map_values(|e: Event| e@) =~= ev_base + seg1 + seg2 + seg3);
    }

    let mut shadow_wl_slot = shadow_workload;
    let shadow_name = String::from_str(base_name).concat("-shadow");
    match &md.spec.shadow {
        Some(sh) => {
            let taken = shadow_wl_slot;
            let (o, st) = ensure_deployment(
                taken,
                md,
                shadow_name.as_str(),
                base_name,
                sh.image.as_str(),
                sh.replicas,
                DeploymentType::Shadow,
            );
            shadow_wl_slot = Some(st);
            let (_r4, ev4) = with_event(
                Ok(o),
                "Created shadow Deployment",
                "ShadowDeploymentCreated",
                "ShadowDeploymentFailed",
            );
            if let Some(e) = ev4 {
                events.push(e);
            }
            changed = changed || o != Outcome::NoOp;
        },
        None => {},
    }
    let ghost seg4 = match md0.spec.shadow {
        Option::Some(sh) => success_evs(
            spec_apply(c0.shadow_workload, spec_desired_shadow_workload(md0, sh)).0,
            "ShadowDeploymentCreated"@,
            "Created shadow Deployment"@,
        ),
        Option::None => Seq::<EventView>::empty(),
    };
    proof {
        assert(events@.map_values(|e: Event| e@) =~= ev_base + seg1 + seg2 + seg3 + seg4);
    }

    // The routes come last, once both backing services exist.
    let mut mirror_slot = mirror_route;
    let mut ingress_slot = ingress_route;
    if md.spec.traffic_mirror {
        let taken_m = mirror_slot;
        let (om, stm) = ensure_traefik_service(taken_m, md, base_name, ns);
        mirror_slot = Some(stm);
        let (_r5, ev5) = with_event(
            Ok(om),
            "Created Traefik Service",
            "TraefikServiceCreated",
            "TraefikServiceFailed",
        );
        if let Some(e) = ev5 {
            events.push(e);
        }
        changed = changed || om != Outcome::NoOp;

        let taken_i = ingress_slot;
        let (oi, sti) = ensure_ingress_route(taken_i, md, base_name, ns);
        ingress_slot = Some(sti);
        let (_r6, ev6) = with_event(
            Ok(oi),
            "Created Ingress Route",
            "IngressRouteCreated",
            "IngressRouteFailed",
        );
        if let Some(e) = ev6 {
            events.push(e);
        }
        changed = changed || oi != Outcome::NoOp;
    }
    let ghost seg5 = if md0.spec.traffic_mirror {
        success_evs(
            spec_apply(c0.mirror_route, spec_desired_mirror(md0)).0,
            "TraefikServiceCreated"@,
            "Created Traefik Service"@,
        )
    } else {
        Seq::<EventView>::empty()
    };
    let ghost seg6 = if md0.spec.traffic_mirror {
        success_evs(
            spec_apply(c0.ingress_route, spec_desired_ingress(md0)).0,
            "IngressRouteCreated"@,
            "Created Ingress Route"@,
        )
    } else {
        Seq::<EventView>::empty()
    };
    proof {
        assert(events@.map_values(|e: Event| e@) =~= ev_base + seg1 + seg2 + seg3 + seg4 + seg5
            + seg6);
        assert(events@.map_values(|e: Event| e@) =~= ev_base + spec_children_events(md0, c0));
        assert(changed == spec_children_changed(md0, c0));
    }

    let cluster_new = Cluster {
        live_svc: Some(st_lsvc),
        shadow_svc: shadow_svc_slot,
        live_workload: Some(st_lwl),
        shadow_workload: shadow_wl_slot,
        mirror_route: mirror_slot,
        ingress_route: ingress_slot,
    };
    proof {
        assert(cluster_new@ == spec_pass_cluster(md0, c0));
    }
    (cluster_new, changed)
}
/// The metadata of a child, whatever its kind.
pub open spec fn spec_child_meta(c: ChildView) -> ChildMetaView {
    match c {
        ChildView::Service(s) => s.meta,
        ChildView::Workload(w) => w.meta,
        ChildView::Mirror(m) => m.meta,
        ChildView::Ingress(i) => i.meta,
    }
}

/// A stored child is owned by the parent: its owner reference is the
/// parent's controller reference.
pub open spec fn spec_owned_by(md: ModelDeploymentView, st: StoredChildView) -> bool {
    spec_child_meta(st.child).owner == spec_owner_ref(md)
}

pub open spec fn spec_slot_owned(md: ModelDeploymentView, s: Option<StoredChildView>) -> bool {
    match s {
        Option::Some(st) => spec_owned_by(md, st),
        Option::None => true,
    }
}

/// Every child present in the cluster is owned by the parent.
pub open spec fn spec_cluster_owned(md: ModelDeploymentView, c: ClusterView) -> bool {
    spec_slot_owned(md, c.live_svc) && spec_slot_owned(md, c.shadow_svc) && spec_slot_owned(
        md,
        c.live_workload,
    ) && spec_slot_owned(md, c.shadow_workload) && spec_slot_owned(md, c.mirror_route)
        && spec_slot_owned(md, c.ingress_route)
}

/// After a pass over a cluster whose children are owned by the parent,
/// every child the parent declares exists, and every child present carries
/// the parent's controller owner reference.
pub proof fn lemma_pass_children_owned(md: ModelDeploymentView, c: ClusterView)
    requires
        !spec_is_deleting(md),
        spec_cluster_owned(md, c),
    ensures
        spec_cluster_owned(md, spec_pass_cluster(md, c)),
        spec_pass_cluster(md, c).live_svc is Some,
        spec_pass_cluster(md, c).live_workload is Some,
        md.spec.shadow is Some ==> spec_pass_cluster(md, c).shadow_svc is Some
            && spec_pass_cluster(md, c).shadow_workload is Some,
        md.spec.traffic_mirror ==> spec_pass_cluster(md, c).mirror_route is Some
            && spec_pass_cluster(md, c).ingress_route is Some,
        spec_owner_ref(md).controller,
{
}

/// A slot is converged when its object exists and its fingerprint
/// annotation equals the desired child's fingerprint.
pub open spec fn spec_slot_converged(s: Option<StoredChildView>, desired: ChildView) -> bool {
    s matches Option::Some(st) && st.fp == fp_spec(desired)
}

/// The cluster is converged for this parent: the sentinel stands on the
/// parent and every declared child's slot carries the desired fingerprint.
pub open spec fn spec_converged(md: ModelDeploymentView, c: ClusterView) -> bool {
    spec_has_finalizer(md, spec_finalizer()) && spec_slot_converged(
        c.live_svc,
        spec_desired_live_svc(md),
    ) && spec_slot_converged(c.live_workload, spec_desired_live_workload(md)) && (
    match md.spec.shadow {
        Option::Some(sh) => spec_slot_converged(c.shadow_svc, spec_desired_shadow_svc(md))
            && spec_slot_converged(c.shadow_workload, spec_desired_shadow_workload(md, sh)),
        Option::None => true,
    }) && (md.spec.traffic_mirror ==> spec_slot_converged(c.mirror_route, spec_desired_mirror(md))
        && spec_slot_converged(c.ingress_route, spec_desired_ingress(md)))
}

/// A pass over an already-converged cluster writes nothing and emits
/// nothing: every step is a no-op, the cluster is unchanged, the event
/// trail is empty, and the parent keeps its finalizer list.
pub proof fn lemma_idle_pass(md: ModelDeploymentView, c: ClusterView)
    requires
        !spec_is_deleting(md),
        spec_converged(md, c),
    ensures
        spec_pass_cluster(md, c) == c,
        !spec_changed(md, c),
        spec_fin_outcome(md) == Outcome::NoOp,
        spec_apply(c.live_svc, spec_desired_live_svc(md)).0 == Outcome::NoOp,
        spec_apply(c.live_workload, spec_desired_live_workload(md)).0 == Outcome::NoOp,
        md.spec.shadow matches Option::Some(sh) ==> spec_apply(
            c.shadow_svc,
            spec_desired_shadow_svc(md),
        ).0 == Outcome::NoOp && spec_apply(
            c.shadow_workload,
            spec_desired_shadow_workload(md, sh),
        ).0 == Outcome::NoOp,
        md.spec.traffic_mirror ==> spec_apply(c.mirror_route, spec_desired_mirror(md)).0
            == Outcome::NoOp && spec_apply(c.ingress_route, spec_desired_ingress(md)).0
            == Outcome::NoOp,
        spec_pass_events(md, c) == Seq::<EventView>::empty(),
        spec_pass_parent(md, c).finalizers == md.finalizers,
{
    assert(spec_pass_events(md, c) =~= Seq::<EventView>::empty());
}

/// After any non-deleting pass the cluster is converged for the updated
/// parent: the immediately following pass is idle.
pub proof fn lemma_pass_converges(md: ModelDeploymentView, c: ClusterView)
    requires
        !spec_is_deleting(md),
    ensures
        spec_converged(spec_pass_parent(md, c), spec_pass_cluster(md, c)),
{
    let p2 = spec_pass_parent(md, c);
    let c2 = spec_pass_cluster(md, c);
    lemma_desired_ignore_lifecycle(p2, md);
    if spec_has_finalizer(md, spec_finalizer()) {
        assert(spec_finalizer_list(p2) == spec_finalizer_list(md));
        assert(spec_has_finalizer(p2, spec_finalizer()));
    } else {
        let n = spec_finalizer_list(md).len() as int;
        assert(spec_finalizer_list(p2)[n] == spec_finalizer());
        assert(spec_has_finalizer(p2, spec_finalizer()));
    }
}

/// While the parent is being deleted, a successful pass leaves the sentinel
/// absent from its finalizer list.
pub proof fn lemma_deletion_clears_sentinel(md: ModelDeploymentView)
    requires
        spec_is_deleting(md),
    ensures
        !spec_has_finalizer(spec_deletion_parent(md), spec_finalizer()),
{
    if spec_has_finalizer(md, spec_finalizer()) {
        lemma_remove_finalizer_absent(md, spec_finalizer());
    }
}

/// With no shadow declared, the pass leaves both shadow slots untouched: no
/// shadow child is created and none receives a fingerprint update.
pub proof fn lemma_no_shadow_untouched(md: ModelDeploymentView, c: ClusterView)
    requires
        md.spec.shadow is None,
    ensures
        spec_pass_cluster(md, c).shadow_svc == c.shadow_svc,
        spec_pass_cluster(md, c).shadow_workload == c.shadow_workload,
{
}

/// Mirroring on with no shadow declared still creates both route objects;
/// the mirror route names the absent shadow service.
pub proof fn lemma_mirror_without_shadow(md: ModelDeploymentView, c: ClusterView)
    requires
        md.spec.traffic_mirror,
        md.spec.shadow is None,
    ensures
        spec_pass_cluster(md, c).mirror_route is Some,
        spec_pass_cluster(md, c).ingress_route is Some,
        spec_mirror_child(md, spec_ns(md)).mirror_name == md.name + "-shadow-svc"@,
{
}

/// The terminal Reconciled event is published exactly when some step of the
/// pass wrote.
pub proof fn lemma_reconciled_iff_changed(md: ModelDeploymentView, c: ClusterView)
    ensures
        spec_changed(md, c) <==> exists|i: int|
            0 <= i < spec_pass_events(md, c).len() && spec_pass_events(md, c)[i].reason
                == "Reconciled"@,
{
    reveal_strlit("Reconciled");
    reveal_strlit("FinalizerCreated");
    reveal_strlit("LiveSvcCreated");
    reveal_strlit("ShadowSvcCreated");
    reveal_strlit("LiveDeploymentCreated");
    reveal_strlit("ShadowDeploymentCreated");
    reveal_strlit("TraefikServiceCreated");
    reveal_strlit("IngressRouteCreated");
    let evs = spec_pass_events(md, c);
    if spec_changed(md, c) {
        assert(evs[evs.len() - 1].reason == "Reconciled"@);
    } else {
        assert forall|i: int| 0 <= i < evs.len() implies evs[i].reason != "Reconciled"@ by {
            assert(evs[i].reason.len() != "Reconciled"@.len());
        }
    }
}

} // verus!
