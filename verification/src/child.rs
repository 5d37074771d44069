//! Models of the child objects the reconciler owns — services, workloads and
//! the two route objects — together with the pure builders that map a parent
//! to its desired children.

use vstd::prelude::*;
use vstd::string::*;
use crate::crd::{ModelDeployment, ModelDeploymentView};

verus! {

/// The role a service or workload plays for its parent.
#[derive(Debug, Clone, Copy, PartialEq, Eq, Structural)]
pub enum DeploymentType {
    Live,
    Shadow,
}

/// The label value attached to a child of the given role.
pub open spec fn spec_role_label(role: DeploymentType) -> Seq<char> {
    match role {
        DeploymentType::Live => "live"@,
        DeploymentType::Shadow => "shadow"@,
    }
}

impl DeploymentType {
    /// The `role` label value: `live` or `shadow`.
    pub fn label(self) -> (r: &'static str)
        ensures
            r@ == spec_role_label(self),
    {
        match self {
            DeploymentType::Live => "live",
            DeploymentType::Shadow => "shadow",
        }
    }
}

/// The exact label pair `{app, role}` every service and workload carries.
#[derive(Debug, Clone, PartialEq)]
pub struct Labels {
    pub app: String,
    pub role: String,
}

pub ghost struct LabelsView {
    pub app: Seq<char>,
    pub role: Seq<char>,
}

impl View for Labels {
    type V = LabelsView;

    open spec fn view(&self) -> LabelsView {
        LabelsView { app: self.app@, role: self.role@ }
    }
}

impl Labels {
    /// A copy of the pair whose view is the same.
    pub fn dup(&self) -> (r: Labels)
        ensures
            r@ == self@,
    {
        Labels { app: self.app.clone(), role: self.role.clone() }
    }
}

/// A single controller owner reference pointing a child at its parent.
#[derive(Debug, Clone, PartialEq)]
pub struct OwnerRef {
    pub api_version: String,
    pub block_owner_deletion: bool,
    pub controller: bool,
    pub kind: String,
    pub name: String,
    pub uid: String,
}

pub ghost struct OwnerRefView {
    pub api_version: Seq<char>,
    pub block_owner_deletion: bool,
    pub controller: bool,
    pub kind: Seq<char>,
    pub name: Seq<char>,
    pub uid: Seq<char>,
}

impl View for OwnerRef {
    type V = OwnerRefView;

    open spec fn view(&self) -> OwnerRefView {
        OwnerRefView {
            api_version: self.api_version@,
            block_owner_deletion: self.block_owner_deletion,
            controller: self.controller,
            kind: self.kind@,
            name: self.name@,
            uid: self.uid@,
        }
    }
}

/// Metadata common to every desired child.
#[derive(Debug, Clone, PartialEq)]
pub struct ChildMeta {
    pub name: String,
    pub namespace: Option<String>,
    pub labels: Option<Labels>,
    pub owner: OwnerRef,
}

pub ghost struct ChildMetaView {
    pub name: Seq<char>,
    pub namespace: Option<Seq<char>>,
    pub labels: Option<LabelsView>,
    pub owner: OwnerRefView,
}

impl View for ChildMeta {
    type V = ChildMetaView;

    open spec fn view(&self) -> ChildMetaView {
        ChildMetaView {
            name: self.name@,
            namespace: match self.namespace {
                Option::Some(ns) => Option::Some(ns@),
                Option::None => Option::None,
            },
            labels: match self.labels {
                Option::Some(l) => Option::Some(l@),
                Option::None => Option::None,
            },
            owner: self.owner@,
        }
    }
}

/// A desired Service: a stable endpoint selecting pods by `{app, role}`.
#[derive(Debug, Clone, PartialEq)]
pub struct ServiceChild {
    pub meta: ChildMeta,
    pub selector: Labels,
    pub port: i32,
    pub target_port: i32,
}

pub ghost struct ServiceChildView {
    pub meta: ChildMetaView,
    pub selector: LabelsView,
    pub port: int,
    pub target_port: int,
}

impl View for ServiceChild {
    type V = ServiceChildView;

    open spec fn view(&self) -> ServiceChildView {
        ServiceChildView {
            meta: self.meta@,
            selector: self.selector@,
            port: self.port as int,
            target_port: self.target_port as int,
        }
    }
}

/// A desired workload: the requested replicas of an image behind the
/// matching selector, rolled out with a rolling update.
#[derive(Debug, Clone, PartialEq)]
pub struct WorkloadChild {
    pub meta: ChildMeta,
    pub replicas: i32,
    pub match_labels: Labels,
    pub template_labels: Labels,
    pub container_name: String,
    pub image: String,
    pub container_port: i32,
    pub rolling_update: bool,
}

pub ghost struct WorkloadChildView {
    pub meta: ChildMetaView,
    pub replicas: int,
    pub match_labels: LabelsView,
    pub template_labels: LabelsView,
    pub container_name: Seq<char>,
    pub image: Seq<char>,
    pub container_port: int,
    pub rolling_update: bool,
}

impl View for WorkloadChild {
    type V = WorkloadChildView;

    open spec fn view(&self) -> WorkloadChildView {
        WorkloadChildView {
            meta: self.meta@,
            replicas: self.replicas as int,
            match_labels: self.match_labels@,
            template_labels: self.template_labels@,
            container_name: self.container_name@,
            image: self.image@,
            container_port: self.container_port as int,
            rolling_update: self.rolling_update,
        }
    }
}

/// A desired mirror route: the live service as primary and the shadow
/// service as a percentage mirror.
#[derive(Debug, Clone, PartialEq)]
pub struct MirrorRouteChild {
    pub meta: ChildMeta,
    pub primary_name: String,
    pub primary_port: i32,
    pub mirror_name: String,
    pub mirror_port: i32,
    pub mirror_percent: i32,
}

pub ghost struct MirrorRouteChildView {
    pub meta: ChildMetaView,
    pub primary_name: Seq<char>,
    pub primary_port: int,
    pub mirror_name: Seq<char>,
    pub mirror_port: int,
    pub mirror_percent: int,
}

impl View for MirrorRouteChild {
    type V = MirrorRouteChildView;

    open spec fn view(&self) -> MirrorRouteChildView {
        MirrorRouteChildView {
            meta: self.meta@,
            primary_name: self.primary_name@,
            primary_port: self.primary_port as int,
            mirror_name: self.mirror_name@,
            mirror_port: self.mirror_port as int,
            mirror_percent: self.mirror_percent as int,
        }
    }
}

/// A desired ingress route: one host rule dispatching to the mirror route.
#[derive(Debug, Clone, PartialEq)]
pub struct IngressRouteChild {
    pub meta: ChildMeta,
    pub entry_point: String,
    pub match_rule: String,
    pub service_name: String,
    pub service_port: i32,
}

pub ghost struct IngressRouteChildView {
    pub meta: ChildMetaView,
    pub entry_point: Seq<char>,
    pub match_rule: Seq<char>,
    pub service_name: Seq<char>,
    pub service_port: int,
}

impl View for IngressRouteChild {
    type V = IngressRouteChildView;

    open spec fn view(&self) -> IngressRouteChildView {
        IngressRouteChildView {
            meta: self.meta@,
            entry_point: self.entry_point@,
            match_rule: self.match_rule@,
            service_name: self.service_name@,
            service_port: self.service_port as int,
        }
    }
}

/// A desired child of any of the four kinds the reconciler owns.
#[derive(Debug, Clone, PartialEq)]
pub enum Child {
    Service(ServiceChild),
    Workload(WorkloadChild),
    Mirror(MirrorRouteChild),
    Ingress(IngressRouteChild),
}

pub ghost enum ChildView {
    Service(ServiceChildView),
    Workload(WorkloadChildView),
    Mirror(MirrorRouteChildView),
    Ingress(IngressRouteChildView),
}

impl View for Child {
    type V = ChildView;

    open spec fn view(&self) -> ChildView {
        match self {
            Child::Service(s) => ChildView::Service(s@),
            Child::Workload(w) => ChildView::Workload(w@),
            Child::Mirror(m) => ChildView::Mirror(m@),
            Child::Ingress(i) => ChildView::Ingress(i@),
        }
    }
}

/// The owner reference every child of this parent carries.
pub open spec fn spec_owner_ref(md: ModelDeploymentView) -> OwnerRefView {
    OwnerRefView {
        api_version: "ml.jedimindtricks.example/v1alpha1"@,
        block_owner_deletion: true,
        controller: true,
        kind: "ModelDeployment"@,
        name: md.name,
        uid: md.uid,
    }
}

/// Builds the single controller owner reference pointing at the parent.
pub fn owner_ref(md: &ModelDeployment) -> (r: OwnerRef)
    ensures
        r@ == spec_owner_ref(md@),
{
    OwnerRef {
        api_version: "ml.jedimindtricks.example/v1alpha1".to_owned(),
        block_owner_deletion: true,
        controller: true,
        kind: "ModelDeployment".to_owned(),
        name: md.name.clone(),
        uid: md.uid.clone(),
    }
}

/// The desired service for the given role, per the builder contract:
/// name `<base>-<role>-svc`, labels and selector `{app: base, role}`,
/// both ports fixed at 8000, owned by the parent.
pub open spec fn spec_service_child(md: ModelDeploymentView, role: DeploymentType) -> ServiceChildView {
    let labels = LabelsView { app: md.name, role: spec_role_label(role) };
    ServiceChildView {
        meta: ChildMetaView {
            name: md.name + "-"@ + spec_role_label(role) + "-svc"@,
            namespace: Option::None,
            labels: Option::Some(labels),
            owner: spec_owner_ref(md),
        },
        selector: labels,
        port: 8000,
        target_port: 8000,
    }
}

/// Builds the desired service child for one role.
pub fn build_service(md: &ModelDeployment, base_name: &str, role: DeploymentType) -> (r: ServiceChild)
    requires
        base_name@ == md@.name,
    ensures
        r@ == spec_service_child(md@, role),
{
    let labels = Labels { app: base_name.to_owned(), role: role.label().to_owned() };
    let svc_name = String::from_str(base_name).concat("-").concat(role.label()).concat("-svc");
    let r = ServiceChild {
        meta: ChildMeta {
            name: svc_name,
            namespace: None,
            labels: Some(labels.dup()),
            owner: owner_ref(md),
        },
        selector: labels,
        port: 8000,
        target_port: 8000,
    };
    r
}

/// The desired workload for one role: the requested replicas of the image,
/// selector and template labels `{app: base, role}`, container port 8000,
/// rolling update, owned by the parent.
pub open spec fn spec_workload_child(
    md: ModelDeploymentView,
    deployment_name: Seq<char>,
    image: Seq<char>,
    replicas: int,
    role: DeploymentType,
) -> WorkloadChildView {
    let labels = LabelsView { app: md.name, role: spec_role_label(role) };
    WorkloadChildView {
        meta: ChildMetaView {
            name: deployment_name,
            namespace: Option::None,
            labels: Option::Some(labels),
            owner: spec_owner_ref(md),
        },
        replicas: replicas,
        match_labels: labels,
        template_labels: labels,
        container_name: deployment_name,
        image: image,
        container_port: 8000,
        rolling_update: true,
    }
}

/// Builds the desired workload child for one role.
pub fn build_deployment(
    md: &ModelDeployment,
    deployment_name: &str,
    base_name: &str,
    image: &str,
    replicas: i32,
    role: DeploymentType,
) -> (r: WorkloadChild)
    requires
        base_name@ == md@.name,
    ensures
        r@ == spec_workload_child(md@, deployment_name@, image@, replicas as int, role),
{
    let labels = Labels { app: base_name.to_owned(), role: role.label().to_owned() };
    WorkloadChild {
        meta: ChildMeta {
            name: deployment_name.to_owned(),
            namespace: None,
            labels: Some(labels.dup()),
            owner: owner_ref(md),
        },
        replicas: replicas,
        match_labels: labels.dup(),
        template_labels: labels,
        container_name: deployment_name.to_owned(),
        image: image.to_owned(),
        container_port: 8000,
        rolling_update: true,
    }
}

/// The desired mirror route: named after the parent, primary
/// `<base>-live-svc`, one 100% mirror `<base>-shadow-svc`, ports 8000.
pub open spec fn spec_mirror_child(md: ModelDeploymentView, ns: Seq<char>) -> MirrorRouteChildView {
    MirrorRouteChildView {
        meta: ChildMetaView {
            name: md.name,
            namespace: Option::Some(ns),
            labels: Option::None,
            owner: spec_owner_ref(md),
        },
        primary_name: md.name + "-live-svc"@,
        primary_port: 8000,
        mirror_name: md.name + "-shadow-svc"@,
        mirror_port: 8000,
        mirror_percent: 100,
    }
}

/// Builds the desired mirror route child.
pub fn build_traefik_service(md: &ModelDeployment, base_name: &str, ns: &str) -> (r: MirrorRouteChild)
    requires
        base_name@ == md@.name,
    ensures
        r@ == spec_mirror_child(md@, ns@),
{
    MirrorRouteChild {
        meta: ChildMeta {
            name: base_name.to_owned(),
            namespace: Some(ns.to_owned()),
            labels: None,
            owner: owner_ref(md),
        },
        primary_name: String::from_str(base_name).concat("-live-svc"),
        primary_port: 8000,
        mirror_name: String::from_str(base_name).concat("-shadow-svc"),
        mirror_port: 8000,
        mirror_percent: 100,
    }
}

/// The desired ingress route: one rule matching ``Host(`<base>.local`)`` on
/// entry point `web`, dispatching to the mirror route by parent name.
pub open spec fn spec_ingress_child(md: ModelDeploymentView, ns: Seq<char>) -> IngressRouteChildView {
    IngressRouteChildView {
        meta: ChildMetaView {
            name: md.name,
            namespace: Option::Some(ns),
            labels: Option::None,
            owner: spec_owner_ref(md),
        },
        entry_point: "web"@,
        match_rule: "Host(`"@ + md.name + ".local`)"@,
        service_name: md.name,
        service_port: 8000,
    }
}

/// Builds the desired ingress route child.
pub fn build_ingress_route(md: &ModelDeployment, base_name: &str, ns: &str) -> (r: IngressRouteChild)
    requires
        base_name@ == md@.name,
    ensures
        r@ == spec_ingress_child(md@, ns@),
{
    let match_rule = String::from_str("Host(`").concat(base_name).concat(".local`)");
    proof {
        assert(match_rule@ =~= "Host(`"@ + md@.name + ".local`)"@);
    }
    IngressRouteChild {
        meta: ChildMeta {
            name: base_name.to_owned(),
            namespace: Some(ns.to_owned()),
            labels: None,
            owner: owner_ref(md),
        },
        entry_point: "web".to_owned(),
        match_rule: match_rule,
        service_name: base_name.to_owned(),
        service_port: 8000,
    }
}

} // verus!
