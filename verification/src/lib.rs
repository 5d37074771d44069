//! A verified core for a Kubernetes-style operator that reconciles a
//! `ModelDeployment` custom resource into a set of child objects: a live
//! service and workload, an optional shadow pair, and optional traffic-mirror
//! routes.
//!
//! The library holds the pure logic of the controller: child-object builders,
//! the canonical serialization and fingerprint used to suppress no-op writes,
//! finalizer bookkeeping, status aggregation, and the reconcile pass itself,
//! modeled against a snapshot of the owned cluster objects.  All network I/O
//! lives outside the library; callers hand in plain values and apply the
//! returned plans.

pub mod child;
pub mod codec;
pub mod crd;
pub mod error;
pub mod event;
pub mod finalizer;
pub mod fingerprint;
pub mod parse;
pub mod reconsile;
pub mod status;
pub mod util;
