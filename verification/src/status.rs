//! Status aggregation: from the parent's spec and the observed child
//! workload states to the parent's phase, conditions and status payload.

use vstd::prelude::*;
use vstd::string::*;
use crate::codec::{dec_digits, dec_int};
use crate::crd::{
    ChildStatus, ChildStatusView, Condition, ConditionView, ModelDeploymentSpec,
    ModelDeploymentSpecView, ModelDeploymentStatus, ModelDeploymentStatusView,
    opt_child_status_view,
};

verus! {

/// The available replica count of an observation, zero when absent.
pub open spec fn spec_available(cs: Option<ChildStatusView>) -> int {
    match cs {
        Option::Some(s) => match s.available_replicas {
            Option::Some(a) => a,
            Option::None => 0,
        },
        Option::None => 0,
    }
}

/// The replica count the spec asks of the shadow variant, zero when absent.
pub open spec fn spec_shadow_desired(spec: ModelDeploymentSpecView) -> int {
    match spec.shadow {
        Option::Some(v) => v.replicas,
        Option::None => 0,
    }
}

/// Readiness: the live variant is fully available, and the shadow variant,
/// if declared, is too.
pub open spec fn spec_ready(
    spec: ModelDeploymentSpecView,
    live: Option<ChildStatusView>,
    shadow: Option<ChildStatusView>,
) -> bool {
    spec_available(live) == spec.live.replicas && (spec.shadow is None || spec_available(shadow)
        == spec_shadow_desired(spec))
}

/// Degradation: live replicas are asked for but none is available.
pub open spec fn spec_degraded(
    spec: ModelDeploymentSpecView,
    live: Option<ChildStatusView>,
) -> bool {
    spec_available(live) == 0 && spec.live.replicas > 0
}

/// The parent's phase, evaluated in order: Available, else Degraded, else
/// Progressing.
pub open spec fn spec_phase(
    spec: ModelDeploymentSpecView,
    live: Option<ChildStatusView>,
    shadow: Option<ChildStatusView>,
) -> Seq<char> {
    if spec_ready(spec, live, shadow) {
        "Available"@
    } else if spec_degraded(spec, live) {
        "Degraded"@
    } else {
        "Progressing"@
    }
}

/// The Ready condition's message: available over desired counts for both
/// variants.
pub open spec fn spec_ready_message(
    spec: ModelDeploymentSpecView,
    live: Option<ChildStatusView>,
    shadow: Option<ChildStatusView>,
) -> Seq<char> {
    "live "@ + dec_int(spec_available(live)) + "/"@ + dec_int(spec.live.replicas) + " shadow "@
        + dec_int(spec_available(shadow)) + "/"@ + dec_int(spec_shadow_desired(spec))
        + " available"@
}

/// The three conditions, in order Ready, Progressing, Degraded.
pub open spec fn spec_conditions(
    spec: ModelDeploymentSpecView,
    live: Option<ChildStatusView>,
    shadow: Option<ChildStatusView>,
) -> Seq<ConditionView> {
    let ready = spec_ready(spec, live, shadow);
    let degraded = spec_degraded(spec, live);
    seq![
        ConditionView {
            type_: "Ready"@,
            status: if ready {
                "True"@
            } else {
                "False"@
            },
            reason: Option::Some(
                if ready {
                    "AllReplicasAvailable"@
                } else {
                    "ReplicasNotReady"@
                },
            ),
            message: Option::Some(spec_ready_message(spec, live, shadow)),
        },
        ConditionView {
            type_: "Progressing"@,
            status: if !ready {
                "True"@
            } else {
                "False"@
            },
            reason: Option::Some("Reconciling"@),
            message: Option::Some("Deployment is rolling out or scaling."@),
        },
        ConditionView {
            type_: "Degraded"@,
            status: if degraded {
                "True"@
            } else {
                "False"@
            },
            reason: Option::Some("NoAvailableReplicas"@),
            message: Option::Some("No live replicas are currently available."@),
        },
    ]
}

/// The full status payload written back onto the parent.
pub open spec fn spec_status(
    spec: ModelDeploymentSpecView,
    live: Option<ChildStatusView>,
    shadow: Option<ChildStatusView>,
) -> ModelDeploymentStatusView {
    ModelDeploymentStatusView {
        phase: Option::Some(spec_phase(spec, live, shadow)),
        live_status: live,
        shadow_status: shadow,
        conditions: Option::Some(spec_conditions(spec, live, shadow)),
    }
}

/// The decimal digit string for a value below ten.
fn digit_str(n: u32) -> (r: &'static str)
    requires
        n < 10,
    ensures
        r@ == dec_digits(n as nat),
{
    proof {
        reveal_strlit("0");
        reveal_strlit("1");
        reveal_strlit("2");
        reveal_strlit("3");
        reveal_strlit("4");
        reveal_strlit("5");
        reveal_strlit("6");
        reveal_strlit("7");
        reveal_strlit("8");
        reveal_strlit("9");
    }
    let r: &'static str = if n == 0 {
        "0"
    } else if n == 1 {
        "1"
    } else if n == 2 {
        "2"
    } else if n == 3 {
        "3"
    } else if n == 4 {
        "4"
    } else if n == 5 {
        "5"
    } else if n == 6 {
        "6"
    } else if n == 7 {
        "7"
    } else if n == 8 {
        "8"
    } else {
        "9"
    };
    proof {
        assert(r@ =~= dec_digits(n as nat));
    }
    r
}

/// Appends the decimal representation of a natural number to a string.
fn append_u32(s: &mut String, n: u32)
    ensures
        final(s)@ == old(s)@ + dec_digits(n as nat),
    decreases n,
{
    if n < 10 {
        s.append(digit_str(n));
    } else {
        append_u32(s, n / 10);
        s.append(digit_str(n % 10));
        proof {
            assert(s@ =~= old(s)@ + dec_digits(n as nat));
        }
    }
}

/// Appends the decimal representation of an integer to a string.
fn append_i32(s: &mut String, n: i32)
    ensures
        final(s)@ == old(s)@ + dec_int(n as int),
{
    if n >= 0 {
        append_u32(s, n as u32);
    } else {
        s.append("-");
        let mag: u32 = if n == i32::MIN {
            2147483648u32
        } else {
            (-n) as u32
        };
        proof {
            assert(mag as int == -(n as int));
        }
        append_u32(s, mag);
        proof {
            reveal_strlit("-");
            assert("-"@ =~= seq!['-']);
            assert(s@ =~= old(s)@ + dec_int(n as int));
        }
    }
}

/// The observed available replicas, zero when the observation or the count
/// is absent.
fn available_replicas(cs: &Option<ChildStatus>) -> (r: i32)
    ensures
        r as int == spec_available(opt_child_status_view(*cs)),
{
    match cs {
        Some(s) => match s.available_replicas {
            Some(a) => a,
            None => 0,
        },
        None => 0,
    }
}

/// Computes the parent's status payload from its spec and the observed
/// child workload states.
pub fn compute_model_deployment_status(
    spec: &ModelDeploymentSpec,
    live: &Option<ChildStatus>,
    shadow: &Option<ChildStatus>,
) -> (r: ModelDeploymentStatus)
    ensures
        r@ == spec_status(spec@, opt_child_status_view(*live), opt_child_status_view(*shadow)),
{
    let ghost lv = opt_child_status_view(*live);
    let ghost sv = opt_child_status_view(*shadow);
    let live_available = available_replicas(live);
    let live_desired = spec.live.replicas;
    let shadow_available = available_replicas(shadow);
    let shadow_desired = match &spec.shadow {
        Some(v) => v.replicas,
        None => 0,
    };
    let ready = live_available == live_desired && (spec.shadow.is_none() || shadow_available
        == shadow_desired);
    let degraded = live_available == 0 && live_desired > 0;
    proof {
        assert(ready == spec_ready(spec@, lv, sv));
        assert(degraded == spec_degraded(spec@, lv));
    }

    let phase = if ready {
        "Available".to_owned()
    } else if degraded {
        "Degraded".to_owned()
    } else {
        "Progressing".to_owned()
    };

    let mut message = String::from_str("live ");
    append_i32(&mut message, live_available);
    message.append("/");
    append_i32(&mut message, live_desired);
    message.append(" shadow ");
    append_i32(&mut message, shadow_available);
    message.append("/");
    append_i32(&mut message, shadow_desired);
    message.append(" available");
    proof {
        assert(message@ =~= spec_ready_message(spec@, lv, sv));
    }

    let mut conditions: Vec<Condition> = Vec::new();
    conditions.push(
        Condition {
            type_: "Ready".to_owned(),
            status: if ready {
                "True".to_owned()
            } else {
                "False".to_owned()
            },
            reason: Some(
                if ready {
                    "AllReplicasAvailable".to_owned()
                } else {
                    "ReplicasNotReady".to_owned()
                },
            ),
            message: Some(message),
        },
    );
    conditions.push(
        Condition {
            type_: "Progressing".to_owned(),
            status: if !ready {
                "True".to_owned()
            } else {
                "False".to_owned()
            },
            reason: Some("Reconciling".to_owned()),
            message: Some("Deployment is rolling out or scaling.".to_owned()),
        },
    );
    conditions.push(
        Condition {
            type_: "Degraded".to_owned(),
            status: if degraded {
                "True".to_owned()
            } else {
                "False".to_owned()
            },
            reason: Some("NoAvailableReplicas".to_owned()),
            message: Some("No live replicas are currently available.".to_owned()),
        },
    );
    proof {
        assert(conditions@.map_values(|c: Condition| c@) =~= spec_conditions(spec@, lv, sv));
    }

    let r = ModelDeploymentStatus {
        phase: Some(phase),
        live_status: match live {
            Some(cs) => Some(*cs),
            None => None,
        },
        shadow_status: match shadow {
            Some(cs) => Some(*cs),
            None => None,
        },
        conditions: Some(conditions),
    };
    r
}

/// The three conditions are mutually consistent: Ready is True exactly when
/// Progressing is False, and Degraded True forces Ready False.
pub proof fn lemma_conditions_consistent(
    spec: ModelDeploymentSpecView,
    live: Option<ChildStatusView>,
    shadow: Option<ChildStatusView>,
)
    ensures
        (spec_conditions(spec, live, shadow)[0].status == "True"@) <==> (spec_conditions(
            spec,
            live,
            shadow,
        )[1].status == "False"@),
        (spec_conditions(spec, live, shadow)[2].status == "True"@) ==> (spec_conditions(
            spec,
            live,
            shadow,
        )[0].status == "False"@),
{
    reveal_strlit("True");
    reveal_strlit("False");
    assert("True"@.len() == 4);
    assert("False"@.len() == 5);
    if spec_degraded(spec, live) {
        assert(!spec_ready(spec, live, shadow));
    }
}

/// A live variant asking for zero replicas with none available counts as
/// fully available: with no shadow declared the phase is Available, not
/// Degraded.
pub proof fn lemma_zero_replicas_available(
    spec: ModelDeploymentSpecView,
    live: Option<ChildStatusView>,
    shadow: Option<ChildStatusView>,
)
    requires
        spec.live.replicas == 0,
        spec_available(live) == 0,
        spec.shadow is None,
    ensures
        spec_phase(spec, live, shadow) == "Available"@,
        !spec_degraded(spec, live),
{
}

/// Live replicas asked for but none available: the phase is Degraded.
pub proof fn lemma_degraded_phase(
    spec: ModelDeploymentSpecView,
    live: Option<ChildStatusView>,
    shadow: Option<ChildStatusView>,
)
    requires
        spec.live.replicas > 0,
        spec_available(live) == 0,
    ensures
        spec_phase(spec, live, shadow) == "Degraded"@,
{
    reveal_strlit("Available");
    reveal_strlit("Degraded");
    assert(!spec_ready(spec, live, shadow));
}

/// A declared shadow with zero requested replicas is satisfied and does not
/// prevent the Available phase.
pub proof fn lemma_shadow_zero_satisfied(
    spec: ModelDeploymentSpecView,
    live: Option<ChildStatusView>,
    shadow: Option<ChildStatusView>,
)
    requires
        spec.shadow matches Option::Some(v) && v.replicas == 0,
        spec_available(shadow) == 0,
        spec_available(live) == spec.live.replicas,
    ensures
        spec_phase(spec, live, shadow) == "Available"@,
{
}

} // verus!
