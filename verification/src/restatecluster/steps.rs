//! The steps by which a cluster is brought to what its resource asks for.

use vstd::prelude::*;

use crate::json::{Json, Value};
use crate::restatecluster::canary::CanaryKind;

verus! {

/// A kind of object that a cluster no longer needs.
#[derive(Debug, Clone, Copy, PartialEq, Eq, Structural)]
pub enum OwnedKind {
    NetworkPolicy,
    PodIdentityAssociation,
    SecurityGroupPolicy,
    IamPolicyMember,
    Job,
}

/// A step. They are taken in order, and the first that fails ends the reconcile.
#[derive(Debug)]
pub enum ClusterStep {
    /// Apply the namespace, which is in none itself.
    ApplyNamespace(Value),
    /// Apply an object.
    Apply(Value),
    /// See to it that an object does not exist.
    Delete { kind: OwnedKind, name: &'static str },
    /// Apply the PodIdentityAssociation, which has to have been passed on to AWS.
    ApplyPodIdentityAssociation(Value),
    /// Apply the IAMPolicyMember, which has to have been passed on to GCP.
    ApplyIamPolicyMember(Value),
    /// Run a job that tells whether pods get their credentials.
    RunCanary { canary: CanaryKind, job: Value },
    /// Bring the claims to their size, and make room for a StatefulSet with another one.
    ReconcileStorage,
    ApplyStatefulSet(Value),
    /// Say that something asked for is ignored.
    Warn(String),
    /// What is asked for cannot be done.
    Refuse(String),
}

/// A step.
pub enum StepView {
    ApplyNamespace(Json),
    Apply(Json),
    Delete { kind: OwnedKind, name: Seq<char> },
    ApplyPodIdentityAssociation(Json),
    ApplyIamPolicyMember(Json),
    RunCanary { canary: CanaryKind, job: Json },
    ReconcileStorage,
    ApplyStatefulSet(Json),
    Warn(Seq<char>),
    Refuse(Seq<char>),
}

impl ClusterStep {
    /// The step.
    pub open spec fn view(&self) -> StepView {
        match self {
            ClusterStep::ApplyNamespace(v) => StepView::ApplyNamespace(v@),
            ClusterStep::Apply(v) => StepView::Apply(v@),
            ClusterStep::Delete { kind, name } => StepView::Delete { kind: *kind, name: name@ },
            ClusterStep::ApplyPodIdentityAssociation(v) => StepView::ApplyPodIdentityAssociation(
                v@,
            ),
            ClusterStep::ApplyIamPolicyMember(v) => StepView::ApplyIamPolicyMember(v@),
            ClusterStep::RunCanary { canary, job } => StepView::RunCanary {
                canary: *canary,
                job: job@,
            },
            ClusterStep::ReconcileStorage => StepView::ReconcileStorage,
            ClusterStep::ApplyStatefulSet(v) => StepView::ApplyStatefulSet(v@),
            ClusterStep::Warn(t) => StepView::Warn(t@),
            ClusterStep::Refuse(t) => StepView::Refuse(t@),
        }
    }
}

/// Each step.
pub open spec fn step_views(s: Seq<ClusterStep>) -> Seq<StepView> {
    Seq::new(s.len(), |i: int| s[i]@)
}

/// Adds a step.
pub fn push_step(steps: &mut Vec<ClusterStep>, step: ClusterStep)
    ensures
        step_views(final(steps)@) == step_views(old(steps)@).push(step@),
{
    let ghost before = step_views(steps@);
    steps.push(step);
    proof {
        assert(step_views(steps@) =~= before.push(step@));
    }
}

} // verus!
