//! The status of a cluster, and what surrounds the reconcile.

use vstd::prelude::*;
use vstd::string::*;

use crate::control::{
    condition_views, find_condition, opt_conditions, other_conditions, ready_condition, ready_view,
    state_after, state_after_reconcile, suspended_conditions, suspended_view, Action, Condition,
    ReconciliationState, RECONCILING_CONDITION,
};
use crate::error::{error_text, Error};
use crate::json::{Json, Value};
use crate::manifest::{manifest, manifest_json};
use crate::meta::{
    entries, map_or_empty, opt_map, owner_views, MetaView, ObjectMeta, OwnerReference, OwnerView,
};
use crate::restatecluster::labels::{object_meta, object_view};
use crate::restatecluster::resource::{RestateCluster, RestateClusterStatus};
use crate::text::{str_eq, texts};
use crate::time::{secs, Duration, Timestamp};

verus! {

pub const RESTATE_CLUSTER_FINALIZER: &'static str = "clusters.restate.dev";

pub const RESTATE_CLUSTER_API_VERSION: &'static str = "restate.dev/v1";

pub const RESTATE_CLUSTER_KIND: &'static str = "RestateCluster";

/// The reference by which a cluster owns what belongs to it.
pub open spec fn cluster_owner(rc: RestateCluster) -> OwnerView {
    OwnerView {
        api_version: RESTATE_CLUSTER_API_VERSION@,
        kind: RESTATE_CLUSTER_KIND@,
        name: rc.metadata.name->0@,
        uid: rc.metadata.uid->0@,
        controller: Some(true),
        block_owner_deletion: None,
    }
}

/// The reference by which a cluster owns what belongs to it.
pub fn controller_owner_ref(rc: &RestateCluster) -> (r: OwnerReference)
    requires
        rc.metadata.name is Some,
        rc.metadata.uid is Some,
    ensures
        r@ == cluster_owner(*rc),
{
    let name: Option<String> = rc.metadata.name.clone();
    let uid: Option<String> = rc.metadata.uid.clone();
    OwnerReference {
        api_version: RESTATE_CLUSTER_API_VERSION.to_owned(),
        kind: RESTATE_CLUSTER_KIND.to_owned(),
        name: name.unwrap(),
        uid: uid.unwrap(),
        controller: Some(true),
        block_owner_deletion: None,
    }
}

/// What the metadata of everything that a cluster owns is made from.
pub open spec fn base_view(rc: RestateCluster) -> MetaView {
    MetaView {
        name: Some(rc.metadata.any_name()),
        namespace: None,
        uid: None,
        labels: Some(entries(opt_map(rc.metadata.labels))),
        annotations: Some(entries(opt_map(rc.metadata.annotations))),
        owner_references: Some(seq![cluster_owner(rc)]),
    }
}

/// What the metadata of everything that a cluster owns is made from.
pub fn base_metadata(rc: &RestateCluster) -> (r: ObjectMeta)
    requires
        rc.metadata.name is Some,
        rc.metadata.uid is Some,
    ensures
        r@ == base_view(*rc),
        r.name is Some,
{
    let mut owners: Vec<OwnerReference> = Vec::new();
    owners.push(controller_owner_ref(rc));
    let mut meta = ObjectMeta::empty();
    meta.name = Some(rc.metadata.name_any());
    meta.labels = Some(map_or_empty(&rc.metadata.labels));
    meta.annotations = Some(map_or_empty(&rc.metadata.annotations));
    meta.owner_references = Some(owners);
    proof {
        assert(meta@.owner_references->0 =~= seq![cluster_owner(*rc)]);
    }
    meta
}

/// The namespace of a cluster.
pub open spec fn namespace_json(base: MetaView, name: Seq<char>) -> Json {
    manifest_json("v1"@, "Namespace"@, object_view(base, name), None)
}

/// The namespace of a cluster.
pub fn cluster_namespace(base_metadata: &ObjectMeta, name: &str) -> (r: Value)
    requires
        base_metadata.name is Some,
    ensures
        r@ == namespace_json(base_metadata@, name@),
{
    manifest("v1", "Namespace", &object_meta(base_metadata, name), None)
}

/// Whether one of the owners of an object is this one.
pub open spec fn is_owner(meta: ObjectMeta, owner: OwnerView) -> bool {
    meta.owner_references matches Some(o) && owner_views(o@).contains(owner)
}

/// Checks that a namespace of the name of a cluster is either free or ours already.
pub fn check_namespace(existing: &Option<ObjectMeta>, owner: &OwnerReference) -> (r: Result<
    (),
    Error,
>)
    ensures
        match existing {
            Some(meta) => if is_owner(*meta, owner@) {
                r is Ok
            } else {
                r == Err::<(), Error>(Error::NameConflict)
            },
            None => r is Ok,
        },
{
    match existing {
        None => Ok(()),
        Some(meta) => match &meta.owner_references {
            None => Err(Error::NameConflict),
            Some(owners) => {
                let ghost all = owner_views(owners@);
                let mut i: usize = 0;
                while i < owners.len()
                    invariant
                        i <= owners.len(),
                        all == owner_views(owners@),
                        *existing == Some(*meta),
                        meta.owner_references == Some(*owners),
                        forall|j: int| 0 <= j < i ==> #[trigger] all[j] != owner@,
                    decreases owners.len() - i,
                {
                    proof {
                        assert(all[i as int] == owners@[i as int]@);
                    }
                    if owners[i].same(owner) {
                        return Ok(());
                    }
                    i = i + 1;
                }
                Err(Error::NameConflict)
            },
        },
    }
}

/// What is said of a reconcile, and when it runs again. Without an action the error is returned.
pub struct ClusterVerdict {
    pub action: Option<int>,
    pub message: Seq<char>,
    pub reason: Seq<char>,
    pub status: Seq<char>,
}

/// What is said of a reconcile. A cluster that waits is no failure. One that has just been
/// provisioned is looked at again at once.
pub open spec fn cluster_verdict(outcome: Result<(), Error>) -> ClusterVerdict {
    match outcome {
        Ok(()) => ClusterVerdict {
            action: Some(secs(300)),
            message: "Restate Cluster provisioned successfully"@,
            reason: "Provisioned"@,
            status: "True"@,
        },
        Err(Error::NotReady { message, reason, requeue_after }) => ClusterVerdict {
            action: Some(
                match requeue_after {
                    Some(d) => d@,
                    None => secs(60),
                },
            ),
            message: message@,
            reason: reason@,
            status: "False"@,
        },
        Err(Error::Provisioned) => ClusterVerdict {
            action: Some(0),
            message: error_text(Error::Provisioned),
            reason: "Provisioned"@,
            status: "False"@,
        },
        Err(e) => ClusterVerdict {
            action: None,
            message: error_text(e),
            reason: "FailedReconcile"@,
            status: "Unknown"@,
        },
    }
}

/// Whether a cluster is known to be provisioned after a reconcile.
pub open spec fn provisioned_after(
    status: Option<RestateClusterStatus>,
    outcome: Result<(), Error>,
) -> Option<bool> {
    if outcome == Err::<(), Error>(Error::Provisioned) {
        Some(true)
    } else {
        match status {
            Some(s) => s.provisioned,
            None => None,
        }
    }
}

/// The conditions that a cluster has.
pub open spec fn previous_conditions(rc: RestateCluster) -> Option<Vec<Condition>> {
    match rc.status {
        Some(s) => s.conditions,
        None => None,
    }
}

/// Whether a cluster was last left alone.
pub open spec fn previous_state(rc: RestateCluster) -> Option<ReconciliationState> {
    match rc.status {
        Some(s) => s.reconciliation,
        None => None,
    }
}

/// The status of a suspended cluster.
pub fn reconcile_suspended(rc: &RestateCluster, now: Timestamp) -> (r: RestateClusterStatus)
    ensures
        opt_conditions(r.conditions) == other_conditions(
            opt_conditions(previous_conditions(*rc)),
            RECONCILING_CONDITION@,
        ).push(
            suspended_view(
                find_condition(
                    opt_conditions(previous_conditions(*rc)),
                    RECONCILING_CONDITION@,
                ),
                now@,
            ),
        ),
        r.reconciliation == Some(ReconciliationState::Disabled),
        r.provisioned == match rc.status {
            Some(s) => s.provisioned,
            None => None,
        },
{
    let none: Option<Vec<Condition>> = None;
    let (previous, provisioned): (&Option<Vec<Condition>>, Option<bool>) = match &rc.status {
        Some(s) => (&s.conditions, s.provisioned),
        None => (&none, None),
    };
    RestateClusterStatus {
        conditions: Some(suspended_conditions(previous, now)),
        provisioned,
        reconciliation: Some(ReconciliationState::Disabled),
    }
}

/// Writes the outcome of a reconcile into a new status, and says when it runs again. That a cluster
/// was provisioned is kept.
pub fn reconcile_status(rc: &RestateCluster, outcome: Result<(), Error>, now: Timestamp) -> (r: (
    RestateClusterStatus,
    Result<Action, Error>,
))
    ensures
        ({
            let v = cluster_verdict(outcome);
            &&& opt_conditions(r.0.conditions) == seq![
                ready_view(
                    find_condition(opt_conditions(previous_conditions(*rc)), "Ready"@),
                    v.message,
                    v.reason,
                    v.status,
                    now@,
                ),
            ]
            &&& r.0.provisioned == provisioned_after(rc.status, outcome)
            &&& r.0.reconciliation == Some(state_after(previous_state(*rc), v.status))
            &&& match v.action {
                Some(d) => r.1 is Ok && r.1->Ok_0 is Requeue && r.1->Ok_0->Requeue_0@ == d,
                None => outcome is Err && r.1 == Err::<Action, Error>(outcome->Err_0),
            }
        }),
{
    let mut provisioned: Option<bool> = match &rc.status {
        Some(s) => s.provisioned,
        None => None,
    };
    let (result, message, reason, status): (Result<Action, Error>, String, String, &str) =
        match outcome {
        Ok(()) => (
            Ok(Action::Requeue(Duration::from_secs(300))),
            "Restate Cluster provisioned successfully".to_owned(),
            "Provisioned".to_owned(),
            "True",
        ),
        Err(e) => match e {
            Error::NotReady { message, reason, requeue_after } => {
                let wait = match requeue_after {
                    Some(d) => d,
                    None => Duration::from_secs(60),
                };
                (Ok(Action::Requeue(wait)), message, reason, "False")
            },
            Error::Provisioned => {
                provisioned = Some(true);
                (
                    Ok(Action::Requeue(Duration { nanos: 0 })),
                    Error::Provisioned.message(),
                    "Provisioned".to_owned(),
                    "False",
                )
            },
            other => {
                let text = other.message();
                (Err(other), text, "FailedReconcile".to_owned(), "Unknown")
            },
        },
    };
    let none: Option<Vec<Condition>> = None;
    let (previous, before): (&Option<Vec<Condition>>, Option<ReconciliationState>) =
        match &rc.status {
        Some(s) => (&s.conditions, s.reconciliation),
        None => (&none, None),
    };
    let reconciliation = Some(state_after_reconcile(before, status));
    let ready = ready_condition(previous, message, reason, status.to_owned(), now);
    let mut list: Vec<Condition> = Vec::new();
    list.push(ready);
    proof {
        assert(condition_views(list@) =~= seq![ready@]);
    }
    (
        RestateClusterStatus { conditions: Some(list), provisioned, reconciliation },
        result,
    )
}

/// When a failed reconcile of a cluster is tried again.
pub fn error_policy(_error: &Error) -> (r: Action)
    ensures
        r matches Action::Requeue(d) && d@ == secs(30),
{
    Action::Requeue(Duration::from_secs(30))
}

/// A group of resources that the apiserver serves.
#[derive(Debug)]
pub struct ApiGroup {
    pub name: String,
    pub versions: Vec<String>,
}

/// Whether a group serves a version.
pub open spec fn serves_version(group: ApiGroup, name: Seq<char>, version: Seq<char>) -> bool {
    group.name@ == name && texts(group.versions@).contains(version)
}

/// Whether a group serves a version.
pub fn group_matches(group: &ApiGroup, name: &str, version: &str) -> (r: bool)
    ensures
        r == serves_version(*group, name@, version@),
{
    if !str_eq(group.name.as_str(), name) {
        return false;
    }
    let ghost all = texts(group.versions@);
    let mut i: usize = 0;
    while i < group.versions.len()
        invariant
            i <= group.versions.len(),
            all == texts(group.versions@),
            group.name@ == name@,
            forall|j: int| 0 <= j < i ==> #[trigger] all[j] != version@,
        decreases group.versions.len() - i,
    {
        proof {
            assert(all[i as int] == group.versions@[i as int]@);
        }
        if str_eq(group.versions[i].as_str(), version) {
            return true;
        }
        i = i + 1;
    }
    false
}

/// Whether the apiserver serves a version of a group.
pub fn is_installed(groups: &Vec<ApiGroup>, name: &str, version: &str) -> (r: bool)
    ensures
        r == exists|i: int|
            0 <= i < groups@.len() && serves_version(#[trigger] groups@[i], name@, version@),
{
    let mut i: usize = 0;
    while i < groups.len()
        invariant
            i <= groups.len(),
            forall|j: int|
                0 <= j < i ==> !serves_version(#[trigger] groups@[j], name@, version@),
        decreases groups.len() - i,
    {
        if group_matches(&groups[i], name, version) {
            return true;
        }
        i = i + 1;
    }
    false
}

/// Whether the apiserver serves a group.
pub fn has_api_group(groups: &Vec<ApiGroup>, name: &str) -> (r: bool)
    ensures
        r == exists|i: int| 0 <= i < groups@.len() && (#[trigger] groups@[i]).name@ == name@,
{
    let mut i: usize = 0;
    while i < groups.len()
        invariant
            i <= groups.len(),
            forall|j: int| 0 <= j < i ==> (#[trigger] groups@[j]).name@ != name@,
        decreases groups.len() - i,
    {
        if str_eq(groups[i].name.as_str(), name) {
            return true;
        }
        i = i + 1;
    }
    false
}

/// A cluster that was provisioned stays so, whatever comes of later reconciles.
pub proof fn provisioning_is_remembered(
    status: RestateClusterStatus,
    outcome: Result<(), Error>,
)
    requires
        status.provisioned == Some(true),
    ensures
        provisioned_after(Some(status), outcome) == Some(true),
{
}

} // verus!
