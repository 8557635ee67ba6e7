//! The status of an environment, and the metadata of its tunnel.

use vstd::prelude::*;
use vstd::string::*;

use crate::control::{
    condition_views, find_condition, opt_conditions, other_conditions, ready_condition, ready_view,
    state_after, state_after_reconcile, suspended_conditions, suspended_view, Action, Condition,
    ReconciliationState, RECONCILING_CONDITION,
};
use crate::error::{error_text, Error};
use crate::json::Value;
use crate::meta::{
    entries, map_or_empty, opt_map, MetaView, ObjectMeta, OwnerReference, OwnerView,
};
use crate::restatecloudenvironment::resource::{
    RestateCloudEnvironment, RestateCloudEnvironmentStatus,
};
use crate::restatecloudenvironment::tunnel::{
    proxies, remote_proxy, tunnel_deployment, tunnel_deployment_json, tunnel_service,
    tunnel_service_json,
};
use crate::restatedeployment::replicaset::LAST_APPLIED_ANNOTATION;
use crate::text::cat;
use crate::time::{secs, Duration, Timestamp};

verus! {

pub const CLOUD_ENVIRONMENT_API_VERSION: &'static str = "restate.dev/v1";

pub const CLOUD_ENVIRONMENT_KIND: &'static str = "RestateCloudEnvironment";

/// The reference by which an environment owns its tunnel.
pub open spec fn environment_owner(rce: RestateCloudEnvironment) -> OwnerView {
    OwnerView {
        api_version: CLOUD_ENVIRONMENT_API_VERSION@,
        kind: CLOUD_ENVIRONMENT_KIND@,
        name: rce.metadata.name->0@,
        uid: rce.metadata.uid->0@,
        controller: Some(true),
        block_owner_deletion: None,
    }
}

/// What the metadata of a tunnel is made from.
pub open spec fn base_view(rce: RestateCloudEnvironment, operator_namespace: Seq<char>) -> MetaView {
    MetaView {
        name: Some("tunnel-"@ + rce.metadata.any_name()),
        namespace: Some(operator_namespace),
        uid: None,
        labels: Some(entries(opt_map(rce.metadata.labels))),
        annotations: Some(
            entries(opt_map(rce.metadata.annotations)).remove(LAST_APPLIED_ANNOTATION@),
        ),
        owner_references: Some(seq![environment_owner(rce)]),
    }
}

/// What the metadata of a tunnel is made from. It stands where the operator does.
pub fn base_metadata(rce: &RestateCloudEnvironment, operator_namespace: &str) -> (r: ObjectMeta)
    requires
        rce.metadata.name is Some,
        rce.metadata.uid is Some,
    ensures
        r@ == base_view(*rce, operator_namespace@),
        r.name is Some,
{
    let name: Option<String> = rce.metadata.name.clone();
    let uid: Option<String> = rce.metadata.uid.clone();
    let mut owners: Vec<OwnerReference> = Vec::new();
    owners.push(
        OwnerReference {
            api_version: CLOUD_ENVIRONMENT_API_VERSION.to_owned(),
            kind: CLOUD_ENVIRONMENT_KIND.to_owned(),
            name: name.unwrap(),
            uid: uid.unwrap(),
            controller: Some(true),
            block_owner_deletion: None,
        },
    );
    let mut annotations = map_or_empty(&rce.metadata.annotations);
    annotations.remove(LAST_APPLIED_ANNOTATION);
    let mut meta = ObjectMeta::empty();
    meta.name = Some(cat("tunnel-", rce.metadata.name_any().as_str()));
    meta.namespace = Some(operator_namespace.to_owned());
    meta.labels = Some(map_or_empty(&rce.metadata.labels));
    meta.annotations = Some(annotations);
    meta.owner_references = Some(owners);
    proof {
        assert(meta@.owner_references->0 =~= seq![environment_owner(*rce)]);
    }
    meta
}

/// The tunnel of an environment, which goes by the uid of the environment: its Deployment, and the
/// Service in front of it.
pub fn reconcile(
    rce: &RestateCloudEnvironment,
    operator_namespace: &str,
    tunnel_client_default_image: &str,
) -> (r: (Value, Value))
    requires
        rce.metadata.name is Some,
        rce.metadata.uid is Some,
    ensures
        r.0@ == tunnel_deployment_json(
            base_view(*rce, operator_namespace@),
            rce.metadata.uid->0@,
            rce.spec,
            tunnel_client_default_image@,
        ),
        r.1@ == tunnel_service_json(base_view(*rce, operator_namespace@), proxies(rce.spec)),
{
    let base = base_metadata(rce, operator_namespace);
    let uid: Option<String> = rce.metadata.uid.clone();
    let tunnel_name: String = uid.unwrap();
    (
        tunnel_deployment(&base, tunnel_name.as_str(), &rce.spec, tunnel_client_default_image),
        tunnel_service(&base, remote_proxy(&rce.spec)),
    )
}

/// The conditions that an environment has.
pub open spec fn previous_conditions(rce: RestateCloudEnvironment) -> Option<Vec<Condition>> {
    match rce.status {
        Some(s) => s.conditions,
        None => None,
    }
}

/// The status of a suspended environment.
pub fn reconcile_suspended(rce: &RestateCloudEnvironment, now: Timestamp) -> (r:
    RestateCloudEnvironmentStatus)
    ensures
        opt_conditions(r.conditions) == other_conditions(
            opt_conditions(previous_conditions(*rce)),
            RECONCILING_CONDITION@,
        ).push(
            suspended_view(
                find_condition(
                    opt_conditions(previous_conditions(*rce)),
                    RECONCILING_CONDITION@,
                ),
                now@,
            ),
        ),
        r.reconciliation == Some(ReconciliationState::Disabled),
{
    let none: Option<Vec<Condition>> = None;
    let previous: &Option<Vec<Condition>> = match &rce.status {
        Some(s) => &s.conditions,
        None => &none,
    };
    RestateCloudEnvironmentStatus {
        conditions: Some(suspended_conditions(previous, now)),
        reconciliation: Some(ReconciliationState::Disabled),
    }
}

/// Writes the outcome of a reconcile into a new status, and says when it runs again. Without it a
/// resumed environment would go on saying that it is suspended.
pub fn reconcile_status(rce: &RestateCloudEnvironment, outcome: Result<(), Error>, now: Timestamp) -> (r:
    (RestateCloudEnvironmentStatus, Result<Action, Error>))
    ensures
        ({
            let (message, reason, status) = match outcome {
                Ok(()) => (
                    "Restate Cloud environment reconciled successfully"@,
                    "Reconciled"@,
                    "True"@,
                ),
                Err(e) => (error_text(e), "FailedReconcile"@, "Unknown"@),
            };
            &&& opt_conditions(r.0.conditions) == seq![
                ready_view(
                    find_condition(opt_conditions(previous_conditions(*rce)), "Ready"@),
                    message,
                    reason,
                    status,
                    now@,
                ),
            ]
            &&& r.0.reconciliation == Some(
                state_after(
                    match rce.status {
                        Some(s) => s.reconciliation,
                        None => None,
                    },
                    status,
                ),
            )
            &&& match outcome {
                Ok(()) => r.1 is Ok && r.1->Ok_0 is Requeue && r.1->Ok_0->Requeue_0@ == secs(300),
                Err(e) => r.1 == Err::<Action, Error>(e),
            }
        }),
{
    let (result, message, reason, status): (Result<Action, Error>, String, &str, &str) =
        match outcome {
        Ok(()) => (
            Ok(Action::Requeue(Duration::from_secs(300))),
            "Restate Cloud environment reconciled successfully".to_owned(),
            "Reconciled",
            "True",
        ),
        Err(e) => {
            let text = e.message();
            (Err(e), text, "FailedReconcile", "Unknown")
        },
    };
    let none: Option<Vec<Condition>> = None;
    let previous: &Option<Vec<Condition>> = match &rce.status {
        Some(s) => &s.conditions,
        None => &none,
    };
    let before: Option<ReconciliationState> = match &rce.status {
        Some(s) => s.reconciliation,
        None => None,
    };
    let ready = ready_condition(previous, message, reason.to_owned(), status.to_owned(), now);
    let mut list: Vec<Condition> = Vec::new();
    list.push(ready);
    proof {
        assert(condition_views(list@) =~= seq![ready@]);
    }
    (
        RestateCloudEnvironmentStatus {
            conditions: Some(list),
            reconciliation: Some(state_after_reconcile(before, status)),
        },
        result,
    )
}

} // verus!
