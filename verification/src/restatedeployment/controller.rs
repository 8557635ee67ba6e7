//! Errors, replica counts and the selector of a RestateDeployment.

use vstd::prelude::*;
use vstd::string::*;
use std::collections::BTreeMap;

use crate::control::{find_condition, opt_conditions, Action, Condition, ConditionView};
use crate::error::{cause_of, root_cause, Error, KubeFailure, ReplicaSetStatus};
use crate::meta::{
    opt_requirements, requirement_views, LabelSelectorRequirement, RequirementView,
};
use crate::restatedeployment::hash::{generate_pod_template_hash, template_hash};
use crate::restatedeployment::replicaset::{
    replicaset_selector, version_selector, POD_TEMPLATE_HASH_LABEL,
};
use crate::restatedeployment::resource::{
    InProcessTunnelParams, RestateDeployment, RestateDeploymentStatus,
};
use crate::restatedeployment::retry::{in_backoff, one_more, ExpensiveOperationRetries};
use crate::string_map::{ascending, lemma_one_listing, lists};
use crate::text::{
    cat3, i64_text, in_order, int_text, join, opt_text, str_eq, text_lt, text_lt_irreflexive,
};
use crate::time::{secs, Duration, Timestamp};

verus! {

/// Seconds after which an error without an interval of its own is retried.
pub const ERROR_REQUEUE_SECONDS: u64 = 30;

/// The retry key of a deployment whose admin endpoint cannot be resolved.
pub const UNRESOLVED_ENDPOINT: &'static str = "<unresolved-admin-endpoint>";

/// What identifies a deployment in the retry pacing: its uid, or its namespace and name.
pub fn retry_resource(rsd: &RestateDeployment) -> (r: String)
    ensures
        r@ == match rsd.metadata.uid {
            Some(u) => u@,
            None => (match rsd.metadata.namespace {
                Some(n) => n@,
                None => Seq::empty(),
            }) + "/"@ + rsd.metadata.any_name(),
        },
{
    match &rsd.metadata.uid {
        Some(u) => u.clone(),
        None => {
            let ns: String = match &rsd.metadata.namespace {
                Some(n) => n.clone(),
                None => String::new(),
            };
            cat3(ns.as_str(), "/", rsd.metadata.name_any().as_str())
        },
    }
}

/// The interval that an error has set for its retry.
pub open spec fn own_interval(e: Error) -> Option<Duration> {
    match e {
        Error::ExpensiveOperationDeferred { requeue_after } => Some(requeue_after),
        Error::DeploymentDraining { requeue_after } => requeue_after,
        Error::DeploymentInUse { requeue_after, .. } => requeue_after,
        Error::DeletionDrainOverdue { requeue_after, .. } => requeue_after,
        _ => None,
    }
}

/// When to retry after an error: at the interval that the error under the wrappers has set, else
/// after half a minute.
pub fn error_policy(err: &Error) -> (r: Action)
    ensures
        r matches Action::Requeue(d) && d@ == match own_interval(cause_of(*err)) {
            Some(own) => own@,
            None => secs(ERROR_REQUEUE_SECONDS as int),
        },
{
    let own: Option<Duration> = match root_cause(err) {
        Error::ExpensiveOperationDeferred { requeue_after } => Some(*requeue_after),
        Error::DeploymentDraining { requeue_after } => *requeue_after,
        Error::DeploymentInUse { requeue_after, .. } => *requeue_after,
        Error::DeletionDrainOverdue { requeue_after, .. } => *requeue_after,
        _ => None,
    };
    match own {
        Some(d) => Action::Requeue(d),
        None => Action::Requeue(Duration::from_secs(ERROR_REQUEUE_SECONDS)),
    }
}

/// Whether an error counts as a failure of an expensive query.
pub open spec fn counts_as_failure(e: Error) -> bool {
    match e {
        Error::DeploymentInUse { requeue_after, .. } => requeue_after is Some,
        Error::DeletionDrainOverdue { requeue_after, .. } => requeue_after is Some,
        Error::AdminCallFailed(_) => true,
        Error::AdminCallRejected { .. } => true,
        _ => false,
    }
}

/// The longer of two intervals.
pub open spec fn later(a: int, b: int) -> int {
    if a >= b {
        a
    } else {
        b
    }
}

/// When to retry after an error that left the reconcile, with the pacing of expensive queries: a
/// failed query is paced by its endpoint, a deletion that invocations hold by its own interval or the
/// pacing, whichever is longer, and a drain by its deadline.
pub fn restate_deployment_error_policy(
    err: &Error,
    retries: &mut ExpensiveOperationRetries,
    endpoint: &str,
    resource: &str,
    now: &Timestamp,
) -> (r: Action)
    ensures
        r is Requeue,
        counts_as_failure(cause_of(*err)) ==> {
            let state = final(retries).retry_of(endpoint@, resource@);
            let delay = state.not_before->0 - now@;
            &&& state.failures == one_more(old(retries).retry_of(endpoint@, resource@).failures)
            &&& state.not_before is Some
            &&& in_backoff(state.failures, delay)
            &&& final(retries).same_for_others(old(retries), endpoint@, resource@)
            &&& final(retries).same_elsewhere(old(retries), endpoint@)
            &&& final(retries).gate_of(endpoint@) == old(retries).gate_of(endpoint@)
            &&& r->Requeue_0@ == match cause_of(*err) {
                Error::DeploymentInUse { requeue_after, .. } => later(requeue_after->0@, delay),
                Error::DeletionDrainOverdue { requeue_after, .. } => later(
                    requeue_after->0@,
                    delay,
                ),
                _ => delay,
            }
        },
        !counts_as_failure(cause_of(*err)) ==> *final(retries) == *old(retries) && r->Requeue_0@
            == match cause_of(*err) {
            Error::ExpensiveOperationDeferred { requeue_after } => requeue_after@,
            Error::DeploymentDraining { requeue_after: Some(d) } => d@,
            _ => secs(ERROR_REQUEUE_SECONDS as int),
        },
{
    match root_cause(err) {
        Error::ExpensiveOperationDeferred { requeue_after } => Action::Requeue(*requeue_after),
        Error::DeploymentDraining { requeue_after: Some(d) } => Action::Requeue(*d),
        Error::DeploymentInUse { requeue_after: Some(d), .. } => {
            let delay = retries.failure(endpoint, resource, now);
            Action::Requeue((*d).longer(delay))
        },
        Error::DeletionDrainOverdue { requeue_after: Some(d), .. } => {
            let delay = retries.failure(endpoint, resource, now);
            Action::Requeue((*d).longer(delay))
        },
        Error::AdminCallFailed(_) => Action::Requeue(retries.failure(endpoint, resource, now)),
        Error::AdminCallRejected { .. } => Action::Requeue(retries.failure(endpoint, resource, now)),
        _ => Action::Requeue(Duration::from_secs(ERROR_REQUEUE_SECONDS)),
    }
}

pub const TUNNEL_NEEDS_CLOUD: &'static str = "tunnelMode: in-process requires registering against a RestateCloudEnvironment (spec.restate.register.cloud)";

/// What an in-process tunnel derives its identity from, none in every other mode. `found` is what
/// the named RestateCloudEnvironment holds, where there is one.
pub fn in_process_tunnel_params(
    rsd: &RestateDeployment,
    found: Option<InProcessTunnelParams>,
) -> (r: Result<Option<InProcessTunnelParams>, Error>)
    ensures
        !rsd.spec.restate.in_process_tunnel ==> (r matches Ok(p) && p is None),
        rsd.spec.restate.in_process_tunnel ==> match rsd.spec.restate.register.cloud {
            None => r matches Err(Error::InvalidRestateConfig(t)) && t@ == TUNNEL_NEEDS_CLOUD@,
            Some(cloud) => match found {
                None => r matches Err(Error::RestateCloudEnvironmentNotFound(t)) && t@ == cloud@,
                Some(p) => r == Ok::<Option<InProcessTunnelParams>, Error>(Some(p)),
            },
        },
{
    if !rsd.spec.restate.in_process_tunnel {
        return Ok(None);
    }
    match &rsd.spec.restate.register.cloud {
        None => Err(Error::InvalidRestateConfig(TUNNEL_NEEDS_CLOUD.to_owned())),
        Some(cloud) => match found {
            None => Err(Error::RestateCloudEnvironmentNotFound(cloud.clone())),
            Some(p) => Ok(Some(p)),
        },
    }
}

/// The text of each pair.
pub open spec fn pair_texts(pairs: Seq<(Seq<char>, Seq<char>)>) -> Seq<Seq<char>> {
    Seq::new(pairs.len(), |i: int| pairs[i].0 + "="@ + pairs[i].1)
}

/// A requirement as the Kubernetes API takes it in queries. One with an operator that is not known,
/// or without the values that its operator needs, cannot be written.
pub open spec fn requirement_text(r: RequirementView) -> Option<Seq<char>> {
    let (key, operator, values) = r;
    if operator == "In"@ {
        match values {
            Some(v) => Some(key + " in ("@ + join(in_order(v), ","@) + ")"@),
            None => None,
        }
    } else if operator == "NotIn"@ {
        match values {
            Some(v) => Some(key + " notin ("@ + join(in_order(v), ","@) + ")"@),
            None => None,
        }
    } else if operator == "Exists"@ {
        Some(key)
    } else if operator == "DoesNotExist"@ {
        Some("!"@ + key)
    } else {
        None
    }
}

/// The text of each requirement.
pub open spec fn requirement_texts(requirements: Seq<RequirementView>) -> Seq<Seq<char>> {
    Seq::new(requirements.len(), |i: int| requirement_text(requirements[i])->0)
}

/// A label selector as the Kubernetes API takes it in queries, where its requirements can be written:
/// first the labels, then the requirements, with commas between them.
pub open spec fn selector_text(
    pairs: Seq<(Seq<char>, Seq<char>)>,
    requirements: Seq<RequirementView>,
) -> Option<Seq<char>> {
    if forall|i: int|
        0 <= i < requirements.len() ==> requirement_text(#[trigger] requirements[i]) is Some {
        Some(join(pair_texts(pairs) + requirement_texts(requirements), ","@))
    } else {
        None
    }
}

/// The texts of each pair.
pub open spec fn pair_views(pairs: Seq<(String, String)>) -> Seq<(Seq<char>, Seq<char>)> {
    Seq::new(pairs.len(), |i: int| (pairs[i].0@, pairs[i].1@))
}

/// The conversion of `kube::core::Selector` from a label selector, and its `to_string`. The labels
/// come first, each as key and value in the order of the keys; then the requirements in the order
/// given, each by its operator, with its values each once and in their order; commas stand between
/// them all. A requirement that cannot be written leaves nothing.
#[verifier::external_body]
fn write_selector(
    pairs: Vec<(String, String)>,
    requirements: &Vec<LabelSelectorRequirement>,
) -> (r: Option<String>)
    requires
        ascending(pair_views(pairs@)),
    ensures
        opt_text(r) == selector_text(pair_views(pairs@), requirement_views(requirements@)),
{
    let expressions = requirements.iter().map(
        |e| k8s_openapi::apimachinery::pkg::apis::meta::v1::LabelSelectorRequirement {
            key: e.key.clone(),
            operator: e.operator.clone(),
            values: e.values.clone(),
        },
    );
    let selector = k8s_openapi::apimachinery::pkg::apis::meta::v1::LabelSelector {
        match_labels: Some(pairs.into_iter().collect::<BTreeMap<_, _>>()),
        match_expressions: Some(expressions.collect()),
    };
    kube::core::Selector::try_from(selector).ok().map(|s| s.to_string())
}

/// The requirements that a deployment sets beside its labels.
pub open spec fn asked_requirements(rsd: RestateDeployment) -> Seq<RequirementView> {
    match rsd.spec.selector {
        Some(s) => match opt_requirements(s.match_expressions) {
            Some(e) => e,
            None => Seq::empty(),
        },
        None => Seq::empty(),
    }
}

/// Whether a text is the selector for labels and requirements, with the labels in the order of their
/// keys, or there is none because the requirements cannot be written.
pub open spec fn selects(
    labels: Map<Seq<char>, Seq<char>>,
    requirements: Seq<RequirementView>,
    text: Option<Seq<char>>,
) -> bool {
    exists|pairs: Seq<(Seq<char>, Seq<char>)>| #[trigger]
        lists(pairs, labels) && text == selector_text(pairs, requirements)
}

/// The selector of the pods of the latest version, for the scale subresource.
///
/// Without the hash it would also match older versions that still drain, and their load would be
/// averaged in.
pub fn latest_version_label_selector(
    rsd: &RestateDeployment,
    pod_template: &str,
    in_process_tunnel: Option<&InProcessTunnelParams>,
) -> (r: Option<String>)
    ensures
        ({
            let tunnel = match in_process_tunnel {
                Some(p) => Some(*p),
                None => None,
            };
            selects(
                version_selector(rsd.spec.selector, template_hash(*rsd, pod_template@, tunnel)),
                asked_requirements(*rsd),
                opt_text(r),
            )
        }),
{
    let hash = generate_pod_template_hash(rsd, pod_template, in_process_tunnel);
    let labels = replicaset_selector(rsd, hash.as_str());
    let none: Vec<LabelSelectorRequirement> = Vec::new();
    let requirements: &Vec<LabelSelectorRequirement> = match &rsd.spec.selector {
        Some(s) => match &s.match_expressions {
            Some(e) => e,
            None => &none,
        },
        None => &none,
    };
    proof {
        assert(requirement_views(none@) =~= Seq::empty());
    }
    let pairs = labels.to_pairs();
    proof {
        assert(pair_views(pairs@) =~= labels.pairs());
        assert(requirement_views(requirements@) == asked_requirements(*rsd));
        assert(lists(labels.pairs(), labels@));
    }
    write_selector(pairs, requirements)
}

/// Without labels and requirements of its own, a deployment selects by its version alone.
pub proof fn bare_selector_is_the_version(
    rsd: RestateDeployment,
    hash: Seq<char>,
    text: Option<Seq<char>>,
)
    requires
        rsd.spec.selector is None,
        selects(version_selector(rsd.spec.selector, hash), asked_requirements(rsd), text),
    ensures
        text == Some(POD_TEMPLATE_HASH_LABEL@ + "="@ + hash),
{
    let labels = version_selector(rsd.spec.selector, hash);
    let none = asked_requirements(rsd);
    let pairs = choose|pairs: Seq<(Seq<char>, Seq<char>)>| #[trigger]
        lists(pairs, labels) && text == selector_text(pairs, none);
    let key = POD_TEMPLATE_HASH_LABEL@;
    assert(labels.contains_key(key));
    let i = choose|i: int| 0 <= i < pairs.len() && #[trigger] pairs[i] == (key, labels[key]);
    assert forall|j: int| 0 <= j < pairs.len() implies #[trigger] pairs[j].0 == key by {}
    if pairs.len() > 1 {
        assert(text_lt(pairs[0].0, pairs[1].0));
        text_lt_irreflexive(key);
    }
    assert(pairs.len() == 1);
    assert(pair_texts(pairs) + requirement_texts(none) =~= seq![key + "="@ + hash]);
}

/// There is one selector for given labels and requirements.
pub proof fn the_selector_is_one(
    labels: Map<Seq<char>, Seq<char>>,
    requirements: Seq<RequirementView>,
    a: Option<Seq<char>>,
    b: Option<Seq<char>>,
)
    requires
        selects(labels, requirements, a),
        selects(labels, requirements, b),
    ensures
        a == b,
{
    let p = choose|p: Seq<(Seq<char>, Seq<char>)>| #[trigger]
        lists(p, labels) && a == selector_text(p, requirements);
    let q = choose|q: Seq<(Seq<char>, Seq<char>)>| #[trigger]
        lists(q, labels) && b == selector_text(q, requirements);
    lemma_one_listing(p, q, labels);
}

/// The replica counts of a status after a look at the ReplicaSet.
pub open spec fn counted_status(
    expected: i32,
    status: RestateDeploymentStatus,
    rs: Option<ReplicaSetStatus>,
) -> RestateDeploymentStatus {
    let available = available_of(rs);
    RestateDeploymentStatus {
        replicas: match rs {
            Some(s) => s.replicas,
            None => 0i32,
        },
        desired_replicas: Some(expected),
        ready_replicas: Some(ready_of(rs)),
        available_replicas: Some(available),
        unavailable_replicas: Some(
            if expected > available {
                (expected - available) as i32
            } else {
                0i32
            },
        ),
        ..status
    }
}

/// The available replicas of a ReplicaSet, none where it does not say.
pub open spec fn available_of(rs: Option<ReplicaSetStatus>) -> i32 {
    match rs {
        Some(s) => match s.available_replicas {
            Some(n) => n,
            None => 0i32,
        },
        None => 0i32,
    }
}

/// The ready replicas of a ReplicaSet, none where it does not say.
pub open spec fn ready_of(rs: Option<ReplicaSetStatus>) -> i32 {
    match rs {
        Some(s) => match s.ready_replicas {
            Some(n) => n,
            None => 0i32,
        },
        None => 0i32,
    }
}

/// Takes the replica counts over from the ReplicaSet.
pub fn status_from_replica_set(
    expected_replicas: i32,
    rsd_status: &mut RestateDeploymentStatus,
    rs_status: Option<ReplicaSetStatus>,
)
    requires
        expected_replicas - available_of(rs_status) <= i32::MAX,
    ensures
        *final(rsd_status) == counted_status(expected_replicas, *old(rsd_status), rs_status),
{
    let (replicas, ready, available): (i32, i32, i32) = match rs_status {
        Some(s) => (
            s.replicas,
            match s.ready_replicas {
                Some(n) => n,
                None => 0,
            },
            match s.available_replicas {
                Some(n) => n,
                None => 0,
            },
        ),
        None => (0, 0, 0),
    };
    let unavailable: i32 = if expected_replicas > available {
        expected_replicas - available
    } else {
        0
    };
    rsd_status.replicas = replicas;
    rsd_status.desired_replicas = Some(expected_replicas);
    rsd_status.ready_replicas = Some(ready);
    rsd_status.available_replicas = Some(available);
    rsd_status.unavailable_replicas = Some(unavailable);
}

/// Why a ReplicaSet is not ready: the reason and the message.
pub open spec fn replica_set_complaint(status: Option<ReplicaSetStatus>, expected: int) -> Option<
    (Seq<char>, Seq<char>),
> {
    match status {
        None => Some(
            (
                "ReplicaSetNoStatus"@,
                "ReplicaSet has no status set; it may have just been created"@,
            ),
        ),
        Some(s) => if s.replicas != expected {
            Some(
                (
                    "ReplicaSetScaling"@,
                    "ReplicaSet has "@ + int_text(s.replicas as int)
                        + " replicas instead of the expected "@ + int_text(expected)
                        + "; it may be scaling up or down"@,
                ),
            )
        } else if ready_of(status) < expected {
            Some(
                (
                    "ReplicaSetPodNotReady"@,
                    "ReplicaSet has "@ + int_text(ready_of(status) as int)
                        + " ready replicas instead of the expected "@ + int_text(expected)
                        + "; a pod may not be ready"@,
                ),
            )
        } else if available_of(status) < expected {
            Some(
                (
                    "ReplicaSetPodNotAvailable"@,
                    "ReplicaSet has "@ + int_text(available_of(status) as int)
                        + " available replicas instead of the expected "@ + int_text(expected)
                        + "; a pod may not be available"@,
                ),
            )
        } else {
            None
        },
    }
}

fn replica_text(count: i32, what: &str, expected: i32, hint: &str) -> (r: String)
    ensures
        r@ == "ReplicaSet has "@ + int_text(count as int) + what@ + int_text(expected as int)
            + hint@,
{
    let mut s: String = "ReplicaSet has ".to_owned();
    s.append(i64_text(count as i64).as_str());
    s.append(what);
    s.append(i64_text(expected as i64).as_str());
    s.append(hint);
    s
}

/// Checks that a ReplicaSet has as many ready and available replicas as are wanted.
pub fn validate_replica_set_status(
    status: Option<ReplicaSetStatus>,
    expected_replicas: i32,
) -> (r: Result<(), Error>)
    ensures
        match replica_set_complaint(status, expected_replicas as int) {
            None => r is Ok,
            Some((why, text)) => r matches Err(
                Error::DeploymentNotReady { message, reason, requeue_after, replica_set_status },
            ) && message@ == text && reason@ == why && requeue_after is None && replica_set_status
                == status,
        },
{
    let s = match status {
        None => {
            return Err(
                Error::DeploymentNotReady {
                    message: "ReplicaSet has no status set; it may have just been created".to_owned(),
                    reason: "ReplicaSetNoStatus".to_owned(),
                    requeue_after: None,
                    replica_set_status: None,
                },
            );
        },
        Some(s) => s,
    };
    if s.replicas != expected_replicas {
        return Err(
            Error::DeploymentNotReady {
                message: replica_text(
                    s.replicas,
                    " replicas instead of the expected ",
                    expected_replicas,
                    "; it may be scaling up or down",
                ),
                reason: "ReplicaSetScaling".to_owned(),
                requeue_after: None,
                replica_set_status: status,
            },
        );
    }
    let ready: i32 = match s.ready_replicas {
        Some(n) => n,
        None => 0,
    };
    if ready < expected_replicas {
        return Err(
            Error::DeploymentNotReady {
                message: replica_text(
                    ready,
                    " ready replicas instead of the expected ",
                    expected_replicas,
                    "; a pod may not be ready",
                ),
                reason: "ReplicaSetPodNotReady".to_owned(),
                requeue_after: None,
                replica_set_status: status,
            },
        );
    }
    let available: i32 = match s.available_replicas {
        Some(n) => n,
        None => 0,
    };
    if available < expected_replicas {
        return Err(
            Error::DeploymentNotReady {
                message: replica_text(
                    available,
                    " available replicas instead of the expected ",
                    expected_replicas,
                    "; a pod may not be available",
                ),
                reason: "ReplicaSetPodNotAvailable".to_owned(),
                requeue_after: None,
                replica_set_status: status,
            },
        );
    }
    Ok(())
}

/// What looking up a RestateCluster gave.
#[derive(Debug)]
pub enum ClusterLookup {
    /// Its conditions.
    Found(Option<Vec<Condition>>),
    NotFound,
    Failed(KubeFailure),
}

/// Whether the conditions say that a resource is ready.
pub open spec fn says_ready(conditions: Seq<ConditionView>) -> bool {
    find_condition(conditions, "Ready"@) matches Some(c) && c.status == "True"@
}

/// Whether the conditions say that a resource is ready.
pub fn is_ready(conditions: &Option<Vec<Condition>>) -> (r: bool)
    ensures
        r == says_ready(opt_conditions(*conditions)),
{
    match crate::control::condition_of_type(conditions, "Ready") {
        Some(c) => str_eq(c.status.as_str(), "True"),
        None => false,
    }
}

/// Checks that a cluster is there and ready before anything is registered with it.
pub fn validate_cluster_status(cluster_name: &str, lookup: ClusterLookup) -> (r: Result<(), Error>)
    ensures
        match lookup {
            ClusterLookup::NotFound => r matches Err(Error::InvalidRestateConfig(t)) && t@
                == "Referenced Restate cluster '"@ + cluster_name@ + "' not found"@,
            ClusterLookup::Failed(f) => r == Err::<(), Error>(Error::KubeError(f)),
            ClusterLookup::Found(conditions) => if says_ready(opt_conditions(conditions)) {
                r is Ok
            } else {
                r matches Err(
                    Error::DeploymentNotReady { message, reason, requeue_after, replica_set_status },
                ) && message@ == "Referenced Restate cluster '"@ + cluster_name@ + "' is not ready"@
                    && reason@ == "ClusterNotReady"@ && (requeue_after matches Some(d) && d@ == secs(
                    30,
                )) && replica_set_status is None
            },
        },
{
    match lookup {
        ClusterLookup::NotFound => Err(
            Error::InvalidRestateConfig(
                cat3("Referenced Restate cluster '", cluster_name, "' not found"),
            ),
        ),
        ClusterLookup::Failed(f) => Err(Error::KubeError(f)),
        ClusterLookup::Found(conditions) => if is_ready(&conditions) {
            Ok(())
        } else {
            Err(
                Error::DeploymentNotReady {
                    message: cat3("Referenced Restate cluster '", cluster_name, "' is not ready"),
                    reason: "ClusterNotReady".to_owned(),
                    requeue_after: Some(Duration::from_secs(30)),
                    replica_set_status: None,
                },
            )
        },
    }
}

/// Whether a reason comes after the usage query has run, so that its retry is paced with the
/// expensive queries.
pub open spec fn after_expensive_work(reason: Seq<char>) -> bool {
    reason == "AdminCallFailed"@ || reason == "AdminCallRejected"@ || reason
        == "ForeignDeployment"@ || reason == "NotLatest"@ || reason == "ClusterNotReady"@ || reason
        == "ReplicaSetNoStatus"@ || reason == "ReplicaSetScaling"@ || reason
        == "ReplicaSetPodNotReady"@ || reason == "ReplicaSetPodNotAvailable"@
}

/// Whether a reason comes after the usage query has run.
pub fn requeues_after_expensive_admin_work(reason: &str) -> (r: bool)
    ensures
        r == after_expensive_work(reason@),
{
    str_eq(reason, "AdminCallFailed") || str_eq(reason, "AdminCallRejected") || str_eq(
        reason,
        "ForeignDeployment",
    ) || str_eq(reason, "NotLatest") || str_eq(reason, "ClusterNotReady") || str_eq(
        reason,
        "ReplicaSetNoStatus",
    ) || str_eq(reason, "ReplicaSetScaling") || str_eq(reason, "ReplicaSetPodNotReady") || str_eq(
        reason,
        "ReplicaSetPodNotAvailable",
    )
}

} // verus!
