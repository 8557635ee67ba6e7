//! What is said of a resource: its conditions, its status, and how its deletion goes.

use vstd::prelude::*;

use crate::control::{
    at_path, find_condition, opt_conditions, other_conditions, ready_view, retryable,
    service_address, state_after, suspended, suspended_view, suspension_text, ConditionView,
    ReconciliationState,
};
use crate::error::{error_text, Error, KubeFailureKind, ReplicaSetStatus};
use crate::meta::{ObjectMeta, RequirementView};
use crate::restatedeployment::cleanup::{counted, counted_as_known, deadline_of, BlockingView};
use crate::restatedeployment::controller::{
    after_expensive_work, counted_status, counts_as_failure, own_interval, pair_texts,
    requirement_text, says_ready, selector_text,
};
use crate::restatedeployment::deletion::{
    abandoned_text, blocked_by_text, deletion_view, drain_wait, forces_at_deadline,
    has_suspension_marks, held_message, overdue, total_in_flight, until_deadline, waited,
};
use crate::restatedeployment::resource::{
    DeletePolicy, DeletionPhase, DeploymentMode, OnTimeout, RestateDeployment,
    RestateDeploymentStatus,
};
use crate::restatedeployment::status::{
    failure_verdict, mode_chosen, next_look, seen_counts, verdict_of, ReadyStatus, ReconcileOutcome,
};
use crate::text::{decimal, in_order, int_text, join};
use crate::time::{opt_time, representable};

verus! {

/// The condition of a type is the first of it.
pub proof fn which_condition_counts(s: Seq<ConditionView>, type_: Seq<char>, i: int)
    requires
        0 <= i < s.len(),
        s[i].type_ == type_,
        forall|j: int| 0 <= j < i ==> (#[trigger] s[j]).type_ != type_,
    ensures
        find_condition(s, type_) == Some(s[i]),
    decreases s.len(),
{
    if i > 0 {
        assert(s[0].type_ != type_);
        let rest = s.skip(1);
        assert(rest[i - 1] == s[i]);
        assert forall|j: int| 0 <= j < i - 1 implies (#[trigger] rest[j]).type_ != type_ by {
            assert(rest[j] == s[j + 1]);
        }
        which_condition_counts(rest, type_, i - 1);
    }
}

/// There is no condition of a type that none has.
pub proof fn missing_conditions_are_not_found(s: Seq<ConditionView>, type_: Seq<char>)
    requires
        forall|j: int| 0 <= j < s.len() ==> (#[trigger] s[j]).type_ != type_,
    ensures
        find_condition(s, type_) is None,
    decreases s.len(),
{
    if s.len() > 0 {
        assert(s[0].type_ != type_);
        let rest = s.skip(1);
        assert forall|j: int| 0 <= j < rest.len() implies (#[trigger] rest[j]).type_ != type_ by {
            assert(rest[j] == s[j + 1]);
        }
        missing_conditions_are_not_found(rest, type_);
    }
}

/// The other conditions are those of other types, in their order.
pub proof fn what_the_other_conditions_are(s: Seq<ConditionView>, type_: Seq<char>)
    ensures
        other_conditions(s, type_) == s.filter(|c: ConditionView| c.type_ != type_),
    decreases s.len(),
{
    reveal(Seq::filter);
    if s.len() > 0 {
        what_the_other_conditions_are(s.drop_last(), type_);
    }
}

/// A resource is suspended by its annotation, and no longer once it is deleted.
pub proof fn what_is_suspended(meta: ObjectMeta)
    ensures
        suspended(meta) <==> meta.deletion_timestamp is None && meta.annotation(
            "restate.dev/reconcile"@,
        ) == Some("disabled"@),
        suspension_text() == "Reconciliation is suspended by the "@ + "restate.dev/reconcile"@
            + "="@ + "disabled"@ + " annotation."@,
{
}

/// A resource that was suspended resumes until it is ready.
pub proof fn how_a_resource_resumes(previous: Option<ReconciliationState>, ready: Seq<char>)
    ensures
        previous is None || previous == Some(ReconciliationState::Reconciling) ==> state_after(
            previous,
            ready,
        ) is Reconciling,
        ready == "True"@ ==> state_after(previous, ready) is Reconciling,
        previous is Some && previous->0 != ReconciliationState::Reconciling && ready != "True"@
            ==> state_after(previous, ready) is ResumingReconciliation,
        ReconciliationState::Reconciling.name() == "Reconciling"@,
        ReconciliationState::Disabled.name() == "Disabled"@,
        ReconciliationState::ResumingReconciliation.name() == "ResumingReconciliation"@,
{
}

/// The time of a condition moves just when its status does, or where it has none.
pub proof fn when_a_condition_changed(
    existing: Option<ConditionView>,
    message: Seq<char>,
    reason: Seq<char>,
    status: Seq<char>,
    now: int,
)
    ensures
        ({
            let kept = existing is Some && existing->0.status == status
                && existing->0.last_transition_time is Some;
            let c = ready_view(existing, message, reason, status, now);
            &&& kept ==> c.last_transition_time == existing->0.last_transition_time
            &&& !kept ==> c.last_transition_time == Some(now)
            &&& c.type_ == "Ready"@
            &&& c.status == status
            &&& c.reason == Some(reason)
            &&& c.message == Some(message)
        }),
        ({
            let kept = existing is Some && existing->0.status == "False"@
                && existing->0.last_transition_time is Some;
            let c = suspended_view(existing, now);
            &&& kept ==> c.last_transition_time == existing->0.last_transition_time
            &&& !kept ==> c.last_transition_time == Some(now)
            &&& c.type_ == "Reconciling"@
            &&& c.status == "False"@
            &&& c.reason == Some("Disabled"@)
            &&& c.message == Some(suspension_text())
        }),
{
}

/// A call of the apiserver is tried again where it was lost on the way, came too often, found nothing
/// or ran into a failure of the server.
pub proof fn which_calls_are_tried_again(kind: KubeFailureKind)
    ensures
        kind is Transport ==> retryable(kind),
        kind is Other ==> !retryable(kind),
        kind matches KubeFailureKind::Api(code) ==> (retryable(kind) <==> code == 404 || code == 429
            || code >= 500),
{
}

/// The address of a Service is made of its name, its namespace, the domain of the cluster and the
/// port; a path is laid on it where there is one.
pub proof fn where_a_service_is_reached(
    name: Seq<char>,
    namespace: Seq<char>,
    port: int,
    cluster_dns: Seq<char>,
    url: Result<Seq<char>, Seq<char>>,
    path: Option<Seq<char>>,
)
    ensures
        service_address(name, namespace, port, cluster_dns) == "http://"@ + name + "."@ + namespace
            + ".svc."@ + cluster_dns + ":"@ + int_text(port),
        url is Err || path is None ==> at_path(url, path) == url,
        url is Ok && path is Some ==> at_path(url, path) == crate::control::url_with_path(
            url->Ok_0,
            path->0,
        ),
{
}

/// A deployment runs by ReplicaSets unless it asks for Knative.
pub proof fn how_a_deployment_runs(rsd: RestateDeployment)
    ensures
        rsd.spec.deployment_mode is None ==> mode_chosen(rsd) is ReplicaSet,
        rsd.spec.deployment_mode matches Some(m) ==> mode_chosen(rsd) == m,
        rsd.spec.restate.delete_policy is None ==> rsd.spec.restate.policy() is Drain,
        rsd.spec.restate.delete_policy matches Some(p) ==> rsd.spec.restate.policy() == p,
        rsd.spec.restate.drain is None ==> rsd.spec.restate.timeout_action() is Hold
            && rsd.spec.restate.timeout() == 3600,
        rsd.spec.restate.drain matches Some(d) ==> {
            &&& d.on_timeout is None ==> rsd.spec.restate.timeout_action() is Hold
            &&& d.on_timeout matches Some(t) ==> rsd.spec.restate.timeout_action() == t
            &&& d.timeout_seconds is None ==> rsd.spec.restate.timeout() == 3600
            &&& d.timeout_seconds matches Some(t) ==> rsd.spec.restate.timeout() == t
        },
{
}

/// A deployed version is looked at again by its next removal where that is less than five minutes
/// away, at once where it is past, and otherwise after the usual time.
pub proof fn when_a_version_is_looked_at_again(
    next_removal: Option<int>,
    now: int,
    healthy: int,
)
    ensures
        next_removal is None ==> next_look(next_removal, now, healthy) == healthy,
        next_removal matches Some(t) ==> {
            let wait = next_look(next_removal, now, healthy);
            &&& t < now ==> wait == 0
            &&& now <= t && t - now < 300_000_000_000 ==> wait <= t - now && t - now - wait
                < 1_000_000_000 && wait % 1_000_000_000 == 0
            &&& t - now >= 300_000_000_000 ==> wait == healthy
        },
{
}

/// What a deployed version says of itself.
pub proof fn what_a_deployed_version_says(
    mode: DeploymentMode,
    outcome: ReconcileOutcome,
    now: int,
    healthy: int,
)
    ensures
        outcome matches ReconcileOutcome::Deployed { next_removal, .. } ==> {
            let v = verdict_of(mode, outcome, now, healthy);
            &&& v.status is True
            &&& v.reason == "Deployed"@
            &&& v.message == "RestateDeployment is deployed"@
            &&& v.action == Some(next_look(opt_time(next_removal), now, healthy))
        },
        outcome matches ReconcileOutcome::Failed(e) ==> verdict_of(mode, outcome, now, healthy)
            == failure_verdict(mode, e) && !(verdict_of(mode, outcome, now, healthy).status
            is True),
        ReadyStatus::True.text() == "True"@,
        ReadyStatus::False.text() == "False"@,
        ReadyStatus::Unknown.text() == "Unknown"@,
{
}

/// What a failed rollout says of itself, and when it is tried again.
pub proof fn what_a_failed_rollout_says(mode: DeploymentMode, e: Error)
    ensures
        ({
            let v = failure_verdict(mode, e);
            let second = 1_000_000_000int;
            &&& e is AdminCallFailed ==> v.reason == "AdminCallFailed"@ && v.status is False
                && v.message == error_text(e) && v.action == Some(30 * second)
            &&& e is AdminCallRejected ==> v.reason == "AdminCallRejected"@ && v.status is False
                && v.message == error_text(e) && v.action == Some(30 * second)
            &&& e is HashCollision ==> v.reason == "HashCollision"@ && v.status is False && v.action
                == Some(0int)
            &&& e matches Error::DeploymentNotLatest { message, reason, requeue_after } ==> {
                &&& v.message == message@ && v.reason == reason@ && v.status is False
                &&& requeue_after is None ==> v.action == Some(30 * second)
                &&& requeue_after matches Some(d) ==> v.action == Some(d@)
            }
            &&& mode is Knative ==> (e matches Error::RouteNotReady { message, requeue_after, .. }
                ==> {
                &&& v.message == message@ && v.reason == "RouteNotReady"@ && v.status is False
                &&& requeue_after is None ==> v.action == Some(10 * second)
                &&& requeue_after matches Some(d) ==> v.action == Some(d@)
            })
            &&& mode is Knative ==> (e matches Error::ConfigurationNotReady {
                message,
                requeue_after,
                ..
            } ==> {
                &&& v.message == message@ && v.reason == "ConfigurationNotReady"@ && v.status
                    is False
                &&& requeue_after is None ==> v.action == Some(10 * second)
                &&& requeue_after matches Some(d) ==> v.action == Some(d@)
            })
            &&& mode is ReplicaSet ==> (e matches Error::DeploymentNotReady {
                message,
                reason,
                requeue_after,
                ..
            } ==> {
                &&& v.message == message@ && v.reason == reason@ && v.status is False
                &&& requeue_after is None ==> v.action == Some(60 * second)
                &&& requeue_after matches Some(d) ==> v.action == Some(d@)
            })
            &&& !(e is AdminCallFailed) && !(e is AdminCallRejected) && !(e is HashCollision) && !(e
                is DeploymentNotLatest) && !(e is RouteNotReady) && !(e is ConfigurationNotReady)
                && !(e is DeploymentNotReady) ==> v.reason == "FailedReconcile"@ && v.status
                is Unknown && v.action is None && v.message == error_text(e)
        }),
{
}

/// The counts of a status are those of the ReplicaSet that was seen, where one was.
pub proof fn whose_counts_are_shown(mode: DeploymentMode, outcome: ReconcileOutcome)
    ensures
        mode is Knative ==> seen_counts(mode, outcome) is None,
        mode is ReplicaSet ==> (outcome matches ReconcileOutcome::Deployed { replica_set, .. }
            ==> seen_counts(mode, outcome) == (match replica_set {
            Some(seen) => Some(seen.status),
            None => None,
        })),
        mode is ReplicaSet ==> (outcome matches ReconcileOutcome::Failed(
            Error::DeploymentNotReady { replica_set_status, .. },
        ) ==> seen_counts(mode, outcome) == Some(replica_set_status)),
{
}

/// A status counts the replicas of the ReplicaSet, what is asked for, and what is missing of it.
pub proof fn what_a_status_counts(
    expected: i32,
    status: RestateDeploymentStatus,
    rs: Option<ReplicaSetStatus>,
)
    requires
        rs is Some && rs->0.available_replicas is Some ==> 0 <= rs->0.available_replicas->0,
    ensures
        ({
            let r = counted_status(expected, status, rs);
            let available = if rs is Some && rs->0.available_replicas is Some {
                rs->0.available_replicas->0 as int
            } else {
                0
            };
            &&& rs is None ==> r.replicas == 0
            &&& rs matches Some(s) ==> r.replicas == s.replicas
            &&& r.desired_replicas == Some(expected)
            &&& r.available_replicas is Some && r.available_replicas->0 == available
            &&& rs is None || rs->0.ready_replicas is None ==> r.ready_replicas == Some(0i32)
            &&& rs is Some && rs->0.ready_replicas is Some ==> r.ready_replicas
                == rs->0.ready_replicas
            &&& r.unavailable_replicas is Some
            &&& expected >= available ==> r.unavailable_replicas->0 == expected - available
            &&& expected < available ==> r.unavailable_replicas->0 == 0
            &&& r.conditions == status.conditions && r.deployment_id == status.deployment_id
        }),
{
}

/// An error that says when to try again is followed.
pub proof fn which_errors_say_when(e: Error)
    ensures
        e matches Error::ExpensiveOperationDeferred { requeue_after } ==> own_interval(e) == Some(
            requeue_after,
        ),
        e matches Error::DeploymentDraining { requeue_after } ==> own_interval(e) == requeue_after,
        e matches Error::DeploymentInUse { requeue_after, .. } ==> own_interval(e) == requeue_after,
        e matches Error::DeletionDrainOverdue { requeue_after, .. } ==> own_interval(e)
            == requeue_after,
        !(e is ExpensiveOperationDeferred) && !(e is DeploymentDraining) && !(e is DeploymentInUse)
            && !(e is DeletionDrainOverdue) ==> own_interval(e) is None,
        e is AdminCallFailed || e is AdminCallRejected ==> counts_as_failure(e),
        e is ExpensiveOperationDeferred || e is DeploymentDraining ==> !counts_as_failure(e),
{
}

/// The reasons of failures that come after Restate was asked for its usage.
pub proof fn which_failures_cost_a_query(reason: Seq<char>)
    ensures
        after_expensive_work(reason) <==> reason == "AdminCallFailed"@ || reason
            == "AdminCallRejected"@ || reason == "ForeignDeployment"@ || reason == "NotLatest"@
            || reason == "ClusterNotReady"@ || reason == "ReplicaSetNoStatus"@ || reason
            == "ReplicaSetScaling"@ || reason == "ReplicaSetPodNotReady"@ || reason
            == "ReplicaSetPodNotAvailable"@,
{
}

/// A requirement is written as Kubernetes reads it.
pub proof fn how_a_requirement_is_written(key: Seq<char>, values: Option<Seq<Seq<char>>>)
    ensures
        values matches Some(v) ==> requirement_text((key, "In"@, values)) == Some(
            key + " in ("@ + join(in_order(v), ","@) + ")"@,
        ),
        values matches Some(v) ==> requirement_text((key, "NotIn"@, values)) == Some(
            key + " notin ("@ + join(in_order(v), ","@) + ")"@,
        ),
        values is None ==> requirement_text((key, "In"@, values)) is None,
        values is None ==> requirement_text((key, "NotIn"@, values)) is None,
        requirement_text((key, "Exists"@, values)) == Some(key),
        requirement_text((key, "DoesNotExist"@, values)) == Some("!"@ + key),
        forall|operator: Seq<char>|
            operator != "In"@ && operator != "NotIn"@ && operator != "Exists"@ && operator
                != "DoesNotExist"@ ==> #[trigger] requirement_text((key, operator, values)) is None,
{
    reveal_strlit("In");
    reveal_strlit("NotIn");
    reveal_strlit("Exists");
    reveal_strlit("DoesNotExist");
    assert("In"@.len() == 2);
    assert("NotIn"@.len() == 5);
    assert("Exists"@.len() == 6);
    assert("DoesNotExist"@.len() == 12);
}

/// A selector is written as its labels and then its requirements, set off by commas, where every
/// requirement can be written.
pub proof fn how_a_selector_is_written(
    pairs: Seq<(Seq<char>, Seq<char>)>,
    requirements: Seq<RequirementView>,
    i: int,
)
    ensures
        0 <= i < requirements.len() && requirement_text(requirements[i]) is None ==> selector_text(
            pairs,
            requirements,
        ) is None,
        0 <= i < pairs.len() ==> pair_texts(pairs).len() == pairs.len() && {
            let (key, value) = pairs[i];
            pair_texts(pairs)[i] == key + "="@ + value
        },
        requirements.len() == 0 ==> selector_text(pairs, requirements) == Some(
            join(pair_texts(pairs), ","@),
        ),
{
    if requirements.len() == 0 {
        assert(pair_texts(pairs) + crate::restatedeployment::controller::requirement_texts(
            requirements,
        ) =~= pair_texts(pairs));
    }
}

/// The report of a deletion says what it waits for and until when: how many invocations there are in
/// all, and those of each version.
pub proof fn what_a_deletion_reports(
    rsd: RestateDeployment,
    phase: DeletionPhase,
    message: Seq<char>,
    blocking: Seq<BlockingView>,
    i: int,
)
    ensures
        ({
            let d = deletion_view(rsd, phase, message, blocking);
            let forced = rsd.spec.restate.delete_policy == Some(DeletePolicy::Force);
            &&& d.phase == phase && d.message == Some(message)
            &&& d.policy == rsd.spec.restate.policy()
            &&& rsd.metadata.deletion_timestamp matches Some(t) ==> d.started_at == Some(t@)
            &&& rsd.metadata.deletion_timestamp is None ==> d.started_at is None
            &&& forced ==> d.deadline is None && d.on_timeout is None
            &&& !forced ==> d.deadline == deadline_of(rsd) && d.on_timeout == Some(
                rsd.spec.restate.timeout_action(),
            )
            &&& d.pending.len() == blocking.len()
            &&& 0 <= i < blocking.len() ==> {
                &&& d.pending[i].version == blocking[i].name
                &&& d.pending[i].deployment_id == blocking[i].deployment_id
                &&& d.pending[i].pinned == blocking[i].usage.pinned_invocations
                &&& d.pending[i].unpinned == blocking[i].usage.unpinned_invocations
            }
            &&& d.total == total_in_flight(blocking)
        }),
{
}

/// The invocations of all versions add up, whatever their order.
pub proof fn what_the_total_is(blocking: Seq<BlockingView>, more: Seq<BlockingView>)
    ensures
        total_in_flight(Seq::empty()) == 0,
        forall|v: BlockingView| #[trigger]
            total_in_flight(seq![v]) == v.usage.pinned_invocations + v.usage.unpinned_invocations,
        total_in_flight(blocking + more) == total_in_flight(blocking) + total_in_flight(more),
    decreases more.len(),
{
    assert forall|v: BlockingView| #[trigger]
        total_in_flight(seq![v]) == v.usage.pinned_invocations + v.usage.unpinned_invocations by {
        assert(seq![v].drop_last() =~= Seq::empty());
        assert(total_in_flight(seq![v].drop_last()) == 0);
    }
    if more.len() == 0 {
        assert(blocking + more =~= blocking);
    } else {
        what_the_total_is(blocking, more.drop_last());
        assert((blocking + more).drop_last() =~= blocking + more.drop_last());
    }
}

/// A drain is over its timeout that long after the deletion was asked for, counted from then.
pub proof fn when_a_drain_is_over(rsd: RestateDeployment, now: int)
    requires
        rsd.metadata.deletion_timestamp is Some,
        representable(
            rsd.metadata.deletion_timestamp->0@ + rsd.spec.restate.timeout() * 1_000_000_000,
        ),
    ensures
        ({
            let start = rsd.metadata.deletion_timestamp->0@;
            let end = start + rsd.spec.restate.timeout() * 1_000_000_000;
            let drains = rsd.spec.restate.delete_policy != Some(DeletePolicy::Force);
            let holds = rsd.spec.restate.drain is None || rsd.spec.restate.drain->0.on_timeout
                != Some(OnTimeout::Force);
            &&& overdue(rsd, now) <==> drains && holds && end <= now
            &&& forces_at_deadline(rsd) <==> drains && !holds
            &&& now <= end ==> until_deadline(rsd, now) == Some(end - now)
            &&& end < now && drains && !holds ==> until_deadline(rsd, now) == Some(0int)
            &&& end < now && !(drains && !holds) ==> until_deadline(rsd, now) is None
            &&& now >= start ==> waited(rsd, now) == now - start
            &&& now < start ==> waited(rsd, now) == 0
        }),
{
}

/// A drained deployment waits for its next removal, in whole seconds and at least one, but not past
/// the time at which it is forced.
pub proof fn how_long_a_drained_deployment_waits(
    rsd: RestateDeployment,
    next_removal: int,
    now: int,
)
    ensures
        ({
            let wait = drain_wait(rsd, next_removal, now);
            let second = 1_000_000_000int;
            &&& wait >= second
            &&& wait <= second || wait <= next_removal - now
            &&& !forces_at_deadline(rsd) && next_removal - now >= second ==> wait % second == 0
                && next_removal - now - wait < second
            &&& !forces_at_deadline(rsd) && next_removal - now < second ==> wait == second
            &&& forces_at_deadline(rsd) ==> (until_deadline(rsd, now) matches Some(d) ==> wait
                <= second || wait <= d)
        }),
{
}

/// What holds a deletion is named with its invocations, and so is what was torn down in spite of them.
pub proof fn what_holds_a_deletion(rsd: RestateDeployment, v: BlockingView, now: int)
    ensures
        counted(v) == v.name + " ("@ + decimal(v.usage.pinned_invocations as nat) + " pinned, "@
            + decimal(v.usage.unpinned_invocations as nat) + " unpinned invocations)"@,
        v.usage.unpinned_invocations > 0 ==> counted_as_known(v) == counted(v),
        v.usage.unpinned_invocations == 0 ==> counted_as_known(v) == v.name + " ("@ + decimal(
            v.usage.pinned_invocations as nat,
        ) + " pinned invocations)"@,
        overdue(rsd, now) ==> held_message(rsd, seq![v], now) == "Still waiting on "@
            + blocked_by_text(seq![v]) + " after the "@ + int_text(rsd.spec.restate.timeout())
            + "s drain timeout"@,
        !overdue(rsd, now) ==> held_message(rsd, seq![v], now)
            == "Waiting for in-flight invocations against "@ + blocked_by_text(seq![v]),
{
}

/// The marks of a suspension are a state other than the usual one, or the condition that says so.
pub proof fn what_marks_a_suspension(rsd: RestateDeployment)
    ensures
        rsd.status is None ==> !has_suspension_marks(rsd),
        rsd.status matches Some(s) ==> (has_suspension_marks(rsd) <==> (s.reconciliation is Some
            && s.reconciliation->0 != ReconciliationState::Reconciling) || find_condition(
            opt_conditions(s.conditions),
            "Reconciling"@,
        ) is Some),
{
}

/// A resource is ready where its condition of readiness is true.
pub proof fn what_is_ready(conditions: Seq<ConditionView>)
    ensures
        says_ready(conditions) <==> find_condition(conditions, "Ready"@) is Some && find_condition(
            conditions,
            "Ready"@,
        )->0.status == "True"@,
{
}

/// The versions that hold a deletion are named one after the other, and so are those torn down.
pub proof fn how_versions_are_named(blocking: Seq<BlockingView>)
    ensures
        blocked_by_text(blocking) == join(
            Seq::new(blocking.len(), |i: int| counted(blocking[i])),
            ", "@,
        ),
        abandoned_text(blocking) == "Deregistered version(s) with unfinished invocations: "@ + join(
            Seq::new(blocking.len(), |i: int| counted_as_known(blocking[i])),
            ", "@,
        ),
{
    assert(blocking.map_values(|v: BlockingView| counted(v)) =~= Seq::new(
        blocking.len(),
        |i: int| counted(blocking[i]),
    ));
    assert(blocking.map_values(|v: BlockingView| counted_as_known(v)) =~= Seq::new(
        blocking.len(),
        |i: int| counted_as_known(blocking[i]),
    ));
}

/// A deployment that is not being deleted has not waited.
pub proof fn who_has_not_waited(rsd: RestateDeployment, now: int)
    requires
        rsd.metadata.deletion_timestamp is None,
    ensures
        waited(rsd, now) == 0,
        deadline_of(rsd) is None,
        until_deadline(rsd, now) is None,
        !overdue(rsd, now),
{
}

} // verus!
