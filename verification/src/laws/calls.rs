//! What a call changes, and what it leaves alone.

use vstd::prelude::*;

use crate::control::{opt_conditions, ReconciliationState};
use crate::error::{cause_of, Error};
use crate::laws::cleanup::{retired_versions_have_no_pods, the_end_of_a_version};
use crate::laws::pace::second;
use crate::meta::ObjectMeta;
use crate::readiness::{GateStateView, Readiness, ReadinessGate};
use crate::restatedeployment::cleanup::{CleanupMode, DeploymentUsageMap};
use crate::restatedeployment::controller::{
    restate_deployment_error_policy, status_from_replica_set,
};
use crate::restatedeployment::resource::{
    DeploymentMode, RestateDeployment, RestateDeploymentStatus,
};
use crate::restatedeployment::retirement::{
    operation_views, CleanupOutcome, CleanupPass, Operation, OperationView, VersionPlan,
};
use crate::restatedeployment::retry::{base_backoff, ExpensiveOperationRetries};
use crate::restatedeployment::status::{
    reconcile_status, reconcile_suspended, ReconcileOutcome, StatusReport,
};
use crate::restatedeployment::usage_cache::UsageCache;
use crate::string_map::StringMap;
use crate::time::{Duration, Timestamp};

verus! {

/// A version that goes is scaled down exactly where it has pods, whether it is kept or removed and
/// whoever scales it; and it is deleted exactly where no more versions are kept.
pub proof fn what_is_done_with_a_version_that_goes(
    pass: &mut CleanupPass,
    meta: ObjectMeta,
    replicas: Option<i32>,
    has_hpa: bool,
    deployments: DeploymentUsageMap,
    plan: VersionPlan,
    ops: Vec<Operation>,
)
    requires
        call_ensures(CleanupPass::decide, (pass, &meta, replicas, has_hpa, &deployments), plan),
        call_ensures(VersionPlan::operations, (&plan,), ops),
    ensures
        ({
            let done = operation_views(ops@);
            let kept = old(pass).policy.mode == CleanupMode::Rollout && old(pass).historic_count
                < old(pass).policy.revision_history_limit;
            &&& plan is Retire ==> (done.contains(OperationView::ScaleToZero) <==> replicas is Some
                && replicas->0 > 0)
            &&& plan is Retire ==> (done.contains(OperationView::DeleteHpa) <==> has_hpa)
            &&& plan is Retire ==> (done.contains(OperationView::DeleteVersion) <==> !kept)
            &&& !(plan is Retire) ==> !done.contains(OperationView::ScaleToZero) && !done.contains(
                OperationView::DeleteVersion,
            )
            &&& plan is Retire && kept ==> final(pass).historic_count == old(pass).historic_count
                + 1
            &&& !(plan is Retire) || !kept ==> final(pass).historic_count
                == old(pass).historic_count
            &&& plan is Keep ==> final(pass).blocking@.len() == old(pass).blocking@.len() + 1
            &&& !(plan is Keep) ==> final(pass).blocking@.len() == old(pass).blocking@.len()
            &&& final(pass).policy == old(pass).policy
        }),
{
    let p = old(pass).policy@;
    let v = old(pass)@;
    retired_versions_have_no_pods(p, v, meta, replicas, has_hpa, deployments@);
    the_end_of_a_version(p, v, meta, replicas, has_hpa, deployments@, Seq::empty());
    assert(final(pass)@.blocking.len() == final(pass).blocking@.len());
    assert(old(pass)@.blocking.len() == old(pass).blocking@.len());
}

/// A query is let in or told how long to wait; once in, it keeps others out, and the next is let in no
/// sooner than half a minute later.
pub proof fn what_a_query_does(
    retries: &mut ExpensiveOperationRetries,
    endpoint: &str,
    resource: &str,
    now: Timestamp,
    r: Result<(), Duration>,
    e: Seq<char>,
    other: Seq<char>,
)
    requires
        call_ensures(ExpensiveOperationRetries::acquire, (retries, endpoint, resource, &now), r),
    ensures
        ({
            let retry = old(retries).retry_of(endpoint@, resource@);
            let gate = old(retries).gate_of(endpoint@);
            let held = retry.not_before is Some && retry.not_before->0 > now@;
            let early = gate.next_admission is Some && gate.next_admission->0 > now@;
            &&& r is Ok <==> !held && !gate.in_flight && !early
            &&& r is Err && held ==> r->Err_0@ == retry.not_before->0 - now@
            &&& r is Err && !held && gate.in_flight ==> r->Err_0@ == 30 * second()
            &&& r is Err && !held && !gate.in_flight ==> r->Err_0@ == gate.next_admission->0 - now@
            &&& r is Ok ==> final(retries).gate_of(endpoint@).in_flight && final(retries).gate_of(
                endpoint@,
            ).next_admission == Some(now@ + 30 * second())
            &&& r is Err ==> final(retries).gate_of(endpoint@) == gate
            &&& final(retries).retry_of(endpoint@, resource@).failures == retry.failures
            &&& e != endpoint@ ==> final(retries).gate_of(e) == old(retries).gate_of(e)
            &&& e != endpoint@ ==> final(retries).retry_of(e, other) == old(retries).retry_of(
                e,
                other,
            )
            &&& other != resource@
                ==> final(retries).retry_of(endpoint@, other)
                == old(retries).retry_of(endpoint@, other)
        }),
{
}

/// A query that ends makes way for the next, and changes nothing else.
pub proof fn what_the_end_of_a_query_does(
    retries: &mut ExpensiveOperationRetries,
    endpoint: &str,
    e: Seq<char>,
    resource: Seq<char>,
)
    requires
        call_ensures(ExpensiveOperationRetries::finish, (retries, endpoint), ()),
    ensures
        !final(retries).gate_of(endpoint@).in_flight,
        final(retries).gate_of(endpoint@).next_admission == old(retries).gate_of(
            endpoint@,
        ).next_admission,
        final(retries).retry_of(e, resource) == old(retries).retry_of(e, resource),
        e != endpoint@ ==> final(retries).gate_of(e) == old(retries).gate_of(e),
{
    if e == endpoint@ {
        assert(final(retries).retry_of(endpoint@, resource) == old(retries).retry_of(
            endpoint@,
            resource,
        ));
    }
}

/// A failure is counted and holds its resource off for at least the time of its count, up to a fifth
/// more; a success forgets it all.
pub proof fn what_failures_and_successes_do(
    failed: &mut ExpensiveOperationRetries,
    endpoint: &str,
    resource: &str,
    now: Timestamp,
    draw: u64,
    delay: Duration,
    reset: &mut ExpensiveOperationRetries,
)
    requires
        call_ensures(
            ExpensiveOperationRetries::failure_with_draw,
            (failed, endpoint, resource, &now, draw),
            delay,
        ),
        call_ensures(ExpensiveOperationRetries::reset_resource, (reset, endpoint, resource), ()),
    ensures
        ({
            let before = old(failed).retry_of(endpoint@, resource@);
            let after = final(failed).retry_of(endpoint@, resource@);
            let count = before.failures + 1;
            &&& before.failures < u32::MAX ==> after.failures == count
            &&& after.not_before == Some(now@ + delay@)
            &&& before.failures < u32::MAX && count >= 1 ==> base_backoff(count) <= delay@ && 5
                * delay@ <= 6 * base_backoff(count)
        }),
        final(reset).retry_of(endpoint@, resource@).failures == 0,
        final(reset).retry_of(endpoint@, resource@).not_before is None,
{
    let count = old(failed).retry_of(endpoint@, resource@).failures + 1;
    if count >= 1 {
        crate::laws::pace::how_failures_back_off(count, draw as int);
    }
}

/// A failure of a deployment is tried again after the time that it asks for, else after half a
/// minute; one that cost a query of Restate is counted and backs off, and no other is.
pub proof fn when_a_failed_deployment_is_tried_again(
    err: Error,
    retries: &mut ExpensiveOperationRetries,
    endpoint: &str,
    resource: &str,
    now: Timestamp,
    r: crate::control::Action,
)
    requires
        call_ensures(
            restate_deployment_error_policy,
            (&err, retries, endpoint, resource, &now),
            r,
        ),
    ensures
        r is Requeue,
        ({
            let cause = cause_of(err);
            let costs = cause is AdminCallFailed || cause is AdminCallRejected || (
            cause matches Error::DeploymentInUse { requeue_after: Some(_), .. }) || (
            cause matches Error::DeletionDrainOverdue { requeue_after: Some(_), .. });
            &&& !costs ==> *final(retries) == *old(retries)
            &&& !costs ==> (cause matches Error::ExpensiveOperationDeferred { requeue_after }
                ==> r->Requeue_0@ == requeue_after@)
            &&& !costs ==> (cause matches Error::DeploymentDraining { requeue_after: Some(d) }
                ==> r->Requeue_0@ == d@)
            &&& !costs && !(cause is ExpensiveOperationDeferred) && !(cause is DeploymentDraining)
                ==> r->Requeue_0@ == 30 * second()
            &&& costs ==> {
                let state = final(retries).retry_of(endpoint@, resource@);
                &&& state.not_before is Some
                &&& r->Requeue_0@ >= state.not_before->0 - now@
                &&& cause matches Error::DeploymentInUse { requeue_after: Some(d), .. }
                    ==> r->Requeue_0@ >= d@
                &&& cause matches Error::DeletionDrainOverdue { requeue_after: Some(d), .. }
                    ==> r->Requeue_0@ >= d@
                &&& cause is AdminCallFailed || cause is AdminCallRejected ==> r->Requeue_0@
                    == state.not_before->0 - now@
            }
        }),
{
}

/// A status counts the replicas that its ReplicaSet has, and changes nothing else.
pub proof fn what_a_replica_set_changes(
    expected: i32,
    status: &mut RestateDeploymentStatus,
    rs: Option<crate::error::ReplicaSetStatus>,
)
    requires
        call_ensures(status_from_replica_set, (expected, status, rs), ()),
    ensures
        rs matches Some(s) ==> final(status).replicas == s.replicas,
        rs is None ==> final(status).replicas == 0,
        final(status).desired_replicas == Some(expected),
        final(status).conditions == old(status).conditions,
        final(status).deployment_id == old(status).deployment_id,
        final(status).collision_count == old(status).collision_count,
{
}

/// A suspended deployment says so, and nothing else of its status changes.
pub proof fn what_a_suspension_changes(status: &mut RestateDeploymentStatus, now: Timestamp)
    requires
        call_ensures(reconcile_suspended, (status, now), ()),
    ensures
        final(status).reconciliation == Some(ReconciliationState::Disabled),
        final(status).replicas == old(status).replicas,
        final(status).deployment_id == old(status).deployment_id,
        final(status).collision_count == old(status).collision_count,
        final(status).observed_generation == old(status).observed_generation,
        ({
            let conditions = opt_conditions(final(status).conditions);
            &&& conditions.len() > 0
            &&& conditions.last().type_ == "Reconciling"@
            &&& conditions.last().status == "False"@
            &&& conditions.last().reason == Some("Disabled"@)
        }),
{
}

/// A reconcile leaves one condition, counts a collision exactly where there was one, and records the
/// id of the version that it saw.
pub proof fn what_a_reconcile_reports(
    rsd: RestateDeployment,
    mode: DeploymentMode,
    outcome: ReconcileOutcome,
    status: &mut RestateDeploymentStatus,
    retries: &mut ExpensiveOperationRetries,
    endpoint: &str,
    resource: &str,
    now: Timestamp,
    label_selector: Option<Option<String>>,
    r: StatusReport,
)
    requires
        call_requires(
            reconcile_status,
            (
                &rsd,
                mode,
                outcome,
                status,
                retries,
                endpoint,
                resource,
                &now,
                label_selector,
            ),
        ),
        call_ensures(
            reconcile_status,
            (
                &rsd,
                mode,
                outcome,
                status,
                retries,
                endpoint,
                resource,
                &now,
                label_selector,
            ),
            r,
        ),
    ensures
        ({
            let conditions = opt_conditions(final(status).conditions);
            let deployed = outcome is Deployed;
            let collided = outcome == ReconcileOutcome::Failed(Error::HashCollision);
            &&& conditions.len() == 1
            &&& conditions[0].type_ == "Ready"@
            &&& deployed ==> conditions[0].status == "True"@ && conditions[0].reason == Some(
                "Deployed"@,
            )
            &&& deployed ==> r.result is Ok && r.event is None
            &&& deployed ==> final(retries).retry_of(endpoint@, resource@).failures == 0
            &&& deployed ==> final(status).reconciliation == Some(ReconciliationState::Reconciling)
            &&& final(status).observed_generation == rsd.metadata.generation
            &&& final(status).knative == old(status).knative
            &&& !collided ==> final(status).collision_count == old(status).collision_count
            &&& collided && old(status).collision_count is None ==> final(status).collision_count
                == Some(1i32)
            &&& collided && old(status).collision_count is Some && old(status).collision_count->0
                < i32::MAX ==> final(status).collision_count is Some
                    && final(status).collision_count->0 == old(status).collision_count->0 + 1
            &&& collided ==> r.result is Ok && r.result->Ok_0 is Requeue
                && r.result->Ok_0->Requeue_0@ == 0
        }),
{
    reveal_strlit("True");
    reveal_strlit("False");
    reveal_strlit("Unknown");
    reveal_strlit("Deployed");
    reveal_strlit("AdminCallFailed");
    reveal_strlit("AdminCallRejected");
    reveal_strlit("HashCollision");
    reveal_strlit("ForeignDeployment");
    reveal_strlit("NotLatest");
    reveal_strlit("ClusterNotReady");
    reveal_strlit("ReplicaSetNoStatus");
    reveal_strlit("ReplicaSetScaling");
    reveal_strlit("ReplicaSetPodNotReady");
    reveal_strlit("ReplicaSetPodNotAvailable");
    assert("True"@.len() == 4);
    assert("False"@.len() == 5);
    assert("Unknown"@.len() == 7);
    assert("Deployed"@.len() == 8);
    assert("AdminCallFailed"@.len() == 15);
    assert("AdminCallRejected"@.len() == 17);
    assert("HashCollision"@.len() == 13);
    assert("ForeignDeployment"@.len() == 17);
    assert("NotLatest"@.len() == 9);
    assert("ClusterNotReady"@.len() == 15);
    assert("ReplicaSetNoStatus"@.len() == 18);
    assert("ReplicaSetScaling"@.len() == 17);
    assert("ReplicaSetPodNotReady"@.len() == 21);
    assert("ReplicaSetPodNotAvailable"@.len() == 25);
    assert("AdminCallFailed"@[0] == 'A');
    assert("ClusterNotReady"@[0] == 'C');
    assert("AdminCallRejected"@[0] == 'A');
    assert("ForeignDeployment"@[0] == 'F');
    assert("ReplicaSetScaling"@[0] == 'R');
}

/// An answer is kept under its endpoint until it is dropped or replaced, and no other changes.
pub proof fn what_the_cache_keeps(
    cache: &mut UsageCache,
    endpoint: String,
    mode: CleanupMode,
    usage: DeploymentUsageMap,
    at: Timestamp,
    dropped: &mut UsageCache,
    gone: &str,
    other: Seq<char>,
)
    requires
        call_ensures(UsageCache::insert_at, (cache, endpoint, mode, &usage, at), ()),
        call_ensures(UsageCache::invalidate, (dropped, gone), ()),
    ensures
        final(cache)@.contains_key(endpoint@),
        final(cache)@[endpoint@].mode == mode,
        final(cache)@[endpoint@].usage == usage@,
        final(cache)@[endpoint@].fetched_at == at@,
        other != endpoint@ ==> (final(cache)@.contains_key(other) <==> old(cache)@.contains_key(
            other,
        )) && final(cache)@[other] == old(cache)@[other],
        !final(dropped)@.contains_key(gone@),
        other != gone@ ==> (final(dropped)@.contains_key(other) <==> old(dropped)@.contains_key(
            other,
        )) && final(dropped)@[other] == old(dropped)@[other],
{
}

/// What is cached is given back while it is fresh and counts what is asked for.
pub proof fn what_the_cache_gives_back(
    cache: UsageCache,
    endpoint: &str,
    mode: CleanupMode,
    now: Timestamp,
    r: Option<DeploymentUsageMap>,
)
    requires
        call_ensures(UsageCache::get_at, (&cache, endpoint, mode, &now), r),
    ensures
        r is Some ==> cache@.contains_key(endpoint@) && r->0@ == cache@[endpoint@].usage,
        r is Some ==> now@ - cache@[endpoint@].fetched_at < 60 * second(),
        r is Some && mode == CleanupMode::Deleting ==> cache@[endpoint@].mode
            == CleanupMode::Deleting,
        cache@.contains_key(endpoint@) && now@ - cache@[endpoint@].fetched_at < 60 * second() && (
        cache@[endpoint@].mode == mode || cache@[endpoint@].mode == CleanupMode::Deleting) ==> r
            is Some,
{
}

/// A controller that is marked changes its own state alone.
pub proof fn what_a_mark_changes(
    ready: &mut Readiness,
    waiting: &mut Readiness,
    gate: ReadinessGate,
    name: &str,
    other: ReadinessGate,
)
    requires
        call_ensures(Readiness::mark_ready, (ready, gate), ()),
        call_ensures(Readiness::mark_waiting_for_crd, (waiting, gate, name), ()),
    ensures
        final(ready).state(gate) is Ready,
        final(waiting).state(gate) == GateStateView::WaitingForCrd(name@),
        other != gate ==> final(ready).state(other) == old(ready).state(other),
        other != gate ==> final(waiting).state(other) == old(waiting).state(other),
{
}

/// A map holds what was put into it last, and keeps the rest.
pub proof fn what_a_map_holds(
    put: &mut StringMap,
    key: String,
    value: String,
    taken: &mut StringMap,
    gone: &str,
    extended: &mut StringMap,
    more: StringMap,
    other: Seq<char>,
)
    requires
        call_ensures(StringMap::insert, (put, key, value), ()),
        call_ensures(StringMap::remove, (taken, gone), ()),
        call_ensures(StringMap::extend, (extended, &more), ()),
    ensures
        final(put)@.contains_key(key@) && final(put)@[key@] == value@,
        other != key@ ==> (final(put)@.contains_key(other) <==> old(put)@.contains_key(other))
            && final(put)@[other] == old(put)@[other],
        !final(taken)@.contains_key(gone@),
        other != gone@ ==> (final(taken)@.contains_key(other) <==> old(taken)@.contains_key(other))
            && final(taken)@[other] == old(taken)@[other],
        more@.contains_key(other)
            ==> final(extended)@.contains_key(other) && final(extended)@[other] == more@[other],
        !more@.contains_key(other)
            ==> (final(extended)@.contains_key(other) <==> old(extended)@.contains_key(other)),
        !more@.contains_key(other) && old(extended)@.contains_key(other) ==> final(extended)@[other]
            == old(extended)@[other],
{
}

/// A cleanup reports what blocks it and what it abandoned, and says when to look again.
pub proof fn what_a_cleanup_reports(pass: CleanupPass, outcome: CleanupOutcome)
    requires
        call_ensures(CleanupPass::finish, (pass,), outcome),
    ensures
        outcome.blocking@.len() == pass.blocking@.len(),
        outcome.abandoned@.len() == pass.abandoned@.len(),
        pass.next_removal matches Some(t) ==> outcome.next_removal is Some
            && outcome.next_removal->0@ == t@,
        pass.next_removal is None && pass.policy.poll_while_draining && pass.blocking@.len() > 0
            ==> outcome.next_removal is Some && outcome.next_removal->0@ == pass.policy.now@ + 10
            * second(),
        pass.next_removal is None && (!pass.policy.poll_while_draining || pass.blocking@.len() == 0)
            ==> outcome.next_removal is None,
{
    assert(crate::restatedeployment::cleanup::blocking_views(outcome.blocking@).len()
        == outcome.blocking@.len());
    assert(crate::restatedeployment::cleanup::blocking_views(outcome.abandoned@).len()
        == outcome.abandoned@.len());
}

} // verus!
