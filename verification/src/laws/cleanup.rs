//! The cleanup of old versions: what becomes of each, and what a pass reports.

use vstd::prelude::*;

use crate::json::{at2, field, Json};
use crate::meta::ObjectMeta;
use crate::restatedeployment::autoscaling::HpaPlan;
use crate::restatedeployment::cleanup::{
    annotations_patch, mode_of, rows_usage, BlockingView, CleanupMode, DeploymentUsage,
    DeploymentUsageRow,
};
use crate::restatedeployment::resource::{DeletePolicy, OnTimeout, RestateDeployment};
use crate::restatedeployment::retirement::{
    fresh_pass, look_again, operations_of, pass_over, pass_with, plan_of, version_view,
    OperationView, PassView, PlanView, PolicyView, RetirementView, VersionView,
};
use crate::time::rfc3339_time;

verus! {

/// What Restate says of the deployment that a version is registered as.
pub open spec fn known_usage(
    meta: ObjectMeta,
    deployments: Map<Seq<char>, DeploymentUsage>,
) -> Option<DeploymentUsage> {
    match meta.annotation("restate.dev/deployment-id"@) {
        Some(id) => if deployments.contains_key(id) {
            Some(deployments[id])
        } else {
            None
        },
        None => None,
    }
}

/// Whether there is unfinished work on a deployment.
pub open spec fn is_busy(u: DeploymentUsage) -> bool {
    u.pinned_invocations > 0 || u.unpinned_invocations > 0
}

/// Whether a deployment holds its version: in a rollout by its services and its work, in a drain by
/// its work, in a forced deletion by nothing.
pub open spec fn holds(mode: CleanupMode, u: Option<DeploymentUsage>) -> bool {
    match (mode, u) {
        (CleanupMode::Rollout, Some(u)) => u.latest_for_service || is_busy(u),
        (CleanupMode::Deleting, Some(u)) => is_busy(u),
        _ => false,
    }
}

/// When a version may be removed, by its annotation.
pub open spec fn removal_time(meta: ObjectMeta) -> Option<int> {
    match meta.annotation("restate.dev/remove-version-at"@) {
        Some(text) => rfc3339_time(text),
        None => None,
    }
}

/// Which of its four fates a version meets: it stays while Restate needs it; otherwise it goes where
/// its time has passed, where nothing is waited for or where Restate does not know it; otherwise it
/// waits for its time, or is given one, the drain delay from now.
pub proof fn the_fate_of_a_version(
    p: PolicyView,
    pass: PassView,
    meta: ObjectMeta,
    replicas: Option<i32>,
    has_hpa: bool,
    deployments: Map<Seq<char>, DeploymentUsage>,
)
    ensures
        ({
            let plan = plan_of(p, pass, version_view(meta, replicas, has_hpa), deployments);
            let usage = known_usage(meta, deployments);
            let at = removal_time(meta);
            let goes = !holds(p.mode, usage) && (usage is None || p.mode
                == CleanupMode::ForceDeleting || (at matches Some(t) && t < p.now));
            &&& plan is Keep <==> holds(p.mode, usage)
            &&& plan is Retire <==> goes
            &&& plan is Wait <==> !holds(p.mode, usage) && !goes && at is Some
            &&& plan is Schedule <==> !holds(p.mode, usage) && !goes && at is None
            &&& plan matches PlanView::Schedule { remove_at } ==> remove_at == p.now
                + p.drain_delay_seconds * 1_000_000_000
        }),
{
}

/// A version that goes is scaled to zero exactly where it is meant to have pods, and loses its
/// HorizontalPodAutoscaler exactly where it has one, whether or not it is kept for a rollback. No
/// other version is scaled to zero.
pub proof fn retired_versions_have_no_pods(
    p: PolicyView,
    pass: PassView,
    meta: ObjectMeta,
    replicas: Option<i32>,
    has_hpa: bool,
    deployments: Map<Seq<char>, DeploymentUsage>,
)
    ensures
        ({
            let plan = plan_of(p, pass, version_view(meta, replicas, has_hpa), deployments);
            let ops = operations_of(plan);
            &&& plan is Retire ==> (ops.contains(OperationView::ScaleToZero) <==> (
            replicas matches Some(n) && n > 0))
            &&& plan is Retire ==> (ops.contains(OperationView::DeleteHpa) <==> has_hpa)
            &&& !(plan is Retire) ==> !ops.contains(OperationView::ScaleToZero)
        }),
{
    let plan = plan_of(p, pass, version_view(meta, replicas, has_hpa), deployments);
    lemma_operations(plan);
}

/// A version that goes is kept for a rollback in a rollout as long as fewer than the limit are kept,
/// and removed otherwise. Exactly where it is removed it is deleted, and its Restate deployment is
/// deleted exactly where it is removed and Restate knows it.
pub proof fn the_end_of_a_version(
    p: PolicyView,
    pass: PassView,
    meta: ObjectMeta,
    replicas: Option<i32>,
    has_hpa: bool,
    deployments: Map<Seq<char>, DeploymentUsage>,
    id: Seq<char>,
)
    ensures
        ({
            let plan = plan_of(p, pass, version_view(meta, replicas, has_hpa), deployments);
            let ops = operations_of(plan);
            let kept = p.mode == CleanupMode::Rollout && pass.historic_count
                < p.revision_history_limit;
            &&& ops.contains(OperationView::DeleteVersion) <==> plan is Retire && !kept
            &&& ops.contains(OperationView::Deregister(id)) <==> plan is Retire && !kept
                && known_usage(meta, deployments) is Some && meta.annotation(
                "restate.dev/deployment-id"@,
            ) == Some(id)
        }),
{
    let plan = plan_of(p, pass, version_view(meta, replicas, has_hpa), deployments);
    lemma_operations(plan);
}

/// A version that stays loses the mark of a planned removal exactly where it has one. In a rollout it
/// gets its HorizontalPodAutoscaler where autoscaling is configured, and where it is not, one that it
/// still has is taken away and its size restored. A deletion leaves autoscalers alone.
pub proof fn what_stays_is_looked_after(
    p: PolicyView,
    pass: PassView,
    meta: ObjectMeta,
    replicas: Option<i32>,
    has_hpa: bool,
    deployments: Map<Seq<char>, DeploymentUsage>,
)
    requires
        holds(p.mode, known_usage(meta, deployments)),
    ensures
        ({
            let ops = operations_of(
                plan_of(p, pass, version_view(meta, replicas, has_hpa), deployments),
            );
            let rollout = p.mode == CleanupMode::Rollout;
            &&& ops.contains(OperationView::Unschedule) <==> meta.annotation(
                "restate.dev/remove-version-at"@,
            ) is Some
            &&& ops.contains(OperationView::ApplyHpa) <==> rollout && p.autoscaling
            &&& ops.contains(OperationView::DeleteHpa) <==> rollout && !p.autoscaling && has_hpa
            &&& ops.contains(OperationView::RestoreScale) <==> rollout && !p.autoscaling && has_hpa
        }),
{
    let plan = plan_of(p, pass, version_view(meta, replicas, has_hpa), deployments);
    lemma_operations(plan);
}

/// A version that waits is not touched, and one whose removal is planned gets its mark and nothing
/// else.
pub proof fn drained_versions_are_only_marked(
    p: PolicyView,
    pass: PassView,
    v: VersionView,
    deployments: Map<Seq<char>, DeploymentUsage>,
)
    ensures
        ({
            let plan = plan_of(p, pass, v, deployments);
            &&& plan is Wait ==> operations_of(plan).len() == 0
            &&& plan is Schedule ==> operations_of(plan) == seq![
                OperationView::Schedule(p.now + p.drain_delay_seconds * 1_000_000_000),
            ]
        }),
{
}

/// What one version adds to the report of a pass: what Restate needs is reported as blocking, what
/// is kept for a rollback is counted, what is removed with work in flight is reported as abandoned,
/// and the next removal is the soonest of those that are waited for.
pub proof fn what_a_version_adds_to_the_report(
    p: PolicyView,
    pass: PassView,
    meta: ObjectMeta,
    replicas: Option<i32>,
    has_hpa: bool,
    deployments: Map<Seq<char>, DeploymentUsage>,
)
    ensures
        ({
            let v = version_view(meta, replicas, has_hpa);
            let plan = plan_of(p, pass, v, deployments);
            let after = pass_with(p, pass, v, deployments);
            let usage = known_usage(meta, deployments);
            let removed = plan is Retire && !(p.mode == CleanupMode::Rollout
                && pass.historic_count < p.revision_history_limit);
            let report = BlockingView {
                name: meta.any_name(),
                deployment_id: meta.annotation("restate.dev/deployment-id"@),
                usage: usage->0,
            };
            let time = match removal_time(meta) {
                Some(t) => t,
                None => p.now + p.drain_delay_seconds * 1_000_000_000,
            };
            &&& after.blocking == if plan is Keep {
                pass.blocking.push(report)
            } else {
                pass.blocking
            }
            &&& after.abandoned == if removed && (usage matches Some(u) && is_busy(u)) {
                pass.abandoned.push(report)
            } else {
                pass.abandoned
            }
            &&& after.historic_count == pass.historic_count + if plan is Retire && !removed {
                1int
            } else {
                0
            }
            &&& plan is Keep || plan is Retire ==> after.next_removal == pass.next_removal
            &&& plan is Wait || plan is Schedule ==> after.next_removal == Some(
                match pass.next_removal {
                    Some(t) => if t < time {
                        t
                    } else {
                        time
                    },
                    None => time,
                },
            )
        }),
{
}

/// A pass begins with nothing, and takes one version after the other.
pub proof fn a_pass_takes_each_version_once(
    p: PolicyView,
    versions: Seq<VersionView>,
    v: VersionView,
    deployments: Map<Seq<char>, DeploymentUsage>,
)
    ensures
        ({
            let start = pass_over(p, Seq::empty(), deployments);
            &&& start == fresh_pass()
            &&& start.blocking.len() == 0 && start.abandoned.len() == 0
            &&& start.historic_count == 0 && start.next_removal is None
        }),
        pass_over(p, versions.push(v), deployments) == pass_with(
            p,
            pass_over(p, versions, deployments),
            v,
            deployments,
        ),
{
    assert(versions.push(v).drop_last() =~= versions);
}

/// After a pass it is looked again at the soonest removal, and where there is none, ten seconds on
/// where versions still drain and are polled for. Otherwise there is nothing to look at.
pub proof fn the_next_look(p: PolicyView, pass: PassView)
    ensures
        pass.next_removal is Some ==> look_again(p, pass) == pass.next_removal,
        pass.next_removal is None ==> look_again(p, pass) == if p.poll_while_draining
            && pass.blocking.len() > 0 {
            Some(p.now + 10_000_000_000)
        } else {
            None
        },
{
}

/// The soonest removal of a pass is one that was waited for or planned.
pub proof fn the_next_removal_is_of_a_version(
    p: PolicyView,
    versions: Seq<VersionView>,
    deployments: Map<Seq<char>, DeploymentUsage>,
)
    ensures
        pass_over(p, versions, deployments).next_removal matches Some(t) ==> exists|i: int|
            0 <= i < versions.len() && match plan_of(
                p,
                pass_over(p, versions.take(i), deployments),
                #[trigger] versions[i],
                deployments,
            ) {
                PlanView::Wait => versions[i].remove_at == Some(t),
                PlanView::Schedule { remove_at } => remove_at == t,
                _ => false,
            },
    decreases versions.len(),
{
    if versions.len() > 0 {
        let before = versions.drop_last();
        let last = versions.len() - 1;
        the_next_removal_is_of_a_version(p, before, deployments);
        assert(versions.take(last) =~= before);
        let a = pass_over(p, before, deployments);
        let b = pass_over(p, versions, deployments);
        if b.next_removal is Some {
            if b.next_removal == a.next_removal {
                let i = choose|i: int|
                    0 <= i < before.len() && match plan_of(
                        p,
                        pass_over(p, before.take(i), deployments),
                        #[trigger] before[i],
                        deployments,
                    ) {
                        PlanView::Wait => before[i].remove_at == a.next_removal,
                        PlanView::Schedule { remove_at } => Some(remove_at) == a.next_removal,
                        _ => false,
                    };
                assert(before.take(i) =~= versions.take(i));
                assert(versions[i] == before[i]);
            } else {
                assert(versions[last] == versions.last());
            }
        }
    }
}

/// The mode of a cleanup: a rollout until the deployment is deleted, then a forced deletion where the
/// policy says so or where a drain that is not to hold has run into its deadline, and a drain
/// otherwise. A drain that is not told how long waits for an hour.
pub proof fn the_mode_of_a_cleanup(rsd: RestateDeployment, now: int)
    ensures
        ({
            let mode = mode_of(rsd, now);
            let deleted = rsd.metadata.deletion_timestamp;
            let timeout = match rsd.spec.restate.drain {
                Some(d) => match d.timeout_seconds {
                    Some(t) => t as int,
                    None => 3600,
                },
                None => 3600,
            };
            let forced_late = rsd.spec.restate.drain matches Some(d) && d.on_timeout == Some(
                OnTimeout::Force,
            );
            &&& mode == CleanupMode::Rollout <==> deleted is None
            &&& deleted is Some && rsd.spec.restate.delete_policy == Some(DeletePolicy::Force)
                ==> mode == CleanupMode::ForceDeleting
            &&& deleted is Some && rsd.spec.restate.delete_policy != Some(DeletePolicy::Force)
                && !forced_late ==> mode == CleanupMode::Deleting
            &&& deleted is Some && rsd.spec.restate.delete_policy != Some(DeletePolicy::Force)
                && forced_late && crate::time::representable(
                deleted->0@ + timeout * 1_000_000_000,
            ) ==> mode == if deleted->0@ + timeout * 1_000_000_000 <= now {
                CleanupMode::ForceDeleting
            } else {
                CleanupMode::Deleting
            }
        }),
{
}

/// The usage of a deployment is the strongest of what the rows say of it: it serves where any row
/// says so, and its counts are the highest of those given, where a negative one counts for nothing.
pub proof fn usage_is_the_strongest_report(rows: Seq<DeploymentUsageRow>, id: Seq<char>)
    ensures
        ({
            let m = rows_usage(rows);
            &&& m.contains_key(id) <==> exists|i: int|
                0 <= i < rows.len() && (#[trigger] rows[i]).deployment_id@ == id
            &&& m.contains_key(id) ==> {
                &&& m[id].latest_for_service <==> exists|i: int|
                    0 <= i < rows.len() && (#[trigger] rows[i]).deployment_id@ == id
                        && rows[i].latest_for_service
                &&& forall|i: int|
                    0 <= i < rows.len() && (#[trigger] rows[i]).deployment_id@ == id
                        ==> m[id].pinned_invocations >= rows[i].pinned_invocations
                        && m[id].unpinned_invocations >= rows[i].unpinned_invocations
                &&& m[id].pinned_invocations == 0 || exists|i: int|
                    0 <= i < rows.len() && (#[trigger] rows[i]).deployment_id@ == id
                        && rows[i].pinned_invocations == m[id].pinned_invocations
                &&& m[id].unpinned_invocations == 0 || exists|i: int|
                    0 <= i < rows.len() && (#[trigger] rows[i]).deployment_id@ == id
                        && rows[i].unpinned_invocations == m[id].unpinned_invocations
            }
        }),
    decreases rows.len(),
{
    if rows.len() > 0 {
        let before = rows.drop_last();
        let last = rows.len() - 1;
        usage_is_the_strongest_report(before, id);
        assert forall|i: int| 0 <= i < before.len() implies #[trigger] before[i] == rows[i] by {}
        assert(rows[last] == rows.last());
        let m = rows_usage(rows);
        let n = rows_usage(before);
        assert forall|i: int|
            0 <= i < rows.len() && (#[trigger] rows[i]).deployment_id@ == id implies i == last || (
        i < before.len() && before[i].deployment_id@ == id) by {
            if i != last {
                assert(before[i] == rows[i]);
            }
        }
        if n.contains_key(id) {
            let w = choose|i: int|
                0 <= i < before.len() && (#[trigger] before[i]).deployment_id@ == id;
            assert(rows[w].deployment_id@ == id);
            if n[id].latest_for_service {
                let w = choose|i: int|
                    0 <= i < before.len() && (#[trigger] before[i]).deployment_id@ == id
                        && before[i].latest_for_service;
                assert(rows[w].latest_for_service);
            }
            if n[id].pinned_invocations != 0 {
                let w = choose|i: int|
                    0 <= i < before.len() && (#[trigger] before[i]).deployment_id@ == id
                        && before[i].pinned_invocations == n[id].pinned_invocations;
                assert(rows[w].pinned_invocations == n[id].pinned_invocations);
            }
            if n[id].unpinned_invocations != 0 {
                let w = choose|i: int|
                    0 <= i < before.len() && (#[trigger] before[i]).deployment_id@ == id
                        && before[i].unpinned_invocations == n[id].unpinned_invocations;
                assert(rows[w].unpinned_invocations == n[id].unpinned_invocations);
            }
        }
    }
}

/// A patch of annotations names the object that it patches, and claims these annotations alone.
pub proof fn patches_claim_annotations_alone(
    api_version: Seq<char>,
    kind: Seq<char>,
    annotations: Json,
    name: Seq<char>,
)
    ensures
        ({
            let patch = annotations_patch(api_version, kind, annotations);
            &&& field(patch, "apiVersion"@) == Some(Json::Text(api_version))
            &&& field(patch, "kind"@) == Some(Json::Text(kind))
            &&& at2(patch, "metadata"@, "annotations"@) == Some(annotations)
            &&& name != "annotations"@ ==> at2(patch, "metadata"@, name) is None
            &&& field(patch, "spec"@) is None
        }),
{
    reveal_strlit("apiVersion");
    reveal_strlit("kind");
    reveal_strlit("metadata");
    reveal_strlit("spec");
    reveal_strlit("annotations");
    assert("apiVersion"@.len() == 10);
    assert("kind"@.len() == 4);
    assert("metadata"@.len() == 8);
    assert("spec"@.len() == 4);
    assert("annotations"@.len() == 11);
    assert("kind"@[0] == 'k');
    assert("spec"@[0] == 's');
}

/// Which operations a plan asks for.
proof fn lemma_operations(plan: PlanView)
    ensures
        ({
            let ops = operations_of(plan);
            &&& match plan {
                PlanView::Keep { hpa, unschedule } => {
                    &&& ops.contains(OperationView::ApplyHpa) <==> hpa == HpaPlan::Ensure
                    &&& ops.contains(OperationView::DeleteHpa) <==> hpa == HpaPlan::RemoveAndRestore
                    &&& ops.contains(OperationView::RestoreScale) <==> hpa
                        == HpaPlan::RemoveAndRestore
                    &&& ops.contains(OperationView::Unschedule) <==> unschedule
                    &&& !ops.contains(OperationView::ScaleToZero)
                    &&& !ops.contains(OperationView::DeleteVersion)
                    &&& forall|id: Seq<char>| !ops.contains(OperationView::Deregister(id))
                },
                PlanView::Retire { remove_hpa, scale_down, end } => {
                    &&& ops.contains(OperationView::DeleteHpa) <==> remove_hpa
                    &&& ops.contains(OperationView::ScaleToZero) <==> scale_down
                    &&& ops.contains(OperationView::DeleteVersion) <==> end is Remove
                    &&& forall|id: Seq<char>|
                        ops.contains(OperationView::Deregister(id)) <==> (
                        end matches RetirementView::Remove { deregister } && deregister == Some(
                            id,
                        ))
                },
                _ => {
                    &&& !ops.contains(OperationView::ScaleToZero)
                    &&& !ops.contains(OperationView::DeleteVersion)
                    &&& forall|id: Seq<char>| !ops.contains(OperationView::Deregister(id))
                },
            }
        }),
{
    let ops = operations_of(plan);
    match plan {
        PlanView::Keep { hpa, unschedule } => {
            let n: int = match hpa {
                HpaPlan::Ensure => 1,
                HpaPlan::RemoveAndRestore => 2,
                HpaPlan::Skip => 0,
            };
            if n >= 1 {
                assert(ops[0] == ops[0]);
            }
            if n == 2 {
                assert(ops[1] is RestoreScale);
            }
            if unschedule {
                assert(ops[n] is Unschedule);
            }
        },
        PlanView::Retire { remove_hpa, scale_down, end } => {
            let a: int = if remove_hpa {
                1
            } else {
                0
            };
            let b: int = if scale_down {
                a + 1
            } else {
                a
            };
            if remove_hpa {
                assert(ops[0] is DeleteHpa);
            }
            if scale_down {
                assert(ops[a] is ScaleToZero);
            }
            if let RetirementView::Remove { deregister } = end {
                if let Some(id) = deregister {
                    assert(ops[b] == OperationView::Deregister(id));
                    assert(ops[b + 1] is DeleteVersion);
                } else {
                    assert(ops[b] is DeleteVersion);
                }
            }
        },
        _ => {},
    }
}

} // verus!
