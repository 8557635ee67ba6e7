//! What a reconcile leaves in the status of a RestateDeployment, and when it runs again.

use vstd::prelude::*;
use vstd::string::*;

use crate::control::{
    condition_views, find_condition, opt_conditions, ready_condition, ready_view, state_after,
    state_after_reconcile, suspended_conditions, suspended_view, other_conditions, Action,
    Condition, ReconciliationState, RECONCILING_CONDITION,
};
use crate::error::{error_text, Error, ReplicaSetStatus};
use crate::restatedeployment::controller::{
    after_expensive_work, available_of, counted_status, requeues_after_expensive_admin_work,
    status_from_replica_set,
};
use crate::restatedeployment::hash::{
    healthy_requeue, healthy_requeue_after, identity, text_hash,
};
use crate::restatedeployment::resource::{
    DeploymentMode, RestateDeployment, RestateDeploymentStatus,
};
use crate::restatedeployment::retry::{
    in_backoff, no_failures, one_more, ExpensiveOperationRetries, RetryView,
};
use crate::text::{opt_text, str_eq};
use crate::time::{opt_time, secs, Duration, Timestamp};

verus! {

/// How the pods are run: by ReplicaSets unless told otherwise.
pub open spec fn mode_chosen(rsd: RestateDeployment) -> DeploymentMode {
    match rsd.spec.deployment_mode {
        Some(m) => m,
        None => DeploymentMode::ReplicaSet,
    }
}

/// How the pods are run. An in-process tunnel carries no traffic that the Knative autoscaler could
/// see, so that a scale to zero would be for good: the two do not go together.
pub fn deployment_mode(rsd: &RestateDeployment) -> (r: (DeploymentMode, Result<(), Error>))
    ensures
        r.0 == mode_chosen(*rsd),
        match r.1 {
            Ok(()) => !(r.0 == DeploymentMode::Knative && rsd.spec.restate.in_process_tunnel),
            Err(e) => r.0 == DeploymentMode::Knative && rsd.spec.restate.in_process_tunnel && (
            e matches Error::InvalidRestateConfig(t) && t@
                == "tunnelMode: in-process is not supported in Knative mode"@),
        },
{
    match rsd.spec.deployment_mode {
        Some(DeploymentMode::Knative) => {
            if rsd.spec.restate.in_process_tunnel {
                (
                    DeploymentMode::Knative,
                    Err(
                        Error::InvalidRestateConfig(
                            "tunnelMode: in-process is not supported in Knative mode".to_owned(),
                        ),
                    ),
                )
            } else {
                (DeploymentMode::Knative, Ok(()))
            }
        },
        _ => (DeploymentMode::ReplicaSet, Ok(())),
    }
}

/// The status of a condition.
#[derive(Debug, Clone, Copy, PartialEq, Eq, Structural)]
pub enum ReadyStatus {
    True,
    False,
    Unknown,
}

impl ReadyStatus {
    /// The status as Kubernetes writes it.
    pub open spec fn text(self) -> Seq<char> {
        match self {
            ReadyStatus::True => "True"@,
            ReadyStatus::False => "False"@,
            ReadyStatus::Unknown => "Unknown"@,
        }
    }

    /// The status as Kubernetes writes it.
    pub fn as_str(self) -> (r: &'static str)
        ensures
            r@ == self.text(),
    {
        match self {
            ReadyStatus::True => "True",
            ReadyStatus::False => "False",
            ReadyStatus::Unknown => "Unknown",
        }
    }
}

/// What a reconcile saw of the ReplicaSet of the latest version.
#[derive(Debug)]
pub struct ReplicaSetSeen {
    pub status: Option<ReplicaSetStatus>,
    pub deployment_id: Option<String>,
}

/// How a reconcile ended.
#[derive(Debug)]
pub enum ReconcileOutcome {
    /// The latest version is deployed. `replica_set` is what was seen of it, in ReplicaSet mode.
    Deployed { next_removal: Option<Timestamp>, replica_set: Option<ReplicaSetSeen> },
    Failed(Error),
}

/// What is said of a reconcile, and when it runs again. Without an action the error is returned.
#[derive(Debug)]
pub struct Verdict {
    pub action: Option<Duration>,
    pub message: String,
    pub reason: String,
    pub status: ReadyStatus,
}

/// What is said of a reconcile, and when it runs again.
pub struct VerdictView {
    pub action: Option<int>,
    pub message: Seq<char>,
    pub reason: Seq<char>,
    pub status: ReadyStatus,
}

impl Verdict {
    /// What is said.
    pub open spec fn view(&self) -> VerdictView {
        VerdictView {
            action: match self.action {
                Some(d) => Some(d@),
                None => None,
            },
            message: self.message@,
            reason: self.reason@,
            status: self.status,
        }
    }
}

/// When a deployed version is looked at again: when the next removal is due, where that is within
/// five minutes, else at the healthy interval.
pub open spec fn next_look(next_removal: Option<int>, now: int, healthy: int) -> int {
    match next_removal {
        Some(t) => if t < now {
            0
        } else if (t - now) / 1_000_000_000 < 300 {
            secs((t - now) / 1_000_000_000)
        } else {
            healthy
        },
        None => healthy,
    }
}

/// An interval, or the default where there is none.
pub open spec fn interval_or(d: Option<Duration>, seconds: int) -> int {
    match d {
        Some(d) => d@,
        None => secs(seconds),
    }
}

pub const COLLISION_MESSAGE: &'static str = "Encountered a hash collision, will retry with a new template hash";

/// What is said of a failed reconcile. A version that is not ready yet is no failure: it is
/// reported as such and looked at again.
pub open spec fn failure_verdict(mode: DeploymentMode, e: Error) -> VerdictView {
    match e {
        Error::AdminCallFailed(_) => VerdictView {
            action: Some(secs(30)),
            message: error_text(e),
            reason: "AdminCallFailed"@,
            status: ReadyStatus::False,
        },
        Error::AdminCallRejected { .. } => VerdictView {
            action: Some(secs(30)),
            message: error_text(e),
            reason: "AdminCallRejected"@,
            status: ReadyStatus::False,
        },
        Error::HashCollision => VerdictView {
            action: Some(0),
            message: COLLISION_MESSAGE@,
            reason: "HashCollision"@,
            status: ReadyStatus::False,
        },
        Error::DeploymentNotLatest { message, reason, requeue_after } => VerdictView {
            action: Some(interval_or(requeue_after, 30)),
            message: message@,
            reason: reason@,
            status: ReadyStatus::False,
        },
        _ => match (mode, e) {
            (
                DeploymentMode::Knative,
                Error::RouteNotReady { message, requeue_after, .. },
            ) => VerdictView {
                action: Some(interval_or(requeue_after, 10)),
                message: message@,
                reason: "RouteNotReady"@,
                status: ReadyStatus::False,
            },
            (
                DeploymentMode::Knative,
                Error::ConfigurationNotReady { message, requeue_after, .. },
            ) => VerdictView {
                action: Some(interval_or(requeue_after, 10)),
                message: message@,
                reason: "ConfigurationNotReady"@,
                status: ReadyStatus::False,
            },
            (
                DeploymentMode::ReplicaSet,
                Error::DeploymentNotReady { message, reason, requeue_after, .. },
            ) => VerdictView {
                action: Some(interval_or(requeue_after, 60)),
                message: message@,
                reason: reason@,
                status: ReadyStatus::False,
            },
            _ => VerdictView {
                action: None,
                message: error_text(e),
                reason: "FailedReconcile"@,
                status: ReadyStatus::Unknown,
            },
        },
    }
}

/// What is said of a reconcile.
pub open spec fn verdict_of(
    mode: DeploymentMode,
    outcome: ReconcileOutcome,
    now: int,
    healthy: int,
) -> VerdictView {
    match outcome {
        ReconcileOutcome::Deployed { next_removal, .. } => VerdictView {
            action: Some(next_look(opt_time(next_removal), now, healthy)),
            message: "RestateDeployment is deployed"@,
            reason: "Deployed"@,
            status: ReadyStatus::True,
        },
        ReconcileOutcome::Failed(e) => failure_verdict(mode, e),
    }
}

fn interval(d: Option<Duration>, seconds: u64) -> (r: Duration)
    ensures
        r@ == interval_or(d, seconds as int),
{
    match d {
        Some(d) => d,
        None => Duration::from_secs(seconds),
    }
}

fn look_at(next_removal: &Option<Timestamp>, now: &Timestamp, healthy: Duration) -> (r: Duration)
    ensures
        r@ == next_look(opt_time(*next_removal), now@, healthy@),
{
    match next_removal {
        None => healthy,
        Some(t) => {
            if t.is_before(now) {
                return Duration { nanos: 0 };
            }
            let left: u128 = t.since(now).nanos;
            let whole: u128 = left / 1_000_000_000;
            if whole < 300 {
                Duration { nanos: whole * 1_000_000_000 }
            } else {
                healthy
            }
        },
    }
}

/// Judges a reconcile.
pub fn judge(
    mode: DeploymentMode,
    outcome: &ReconcileOutcome,
    now: &Timestamp,
    healthy: Duration,
) -> (r: Verdict)
    ensures
        r@ == verdict_of(mode, *outcome, now@, healthy@),
{
    match outcome {
        ReconcileOutcome::Deployed { next_removal, .. } => Verdict {
            action: Some(look_at(next_removal, now, healthy)),
            message: "RestateDeployment is deployed".to_owned(),
            reason: "Deployed".to_owned(),
            status: ReadyStatus::True,
        },
        ReconcileOutcome::Failed(e) => judge_failure(mode, e),
    }
}

fn judge_failure(mode: DeploymentMode, e: &Error) -> (r: Verdict)
    ensures
        r@ == failure_verdict(mode, *e),
{
    match (mode, e) {
        (_, Error::AdminCallFailed(_)) => Verdict {
            action: Some(Duration::from_secs(30)),
            message: e.message(),
            reason: "AdminCallFailed".to_owned(),
            status: ReadyStatus::False,
        },
        (_, Error::AdminCallRejected { .. }) => Verdict {
            action: Some(Duration::from_secs(30)),
            message: e.message(),
            reason: "AdminCallRejected".to_owned(),
            status: ReadyStatus::False,
        },
        (_, Error::HashCollision) => Verdict {
            action: Some(Duration { nanos: 0 }),
            message: COLLISION_MESSAGE.to_owned(),
            reason: "HashCollision".to_owned(),
            status: ReadyStatus::False,
        },
        (_, Error::DeploymentNotLatest { message, reason, requeue_after }) => Verdict {
            action: Some(interval(*requeue_after, 30)),
            message: message.clone(),
            reason: reason.clone(),
            status: ReadyStatus::False,
        },
        (DeploymentMode::Knative, Error::RouteNotReady { message, requeue_after, .. }) => Verdict {
            action: Some(interval(*requeue_after, 10)),
            message: message.clone(),
            reason: "RouteNotReady".to_owned(),
            status: ReadyStatus::False,
        },
        (
            DeploymentMode::Knative,
            Error::ConfigurationNotReady { message, requeue_after, .. },
        ) => Verdict {
            action: Some(interval(*requeue_after, 10)),
            message: message.clone(),
            reason: "ConfigurationNotReady".to_owned(),
            status: ReadyStatus::False,
        },
        (
            DeploymentMode::ReplicaSet,
            Error::DeploymentNotReady { message, reason, requeue_after, .. },
        ) => Verdict {
            action: Some(interval(*requeue_after, 60)),
            message: message.clone(),
            reason: reason.clone(),
            status: ReadyStatus::False,
        },
        _ => Verdict {
            action: None,
            message: e.message(),
            reason: "FailedReconcile".to_owned(),
            status: ReadyStatus::Unknown,
        },
    }
}

/// The ReplicaSet whose counts go into the status: the one that was seen, where a reconcile in
/// ReplicaSet mode saw one.
pub open spec fn seen_counts(mode: DeploymentMode, outcome: ReconcileOutcome) -> Option<
    Option<ReplicaSetStatus>,
> {
    match (mode, outcome) {
        (
            DeploymentMode::ReplicaSet,
            ReconcileOutcome::Deployed { replica_set: Some(seen), .. },
        ) => Some(seen.status),
        (
            DeploymentMode::ReplicaSet,
            ReconcileOutcome::Failed(Error::DeploymentNotReady { replica_set_status, .. }),
        ) => Some(replica_set_status),
        _ => None,
    }
}

/// What a status report asks for besides the status itself.
#[derive(Debug)]
pub struct StatusReport {
    pub result: Result<Action, Error>,
    /// A warning to publish, by reason and note.
    pub event: Option<(String, String)>,
}

/// Whether a reconcile collided with another version of the same hash.
pub open spec fn collided(outcome: ReconcileOutcome) -> bool {
    outcome == ReconcileOutcome::Failed(Error::HashCollision)
}

/// Writes the outcome of a reconcile into the status, and says when it runs again.
///
/// `status` is the status so far, as a reconcile in Knative mode may have changed it already.
/// `label_selector` is the selector of the latest version, where it could be worked out.
pub fn reconcile_status(
    rsd: &RestateDeployment,
    mode: DeploymentMode,
    outcome: ReconcileOutcome,
    status: &mut RestateDeploymentStatus,
    retries: &mut ExpensiveOperationRetries,
    endpoint: &str,
    resource: &str,
    now: &Timestamp,
    label_selector: Option<Option<String>>,
) -> (r: StatusReport)
    requires
        seen_counts(mode, outcome) matches Some(rs) ==> rsd.spec.replicas - available_of(rs)
            <= i32::MAX,
        collided(outcome) ==> (old(status).collision_count matches Some(n) ==> n < i32::MAX),
    ensures
        ({
            let v = verdict_of(
                mode,
                outcome,
                now@,
                healthy_requeue(text_hash(identity(*rsd))),
            );
            let previous = match rsd.status {
                Some(s) => s.conditions,
                None => None,
            };
            let counted = match seen_counts(mode, outcome) {
                Some(rs) => counted_status(rsd.spec.replicas, *old(status), rs),
                None => *old(status),
            };
            // the counts, the collisions and the deployment id
            &&& final(status).replicas == counted.replicas
            &&& final(status).desired_replicas == counted.desired_replicas
            &&& final(status).ready_replicas == counted.ready_replicas
            &&& final(status).available_replicas == counted.available_replicas
            &&& final(status).unavailable_replicas == counted.unavailable_replicas
            &&& final(status).collision_count == if collided(outcome) {
                Some(
                    (match old(status).collision_count {
                        Some(n) => n,
                        None => 0i32,
                    } + 1) as i32,
                )
            } else {
                old(status).collision_count
            }
            &&& opt_text(final(status).deployment_id) == match (mode, outcome) {
                (
                    DeploymentMode::ReplicaSet,
                    ReconcileOutcome::Deployed { replica_set: Some(seen), .. },
                ) => if seen.deployment_id is Some {
                    opt_text(seen.deployment_id)
                } else {
                    opt_text(old(status).deployment_id)
                },
                _ => opt_text(old(status).deployment_id),
            }
            // the one condition, and the state of the reconciliation
            &&& opt_conditions(final(status).conditions) == seq![
                ready_view(
                    find_condition(opt_conditions(previous), "Ready"@),
                    v.message,
                    v.reason,
                    v.status.text(),
                    now@,
                ),
            ]
            &&& final(status).reconciliation == Some(
                state_after(
                    match rsd.status {
                        Some(s) => s.reconciliation,
                        None => None,
                    },
                    v.status.text(),
                ),
            )
            &&& final(status).observed_generation == rsd.metadata.generation
            &&& final(status).knative == old(status).knative
            &&& match (mode, label_selector) {
                (DeploymentMode::ReplicaSet, Some(s)) => final(status).label_selector == s,
                _ => final(status).label_selector == old(status).label_selector,
            }
            // the event
            &&& match r.event {
                Some((reason, note)) => reason@ == v.reason && note@ == v.message,
                None => true,
            }
            &&& r.event is Some <==> v.reason == "AdminCallFailed"@ || v.reason
                == "AdminCallRejected"@
            // when it runs again, and the pacing of expensive queries
            &&& match v.action {
                None => outcome is Failed && r.result == Err::<Action, Error>(outcome->Failed_0)
                    && *final(retries) == *old(retries),
                Some(d) => r.result is Ok && r.result->Ok_0 is Requeue && if v.status
                    == ReadyStatus::True {
                    r.result->Ok_0->Requeue_0@ == d && final(retries).retry_of(
                        endpoint@,
                        resource@,
                    ) == no_failures()
                } else if after_expensive_work(v.reason) {
                    let delay = r.result->Ok_0->Requeue_0@;
                    let failures = one_more(old(retries).retry_of(endpoint@, resource@).failures);
                    in_backoff(failures, delay) && final(retries).retry_of(endpoint@, resource@)
                        == (RetryView { failures, not_before: Some(now@ + delay) })
                } else {
                    r.result->Ok_0->Requeue_0@ == d && *final(retries) == *old(retries)
                },
            }
            &&& final(retries).same_elsewhere(old(retries), endpoint@)
            &&& final(retries).same_for_others(old(retries), endpoint@, resource@)
            &&& final(retries).gate_of(endpoint@) == old(retries).gate_of(endpoint@)
        }),
{
    let healthy = healthy_requeue_after(rsd);
    let verdict = judge(mode, &outcome, now, healthy);

    match (mode, &outcome) {
        (
            DeploymentMode::ReplicaSet,
            ReconcileOutcome::Deployed { replica_set: Some(seen), .. },
        ) => {
            status_from_replica_set(rsd.spec.replicas, status, seen.status);
            match &seen.deployment_id {
                Some(id) => {
                    status.deployment_id = Some(id.clone());
                },
                None => {},
            }
        },
        (
            DeploymentMode::ReplicaSet,
            ReconcileOutcome::Failed(Error::DeploymentNotReady { replica_set_status, .. }),
        ) => {
            status_from_replica_set(rsd.spec.replicas, status, *replica_set_status);
        },
        (_, ReconcileOutcome::Failed(Error::HashCollision)) => {
            let count: i32 = match status.collision_count {
                Some(n) => n,
                None => 0,
            };
            status.collision_count = Some(count + 1);
        },
        _ => {},
    }

    let event: Option<(String, String)> = if str_eq(verdict.reason.as_str(), "AdminCallFailed")
        || str_eq(verdict.reason.as_str(), "AdminCallRejected") {
        Some((verdict.reason.clone(), verdict.message.clone()))
    } else {
        None
    };

    let result: Result<Action, Error> = match verdict.action {
        None => match outcome {
            ReconcileOutcome::Failed(e) => Err(e),
            ReconcileOutcome::Deployed { .. } => Ok(Action::AwaitChange),
        },
        Some(d) => match verdict.status {
            ReadyStatus::True => {
                retries.reset_resource(endpoint, resource);
                Ok(Action::Requeue(d))
            },
            _ => {
                if requeues_after_expensive_admin_work(verdict.reason.as_str()) {
                    Ok(Action::Requeue(retries.failure(endpoint, resource, now)))
                } else {
                    Ok(Action::Requeue(d))
                }
            },
        },
    };

    let none: Option<Vec<Condition>> = None;
    let previous: &Option<Vec<Condition>> = match &rsd.status {
        Some(s) => &s.conditions,
        None => &none,
    };
    let ready = ready_condition(
        previous,
        verdict.message,
        verdict.reason,
        verdict.status.as_str().to_owned(),
        *now,
    );
    let before: Option<ReconciliationState> = match &rsd.status {
        Some(s) => s.reconciliation,
        None => None,
    };
    status.reconciliation = Some(state_after_reconcile(before, verdict.status.as_str()));
    let mut list: Vec<Condition> = Vec::new();
    list.push(ready);
    proof {
        assert(condition_views(list@) =~= seq![ready@]);
    }
    status.conditions = Some(list);
    match mode {
        DeploymentMode::ReplicaSet => match label_selector {
            Some(s) => {
                status.label_selector = s;
            },
            None => {},
        },
        DeploymentMode::Knative => {},
    }
    status.observed_generation = rsd.metadata.generation;
    StatusReport { result, event }
}

/// A deployment is reported ready only where the reconcile went through, and a reconcile that went
/// through is looked at again within six minutes.
pub proof fn ready_means_deployed(
    mode: DeploymentMode,
    outcome: ReconcileOutcome,
    now: int,
    hash: u64,
)
    ensures
        verdict_of(mode, outcome, now, healthy_requeue(hash)).status == ReadyStatus::True <==> outcome
            is Deployed,
        outcome is Deployed ==> verdict_of(mode, outcome, now, healthy_requeue(hash)).action
            is Some && 0 <= verdict_of(mode, outcome, now, healthy_requeue(hash)).action->0 <= secs(
            360,
        ),
{
}

/// The status of a suspended deployment: everything that it had, with the suspension marked.
pub fn reconcile_suspended(status: &mut RestateDeploymentStatus, now: Timestamp)
    ensures
        opt_conditions(final(status).conditions) == other_conditions(
            opt_conditions(old(status).conditions),
            RECONCILING_CONDITION@,
        ).push(
            suspended_view(
                find_condition(opt_conditions(old(status).conditions), RECONCILING_CONDITION@),
                now@,
            ),
        ),
        final(status).reconciliation == Some(ReconciliationState::Disabled),
        *final(status) == (RestateDeploymentStatus {
            conditions: final(status).conditions,
            reconciliation: final(status).reconciliation,
            ..*old(status)
        }),
{
    let conditions = suspended_conditions(&status.conditions, now);
    status.conditions = Some(conditions);
    status.reconciliation = Some(ReconciliationState::Disabled);
}

} // verus!
