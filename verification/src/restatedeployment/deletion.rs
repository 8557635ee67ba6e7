//! The deletion of a RestateDeployment: how long it waits, what it reports, and when it is done.

use vstd::prelude::*;
use vstd::string::*;

use crate::control::{
    condition_of_type, condition_views, conditions_except, find_condition, opt_conditions,
    other_conditions, Action, Condition, ConditionView, ReconciliationState,
    RECONCILING_CONDITION,
};
use crate::error::{Error, KubeFailure};
use crate::restatedeployment::cleanup::{
    blocked_deletion_requeue, blocked_requeue, blocking_views, counted, counted_as_known,
    deadline_of, describe_abandoned_versions, describe_blocking_versions, drain_deadline, mode_of,
    opt_span, BlockingVersion, BlockingView, CleanupMode,
};
use crate::restatedeployment::resource::{
    DeletePolicy, DeletionPhase, DeletionStatus, OnTimeout, PendingInvocations, RestateDeployment,
};
use crate::restatedeployment::retirement::CleanupOutcome;
use crate::text::{cat, cat3, i64_text, int_text, join, opt_text};
use crate::time::{opt_time, secs, span, Duration, Timestamp};

verus! {

/// What is reported of a version that a deletion waits for.
pub struct PendingView {
    pub version: Seq<char>,
    pub deployment_id: Option<Seq<char>>,
    pub pinned: int,
    pub unpinned: int,
}

/// What is reported of a deletion.
pub struct DeletionView {
    pub policy: DeletePolicy,
    pub phase: DeletionPhase,
    pub started_at: Option<int>,
    pub deadline: Option<int>,
    pub on_timeout: Option<OnTimeout>,
    pub message: Option<Seq<char>>,
    pub total: int,
    pub pending: Seq<PendingView>,
}

impl PendingInvocations {
    /// What is reported.
    pub open spec fn view(&self) -> PendingView {
        PendingView {
            version: self.version@,
            deployment_id: opt_text(self.deployment_id),
            pinned: self.pinned as int,
            unpinned: self.unpinned as int,
        }
    }
}

impl DeletionStatus {
    /// What is reported.
    pub open spec fn view(&self) -> DeletionView {
        DeletionView {
            policy: self.policy,
            phase: self.phase,
            started_at: opt_time(self.started_at),
            deadline: opt_time(self.deadline),
            on_timeout: self.on_timeout,
            message: opt_text(self.message),
            total: self.total_pending_invocations as int,
            pending: Seq::new(
                self.pending_invocations@.len(),
                |i: int| self.pending_invocations@[i]@,
            ),
        }
    }
}

/// How many invocations are in flight against all versions.
pub open spec fn total_in_flight(blocking: Seq<BlockingView>) -> int
    decreases blocking.len(),
{
    if blocking.len() == 0 {
        0
    } else {
        total_in_flight(blocking.drop_last()) + blocking.last().usage.in_flight()
    }
}

/// What is reported of one version.
pub open spec fn pending_of(v: BlockingView) -> PendingView {
    PendingView {
        version: v.name,
        deployment_id: v.deployment_id,
        pinned: v.usage.pinned_invocations as int,
        unpinned: v.usage.unpinned_invocations as int,
    }
}

/// What is reported of a deletion. A forced one never waits, so it has no deadline and nothing to
/// do there.
pub open spec fn deletion_view(
    rsd: RestateDeployment,
    phase: DeletionPhase,
    message: Seq<char>,
    blocking: Seq<BlockingView>,
) -> DeletionView {
    let policy = rsd.spec.restate.policy();
    DeletionView {
        policy,
        phase,
        started_at: opt_time(rsd.metadata.deletion_timestamp),
        deadline: match policy {
            DeletePolicy::Force => None,
            DeletePolicy::Drain => deadline_of(rsd),
        },
        on_timeout: match policy {
            DeletePolicy::Force => None,
            DeletePolicy::Drain => Some(rsd.spec.restate.timeout_action()),
        },
        message: Some(message),
        total: total_in_flight(blocking),
        pending: blocking.map_values(|v: BlockingView| pending_of(v)),
    }
}

/// How long ago the deletion was requested, no time at all where it was not or the clock has gone
/// back.
pub open spec fn waited(rsd: RestateDeployment, now: int) -> int {
    match rsd.metadata.deletion_timestamp {
        Some(t) => span(t@, now),
        None => 0,
    }
}

/// Whether a drain is past its deadline and goes on waiting.
pub open spec fn overdue(rsd: RestateDeployment, now: int) -> bool {
    rsd.spec.restate.policy() == DeletePolicy::Drain && rsd.spec.restate.timeout_action()
        == OnTimeout::Hold && (deadline_of(rsd) matches Some(d) && d <= now)
}

/// Whether a drain turns into a forced deletion at its deadline.
pub open spec fn forces_at_deadline(rsd: RestateDeployment) -> bool {
    rsd.spec.restate.policy() == DeletePolicy::Drain && rsd.spec.restate.timeout_action()
        == OnTimeout::Force
}

/// How long it is until the drain stops waiting. Once that has passed there is nothing to wake up
/// for, unless the drain turns into a forced deletion.
pub open spec fn until_deadline(rsd: RestateDeployment, now: int) -> Option<int> {
    match deadline_of(rsd) {
        Some(d) => if d >= now {
            Some(d - now)
        } else if forces_at_deadline(rsd) {
            Some(0)
        } else {
            None
        },
        None => None,
    }
}

proof fn lemma_total_monotonic(blocking: Seq<BlockingView>, i: int)
    requires
        0 <= i <= blocking.len(),
    ensures
        0 <= total_in_flight(blocking.take(i)) <= total_in_flight(blocking),
    decreases blocking.len(),
{
    if blocking.len() == 0 {
        assert(blocking.take(i) =~= blocking);
    } else if i == blocking.len() {
        assert(blocking.take(i) =~= blocking);
        lemma_total_monotonic(blocking.drop_last(), i - 1);
        assert(blocking.drop_last().take(i - 1) =~= blocking.drop_last());
    } else {
        lemma_total_monotonic(blocking.drop_last(), i);
        assert(blocking.drop_last().take(i) =~= blocking.take(i));
    }
}

/// Whether the suspension of a deployment has left marks in its status.
pub open spec fn has_suspension_marks(rsd: RestateDeployment) -> bool {
    match rsd.status {
        Some(s) => (s.reconciliation is Some && s.reconciliation
            != Some(ReconciliationState::Reconciling)) || find_condition(
            opt_conditions(s.conditions),
            RECONCILING_CONDITION@,
        ) is Some,
        None => false,
    }
}

impl RestateDeployment {
    /// How long ago the deletion was requested, for pacing the retries of a blocked one.
    pub fn blocked_for(&self, now: &Timestamp) -> (r: Duration)
        ensures
            r@ == waited(*self, now@),
    {
        match &self.metadata.deletion_timestamp {
            Some(t) => now.since(t),
            None => Duration { nanos: 0 },
        }
    }

    /// Whether the drain is past its deadline and still waiting, so that it should say so.
    ///
    /// Only `onTimeout: hold` is: with `onTimeout: force` the next pass stops waiting.
    pub fn drain_overdue(&self, now: &Timestamp) -> (r: bool)
        ensures
            r == overdue(*self, now@),
    {
        match (self.spec.restate.delete_policy(), self.spec.restate.drain_on_timeout()) {
            (DeletePolicy::Drain, OnTimeout::Hold) => match drain_deadline(self) {
                Some(deadline) => !now.is_before(&deadline),
                None => false,
            },
            _ => false,
        }
    }

    /// How long it is until the drain stops waiting.
    pub fn until_drain_deadline(&self, now: &Timestamp) -> (r: Option<Duration>)
        ensures
            opt_span(r) == until_deadline(*self, now@),
    {
        match drain_deadline(self) {
            Some(deadline) => {
                if !deadline.is_before(now) {
                    return Some(deadline.since(now));
                }
                match (self.spec.restate.delete_policy(), self.spec.restate.drain_on_timeout()) {
                    (DeletePolicy::Drain, OnTimeout::Force) => Some(Duration { nanos: 0 }),
                    _ => None,
                }
            },
            None => None,
        }
    }

    /// What is reported of the deletion.
    pub fn deletion_status(
        &self,
        phase: DeletionPhase,
        message: String,
        blocking: &Vec<BlockingVersion>,
    ) -> (r: DeletionStatus)
        requires
            total_in_flight(blocking_views(blocking@)) <= i64::MAX,
        ensures
            r@ == deletion_view(*self, phase, message@, blocking_views(blocking@)),
    {
        let policy = self.spec.restate.delete_policy();
        let mut total: i64 = 0;
        let mut pending: Vec<PendingInvocations> = Vec::new();
        let ghost views = blocking_views(blocking@);
        proof {
            assert(views.take(0) =~= Seq::empty());
        }
        let mut i: usize = 0;
        while i < blocking.len()
            invariant
                i <= blocking.len(),
                views == blocking_views(blocking@),
                total_in_flight(views) <= i64::MAX,
                total == total_in_flight(views.take(i as int)),
                pending@.len() == i,
                forall|j: int| 0 <= j < i ==> (#[trigger] pending@[j])@ == pending_of(views[j]),
            decreases blocking.len() - i,
        {
            let version = &blocking[i];
            proof {
                let next = views.take(i as int + 1);
                lemma_total_monotonic(views, i as int);
                lemma_total_monotonic(views, i as int + 1);
                assert(next.drop_last() =~= views.take(i as int));
                assert(next.last() == version@);
            }
            total = total + version.usage.in_flight_invocations() as i64;
            let deployment_id: Option<String> = match &version.deployment_id {
                Some(id) => Some(id.clone()),
                None => None,
            };
            pending.push(
                PendingInvocations {
                    version: version.name.clone(),
                    deployment_id,
                    pinned: version.usage.pinned_invocations as i64,
                    unpinned: version.usage.unpinned_invocations as i64,
                },
            );
            i = i + 1;
        }
        proof {
            assert(views.take(i as int) =~= views);
        }
        let r = DeletionStatus {
            policy,
            phase,
            started_at: self.metadata.deletion_timestamp,
            deadline: match policy {
                DeletePolicy::Force => None,
                DeletePolicy::Drain => drain_deadline(self),
            },
            on_timeout: match policy {
                DeletePolicy::Force => None,
                DeletePolicy::Drain => Some(self.spec.restate.drain_on_timeout()),
            },
            message: Some(message),
            total_pending_invocations: total,
            pending_invocations: pending,
        };
        proof {
            assert(r@.pending =~= views.map_values(|v: BlockingView| pending_of(v)));
        }
        r
    }

    /// The conditions to keep, or none where a suspension has left no marks and there is nothing
    /// to write.
    pub fn suspension_to_clear(&self) -> (r: Option<Vec<Condition>>)
        ensures
            match r {
                Some(kept) => has_suspension_marks(*self) && condition_views(kept@)
                    == other_conditions(
                    opt_conditions(self.status->0.conditions),
                    RECONCILING_CONDITION@,
                ),
                None => !has_suspension_marks(*self),
            },
    {
        match &self.status {
            Some(s) => {
                let stale_state = match s.reconciliation {
                    Some(ReconciliationState::Reconciling) => false,
                    Some(_) => true,
                    None => false,
                };
                let stale_condition = condition_of_type(
                    &s.conditions,
                    RECONCILING_CONDITION,
                ).is_some();
                if stale_state || stale_condition {
                    Some(conditions_except(&s.conditions, RECONCILING_CONDITION))
                } else {
                    None
                }
            },
            None => None,
        }
    }
}

proof fn lemma_none_of_the_others(conditions: Seq<ConditionView>, type_: Seq<char>)
    ensures
        find_condition(other_conditions(conditions, type_), type_) is None,
    decreases conditions.len(),
{
    if conditions.len() > 0 {
        lemma_none_of_the_others(conditions.drop_last(), type_);
        let rest = other_conditions(conditions.drop_last(), type_);
        if conditions.last().type_ != type_ {
            lemma_find_after_push(rest, conditions.last(), type_);
        }
    }
}

proof fn lemma_find_after_push(s: Seq<ConditionView>, c: ConditionView, type_: Seq<char>)
    requires
        c.type_ != type_,
    ensures
        find_condition(s.push(c), type_) == find_condition(s, type_),
    decreases s.len(),
{
    if s.len() > 0 {
        let rest = s.subrange(1, s.len() as int);
        assert(s.push(c).subrange(1, s.len() as int + 1) =~= rest.push(c));
        lemma_find_after_push(rest, c, type_);
    } else {
        assert(s.push(c).subrange(1, 1) =~= s);
    }
}

/// Clearing the marks of a suspension clears them all: nothing is left to clear afterwards.
pub proof fn suspension_is_cleared_once(rsd: RestateDeployment, cleared: RestateDeployment)
    requires
        has_suspension_marks(rsd),
        cleared.status is Some,
        cleared.status->0.reconciliation == Some(ReconciliationState::Reconciling),
        opt_conditions(cleared.status->0.conditions) == other_conditions(
            opt_conditions(rsd.status->0.conditions),
            RECONCILING_CONDITION@,
        ),
    ensures
        !has_suspension_marks(cleared),
{
    lemma_none_of_the_others(opt_conditions(rsd.status->0.conditions), RECONCILING_CONDITION@);
}

/// Whether the referenced RestateCluster is there.
#[derive(Debug)]
pub enum ClusterPresence {
    Present,
    Absent,
    Unknown(KubeFailure),
}

/// How a deletion goes on after a look at the referenced cluster.
#[derive(Debug)]
pub enum CleanupStart {
    /// There is nothing to deregister from.
    Done(Action),
    /// Ask Restate what it still needs, for a cleanup in this mode, after the report is written.
    Query { mode: CleanupMode, report: Option<DeletionStatus> },
}

pub const FORCING_MESSAGE: &'static str = "Deregistering from Restate without waiting for in-flight invocations";

pub const DRAINED_MESSAGE: &'static str = "Drained; waiting out the drain delay before removing old versions";

/// What a forced deletion reports before it makes its first call of Restate.
pub open spec fn forcing_view(rsd: RestateDeployment) -> DeletionView {
    deletion_view(rsd, DeletionPhase::Forcing, FORCING_MESSAGE@, Seq::empty())
}

fn forcing_report(rsd: &RestateDeployment) -> (r: DeletionStatus)
    ensures
        r@ == forcing_view(*rsd),
{
    let none: Vec<BlockingVersion> = Vec::new();
    proof {
        assert(blocking_views(none@) =~= Seq::empty());
    }
    rsd.deletion_status(DeletionPhase::Forcing, FORCING_MESSAGE.to_owned(), &none)
}

/// Begins a deletion. Where the cluster that the versions are registered with is gone, nothing
/// holds the deletion; where that cannot be told, it fails.
pub fn begin_cleanup(
    rsd: &RestateDeployment,
    cluster: &ClusterPresence,
    now: &Timestamp,
) -> (r: Result<CleanupStart, Error>)
    ensures
        match (rsd.spec.restate.register.cluster, *cluster) {
            (Some(_), ClusterPresence::Absent) => r matches Ok(s) && s matches CleanupStart::Done(a)
                && a == Action::AwaitChange,
            (Some(name), ClusterPresence::Unknown(f)) => r matches Err(
                Error::InvalidRestateConfig(t),
            ) && t@ == "Referenced Restate cluster '"@ + name@ + "' not found: "@ + f.message@,
            _ => r matches Ok(s) && s matches CleanupStart::Query { mode, report } && mode
                == mode_of(*rsd, now@) && (match report {
                Some(d) => mode == CleanupMode::ForceDeleting && d@ == forcing_view(*rsd),
                None => mode != CleanupMode::ForceDeleting,
            }),
        },
{
    match (&rsd.spec.restate.register.cluster, cluster) {
        (Some(_), ClusterPresence::Absent) => return Ok(CleanupStart::Done(Action::AwaitChange)),
        (Some(name), ClusterPresence::Unknown(f)) => {
            let mut t: String = cat3("Referenced Restate cluster '", name.as_str(), "' not found: ");
            t.append(f.message.as_str());
            return Err(Error::InvalidRestateConfig(t));
        },
        _ => {},
    }
    let mode = CleanupMode::for_rsd(rsd, now);
    let report: Option<DeletionStatus> = match mode {
        CleanupMode::ForceDeleting => Some(forcing_report(rsd)),
        _ => None,
    };
    Ok(CleanupStart::Query { mode, report })
}

/// The mode of a deletion after the usage query, which can take long: where the deadline has
/// passed meanwhile, it is forced in the same pass, and reports that.
pub fn resume_cleanup(
    rsd: &RestateDeployment,
    query_mode: CleanupMode,
    now: &Timestamp,
) -> (r: (CleanupMode, Option<DeletionStatus>))
    ensures
        r.0 == mode_of(*rsd, now@),
        match r.1 {
            Some(d) => r.0 == CleanupMode::ForceDeleting && query_mode
                != CleanupMode::ForceDeleting && d@ == forcing_view(*rsd),
            None => r.0 != CleanupMode::ForceDeleting || query_mode == CleanupMode::ForceDeleting,
        },
{
    let mode = CleanupMode::for_rsd(rsd, now);
    let report: Option<DeletionStatus> = match (mode, query_mode) {
        (CleanupMode::ForceDeleting, CleanupMode::ForceDeleting) => None,
        (CleanupMode::ForceDeleting, _) => Some(forcing_report(rsd)),
        _ => None,
    };
    (mode, report)
}

/// What a pass of a deletion leaves to write, and how it ends.
#[derive(Debug)]
pub struct DeletionVerdict {
    /// The note of a `ForcedDeletion` warning.
    pub abandoned: Option<String>,
    pub report: Option<DeletionStatus>,
    pub result: Result<Action, Error>,
}

/// The versions that hold a deletion, named.
pub open spec fn blocked_by_text(blocking: Seq<BlockingView>) -> Seq<char> {
    join(blocking.map_values(|v: BlockingView| counted(v)), ", "@)
}

/// The versions that a forced deletion tore down, named.
pub open spec fn abandoned_text(abandoned: Seq<BlockingView>) -> Seq<char> {
    "Deregistered version(s) with unfinished invocations: "@ + join(
        abandoned.map_values(|v: BlockingView| counted_as_known(v)),
        ", "@,
    )
}

/// How long a drained deployment waits for its next removal: at least a second, and not beyond the
/// deadline at which a drain turns into a forced deletion.
pub open spec fn drain_wait(rsd: RestateDeployment, next_removal: int, now: int) -> int {
    let whole = (next_removal - now) / 1_000_000_000;
    let wait = secs(
        if whole > 1 {
            whole
        } else {
            1
        },
    );
    match until_deadline(rsd, now) {
        Some(d) => if forces_at_deadline(rsd) {
            let deadline = if d > secs(1) {
                d
            } else {
                secs(1)
            };
            if deadline < wait {
                deadline
            } else {
                wait
            }
        } else {
            wait
        },
        None => wait,
    }
}

/// What a held deletion says of itself.
pub open spec fn held_message(rsd: RestateDeployment, blocking: Seq<BlockingView>, now: int) -> Seq<
    char,
> {
    if overdue(rsd, now) {
        "Still waiting on "@ + blocked_by_text(blocking) + " after the "@ + int_text(
            rsd.spec.restate.timeout(),
        ) + "s drain timeout"@
    } else {
        "Waiting for in-flight invocations against "@ + blocked_by_text(blocking)
    }
}

fn removal_wait(rsd: &RestateDeployment, next_removal: &Timestamp, now: &Timestamp) -> (r: Duration)
    ensures
        r@ == drain_wait(*rsd, next_removal@, now@),
{
    let left: u128 = next_removal.since(now).nanos;
    let mut wait = Duration { nanos: (left / 1_000_000_000) * 1_000_000_000 }.longer(
        Duration::from_secs(1),
    );
    match (rsd.spec.restate.delete_policy(), rsd.spec.restate.drain_on_timeout()) {
        (DeletePolicy::Drain, OnTimeout::Force) => match rsd.until_drain_deadline(now) {
            Some(d) => {
                wait = wait.shorter(d.longer(Duration::from_secs(1)));
            },
            None => {},
        },
        _ => {},
    }
    wait
}

/// Ends a pass of a deletion. It is done where nothing blocks it and no removal is awaited.
pub fn conclude_deletion(
    rsd: &RestateDeployment,
    outcome: &CleanupOutcome,
    now: &Timestamp,
) -> (r: DeletionVerdict)
    requires
        total_in_flight(blocking_views(outcome.blocking@)) <= i64::MAX,
    ensures
        match r.abandoned {
            Some(note) => outcome.abandoned@.len() > 0 && note@ == abandoned_text(
                blocking_views(outcome.abandoned@),
            ),
            None => outcome.abandoned@.len() == 0,
        },
        ({
            let blocking = blocking_views(outcome.blocking@);
            if blocking.len() > 0 {
                let wait = blocked_requeue(waited(*rsd, now@), until_deadline(*rsd, now@));
                &&& r.report is Some
                &&& r.report->0@ == deletion_view(
                    *rsd,
                    if overdue(*rsd, now@) {
                        DeletionPhase::Overdue
                    } else {
                        DeletionPhase::Draining
                    },
                    held_message(*rsd, blocking, now@),
                    blocking,
                )
                &&& if overdue(*rsd, now@) {
                    r.result matches Err(
                        Error::DeletionDrainOverdue { blocked_by, timeout_seconds, requeue_after },
                    ) && blocked_by@ == blocked_by_text(blocking) && timeout_seconds
                        == rsd.spec.restate.timeout() && opt_span(requeue_after) == Some(wait)
                } else {
                    r.result matches Err(Error::DeploymentInUse { blocked_by, requeue_after })
                        && blocked_by@ == blocked_by_text(blocking) && opt_span(requeue_after)
                        == Some(wait)
                }
            } else {
                match outcome.next_removal {
                    Some(t) => {
                        &&& r.report is Some
                        &&& r.report->0@ == deletion_view(
                            *rsd,
                            DeletionPhase::Draining,
                            DRAINED_MESSAGE@,
                            Seq::empty(),
                        )
                        &&& r.result matches Err(Error::DeploymentDraining { requeue_after })
                            && opt_span(requeue_after) == Some(drain_wait(*rsd, t@, now@))
                    },
                    None => r.report is None && r.result == Ok::<Action, Error>(
                        Action::AwaitChange,
                    ),
                }
            }
        }),
{
    let abandoned: Option<String> = if outcome.abandoned.len() > 0 {
        Some(
            cat(
                "Deregistered version(s) with unfinished invocations: ",
                describe_abandoned_versions(&outcome.abandoned).as_str(),
            ),
        )
    } else {
        None
    };
    if outcome.blocking.len() > 0 {
        let blocked_by = describe_blocking_versions(&outcome.blocking);
        let timeout_seconds: i64 = rsd.spec.restate.drain_timeout_seconds();
        let late = rsd.drain_overdue(now);
        let (phase, message): (DeletionPhase, String) = if late {
            let mut t: String = cat3("Still waiting on ", blocked_by.as_str(), " after the ");
            t.append(i64_text(timeout_seconds).as_str());
            t.append("s drain timeout");
            (DeletionPhase::Overdue, t)
        } else {
            (
                DeletionPhase::Draining,
                cat("Waiting for in-flight invocations against ", blocked_by.as_str()),
            )
        };
        let report = Some(rsd.deletion_status(phase, message, &outcome.blocking));
        let requeue_after = Some(
            blocked_deletion_requeue(rsd.blocked_for(now), rsd.until_drain_deadline(now)),
        );
        let result: Result<Action, Error> = if late {
            Err(Error::DeletionDrainOverdue { blocked_by, timeout_seconds, requeue_after })
        } else {
            Err(Error::DeploymentInUse { blocked_by, requeue_after })
        };
        return DeletionVerdict { abandoned, report, result };
    }
    match &outcome.next_removal {
        Some(t) => {
            let none: Vec<BlockingVersion> = Vec::new();
            proof {
                assert(blocking_views(none@) =~= Seq::empty());
            }
            DeletionVerdict {
                abandoned,
                report: Some(
                    rsd.deletion_status(DeletionPhase::Draining, DRAINED_MESSAGE.to_owned(), &none),
                ),
                result: Err(
                    Error::DeploymentDraining { requeue_after: Some(removal_wait(rsd, t, now)) },
                ),
            }
        },
        None => DeletionVerdict { abandoned, report: None, result: Ok(Action::AwaitChange) },
    }
}

/// A drain that turns into a forced deletion at its deadline is looked at again by then, or a
/// second from now where that is later, whatever it waits for.
pub proof fn force_deadline_is_not_slept_through(
    rsd: RestateDeployment,
    next_removal: int,
    now: int,
)
    requires
        forces_at_deadline(rsd),
        deadline_of(rsd) is Some,
    ensures
        ({
            let deadline = deadline_of(rsd)->0;
            let latest = if deadline - now > secs(1) {
                deadline
            } else {
                now + secs(1)
            };
            &&& now + secs(1) <= now + drain_wait(rsd, next_removal, now) <= latest
            &&& now + secs(1) <= now + blocked_requeue(
                waited(rsd, now),
                until_deadline(rsd, now),
            ) <= latest
        }),
{
}

/// A deletion is overdue only while it holds, never when it is forced: no pass is both.
pub proof fn overdue_deletions_hold(rsd: RestateDeployment, now: int)
    requires
        overdue(rsd, now),
    ensures
        rsd.metadata.deletion_timestamp is Some,
        mode_of(rsd, now) == CleanupMode::Deleting,
{
}

} // verus!
