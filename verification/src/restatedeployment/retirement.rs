//! What becomes of each old version: kept while Restate needs it, drained, kept for a rollback, or
//! removed.

use vstd::prelude::*;
use vstd::string::*;

use crate::error::{error_text, Error};
use crate::meta::ObjectMeta;
use crate::restatedeployment::autoscaling::{hpa_plan, plan_active_version_hpa, HpaPlan};
use crate::restatedeployment::cleanup::{
    blocking_views, retain_for_rollback, BlockingVersion, BlockingView, CleanupMode,
    DeploymentUsage, DeploymentUsageMap, RESTATE_REMOVE_VERSION_AT_ANNOTATION,
};
use crate::restatedeployment::resource::RestateDeployment;
use crate::restatedeployment::versions::RESTATE_DEPLOYMENT_ID_ANNOTATION;
use crate::text::{cat3, opt_text};
use crate::time::{opt_time, representable, rfc3339_time, secs, Timestamp};

verus! {

/// What a pass of cleanup goes by.
#[derive(Debug, Clone, Copy)]
pub struct CleanupPolicy {
    pub mode: CleanupMode,
    /// Whether autoscaling is configured for versions that are not the latest.
    pub autoscaling: bool,
    pub revision_history_limit: i32,
    pub drain_delay_seconds: i64,
    /// Whether a version that still drains is a reason to look again soon.
    pub poll_while_draining: bool,
    pub now: Timestamp,
}

/// What a pass of cleanup goes by, with the time as a number.
pub struct PolicyView {
    pub mode: CleanupMode,
    pub autoscaling: bool,
    pub revision_history_limit: int,
    pub drain_delay_seconds: int,
    pub poll_while_draining: bool,
    pub now: int,
}

/// What is known of an old version.
pub struct VersionView {
    pub name: Seq<char>,
    pub deployment_id: Option<Seq<char>>,
    /// When it may be removed, where that has been decided.
    pub remove_at: Option<int>,
    /// Whether the decision has left a mark, readable or not.
    pub marked: bool,
    /// Whether it is meant to have pods.
    pub scaled_up: bool,
    /// Whether the operator runs a HorizontalPodAutoscaler for it.
    pub has_hpa: bool,
}

/// How a version that is no longer needed ends.
#[derive(Debug)]
pub enum Retirement {
    /// It is kept, without pods, for a rollback.
    Retain,
    /// It is removed, after its Restate deployment where it still has one.
    Remove { deregister: Option<String> },
}

/// What to do with one old version.
#[derive(Debug)]
pub enum VersionPlan {
    /// Restate needs it: see to its HorizontalPodAutoscaler, and take back a planned removal.
    Keep { hpa: HpaPlan, unschedule: bool },
    /// It is due: take its HorizontalPodAutoscaler away, scale it down, and end it.
    Retire { remove_hpa: bool, scale_down: bool, end: Retirement },
    /// It has drained and its time has not come.
    Wait,
    /// It has drained: set the time of its removal.
    Schedule { remove_at: Timestamp },
}

/// How a version that is no longer needed ends.
pub enum RetirementView {
    Retain,
    Remove { deregister: Option<Seq<char>> },
}

/// What to do with one old version.
pub enum PlanView {
    Keep { hpa: HpaPlan, unschedule: bool },
    Retire { remove_hpa: bool, scale_down: bool, end: RetirementView },
    Wait,
    Schedule { remove_at: int },
}

/// What a pass of cleanup has seen so far.
pub struct PassView {
    /// Versions that Restate still needs.
    pub blocking: Seq<BlockingView>,
    /// Versions torn down while invocations were still in flight.
    pub abandoned: Seq<BlockingView>,
    /// How many versions are kept for a rollback.
    pub historic_count: int,
    /// When the first drained version comes up for removal.
    pub next_removal: Option<int>,
}

/// A pass of cleanup over the old versions.
#[derive(Debug)]
pub struct CleanupPass {
    pub policy: CleanupPolicy,
    pub blocking: Vec<BlockingVersion>,
    pub abandoned: Vec<BlockingVersion>,
    pub historic_count: i32,
    pub next_removal: Option<Timestamp>,
}

/// What one pass of cleanup did and did not manage to remove.
#[derive(Debug)]
pub struct CleanupOutcome {
    /// Versions that Restate still needs, which were left alone.
    pub blocking: Vec<BlockingVersion>,
    /// When to look again, where there is a reason to.
    pub next_removal: Option<Timestamp>,
    /// Versions torn down while invocations were still in flight.
    pub abandoned: Vec<BlockingVersion>,
}

/// The beginning of a pass.
pub open spec fn fresh_pass() -> PassView {
    PassView {
        blocking: Seq::empty(),
        abandoned: Seq::empty(),
        historic_count: 0,
        next_removal: None,
    }
}

/// The earlier of two times, where there are two.
pub open spec fn sooner(a: Option<int>, b: int) -> Option<int> {
    match a {
        Some(t) => if t > b {
            Some(b)
        } else {
            Some(t)
        },
        None => Some(b),
    }
}

/// What Restate says of the deployment of a version.
pub open spec fn version_usage(
    v: VersionView,
    deployments: Map<Seq<char>, DeploymentUsage>,
) -> Option<DeploymentUsage> {
    match v.deployment_id {
        Some(id) => if deployments.contains_key(id) {
            Some(deployments[id])
        } else {
            None
        },
        None => None,
    }
}

/// Whether Restate still needs a version.
pub open spec fn needed(
    p: PolicyView,
    v: VersionView,
    deployments: Map<Seq<char>, DeploymentUsage>,
) -> bool {
    version_usage(v, deployments) matches Some(u) && u.active(p.mode)
}

/// Whether a version that is not needed may go now: its time has come, nothing waits in a forced
/// deletion, or Restate does not know it.
pub open spec fn due(
    p: PolicyView,
    v: VersionView,
    deployments: Map<Seq<char>, DeploymentUsage>,
) -> bool {
    ||| v.remove_at matches Some(t) && t < p.now
    ||| p.mode == CleanupMode::ForceDeleting
    ||| version_usage(v, deployments) is None
}

/// Whether a version that may go is kept for a rollback.
pub open spec fn retained(p: PolicyView, pass: PassView) -> bool {
    !p.mode.deleting() && pass.historic_count < p.revision_history_limit
}

/// A version as it is reported.
pub open spec fn reported(v: VersionView, usage: DeploymentUsage) -> BlockingView {
    BlockingView { name: v.name, deployment_id: v.deployment_id, usage }
}

/// What becomes of one old version.
pub open spec fn plan_of(
    p: PolicyView,
    pass: PassView,
    v: VersionView,
    deployments: Map<Seq<char>, DeploymentUsage>,
) -> PlanView {
    if needed(p, v, deployments) {
        let hpa = hpa_plan(p.autoscaling, p.mode.deleting());
        PlanView::Keep {
            hpa: if hpa == HpaPlan::RemoveAndRestore && !v.has_hpa {
                HpaPlan::Skip
            } else {
                hpa
            },
            unschedule: v.marked,
        }
    } else if due(p, v, deployments) {
        PlanView::Retire {
            remove_hpa: v.has_hpa,
            scale_down: v.scaled_up,
            end: if retained(p, pass) {
                RetirementView::Retain
            } else {
                RetirementView::Remove {
                    deregister: if version_usage(v, deployments) is Some {
                        v.deployment_id
                    } else {
                        None
                    },
                }
            },
        }
    } else if v.remove_at is Some {
        PlanView::Wait
    } else {
        PlanView::Schedule { remove_at: p.now + secs(p.drain_delay_seconds) }
    }
}

/// What a pass has seen after one more version.
pub open spec fn pass_with(
    p: PolicyView,
    pass: PassView,
    v: VersionView,
    deployments: Map<Seq<char>, DeploymentUsage>,
) -> PassView {
    match plan_of(p, pass, v, deployments) {
        PlanView::Keep { .. } => PassView {
            blocking: pass.blocking.push(reported(v, version_usage(v, deployments)->0)),
            ..pass
        },
        PlanView::Retire { end, .. } => match end {
            RetirementView::Retain => PassView {
                historic_count: pass.historic_count + 1,
                ..pass
            },
            RetirementView::Remove { .. } => match version_usage(v, deployments) {
                Some(u) => if u.in_flight() > 0 {
                    PassView { abandoned: pass.abandoned.push(reported(v, u)), ..pass }
                } else {
                    pass
                },
                None => pass,
            },
        },
        PlanView::Wait => PassView {
            next_removal: sooner(pass.next_removal, v.remove_at->0),
            ..pass
        },
        PlanView::Schedule { remove_at } => PassView {
            next_removal: sooner(pass.next_removal, remove_at),
            ..pass
        },
    }
}

/// What a pass has seen after all versions.
pub open spec fn pass_over(
    p: PolicyView,
    versions: Seq<VersionView>,
    deployments: Map<Seq<char>, DeploymentUsage>,
) -> PassView
    decreases versions.len(),
{
    if versions.len() == 0 {
        fresh_pass()
    } else {
        pass_with(p, pass_over(p, versions.drop_last(), deployments), versions.last(), deployments)
    }
}

/// Seconds after which an old version that still drains is looked at again.
pub const DRAIN_POLL_SECONDS: i64 = 10;

/// When to look again after a pass: at the next removal, or soon where versions still drain and
/// the policy polls for them.
pub open spec fn look_again(p: PolicyView, pass: PassView) -> Option<int> {
    match pass.next_removal {
        Some(t) => Some(t),
        None => if p.poll_while_draining && pass.blocking.len() > 0 {
            Some(p.now + secs(DRAIN_POLL_SECONDS as int))
        } else {
            None
        },
    }
}

impl CleanupPolicy {
    /// The policy, with the time as a number.
    pub open spec fn view(&self) -> PolicyView {
        PolicyView {
            mode: self.mode,
            autoscaling: self.autoscaling,
            revision_history_limit: self.revision_history_limit as int,
            drain_delay_seconds: self.drain_delay_seconds as int,
            poll_while_draining: self.poll_while_draining,
            now: self.now@,
        }
    }
}

/// What a cleanup of old ReplicaSets goes by.
pub fn replica_set_cleanup_policy(rsd: &RestateDeployment, mode: CleanupMode, now: Timestamp) -> (r:
    CleanupPolicy)
    ensures
        r.mode == mode,
        r.autoscaling == rsd.spec.autoscaling is Some,
        r.revision_history_limit == rsd.spec.revision_history_limit,
        r.drain_delay_seconds == rsd.spec.restate.drain_delay_seconds,
        r.poll_while_draining,
        r.now == now,
{
    CleanupPolicy {
        mode,
        autoscaling: rsd.spec.autoscaling.is_some(),
        revision_history_limit: rsd.spec.revision_history_limit,
        drain_delay_seconds: rsd.spec.restate.drain_delay_seconds,
        poll_while_draining: true,
        now,
    }
}

impl VersionPlan {
    /// The plan, with the time as a number.
    pub open spec fn view(&self) -> PlanView {
        match self {
            VersionPlan::Keep { hpa, unschedule } => PlanView::Keep {
                hpa: *hpa,
                unschedule: *unschedule,
            },
            VersionPlan::Retire { remove_hpa, scale_down, end } => PlanView::Retire {
                remove_hpa: *remove_hpa,
                scale_down: *scale_down,
                end: match end {
                    Retirement::Retain => RetirementView::Retain,
                    Retirement::Remove { deregister } => RetirementView::Remove {
                        deregister: opt_text(*deregister),
                    },
                },
            },
            VersionPlan::Wait => PlanView::Wait,
            VersionPlan::Schedule { remove_at } => PlanView::Schedule { remove_at: remove_at@ },
        }
    }
}

/// What is known of an old version from its metadata, its replica count and the owned
/// HorizontalPodAutoscalers.
pub open spec fn version_view(meta: ObjectMeta, replicas: Option<i32>, has_hpa: bool) -> VersionView {
    let mark = meta.annotation(RESTATE_REMOVE_VERSION_AT_ANNOTATION@);
    VersionView {
        name: meta.any_name(),
        deployment_id: meta.annotation(RESTATE_DEPLOYMENT_ID_ANNOTATION@),
        remove_at: match mark {
            Some(text) => rfc3339_time(text),
            None => None,
        },
        marked: mark is Some,
        scaled_up: replicas matches Some(n) && n > 0,
        has_hpa,
    }
}

impl CleanupPass {
    /// What the pass has seen so far.
    pub open spec fn view(&self) -> PassView {
        PassView {
            blocking: blocking_views(self.blocking@),
            abandoned: blocking_views(self.abandoned@),
            historic_count: self.historic_count as int,
            next_removal: opt_time(self.next_removal),
        }
    }

    /// Begins a pass.
    pub fn new(policy: CleanupPolicy) -> (r: CleanupPass)
        ensures
            r@ == fresh_pass(),
            r.policy == policy,
    {
        let r = CleanupPass {
            policy,
            blocking: Vec::new(),
            abandoned: Vec::new(),
            historic_count: 0,
            next_removal: None,
        };
        proof {
            assert(r@.blocking =~= fresh_pass().blocking);
            assert(r@.abandoned =~= fresh_pass().abandoned);
        }
        r
    }

    fn note_removal(&mut self, at: Timestamp)
        ensures
            final(self)@ == (PassView { next_removal: sooner(old(self)@.next_removal, at@), ..old(self)@ }),
            final(self).policy == old(self).policy,
    {
        let earlier: bool = match &self.next_removal {
            Some(t) => at.is_before(t),
            None => true,
        };
        if earlier {
            self.next_removal = Some(at);
        }
    }

    /// Decides what becomes of the next old version. Versions are taken newest first.
    pub fn decide(
        &mut self,
        meta: &ObjectMeta,
        replicas: Option<i32>,
        has_hpa: bool,
        deployments: &DeploymentUsageMap,
    ) -> (r: VersionPlan)
        requires
            representable(old(self).policy.now@ + secs(old(self).policy.drain_delay_seconds as int)),
        ensures
            final(self).policy == old(self).policy,
            r@ == plan_of(
                old(self).policy@,
                old(self)@,
                version_view(*meta, replicas, has_hpa),
                deployments@,
            ),
            final(self)@ == pass_with(
                old(self).policy@,
                old(self)@,
                version_view(*meta, replicas, has_hpa),
                deployments@,
            ),
    {
        let ghost v = version_view(*meta, replicas, has_hpa);
        let mode = self.policy.mode;
        let id: Option<String> = match meta.get_annotation(RESTATE_DEPLOYMENT_ID_ANNOTATION) {
            Some(id) => Some(id.clone()),
            None => None,
        };
        let usage: Option<DeploymentUsage> = match &id {
            Some(id) => deployments.get(id.as_str()),
            None => None,
        };
        let mark = meta.get_annotation(RESTATE_REMOVE_VERSION_AT_ANNOTATION);

        match usage {
            Some(u) => {
                if u.is_active(mode) {
                    let ghost before = blocking_views(self.blocking@);
                    self.blocking.push(
                        BlockingVersion { name: meta.name_any(), deployment_id: id, usage: u },
                    );
                    proof {
                        assert(blocking_views(self.blocking@) =~= before.push(reported(v, u)));
                    }
                    let plan = plan_active_version_hpa(self.policy.autoscaling, mode.is_deleting());
                    let hpa = match plan {
                        HpaPlan::RemoveAndRestore => if has_hpa {
                            HpaPlan::RemoveAndRestore
                        } else {
                            HpaPlan::Skip
                        },
                        other => other,
                    };
                    return VersionPlan::Keep { hpa, unschedule: mark.is_some() };
                }
            },
            None => {},
        }

        let remove_at: Option<Timestamp> = match mark {
            Some(text) => Timestamp::parse_rfc3339(text.as_str()),
            None => None,
        };
        let in_past: bool = match &remove_at {
            Some(t) => t.is_before(&self.policy.now),
            None => false,
        };

        if in_past || mode.skips_drain_delay() || usage.is_none() {
            let scale_down: bool = match replicas {
                Some(n) => n > 0,
                None => false,
            };
            if retain_for_rollback(mode, self.historic_count, self.policy.revision_history_limit) {
                self.historic_count = self.historic_count + 1;
                return VersionPlan::Retire { remove_hpa: has_hpa, scale_down, end: Retirement::Retain };
            }
            match usage {
                Some(u) => {
                    if u.pinned_invocations > 0 || u.unpinned_invocations > 0 {
                        let ghost before = blocking_views(self.abandoned@);
                        self.abandoned.push(
                            BlockingVersion {
                                name: meta.name_any(),
                                deployment_id: id.clone(),
                                usage: u,
                            },
                        );
                        proof {
                            assert(blocking_views(self.abandoned@) =~= before.push(reported(v, u)));
                        }
                    }
                    VersionPlan::Retire {
                        remove_hpa: has_hpa,
                        scale_down,
                        end: Retirement::Remove { deregister: id },
                    }
                },
                None => VersionPlan::Retire {
                    remove_hpa: has_hpa,
                    scale_down,
                    end: Retirement::Remove { deregister: None },
                },
            }
        } else {
            match remove_at {
                Some(t) => {
                    self.note_removal(t);
                    VersionPlan::Wait
                },
                None => {
                    let at = self.policy.now.plus_seconds(self.policy.drain_delay_seconds);
                    let at = at.unwrap();
                    self.note_removal(at);
                    VersionPlan::Schedule { remove_at: at }
                },
            }
        }
    }

    /// Ends a pass.
    pub fn finish(self) -> (r: CleanupOutcome)
        requires
            self.policy.poll_while_draining ==> representable(
                self.policy.now@ + secs(DRAIN_POLL_SECONDS as int),
            ),
        ensures
            blocking_views(r.blocking@) == self@.blocking,
            blocking_views(r.abandoned@) == self@.abandoned,
            opt_time(r.next_removal) == look_again(self.policy@, self@),
    {
        let next_removal = match self.next_removal {
            Some(t) => Some(t),
            None => if self.policy.poll_while_draining && self.blocking.len() > 0 {
                self.policy.now.plus_seconds(DRAIN_POLL_SECONDS)
            } else {
                None
            },
        };
        CleanupOutcome { blocking: self.blocking, next_removal, abandoned: self.abandoned }
    }
}

/// A version that Restate needs is neither scaled down nor removed, and no version that Restate
/// knows is removed without being deregistered.
pub proof fn needed_versions_stay(
    p: PolicyView,
    pass: PassView,
    v: VersionView,
    deployments: Map<Seq<char>, DeploymentUsage>,
)
    ensures
        needed(p, v, deployments) <==> plan_of(p, pass, v, deployments) is Keep,
        plan_of(p, pass, v, deployments) matches PlanView::Retire {
            end: RetirementView::Remove { deregister },
            ..
        } ==> (deregister is Some <==> version_usage(v, deployments) is Some),
{
}

/// Only a forced deletion tears down a version with invocations in flight.
pub proof fn only_force_abandons(
    p: PolicyView,
    versions: Seq<VersionView>,
    deployments: Map<Seq<char>, DeploymentUsage>,
)
    requires
        p.mode != CleanupMode::ForceDeleting,
    ensures
        pass_over(p, versions, deployments).abandoned.len() == 0,
    decreases versions.len(),
{
    if versions.len() > 0 {
        only_force_abandons(p, versions.drop_last(), deployments);
    }
}

/// A forced deletion waits for nothing: no version blocks it, none is kept for a rollback, and
/// none is left for later.
pub proof fn force_waits_for_nothing(
    p: PolicyView,
    versions: Seq<VersionView>,
    deployments: Map<Seq<char>, DeploymentUsage>,
)
    requires
        p.mode == CleanupMode::ForceDeleting,
    ensures
        pass_over(p, versions, deployments).blocking.len() == 0,
        pass_over(p, versions, deployments).historic_count == 0,
        look_again(p, pass_over(p, versions, deployments)) is None,
        forall|i: int|
            0 <= i < versions.len() ==> (plan_of(
                p,
                pass_over(p, versions.take(i), deployments),
                #[trigger] versions[i],
                deployments,
            ) matches PlanView::Retire { end, .. } && end is Remove),
    decreases versions.len(),
{
    if versions.len() > 0 {
        force_waits_for_nothing(p, versions.drop_last(), deployments);
    }
}

/// A rollout keeps no more versions for a rollback than the limit allows, and a deletion keeps
/// none.
pub proof fn history_is_limited(
    p: PolicyView,
    versions: Seq<VersionView>,
    deployments: Map<Seq<char>, DeploymentUsage>,
)
    ensures
        0 <= pass_over(p, versions, deployments).historic_count,
        pass_over(p, versions, deployments).historic_count <= 0 || pass_over(
            p,
            versions,
            deployments,
        ).historic_count <= p.revision_history_limit,
        p.mode.deleting() ==> pass_over(p, versions, deployments).historic_count == 0,
    decreases versions.len(),
{
    if versions.len() > 0 {
        history_is_limited(p, versions.drop_last(), deployments);
    }
}

/// Every version that Restate needs is reported as blocking, in the order in which it was met.
pub proof fn every_needed_version_blocks(
    p: PolicyView,
    versions: Seq<VersionView>,
    deployments: Map<Seq<char>, DeploymentUsage>,
)
    ensures
        pass_over(p, versions, deployments).blocking == versions.filter(
            |v: VersionView| needed(p, v, deployments),
        ).map_values(|v: VersionView| reported(v, version_usage(v, deployments)->0)),
    decreases versions.len(),
{
    let keep = |v: VersionView| needed(p, v, deployments);
    let report = |v: VersionView| reported(v, version_usage(v, deployments)->0);
    reveal(Seq::filter);
    if versions.len() > 0 {
        every_needed_version_blocks(p, versions.drop_last(), deployments);
        let before = versions.drop_last().filter(keep);
        if needed(p, versions.last(), deployments) {
            assert(versions.filter(keep) == before.push(versions.last()));
            assert(before.push(versions.last()).map_values(report) =~= before.map_values(
                report,
            ).push(report(versions.last())));
        } else {
            assert(versions.filter(keep) == before);
        }
    } else {
        assert(versions.filter(keep).map_values(report) =~= Seq::empty());
    }
}

/// The operator looks again no later than any removal that it waits for or has set, and, where it
/// polls, looks again at all as long as a version still drains.
pub proof fn no_removal_is_slept_through(
    p: PolicyView,
    versions: Seq<VersionView>,
    deployments: Map<Seq<char>, DeploymentUsage>,
    i: int,
)
    requires
        0 <= i < versions.len(),
    ensures
        ({
            let again = look_again(p, pass_over(p, versions, deployments));
            match plan_of(p, pass_over(p, versions.take(i), deployments), versions[i], deployments) {
                PlanView::Keep { .. } => p.poll_while_draining ==> again is Some,
                PlanView::Wait => again matches Some(t) && t <= versions[i].remove_at->0,
                PlanView::Schedule { remove_at } => again matches Some(t) && t <= remove_at,
                PlanView::Retire { .. } => true,
            }
        }),
    decreases versions.len(),
{
    let before = versions.drop_last();
    if i == versions.len() - 1 {
        assert(versions.take(i) =~= before);
    } else {
        assert(versions.take(i) =~= before.take(i));
        assert(before[i] == versions[i]);
        no_removal_is_slept_through(p, before, deployments, i);
        lemma_passes_remember(p, before, versions.last(), deployments, i);
    }
}

/// A drain is over, with nothing that blocks it and no removal to come, only where every version was
/// removed and none of them had work left.
pub proof fn finished_drains_leave_nothing(
    p: PolicyView,
    versions: Seq<VersionView>,
    deployments: Map<Seq<char>, DeploymentUsage>,
    i: int,
)
    requires
        p.mode == CleanupMode::Deleting,
        pass_over(p, versions, deployments).blocking.len() == 0,
        pass_over(p, versions, deployments).next_removal is None,
        0 <= i < versions.len(),
    ensures
        plan_of(
            p,
            pass_over(p, versions.take(i), deployments),
            versions[i],
            deployments,
        ) matches PlanView::Retire { end, .. } && end is Remove,
        version_usage(versions[i], deployments) matches Some(u) ==> u.in_flight() == 0,
{
    lemma_passes_remember(p, versions, versions[i], deployments, i);
}

proof fn lemma_passes_remember(
    p: PolicyView,
    versions: Seq<VersionView>,
    v: VersionView,
    deployments: Map<Seq<char>, DeploymentUsage>,
    i: int,
)
    requires
        0 <= i < versions.len(),
    ensures
        ({
            let a = pass_over(p, versions, deployments);
            let b = pass_with(p, a, v, deployments);
            &&& a.next_removal is Some ==> b.next_removal is Some && b.next_removal->0
                <= a.next_removal->0
            &&& b.blocking.len() >= a.blocking.len()
            &&& plan_of(p, pass_over(p, versions.take(i), deployments), versions[i], deployments)
                is Wait ==> a.next_removal is Some
            &&& plan_of(p, pass_over(p, versions.take(i), deployments), versions[i], deployments)
                is Schedule ==> a.next_removal is Some
            &&& plan_of(p, pass_over(p, versions.take(i), deployments), versions[i], deployments)
                is Keep ==> a.blocking.len() > 0
        }),
    decreases versions.len(),
{
    let before = versions.drop_last();
    if i == versions.len() - 1 {
        assert(versions.take(i) =~= before);
    } else {
        assert(versions.take(i) =~= before.take(i));
        assert(before[i] == versions[i]);
        lemma_passes_remember(p, before, versions.last(), deployments, i);
    }
}

/// One call that carries out a plan.
#[derive(Debug)]
pub enum Operation {
    /// Apply the HorizontalPodAutoscaler of the version.
    ApplyHpa,
    /// Delete the HorizontalPodAutoscaler of the version.
    DeleteHpa,
    /// Scale the version to the replica count of the deployment.
    RestoreScale,
    ScaleToZero,
    /// Take the deadline of the removal off.
    Unschedule,
    /// Stamp the deadline of the removal.
    Schedule(Timestamp),
    /// Delete the Restate deployment.
    Deregister(String),
    /// Delete the version itself.
    DeleteVersion,
}

/// One call that carries out a plan.
pub enum OperationView {
    ApplyHpa,
    DeleteHpa,
    RestoreScale,
    ScaleToZero,
    Unschedule,
    Schedule(int),
    Deregister(Seq<char>),
    DeleteVersion,
}

impl Operation {
    /// The call, with the time as a number.
    pub open spec fn view(&self) -> OperationView {
        match self {
            Operation::ApplyHpa => OperationView::ApplyHpa,
            Operation::DeleteHpa => OperationView::DeleteHpa,
            Operation::RestoreScale => OperationView::RestoreScale,
            Operation::ScaleToZero => OperationView::ScaleToZero,
            Operation::Unschedule => OperationView::Unschedule,
            Operation::Schedule(t) => OperationView::Schedule(t@),
            Operation::Deregister(id) => OperationView::Deregister(id@),
            Operation::DeleteVersion => OperationView::DeleteVersion,
        }
    }
}

/// The calls, with the times as numbers.
pub open spec fn operation_views(s: Seq<Operation>) -> Seq<OperationView> {
    Seq::new(s.len(), |i: int| s[i]@)
}

/// One call, where there is a reason for it.
pub open spec fn only_if(reason: bool, op: OperationView) -> Seq<OperationView> {
    if reason {
        seq![op]
    } else {
        Seq::empty()
    }
}

/// The calls that carry out a plan, in their order. A HorizontalPodAutoscaler goes immediately
/// before the scale to zero, which its floor would fight, and a version goes after its Restate
/// deployment.
pub open spec fn operations_of(plan: PlanView) -> Seq<OperationView> {
    match plan {
        PlanView::Keep { hpa, unschedule } => (match hpa {
            HpaPlan::Ensure => seq![OperationView::ApplyHpa],
            HpaPlan::RemoveAndRestore => seq![
                OperationView::DeleteHpa,
                OperationView::RestoreScale,
            ],
            HpaPlan::Skip => Seq::empty(),
        }) + only_if(unschedule, OperationView::Unschedule),
        PlanView::Retire { remove_hpa, scale_down, end } => only_if(
            remove_hpa,
            OperationView::DeleteHpa,
        ) + only_if(scale_down, OperationView::ScaleToZero) + match end {
            RetirementView::Retain => Seq::empty(),
            RetirementView::Remove { deregister } => (match deregister {
                Some(id) => seq![OperationView::Deregister(id)],
                None => Seq::empty(),
            }) + seq![OperationView::DeleteVersion],
        },
        PlanView::Wait => Seq::empty(),
        PlanView::Schedule { remove_at } => seq![OperationView::Schedule(remove_at)],
    }
}

impl VersionPlan {
    /// The calls that carry out the plan, in their order.
    pub fn operations(&self) -> (r: Vec<Operation>)
        ensures
            operation_views(r@) == operations_of(self@),
    {
        let mut ops: Vec<Operation> = Vec::new();
        match self {
            VersionPlan::Keep { hpa, unschedule } => {
                match hpa {
                    HpaPlan::Ensure => {
                        ops.push(Operation::ApplyHpa);
                    },
                    HpaPlan::RemoveAndRestore => {
                        ops.push(Operation::DeleteHpa);
                        ops.push(Operation::RestoreScale);
                    },
                    HpaPlan::Skip => {},
                }
                if *unschedule {
                    ops.push(Operation::Unschedule);
                }
            },
            VersionPlan::Retire { remove_hpa, scale_down, end } => {
                if *remove_hpa {
                    ops.push(Operation::DeleteHpa);
                }
                if *scale_down {
                    ops.push(Operation::ScaleToZero);
                }
                match end {
                    Retirement::Retain => {},
                    Retirement::Remove { deregister } => {
                        match deregister {
                            Some(id) => {
                                ops.push(Operation::Deregister(id.clone()));
                            },
                            None => {},
                        }
                        ops.push(Operation::DeleteVersion);
                    },
                }
            },
            VersionPlan::Wait => {},
            VersionPlan::Schedule { remove_at } => {
                ops.push(Operation::Schedule(*remove_at));
            },
        }
        proof {
            assert(operation_views(ops@) =~= operations_of(self@));
        }
        ops
    }
}

/// A HorizontalPodAutoscaler that is taken from a version that is scaled to zero goes immediately
/// before that, and a Restate deployment goes immediately before its version.
pub proof fn teardown_order(plan: PlanView, i: int)
    requires
        0 <= i < operations_of(plan).len(),
    ensures
        operations_of(plan)[i] is ScaleToZero && (plan matches PlanView::Retire {
            remove_hpa,
            ..
        } && remove_hpa) ==> i > 0 && operations_of(plan)[i - 1] is DeleteHpa,
        operations_of(plan)[i] is Deregister ==> i == operations_of(plan).len() - 2
            && operations_of(plan)[i + 1] is DeleteVersion,
        operations_of(plan)[i] is DeleteVersion ==> i == operations_of(plan).len() - 1,
{
}

/// What becomes of a pass in which an operation failed.
#[derive(Debug)]
pub enum FailedOperation {
    /// The pass ends with the error.
    Abort(Error),
    /// The pass goes on, and a warning with this note is published.
    CarryOn { note: String },
}

/// Decides what becomes of a pass in which an operation on a version failed. One that cannot get its
/// HorizontalPodAutoscaler stays at full size, which is no reason to leave the others as they are.
pub fn after_failure(operation: &Operation, name: &str, error: Error) -> (r: FailedOperation)
    ensures
        match operation {
            Operation::ApplyHpa => r matches FailedOperation::CarryOn { note } && note@
                == "Failed to apply per-version HorizontalPodAutoscaler for "@ + name@ + ": "@
                + error_text(error),
            _ => r == FailedOperation::Abort(error),
        },
{
    match operation {
        Operation::ApplyHpa => {
            let mut note: String = cat3(
                "Failed to apply per-version HorizontalPodAutoscaler for ",
                name,
                ": ",
            );
            note.append(error.message().as_str());
            FailedOperation::CarryOn { note }
        },
        _ => FailedOperation::Abort(error),
    }
}

/// The admin call that deletes a Restate deployment.
pub fn deregister_path(deployment_id: &str) -> (r: String)
    ensures
        r@ == "/deployments/"@ + deployment_id@ + "?force=true"@,
{
    cat3("/deployments/", deployment_id, "?force=true")
}

} // verus!
