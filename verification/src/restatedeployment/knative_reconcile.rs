//! The course of a reconcile in Knative mode, as a machine that is told what came of each command
//! and names the next one. It keeps the status up to date on the way, so that a rollout can be
//! watched while it waits.

use vstd::prelude::*;
use vstd::string::*;

use crate::control::parsed_url;
use crate::error::Error;
use crate::meta::{opt_map, ObjectMeta};
use crate::restatedeployment::cleanup::DeploymentUsageMap;
use crate::restatedeployment::knative::{
    check_revision_ready, check_route_ready, chosen_tag, get_initial_scale, initial_scale, is_wait,
    register_or_lookup_deployment, registration_annotations, revision_wait, route_url, route_wait,
    Configuration, DeploymentLookup, Revision, Route, WaitView,
    RESTATE_REGISTERED_AT_ANNOTATION,
};
use crate::restatedeployment::replicaset::RESTATE_POD_TEMPLATE_ANNOTATION;
use crate::restatedeployment::resource::{
    KnativeDeploymentStatus, RestateDeployment, RestateDeploymentStatus,
};
use crate::restatedeployment::versions::RESTATE_DEPLOYMENT_ID_ANNOTATION;
use crate::string_map::StringMap;
use crate::text::{cat3, opt_text, str_eq};
use crate::time::{rfc3339, secs, Duration, Timestamp};

verus! {

/// What the status says of Knative.
pub struct KnativeView {
    pub configuration_name: Option<Seq<char>>,
    pub route_name: Option<Seq<char>>,
    pub latest_revision: Option<Seq<char>>,
    pub url: Option<Seq<char>>,
}

/// The part of the status that follows a rollout.
pub struct ProgressView {
    pub knative: Option<KnativeView>,
    pub deployment_id: Option<Seq<char>>,
    pub replicas: i32,
    pub desired_replicas: Option<i32>,
    pub ready_replicas: Option<i32>,
    pub available_replicas: Option<i32>,
    pub unavailable_replicas: Option<i32>,
}

impl KnativeDeploymentStatus {
    /// What is said.
    pub open spec fn view(&self) -> KnativeView {
        KnativeView {
            configuration_name: opt_text(self.configuration_name),
            route_name: opt_text(self.route_name),
            latest_revision: opt_text(self.latest_revision),
            url: opt_text(self.url),
        }
    }
}

/// The part of a status that follows a rollout.
pub open spec fn progress(s: RestateDeploymentStatus) -> ProgressView {
    ProgressView {
        knative: match s.knative {
            Some(k) => Some(k@),
            None => None,
        },
        deployment_id: opt_text(s.deployment_id),
        replicas: s.replicas,
        desired_replicas: s.desired_replicas,
        ready_replicas: s.ready_replicas,
        available_replicas: s.available_replicas,
        unavailable_replicas: s.unavailable_replicas,
    }
}

/// Whether two statuses agree in what does not follow a rollout.
pub open spec fn same_otherwise(a: RestateDeploymentStatus, b: RestateDeploymentStatus) -> bool {
    &&& a.label_selector == b.label_selector
    &&& a.collision_count == b.collision_count
    &&& a.observed_generation == b.observed_generation
    &&& a.conditions == b.conditions
    &&& a.reconciliation == b.reconciliation
}

/// The progress at the start of a reconcile: where the version is a new one, nothing is known of it
/// and nothing is left of the one before.
pub open spec fn started(p: ProgressView, name: Seq<char>) -> ProgressView {
    if p.knative matches Some(k) && k.configuration_name == Some(name) {
        p
    } else {
        ProgressView {
            knative: Some(
                KnativeView {
                    configuration_name: Some(name),
                    route_name: Some(name),
                    latest_revision: None,
                    url: None,
                },
            ),
            deployment_id: None,
            replicas: 0,
            desired_replicas: Some(0),
            ready_replicas: Some(0),
            available_replicas: Some(0),
            unavailable_replicas: Some(0),
        }
    }
}

/// The progress with the latest revision noted.
pub open spec fn with_revision(p: ProgressView, revision: Seq<char>) -> ProgressView {
    match p.knative {
        Some(k) => ProgressView {
            knative: Some(KnativeView { latest_revision: Some(revision), ..k }),
            ..p
        },
        None => p,
    }
}

/// The progress with the address noted.
pub open spec fn with_url(p: ProgressView, url: Option<Seq<char>>) -> ProgressView {
    match p.knative {
        Some(k) => ProgressView { knative: Some(KnativeView { url, ..k }), ..p },
        None => p,
    }
}

/// How many replicas a revision is meant to have. It may not say so during its rollout, and then
/// it is the scale that it starts with.
pub open spec fn desired_of(config: Configuration, revision: Revision) -> i32 {
    match revision.status {
        Some(s) => match s.desired_replicas {
            Some(n) => n,
            None => initial_scale(opt_map(config.template_annotations)),
        },
        None => initial_scale(opt_map(config.template_annotations)),
    }
}

/// How many replicas a revision has.
pub open spec fn actual_of(revision: Revision) -> i32 {
    match revision.status {
        Some(s) => match s.actual_replicas {
            Some(n) => n,
            None => 0,
        },
        None => 0,
    }
}

/// The progress with the replicas of a revision noted. One without a status has all its replicas
/// before it.
pub open spec fn with_counts(p: ProgressView, config: Configuration, revision: Revision) -> ProgressView {
    let desired = desired_of(config, revision);
    let actual = actual_of(revision);
    ProgressView {
        replicas: actual,
        desired_replicas: Some(desired),
        ready_replicas: Some(actual),
        available_replicas: Some(actual),
        unavailable_replicas: Some(
            if revision.status is None {
                desired
            } else if desired > actual {
                (desired - actual) as i32
            } else {
                0
            },
        ),
        ..p
    }
}

/// A generation, zero where it is not set.
pub open spec fn generation_or_zero(g: Option<i64>) -> i64 {
    match g {
        Some(g) => g,
        None => 0,
    }
}

/// The generation that the status of a Configuration is about.
pub open spec fn observed_of(config: Configuration) -> i64 {
    match config.status {
        Some(s) => generation_or_zero(s.observed_generation),
        None => 0,
    }
}

/// The latest revision that was created for a Configuration.
pub open spec fn latest_of(config: Configuration) -> Option<Seq<char>> {
    match config.status {
        Some(s) => opt_text(s.latest_created_revision_name),
        None => None,
    }
}

/// A wait for the Configuration.
pub open spec fn configuration_waits(message: Seq<char>, reason: Seq<char>, nanos: int) -> WaitView {
    WaitView { route: false, message, reason, requeue_after: nanos }
}

/// What is known of a rollout, and what it waits for: that the status of the Configuration is up to
/// date, that it has created a revision, that the revision is found and ready, and that the Route
/// is ready and routes to it.
pub open spec fn observed(
    p: ProgressView,
    config: Configuration,
    route: Route,
    revision: Option<Revision>,
) -> (ProgressView, Option<WaitView>) {
    let name = config.metadata.any_name();
    if generation_or_zero(config.metadata.generation) != observed_of(config) {
        (
            p,
            Some(
                configuration_waits(
                    "Configuration "@ + name + " has out-of-date status information"@,
                    "ObservedGenerationMismatch"@,
                    500_000_000,
                ),
            ),
        )
    } else {
        match (latest_of(config), revision) {
            (None, _) => (
                p,
                Some(
                    configuration_waits(
                        "Configuration "@ + name + " is waiting for initial deployment"@,
                        "RevisionNotCreated"@,
                        secs(5),
                    ),
                ),
            ),
            (Some(latest), None) => (
                with_revision(p, latest),
                Some(
                    configuration_waits(
                        "Revision "@ + latest + " is not yet found"@,
                        "RevisionNotFound"@,
                        secs(1),
                    ),
                ),
            ),
            (Some(latest), Some(rev)) => {
                let q = with_counts(with_revision(p, latest), config, rev);
                match (revision_wait(rev), route_wait(route, latest)) {
                    (Some(w), _) => (q, Some(w)),
                    (None, Some(w)) => (q, Some(w)),
                    (None, None) => (with_url(q, route_url(route)), None),
                }
            },
        }
    }
}

/// Starts a reconcile of the version of this name.
pub fn start_status(status: &mut RestateDeploymentStatus, name: &str)
    ensures
        progress(*final(status)) == started(progress(*old(status)), name@),
        same_otherwise(*final(status), *old(status)),
{
    let known: bool = match &status.knative {
        Some(k) => match &k.configuration_name {
            Some(n) => str_eq(n.as_str(), name),
            None => false,
        },
        None => false,
    };
    if !known {
        status.knative = Some(
            KnativeDeploymentStatus {
                configuration_name: Some(name.to_owned()),
                route_name: Some(name.to_owned()),
                latest_revision: None,
                url: None,
            },
        );
        status.deployment_id = None;
        status.replicas = 0;
        status.desired_replicas = Some(0);
        status.ready_replicas = Some(0);
        status.available_replicas = Some(0);
        status.unavailable_replicas = Some(0);
    }
}

fn note_revision(status: &mut RestateDeploymentStatus, revision: &str)
    ensures
        progress(*final(status)) == with_revision(progress(*old(status)), revision@),
        same_otherwise(*final(status), *old(status)),
{
    let mut taken: Option<KnativeDeploymentStatus> = None;
    core::mem::swap(&mut taken, &mut status.knative);
    status.knative = match taken {
        Some(k) => Some(
            KnativeDeploymentStatus {
                configuration_name: k.configuration_name,
                route_name: k.route_name,
                latest_revision: Some(revision.to_owned()),
                url: k.url,
            },
        ),
        None => None,
    };
}

fn note_url(status: &mut RestateDeploymentStatus, url: Option<String>)
    ensures
        progress(*final(status)) == with_url(progress(*old(status)), opt_text(url)),
        same_otherwise(*final(status), *old(status)),
{
    let mut taken: Option<KnativeDeploymentStatus> = None;
    core::mem::swap(&mut taken, &mut status.knative);
    status.knative = match taken {
        Some(k) => Some(
            KnativeDeploymentStatus {
                configuration_name: k.configuration_name,
                route_name: k.route_name,
                latest_revision: k.latest_revision,
                url,
            },
        ),
        None => None,
    };
}

/// Whether the missing replicas of a revision can be counted.
pub open spec fn countable(config: Configuration, revision: Option<Revision>) -> bool {
    revision matches Some(rev) ==> i32::MIN <= desired_of(config, rev) - actual_of(rev) <= i32::MAX
}

fn note_counts(status: &mut RestateDeploymentStatus, config: &Configuration, revision: &Revision)
    requires
        i32::MIN <= desired_of(*config, *revision) - actual_of(*revision) <= i32::MAX,
    ensures
        progress(*final(status)) == with_counts(progress(*old(status)), *config, *revision),
        same_otherwise(*final(status), *old(status)),
{
    let initial: i32 = get_initial_scale(config);
    match &revision.status {
        Some(s) => {
            let desired: i32 = match s.desired_replicas {
                Some(n) => n,
                None => initial,
            };
            let actual: i32 = match s.actual_replicas {
                Some(n) => n,
                None => 0,
            };
            let missing: i32 = desired - actual;
            status.replicas = actual;
            status.desired_replicas = Some(desired);
            status.ready_replicas = Some(actual);
            status.available_replicas = Some(actual);
            status.unavailable_replicas = Some(
                if missing > 0 {
                    missing
                } else {
                    0
                },
            );
        },
        None => {
            status.replicas = 0;
            status.desired_replicas = Some(initial);
            status.ready_replicas = Some(0);
            status.available_replicas = Some(0);
            status.unavailable_replicas = Some(initial);
        },
    }
}

fn waits(message: String, reason: &str, requeue_after: Duration) -> (r: Error)
    ensures
        is_wait(r, configuration_waits(message@, reason@, requeue_after@)),
{
    Error::ConfigurationNotReady {
        message,
        reason: reason.to_owned(),
        requeue_after: Some(requeue_after),
    }
}

/// Looks at a rollout. `revision` is the latest revision of the Configuration, where it is found.
pub fn observe_rollout(
    status: &mut RestateDeploymentStatus,
    config: &Configuration,
    route: &Route,
    revision: &Option<Revision>,
) -> (r: Result<(), Error>)
    requires
        countable(*config, *revision),
    ensures
        ({
            let (p, wait) = observed(progress(*old(status)), *config, *route, *revision);
            &&& progress(*final(status)) == p
            &&& match wait {
                None => r is Ok,
                Some(w) => r matches Err(e) && is_wait(e, w),
            }
        }),
        same_otherwise(*final(status), *old(status)),
{
    let generation: i64 = match config.metadata.generation {
        Some(g) => g,
        None => 0,
    };
    let seen: i64 = match &config.status {
        Some(s) => match s.observed_generation {
            Some(g) => g,
            None => 0,
        },
        None => 0,
    };
    let name = config.metadata.name_any();
    if generation != seen {
        return Err(
            waits(
                cat3("Configuration ", name.as_str(), " has out-of-date status information"),
                "ObservedGenerationMismatch",
                Duration::from_nanos(500_000_000),
            ),
        );
    }
    let latest: String = match &config.status {
        Some(s) => match &s.latest_created_revision_name {
            Some(n) => n.clone(),
            None => {
                return Err(
                    waits(
                        cat3("Configuration ", name.as_str(), " is waiting for initial deployment"),
                        "RevisionNotCreated",
                        Duration::from_secs(5),
                    ),
                );
            },
        },
        None => {
            return Err(
                waits(
                    cat3("Configuration ", name.as_str(), " is waiting for initial deployment"),
                    "RevisionNotCreated",
                    Duration::from_secs(5),
                ),
            );
        },
    };
    note_revision(status, latest.as_str());
    match revision {
        None => Err(
            waits(
                cat3("Revision ", latest.as_str(), " is not yet found"),
                "RevisionNotFound",
                Duration::from_secs(1),
            ),
        ),
        Some(rev) => {
            note_counts(status, config, rev);
            match check_revision_ready(rev) {
                Err(e) => {
                    return Err(e);
                },
                Ok(()) => {},
            }
            match check_route_ready(route, latest.as_str()) {
                Err(e) => {
                    return Err(e);
                },
                Ok(()) => {},
            }
            let url: Option<String> = match &route.status {
                Some(s) => match &s.url {
                    Some(u) => Some(u.clone()),
                    None => None,
                },
                None => None,
            };
            note_url(status, url);
            Ok(())
        },
    }
}

/// Whether the Configuration that stands under the name of a version belongs to another one whose
/// template has the same hash. A tag that the user has chosen is no hash.
pub open spec fn collides(
    rsd: RestateDeployment,
    pod_template: Seq<char>,
    existing: Option<ObjectMeta>,
) -> bool {
    chosen_tag(rsd) is None && (existing matches Some(meta) && meta.annotation(
        RESTATE_POD_TEMPLATE_ANNOTATION@,
    ) != Some(pod_template))
}

/// How far a reconcile has got.
#[derive(Debug)]
pub enum KnativeStage {
    Start,
    ApplyingConfiguration,
    ApplyingRoute { config: Configuration },
    Registering { config: Configuration },
    Annotating,
    AskingUsage,
    CleaningUp,
    Finished,
}

/// What came of the last command.
#[derive(Debug)]
pub enum KnativeEvent {
    /// The Configuration that stands under the name of the version, where there is one.
    Begin { existing: Option<ObjectMeta> },
    ConfigurationApplied { config: Configuration },
    /// The Route was applied. `revision` is the latest revision of the Configuration, where it is
    /// found.
    RouteApplied { route: Route, revision: Option<Revision> },
    Registered { id: String },
    Usage { deployments: DeploymentUsageMap },
    CleanedUp { next_removal: Option<Timestamp> },
    Done,
    Failed(Error),
}

/// What to do next.
#[derive(Debug)]
pub enum KnativeCommand {
    ApplyConfiguration,
    ApplyRoute,
    /// Register the address with Restate.
    Register { url: String },
    /// Record the registration on the Configuration.
    Annotate { annotations: StringMap },
    AskUsage,
    CleanUp { deployments: DeploymentUsageMap },
    /// When to clean up again.
    Finish(Result<Option<Timestamp>, Error>),
}

/// Whether an event can come of the command that led to a stage.
pub open spec fn knative_answers(from: KnativeStage, event: KnativeEvent) -> bool {
    match (from, event) {
        (KnativeStage::Start, KnativeEvent::Begin { .. }) => true,
        (KnativeStage::Start, _) => false,
        (KnativeStage::Finished, _) => false,
        (_, KnativeEvent::Failed(_)) => true,
        (
            KnativeStage::ApplyingConfiguration,
            KnativeEvent::ConfigurationApplied { .. },
        ) => true,
        (
            KnativeStage::ApplyingRoute { config },
            KnativeEvent::RouteApplied { revision, .. },
        ) => countable(config, revision),
        (KnativeStage::Registering { .. }, KnativeEvent::Registered { .. }) => true,
        (KnativeStage::Annotating, KnativeEvent::Done) => true,
        (KnativeStage::AskingUsage, KnativeEvent::Usage { .. }) => true,
        (KnativeStage::CleaningUp, KnativeEvent::CleanedUp { .. }) => true,
        _ => false,
    }
}

/// Whether an event can come of the command that led to a stage.
pub fn knative_expects(from: &KnativeStage, event: &KnativeEvent) -> (r: bool)
    ensures
        r == knative_answers(*from, *event),
{
    match (from, event) {
        (KnativeStage::Start, KnativeEvent::Begin { .. }) => true,
        (KnativeStage::Start, _) => false,
        (KnativeStage::Finished, _) => false,
        (_, KnativeEvent::Failed(_)) => true,
        (
            KnativeStage::ApplyingConfiguration,
            KnativeEvent::ConfigurationApplied { .. },
        ) => true,
        (
            KnativeStage::ApplyingRoute { config },
            KnativeEvent::RouteApplied { revision, .. },
        ) => match revision {
            None => true,
            Some(rev) => {
                let initial: i32 = get_initial_scale(config);
                let (desired, actual): (i32, i32) = match &rev.status {
                    Some(s) => (
                        match s.desired_replicas {
                            Some(n) => n,
                            None => initial,
                        },
                        match s.actual_replicas {
                            Some(n) => n,
                            None => 0,
                        },
                    ),
                    None => (initial, 0),
                };
                desired.checked_sub(actual).is_some()
            },
        },
        (KnativeStage::Registering { .. }, KnativeEvent::Registered { .. }) => true,
        (KnativeStage::Annotating, KnativeEvent::Done) => true,
        (KnativeStage::AskingUsage, KnativeEvent::Usage { .. }) => true,
        (KnativeStage::CleaningUp, KnativeEvent::CleanedUp { .. }) => true,
        _ => false,
    }
}

/// The reconcile fails with this error.
pub open spec fn knative_fails(to: KnativeStage, command: KnativeCommand, e: Error) -> bool {
    to is Finished && command == KnativeCommand::Finish(Err(e))
}

/// The deployment has an id: it is noted in the status, and recorded on the Configuration where it
/// is not.
pub open spec fn identified(
    config: ObjectMeta,
    id: Seq<char>,
    now: int,
    to: KnativeStage,
    command: KnativeCommand,
) -> bool {
    if config.annotation(RESTATE_DEPLOYMENT_ID_ANNOTATION@) == Some(id) {
        to is AskingUsage && command is AskUsage
    } else {
        &&& to is Annotating
        &&& command matches KnativeCommand::Annotate { annotations }
        &&& annotations@ == Map::<Seq<char>, Seq<char>>::empty().insert(
            RESTATE_DEPLOYMENT_ID_ANNOTATION@,
            id,
        ).insert(RESTATE_REGISTERED_AT_ANNOTATION@, rfc3339(now))
    }
}

/// The progress once the deployment has an id.
pub open spec fn with_id(p: ProgressView, id: Seq<char>) -> ProgressView {
    ProgressView { deployment_id: Some(id), ..p }
}

/// What follows a look at a rollout that waits for nothing.
pub open spec fn rolled_out(
    p: ProgressView,
    config: Configuration,
    route: Route,
    now: int,
    after: ProgressView,
    to: KnativeStage,
    command: KnativeCommand,
) -> bool {
    match config.metadata.annotation(RESTATE_DEPLOYMENT_ID_ANNOTATION@) {
        Some(id) => after == with_id(p, id) && identified(config.metadata, id, now, to, command),
        None => after == p && match route_url(route) {
            None => {
                &&& to is Finished
                &&& command matches KnativeCommand::Finish(Err(e))
                &&& is_wait(
                    e,
                    WaitView {
                        route: true,
                        message: "Route "@ + route.metadata.any_name()
                            + " is waiting for URL assignment"@,
                        reason: "RouteURLNotReady"@,
                        requeue_after: secs(5),
                    },
                )
            },
            Some(u) => match parsed_url(u) {
                Ok(a) => {
                    &&& to == (KnativeStage::Registering { config })
                    &&& command matches KnativeCommand::Register { url }
                    &&& url@ == a
                },
                Err(why) => {
                    &&& to is Finished
                    &&& command matches KnativeCommand::Finish(Err(Error::InvalidUrl(t)))
                    &&& t@ == why
                },
            },
        },
    }
}

/// How a reconcile goes on, and what becomes of the progress.
pub open spec fn knative_goes_on(
    rsd: RestateDeployment,
    name: Seq<char>,
    pod_template: Seq<char>,
    now: int,
    from: KnativeStage,
    event: KnativeEvent,
    before: ProgressView,
    after: ProgressView,
    to: KnativeStage,
    command: KnativeCommand,
) -> bool {
    match (from, event) {
        (KnativeStage::Start, KnativeEvent::Begin { existing }) => after == started(before, name)
            && if collides(rsd, pod_template, existing) {
            knative_fails(to, command, Error::HashCollision)
        } else {
            to is ApplyingConfiguration && command is ApplyConfiguration
        },
        (_, KnativeEvent::Failed(e)) => after == before && knative_fails(to, command, e),
        (
            KnativeStage::ApplyingConfiguration,
            KnativeEvent::ConfigurationApplied { config },
        ) => after == before && to == (KnativeStage::ApplyingRoute { config }) && command
            is ApplyRoute,
        (
            KnativeStage::ApplyingRoute { config },
            KnativeEvent::RouteApplied { route, revision },
        ) => {
            let (p, wait) = observed(before, config, route, revision);
            match wait {
                Some(w) => {
                    &&& after == p
                    &&& to is Finished
                    &&& command matches KnativeCommand::Finish(Err(e))
                    &&& is_wait(e, w)
                },
                None => rolled_out(p, config, route, now, after, to, command),
            }
        },
        (
            KnativeStage::Registering { config },
            KnativeEvent::Registered { id },
        ) => after == with_id(before, id@) && identified(config.metadata, id@, now, to, command),
        (KnativeStage::Annotating, _) => after == before && to is AskingUsage && command
            is AskUsage,
        (KnativeStage::AskingUsage, KnativeEvent::Usage { deployments }) => after == before
            && if rsd.metadata.uid is None {
            &&& to is Finished
            &&& command matches KnativeCommand::Finish(Err(Error::InvalidRestateConfig(t)))
            &&& t@ == "RestateDeployment must have UID"@
        } else {
            to is CleaningUp && command == (KnativeCommand::CleanUp { deployments })
        },
        (KnativeStage::CleaningUp, KnativeEvent::CleanedUp { next_removal }) => after == before
            && to is Finished && command == KnativeCommand::Finish(Ok(next_removal)),
        _ => false,
    }
}

fn identify(config: &ObjectMeta, id: &str, now: &Timestamp) -> (r: (KnativeStage, KnativeCommand))
    ensures
        identified(*config, id@, now@, r.0, r.1),
{
    match registration_annotations(config, id, now) {
        None => (KnativeStage::AskingUsage, KnativeCommand::AskUsage),
        Some(annotations) => (
            KnativeStage::Annotating,
            KnativeCommand::Annotate { annotations },
        ),
    }
}

fn roll_out(
    status: &mut RestateDeploymentStatus,
    config: Configuration,
    route: &Route,
    now: &Timestamp,
) -> (r: (KnativeStage, KnativeCommand))
    ensures
        rolled_out(
            progress(*old(status)),
            config,
            *route,
            now@,
            progress(*final(status)),
            r.0,
            r.1,
        ),
        same_otherwise(*final(status), *old(status)),
{
    match register_or_lookup_deployment(&config.metadata, route) {
        Err(e) => (KnativeStage::Finished, KnativeCommand::Finish(Err(e))),
        Ok(DeploymentLookup::Register(url)) => (
            KnativeStage::Registering { config },
            KnativeCommand::Register { url },
        ),
        Ok(DeploymentLookup::Known(id)) => {
            let next = identify(&config.metadata, id.as_str(), now);
            status.deployment_id = Some(id);
            next
        },
    }
}

fn has_chosen_tag(rsd: &RestateDeployment) -> (r: bool)
    ensures
        r == chosen_tag(*rsd) is Some,
{
    match &rsd.spec.knative {
        Some(k) => k.tag.is_some(),
        None => false,
    }
}

fn is_collision(rsd: &RestateDeployment, pod_template: &str, existing: &Option<ObjectMeta>) -> (r:
    bool)
    ensures
        r == collides(*rsd, pod_template@, *existing),
{
    if has_chosen_tag(rsd) {
        return false;
    }
    match existing {
        Some(meta) => match meta.get_annotation(RESTATE_POD_TEMPLATE_ANNOTATION) {
            Some(t) => !str_eq(t.as_str(), pod_template),
            None => true,
        },
        None => false,
    }
}

/// Takes a reconcile of the version of this name one step on.
pub fn knative_step(
    rsd: &RestateDeployment,
    name: &str,
    pod_template: &str,
    now: &Timestamp,
    status: &mut RestateDeploymentStatus,
    from: KnativeStage,
    event: KnativeEvent,
) -> (r: (KnativeStage, KnativeCommand))
    requires
        knative_answers(from, event),
    ensures
        knative_goes_on(
            *rsd,
            name@,
            pod_template@,
            now@,
            from,
            event,
            progress(*old(status)),
            progress(*final(status)),
            r.0,
            r.1,
        ),
        same_otherwise(*final(status), *old(status)),
{
    match (from, event) {
        (KnativeStage::Start, KnativeEvent::Begin { existing }) => {
            start_status(status, name);
            if is_collision(rsd, pod_template, &existing) {
                (
                    KnativeStage::Finished,
                    KnativeCommand::Finish(Err(Error::HashCollision)),
                )
            } else {
                (KnativeStage::ApplyingConfiguration, KnativeCommand::ApplyConfiguration)
            }
        },
        (_, KnativeEvent::Failed(e)) => (
            KnativeStage::Finished,
            KnativeCommand::Finish(Err(e)),
        ),
        (
            KnativeStage::ApplyingConfiguration,
            KnativeEvent::ConfigurationApplied { config },
        ) => (KnativeStage::ApplyingRoute { config }, KnativeCommand::ApplyRoute),
        (
            KnativeStage::ApplyingRoute { config },
            KnativeEvent::RouteApplied { route, revision },
        ) => match observe_rollout(status, &config, &route, &revision) {
            Err(e) => (KnativeStage::Finished, KnativeCommand::Finish(Err(e))),
            Ok(()) => roll_out(status, config, &route, now),
        },
        (KnativeStage::Registering { config }, KnativeEvent::Registered { id }) => {
            let next = identify(&config.metadata, id.as_str(), now);
            status.deployment_id = Some(id);
            next
        },
        (KnativeStage::Annotating, _) => (KnativeStage::AskingUsage, KnativeCommand::AskUsage),
        (KnativeStage::AskingUsage, KnativeEvent::Usage { deployments }) => {
            if rsd.metadata.uid.is_none() {
                (
                    KnativeStage::Finished,
                    KnativeCommand::Finish(
                        Err(
                            Error::InvalidRestateConfig(
                                "RestateDeployment must have UID".to_owned(),
                            ),
                        ),
                    ),
                )
            } else {
                (KnativeStage::CleaningUp, KnativeCommand::CleanUp { deployments })
            }
        },
        (KnativeStage::CleaningUp, KnativeEvent::CleanedUp { next_removal }) => (
            KnativeStage::Finished,
            KnativeCommand::Finish(Ok(next_removal)),
        ),
        _ => unreached(),
    }
}

/// A version is registered only once its revision and its Route are ready and the Route routes to
/// the revision.
pub proof fn only_ready_versions_are_registered(
    rsd: RestateDeployment,
    name: Seq<char>,
    pod_template: Seq<char>,
    now: int,
    from: KnativeStage,
    event: KnativeEvent,
    before: ProgressView,
    after: ProgressView,
    to: KnativeStage,
    command: KnativeCommand,
)
    requires
        knative_answers(from, event),
        knative_goes_on(
            rsd,
            name,
            pod_template,
            now,
            from,
            event,
            before,
            after,
            to,
            command,
        ),
        command is Register,
    ensures
        from is ApplyingRoute,
        event is RouteApplied,
        latest_of(from->ApplyingRoute_config) is Some,
        event->revision is Some,
        revision_wait(event->revision->0) is None,
        route_wait(event->route, latest_of(from->ApplyingRoute_config)->0) is None,
        from->ApplyingRoute_config.metadata.annotation(RESTATE_DEPLOYMENT_ID_ANNOTATION@) is None,
{
}

/// A new version starts with a clean status: nothing that was known of the one before is shown for
/// it.
pub proof fn new_versions_start_clean(p: ProgressView, name: Seq<char>)
    requires
        !(p.knative matches Some(k) && k.configuration_name == Some(name)),
    ensures
        started(p, name).deployment_id is None,
        started(p, name).knative->0.latest_revision is None,
        started(p, name).knative->0.url is None,
        started(p, name).replicas == 0,
        started(started(p, name), name) == started(p, name),
{
}

/// How many commands a reconcile can still give.
pub open spec fn knative_steps_left(s: KnativeStage) -> int {
    match s {
        KnativeStage::Start => 7,
        KnativeStage::ApplyingConfiguration => 6,
        KnativeStage::ApplyingRoute { .. } => 5,
        KnativeStage::Registering { .. } => 4,
        KnativeStage::Annotating => 3,
        KnativeStage::AskingUsage => 2,
        KnativeStage::CleaningUp => 1,
        KnativeStage::Finished => 0,
    }
}

/// Every reconcile comes to an end: each step leaves fewer commands to give, and it is finished
/// exactly when it gives its result.
pub proof fn every_rollout_ends(
    rsd: RestateDeployment,
    name: Seq<char>,
    pod_template: Seq<char>,
    now: int,
    from: KnativeStage,
    event: KnativeEvent,
    before: ProgressView,
    after: ProgressView,
    to: KnativeStage,
    command: KnativeCommand,
)
    requires
        knative_answers(from, event),
        knative_goes_on(
            rsd,
            name,
            pod_template,
            now,
            from,
            event,
            before,
            after,
            to,
            command,
        ),
    ensures
        0 <= knative_steps_left(to) < knative_steps_left(from),
        to is Finished <==> command is Finish,
{
}

/// Whether the deployment has an id by this stage.
pub open spec fn comes_after_registration(s: KnativeStage) -> bool {
    s is Annotating || s is AskingUsage || s is CleaningUp
}

/// Other versions are cleaned up, and a reconcile succeeds, only with the id of the deployment in the
/// status: each step keeps that stages after the registration have it.
pub proof fn finished_rollouts_are_registered(
    rsd: RestateDeployment,
    name: Seq<char>,
    pod_template: Seq<char>,
    now: int,
    from: KnativeStage,
    event: KnativeEvent,
    before: ProgressView,
    after: ProgressView,
    to: KnativeStage,
    command: KnativeCommand,
)
    requires
        knative_answers(from, event),
        knative_goes_on(
            rsd,
            name,
            pod_template,
            now,
            from,
            event,
            before,
            after,
            to,
            command,
        ),
        comes_after_registration(from) ==> before.deployment_id is Some,
    ensures
        comes_after_registration(to) ==> after.deployment_id is Some,
        command matches KnativeCommand::Finish(r) && r is Ok ==> after.deployment_id is Some,
{
}

} // verus!
