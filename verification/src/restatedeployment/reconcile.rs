//! The course of a reconcile in ReplicaSet mode, as a machine that is told what came of each
//! command and names the next one.
//!
//! A version is created or adopted, gets its Service, is registered with Restate once it is ready,
//! and only when Restate routes new work to it are older versions cleaned up.

use vstd::prelude::*;
use vstd::string::*;

use crate::control::opt_conditions;
use crate::error::{Error, KubeFailureKind, ReplicaSetStatus};
use crate::meta::ObjectMeta;
use crate::restatedeployment::cleanup::{
    DeploymentUsage, DeploymentUsageMap, RESTATE_REMOVE_VERSION_AT_ANNOTATION,
};
use crate::restatedeployment::controller::{
    replica_set_complaint, says_ready, validate_cluster_status, validate_replica_set_status,
    ClusterLookup,
};
use crate::restatedeployment::registration::{
    confirm_latest, is_latest_for_some_service, is_superseded, not_latest_text,
    plan_registration, resolves, routed_to, serves, serves_for_us, ActionView, Overwrite,
    RegisteredDeployment, RegistrationAction,
};
use crate::restatedeployment::replicaset::{
    first_owner_uid, recognise_existing, ExistingVersion, RESTATE_POD_TEMPLATE_ANNOTATION,
    RESTATE_TUNNEL_NAME_ANNOTATION,
};
use crate::restatedeployment::versions::RESTATE_DEPLOYMENT_ID_ANNOTATION;
use crate::string_map::StringMap;
use crate::text::{cat, duplicate_texts, opt_text, str_eq, texts};
use crate::time::{secs, Timestamp};

verus! {

/// What a reconcile goes by throughout.
#[derive(Debug)]
pub struct ReconcileInputs {
    pub versioned_name: String,
    /// The pod template as it is recorded on the ReplicaSet.
    pub pod_template: String,
    pub my_uid: String,
    pub replicas: i32,
    /// The RestateCluster to register with, where there is one.
    pub cluster: Option<String>,
}

/// The ReplicaSet of the current version, as it was last seen.
#[derive(Debug)]
pub struct CurrentVersion {
    pub meta: ObjectMeta,
    pub status: Option<ReplicaSetStatus>,
}

/// How far a reconcile has got.
#[derive(Debug)]
pub enum Stage {
    Start,
    Creating,
    Fetching,
    Propagating { version: CurrentVersion },
    RemovingHpa { version: CurrentVersion },
    ApplyingService { version: CurrentVersion },
    AskingLatest { version: CurrentVersion, endpoint: String },
    AskingUsage { version: CurrentVersion, endpoint: String },
    AskingCluster {
        version: CurrentVersion,
        endpoint: String,
        deployments: DeploymentUsageMap,
        action: RegistrationAction,
    },
    /// Old versions make room for one that is not ready, and then the reconcile fails.
    Clearing { cause: Error },
    Registering {
        version: CurrentVersion,
        deployments: DeploymentUsageMap,
        action: RegistrationAction,
    },
    Recording {
        version: CurrentVersion,
        deployments: DeploymentUsageMap,
        action: RegistrationAction,
        registered: RegisteredDeployment,
    },
    Confirming {
        version: CurrentVersion,
        deployments: DeploymentUsageMap,
        action: RegistrationAction,
        registered: RegisteredDeployment,
    },
    Announcing {
        version: CurrentVersion,
        deployments: DeploymentUsageMap,
        registered: RegisteredDeployment,
    },
    CleaningUp { version: CurrentVersion },
    Finished,
}

/// What came of the last command.
#[derive(Debug)]
pub enum Event {
    Begin,
    /// The ReplicaSet was created. `has_hpa` says whether the operator runs a
    /// HorizontalPodAutoscaler for this version.
    Created { version: CurrentVersion, has_hpa: bool },
    Fetched { version: CurrentVersion },
    Propagated { has_hpa: bool },
    /// The Service was applied. `endpoint` is the address of the version, and `other_owned` says
    /// whether there is another version.
    ServiceApplied { endpoint: Result<String, Error>, other_owned: bool },
    /// The deployment that Restate routes each service to.
    Latest(StringMap),
    /// What Restate needs its deployments for, and the ids recorded on our versions.
    Usage { deployments: DeploymentUsageMap, owned_ids: Vec<String> },
    Cluster(ClusterLookup),
    Registered(RegisteredDeployment),
    CleanedUp { next_removal: Option<Timestamp> },
    Done,
    Failed(Error),
}

/// What to do next.
#[derive(Debug)]
pub enum Command {
    CreateReplicaSet,
    FetchReplicaSet,
    /// Bring the scale and the annotations of the adopted ReplicaSet up to date, and take back its
    /// planned removal.
    Propagate { unschedule: bool },
    RemoveHpa,
    ApplyService,
    AskLatest,
    AskUsage,
    AskCluster,
    /// Clean up the other versions.
    CleanUp { deployments: DeploymentUsageMap },
    Register { endpoint: String, overwrite: Overwrite },
    /// Record the id on the ReplicaSet and the Service.
    RecordId { id: String },
    /// Publish a `Promoted` event.
    Announce { note: String },
    /// The version that is deployed, and when to clean up again.
    Finish(Result<(CurrentVersion, Option<Timestamp>), Error>),
}

/// The deployment id recorded on a version.
pub open spec fn recorded_on(version: CurrentVersion) -> Option<Seq<char>> {
    version.meta.annotation(RESTATE_DEPLOYMENT_ID_ANNOTATION@)
}

/// Whether the apiserver refused a creation because the object exists.
pub open spec fn exists_already(e: Error) -> bool {
    e matches Error::KubeError(f) && f.kind is Api && f.reason@ == "AlreadyExists"@
}

/// Whether a ReplicaSet is the current version: this deployment owns it and it was made from the
/// same pod template.
pub open spec fn is_this_version(inputs: ReconcileInputs, meta: ObjectMeta) -> bool {
    first_owner_uid(meta) == Some(inputs.my_uid@) && meta.annotation(
        RESTATE_POD_TEMPLATE_ANNOTATION@,
    ) == Some(inputs.pod_template@)
}

/// What makes a version the one that Restate routes new work to.
pub open spec fn planned(
    recorded: Option<Seq<char>>,
    deployments: Map<Seq<char>, DeploymentUsage>,
    owned: Seq<Seq<char>>,
    action: ActionView,
) -> bool {
    if is_superseded(recorded, deployments) {
        resolves(recorded->0, deployments, owned, action)
    } else {
        action == match recorded {
            Some(id) => if serves(deployments, id) {
                ActionView::AlreadyLatest { deployment_id: id }
            } else {
                ActionView::Register
            },
            None => ActionView::Register,
        }
    }
}

pub const CONFLICT_TAIL: &'static str = " is registered but superseded, and no version of this RestateDeployment is serving its services. Something outside this RestateDeployment has registered them; check `GET /services` against the Restate admin API. The operator will not force a promotion here.";

/// What is said where something outside serves.
pub open spec fn conflict_text(recorded: Option<Seq<char>>) -> Seq<char> {
    "Deployment "@ + match recorded {
        Some(id) => id,
        None => "<unknown>"@,
    } + CONFLICT_TAIL@
}

/// What is said of a promotion.
pub open spec fn promotion_text(id: Seq<char>, name: Seq<char>, superseded_by: Seq<char>) -> Seq<
    char,
> {
    "Promoted deployment "@ + id + " back to latest for "@ + name + ", superseding "@
        + superseded_by
}

/// The usage of a deployment that was confirmed to serve and of which no more is known.
pub open spec fn just_latest() -> DeploymentUsage {
    DeploymentUsage { latest_for_service: true, pinned_invocations: 0, unpinned_invocations: 0 }
}

/// Whether Restate routes every service of a deployment to it.
pub open spec fn fully_routed(
    latest: Map<Seq<char>, Seq<char>>,
    registered: RegisteredDeployment,
) -> bool {
    forall|i: int|
        0 <= i < registered.services@.len() ==> routed_to(
            latest,
            (#[trigger] registered.services@[i])@,
            registered.id@,
        )
}

/// The reconcile fails with this error.
pub open spec fn fails(to: Stage, command: Command, e: Error) -> bool {
    to is Finished && command == Command::Finish(Err(e))
}

/// The version is there: its HorizontalPodAutoscaler goes, where it has one, and its Service is
/// applied.
pub open spec fn version_stands(version: CurrentVersion, has_hpa: bool, to: Stage, command: Command) -> bool {
    if has_hpa {
        to == (Stage::RemovingHpa { version }) && command is RemoveHpa
    } else {
        to == (Stage::ApplyingService { version }) && command is ApplyService
    }
}

/// The version is registered if it is ready, and old versions are cleaned up to make room if not.
pub open spec fn registers_when_ready(
    inputs: ReconcileInputs,
    version: CurrentVersion,
    endpoint: String,
    deployments: DeploymentUsageMap,
    action: ActionView,
    to: Stage,
    command: Command,
) -> bool {
    match replica_set_complaint(version.status, inputs.replicas as int) {
        None => {
            &&& to matches Stage::Registering { version: v, deployments: d, action: a }
            &&& v == version && d == deployments && a@ == action
            &&& command == (Command::Register {
                endpoint,
                overwrite: if action is Promote {
                    Overwrite::Yes
                } else {
                    Overwrite::No
                },
            })
        },
        Some((why, text)) => {
            &&& to matches Stage::Clearing { cause }
            &&& cause matches Error::DeploymentNotReady {
                message,
                reason,
                requeue_after,
                replica_set_status,
            }
            &&& message@ == text && reason@ == why && requeue_after is None
            &&& replica_set_status == version.status
            &&& command == (Command::CleanUp { deployments })
        },
    }
}

/// What follows once it is known what makes the version the one that serves.
pub open spec fn follows_plan(
    inputs: ReconcileInputs,
    version: CurrentVersion,
    endpoint: String,
    deployments: DeploymentUsageMap,
    action: ActionView,
    to: Stage,
    command: Command,
) -> bool {
    match action {
        ActionView::Conflict => {
            &&& to is Finished
            &&& command matches Command::Finish(
                Err(Error::DeploymentNotLatest { message, reason, requeue_after }),
            )
            &&& message@ == conflict_text(recorded_on(version))
            &&& reason@ == "ForeignDeployment"@ && requeue_after is None
        },
        ActionView::AlreadyLatest { .. } => to == (Stage::CleaningUp { version }) && command == (
        Command::CleanUp { deployments }),
        _ => match inputs.cluster {
            Some(_) => {
                &&& to matches Stage::AskingCluster {
                    version: v,
                    endpoint: e,
                    deployments: d,
                    action: a,
                }
                &&& v == version && e == endpoint && d == deployments && a@ == action
                &&& command is AskCluster
            },
            None => registers_when_ready(
                inputs,
                version,
                endpoint,
                deployments,
                action,
                to,
                command,
            ),
        },
    }
}

/// The other versions are cleaned up, with this deployment known to serve.
pub open spec fn cleans_up(
    version: CurrentVersion,
    deployments: DeploymentUsageMap,
    id: Seq<char>,
    to: Stage,
    command: Command,
) -> bool {
    &&& to == (Stage::CleaningUp { version })
    &&& command matches Command::CleanUp { deployments: d }
    &&& d@ == deployments@.insert(id, just_latest())
}

/// The version serves: a promotion is announced, and the other versions are cleaned up.
pub open spec fn is_confirmed(
    inputs: ReconcileInputs,
    version: CurrentVersion,
    deployments: DeploymentUsageMap,
    action: RegistrationAction,
    registered: RegisteredDeployment,
    to: Stage,
    command: Command,
) -> bool {
    match action@ {
        ActionView::Promote { superseded_by } => {
            &&& to == (Stage::Announcing { version, deployments, registered })
            &&& command matches Command::Announce { note }
            &&& note@ == promotion_text(registered.id@, inputs.versioned_name@, superseded_by)
        },
        _ => cleans_up(version, deployments, registered.id@, to, command),
    }
}

/// The id is recorded: Restate is asked where it routes the services that were found at the
/// endpoint. Where none were found there is nothing to ask.
pub open spec fn is_recorded(
    inputs: ReconcileInputs,
    version: CurrentVersion,
    deployments: DeploymentUsageMap,
    action: RegistrationAction,
    registered: RegisteredDeployment,
    to: Stage,
    command: Command,
) -> bool {
    if registered.services@.len() == 0 {
        is_confirmed(inputs, version, deployments, action, registered, to, command)
    } else {
        to == (Stage::Confirming { version, deployments, action, registered }) && command
            is AskLatest
    }
}

/// Whether an event can come of the command that led to a stage.
pub open spec fn answers(from: Stage, event: Event) -> bool {
    match (from, event) {
        (Stage::Start, Event::Begin) => true,
        (Stage::Creating, Event::Created { .. }) => true,
        (Stage::Fetching, Event::Fetched { .. }) => true,
        (Stage::Propagating { .. }, Event::Propagated { .. }) => true,
        (Stage::RemovingHpa { .. }, Event::Done) => true,
        (Stage::ApplyingService { .. }, Event::ServiceApplied { .. }) => true,
        (Stage::AskingLatest { .. }, Event::Latest(_)) => true,
        (Stage::AskingUsage { .. }, Event::Usage { .. }) => true,
        (Stage::AskingCluster { .. }, Event::Cluster(_)) => true,
        (Stage::Clearing { .. }, Event::CleanedUp { .. }) => true,
        (Stage::Registering { .. }, Event::Registered(_)) => true,
        (Stage::Recording { .. }, Event::Done) => true,
        (Stage::Confirming { .. }, Event::Latest(_)) => true,
        (Stage::Announcing { .. }, Event::Done) => true,
        (Stage::CleaningUp { .. }, Event::CleanedUp { .. }) => true,
        (Stage::Start, Event::Failed(_)) => false,
        (Stage::Finished, Event::Failed(_)) => false,
        (_, Event::Failed(_)) => true,
        _ => false,
    }
}

/// Whether an event can come of the command that led to a stage.
pub fn expects(from: &Stage, event: &Event) -> (r: bool)
    ensures
        r == answers(*from, *event),
{
    match (from, event) {
        (Stage::Start, Event::Begin) => true,
        (Stage::Creating, Event::Created { .. }) => true,
        (Stage::Fetching, Event::Fetched { .. }) => true,
        (Stage::Propagating { .. }, Event::Propagated { .. }) => true,
        (Stage::RemovingHpa { .. }, Event::Done) => true,
        (Stage::ApplyingService { .. }, Event::ServiceApplied { .. }) => true,
        (Stage::AskingLatest { .. }, Event::Latest(_)) => true,
        (Stage::AskingUsage { .. }, Event::Usage { .. }) => true,
        (Stage::AskingCluster { .. }, Event::Cluster(_)) => true,
        (Stage::Clearing { .. }, Event::CleanedUp { .. }) => true,
        (Stage::Registering { .. }, Event::Registered(_)) => true,
        (Stage::Recording { .. }, Event::Done) => true,
        (Stage::Confirming { .. }, Event::Latest(_)) => true,
        (Stage::Announcing { .. }, Event::Done) => true,
        (Stage::CleaningUp { .. }, Event::CleanedUp { .. }) => true,
        (Stage::Start, Event::Failed(_)) => false,
        (Stage::Finished, Event::Failed(_)) => false,
        (_, Event::Failed(_)) => true,
        _ => false,
    }
}

/// How a reconcile goes on.
pub open spec fn goes_on(
    inputs: ReconcileInputs,
    from: Stage,
    event: Event,
    to: Stage,
    command: Command,
) -> bool {
    match (from, event) {
        (Stage::Start, _) => to is Creating && command is CreateReplicaSet,
        // old versions could not make room either: what was wrong before still is
        (Stage::Clearing { cause }, _) => fails(to, command, cause),
        (Stage::Creating, Event::Failed(e)) => if exists_already(e) {
            to is Fetching && command is FetchReplicaSet
        } else {
            fails(to, command, e)
        },
        (_, Event::Failed(e)) => fails(to, command, e),
        (Stage::Creating, Event::Created { version, has_hpa }) => version_stands(
            version,
            has_hpa,
            to,
            command,
        ),
        (Stage::Fetching, Event::Fetched { version }) => if is_this_version(inputs, version.meta) {
            to == (Stage::Propagating { version }) && command == (Command::Propagate {
                unschedule: version.meta.annotation(RESTATE_REMOVE_VERSION_AT_ANNOTATION@) is Some,
            })
        } else {
            fails(to, command, Error::HashCollision)
        },
        (Stage::Propagating { version }, Event::Propagated { has_hpa }) => version_stands(
            version,
            has_hpa,
            to,
            command,
        ),
        (Stage::RemovingHpa { version }, _) => to == (Stage::ApplyingService { version })
            && command is ApplyService,
        (
            Stage::ApplyingService { version },
            Event::ServiceApplied { endpoint, other_owned },
        ) => match endpoint {
            Err(e) => fails(to, command, e),
            Ok(endpoint) => if !other_owned && recorded_on(version) is Some {
                to == (Stage::AskingLatest { version, endpoint }) && command is AskLatest
            } else {
                to == (Stage::AskingUsage { version, endpoint }) && command is AskUsage
            },
        },
        (Stage::AskingLatest { version, endpoint }, Event::Latest(latest)) => if recorded_on(
            version,
        ) is Some && exists|service: Seq<char>| #[trigger]
            routed_to(latest@, service, recorded_on(version)->0) {
            to is Finished && command == Command::Finish(Ok((version, None)))
        } else {
            to == (Stage::AskingUsage { version, endpoint }) && command is AskUsage
        },
        (
            Stage::AskingUsage { version, endpoint },
            Event::Usage { deployments, owned_ids },
        ) => exists|action: ActionView| #[trigger]
            planned(recorded_on(version), deployments@, texts(owned_ids@), action) && follows_plan(
                inputs,
                version,
                endpoint,
                deployments,
                action,
                to,
                command,
            ),
        (
            Stage::AskingCluster { version, endpoint, deployments, action },
            Event::Cluster(lookup),
        ) => match lookup {
            ClusterLookup::NotFound => {
                &&& to is Finished
                &&& command matches Command::Finish(Err(Error::InvalidRestateConfig(t)))
                &&& t@ == "Referenced Restate cluster '"@ + cluster_name(inputs) + "' not found"@
            },
            ClusterLookup::Failed(f) => fails(to, command, Error::KubeError(f)),
            ClusterLookup::Found(conditions) => if says_ready(opt_conditions(conditions)) {
                registers_when_ready(
                    inputs,
                    version,
                    endpoint,
                    deployments,
                    action@,
                    to,
                    command,
                )
            } else {
                &&& to matches Stage::Clearing { cause }
                &&& cause matches Error::DeploymentNotReady {
                    message,
                    reason,
                    requeue_after,
                    replica_set_status,
                }
                &&& message@ == "Referenced Restate cluster '"@ + cluster_name(inputs)
                    + "' is not ready"@
                &&& reason@ == "ClusterNotReady"@ && replica_set_status is None
                &&& requeue_after is Some && requeue_after->0@ == secs(30)
                &&& command == (Command::CleanUp { deployments })
            },
        },
        (
            Stage::Registering { version, deployments, action },
            Event::Registered(registered),
        ) => if recorded_on(version) == Some(registered.id@) {
            is_recorded(inputs, version, deployments, action, registered, to, command)
        } else {
            &&& to == (Stage::Recording { version, deployments, action, registered })
            &&& command matches Command::RecordId { id }
            &&& id@ == registered.id@
        },
        (Stage::Recording { version, deployments, action, registered }, _) => is_recorded(
            inputs,
            version,
            deployments,
            action,
            registered,
            to,
            command,
        ),
        (
            Stage::Confirming { version, deployments, action, registered },
            Event::Latest(latest),
        ) => if fully_routed(latest@, registered) {
            is_confirmed(inputs, version, deployments, action, registered, to, command)
        } else {
            &&& to is Finished
            &&& command matches Command::Finish(
                Err(Error::DeploymentNotLatest { message, reason, requeue_after }),
            )
            &&& message@ == not_latest_text(latest@, texts(registered.services@), registered.id@)
            &&& reason@ == "NotLatest"@ && requeue_after is None
        },
        (Stage::Announcing { version, deployments, registered }, _) => cleans_up(
            version,
            deployments,
            registered.id@,
            to,
            command,
        ),
        (Stage::CleaningUp { version }, Event::CleanedUp { next_removal }) => to is Finished
            && command == Command::Finish(Ok((version, next_removal))),
        _ => false,
    }
}

/// The cluster to register with.
pub open spec fn cluster_name(inputs: ReconcileInputs) -> Seq<char> {
    match inputs.cluster {
        Some(c) => c@,
        None => Seq::empty(),
    }
}

/// The name under which the pods of a version hold their tunnels: the one persisted on the
/// ReplicaSet when it was created, else the name of the version.
pub fn tunnel_name(version: &CurrentVersion, versioned_name: &str) -> (r: String)
    ensures
        r@ == match version.meta.annotation(RESTATE_TUNNEL_NAME_ANNOTATION@) {
            Some(n) => n,
            None => versioned_name@,
        },
{
    match version.meta.get_annotation(RESTATE_TUNNEL_NAME_ANNOTATION) {
        Some(n) => n.clone(),
        None => versioned_name.to_owned(),
    }
}

fn stand(version: CurrentVersion, has_hpa: bool) -> (r: (Stage, Command))
    ensures
        version_stands(version, has_hpa, r.0, r.1),
{
    if has_hpa {
        (Stage::RemovingHpa { version }, Command::RemoveHpa)
    } else {
        (Stage::ApplyingService { version }, Command::ApplyService)
    }
}

fn register_when_ready(
    inputs: &ReconcileInputs,
    version: CurrentVersion,
    endpoint: String,
    deployments: DeploymentUsageMap,
    action: RegistrationAction,
) -> (r: (Stage, Command))
    ensures
        registers_when_ready(
            *inputs,
            version,
            endpoint,
            deployments,
            action@,
            r.0,
            r.1,
        ),
{
    match validate_replica_set_status(version.status, inputs.replicas) {
        Ok(()) => {
            let overwrite = action.overwrite();
            (
                Stage::Registering { version, deployments, action },
                Command::Register { endpoint, overwrite },
            )
        },
        Err(cause) => (Stage::Clearing { cause }, Command::CleanUp { deployments }),
    }
}

fn plan(recorded: &Option<String>, deployments: &DeploymentUsageMap, owned: &Vec<String>) -> (r:
    RegistrationAction)
    ensures
        planned(opt_text(*recorded), deployments@, texts(owned@), r@),
{
    let recorded: Option<&str> = match recorded {
        Some(id) => Some(id.as_str()),
        None => None,
    };
    let owned_ids = || -> (ids: Vec<String>)
        ensures
            texts(ids@) == texts(owned@),
        { duplicate_texts(owned) };
    plan_registration(recorded, deployments, owned_ids)
}

fn recorded_id(version: &CurrentVersion) -> (r: Option<String>)
    ensures
        opt_text(r) == recorded_on(*version),
{
    match version.meta.get_annotation(RESTATE_DEPLOYMENT_ID_ANNOTATION) {
        Some(id) => Some(id.clone()),
        None => None,
    }
}

fn follow_plan(
    inputs: &ReconcileInputs,
    version: CurrentVersion,
    endpoint: String,
    deployments: DeploymentUsageMap,
    action: RegistrationAction,
) -> (r: (Stage, Command))
    ensures
        follows_plan(*inputs, version, endpoint, deployments, action@, r.0, r.1),
{
    match action {
        RegistrationAction::Conflict => {
            let mut message: String = "Deployment ".to_owned();
            match recorded_id(&version) {
                Some(id) => {
                    message.append(id.as_str());
                },
                None => {
                    message.append("<unknown>");
                },
            }
            message.append(CONFLICT_TAIL);
            (
                Stage::Finished,
                Command::Finish(
                    Err(
                        Error::DeploymentNotLatest {
                            message,
                            reason: "ForeignDeployment".to_owned(),
                            requeue_after: None,
                        },
                    ),
                ),
            )
        },
        RegistrationAction::AlreadyLatest { .. } => (
            Stage::CleaningUp { version },
            Command::CleanUp { deployments },
        ),
        other => match &inputs.cluster {
            Some(_) => (
                Stage::AskingCluster { version, endpoint, deployments, action: other },
                Command::AskCluster,
            ),
            None => register_when_ready(inputs, version, endpoint, deployments, other),
        },
    }
}

fn clean_up(version: CurrentVersion, deployments: DeploymentUsageMap, id: String) -> (r: (
    Stage,
    Command,
))
    ensures
        cleans_up(version, deployments, id@, r.0, r.1),
{
    let mut deployments = deployments;
    deployments.insert(
        id,
        DeploymentUsage {
            latest_for_service: true,
            pinned_invocations: 0,
            unpinned_invocations: 0,
        },
    );
    (Stage::CleaningUp { version }, Command::CleanUp { deployments })
}

fn is_exists_already(e: &Error) -> (r: bool)
    ensures
        r == exists_already(*e),
{
    match e {
        Error::KubeError(f) => match f.kind {
            KubeFailureKind::Api(_) => str_eq(f.reason.as_str(), "AlreadyExists"),
            _ => false,
        },
        _ => false,
    }
}

fn conclude(
    inputs: &ReconcileInputs,
    version: CurrentVersion,
    deployments: DeploymentUsageMap,
    action: RegistrationAction,
    registered: RegisteredDeployment,
) -> (r: (Stage, Command))
    ensures
        is_confirmed(*inputs, version, deployments, action, registered, r.0, r.1),
{
    match action {
        RegistrationAction::Promote { superseded_by } => {
            let mut note: String = cat("Promoted deployment ", registered.id.as_str());
            note.append(" back to latest for ");
            note.append(inputs.versioned_name.as_str());
            note.append(", superseding ");
            note.append(superseded_by.as_str());
            (Stage::Announcing { version, deployments, registered }, Command::Announce { note })
        },
        _ => clean_up(version, deployments, registered.id),
    }
}

fn ask_to_confirm(
    inputs: &ReconcileInputs,
    version: CurrentVersion,
    deployments: DeploymentUsageMap,
    action: RegistrationAction,
    registered: RegisteredDeployment,
) -> (r: (Stage, Command))
    ensures
        is_recorded(*inputs, version, deployments, action, registered, r.0, r.1),
{
    if registered.services.len() == 0 {
        conclude(inputs, version, deployments, action, registered)
    } else {
        (Stage::Confirming { version, deployments, action, registered }, Command::AskLatest)
    }
}

fn check_cluster(
    inputs: &ReconcileInputs,
    version: CurrentVersion,
    endpoint: String,
    deployments: DeploymentUsageMap,
    action: RegistrationAction,
    lookup: ClusterLookup,
) -> (r: (Stage, Command))
    ensures
        goes_on(
            *inputs,
            Stage::AskingCluster { version, endpoint, deployments, action },
            Event::Cluster(lookup),
            r.0,
            r.1,
        ),
{
    let name: String = match &inputs.cluster {
        Some(c) => c.clone(),
        None => String::new(),
    };
    match validate_cluster_status(name.as_str(), lookup) {
        Ok(()) => register_when_ready(inputs, version, endpoint, deployments, action),
        Err(e) => match e {
            Error::DeploymentNotReady { message, reason, requeue_after, replica_set_status } => (
                Stage::Clearing {
                    cause: Error::DeploymentNotReady {
                        message,
                        reason,
                        requeue_after,
                        replica_set_status,
                    },
                },
                Command::CleanUp { deployments },
            ),
            other => (Stage::Finished, Command::Finish(Err(other))),
        },
    }
}

/// Takes a reconcile one step on.
pub fn step(inputs: &ReconcileInputs, from: Stage, event: Event) -> (r: (Stage, Command))
    requires
        answers(from, event),
    ensures
        goes_on(*inputs, from, event, r.0, r.1),
{
    match (from, event) {
        (Stage::Start, _) => (Stage::Creating, Command::CreateReplicaSet),
        (Stage::Clearing { cause }, _) => (Stage::Finished, Command::Finish(Err(cause))),
        (Stage::Creating, Event::Failed(e)) => if is_exists_already(&e) {
            (Stage::Fetching, Command::FetchReplicaSet)
        } else {
            (Stage::Finished, Command::Finish(Err(e)))
        },
        (_, Event::Failed(e)) => (Stage::Finished, Command::Finish(Err(e))),
        (Stage::Creating, Event::Created { version, has_hpa }) => stand(version, has_hpa),
        (Stage::Fetching, Event::Fetched { version }) => match recognise_existing(
            &version.meta,
            inputs.my_uid.as_str(),
            inputs.pod_template.as_str(),
        ) {
            ExistingVersion::Adopt => {
                let unschedule = version.meta.get_annotation(
                    RESTATE_REMOVE_VERSION_AT_ANNOTATION,
                ).is_some();
                (Stage::Propagating { version }, Command::Propagate { unschedule })
            },
            ExistingVersion::Collision => (
                Stage::Finished,
                Command::Finish(Err(Error::HashCollision)),
            ),
        },
        (Stage::Propagating { version }, Event::Propagated { has_hpa }) => stand(version, has_hpa),
        (Stage::RemovingHpa { version }, _) => (
            Stage::ApplyingService { version },
            Command::ApplyService,
        ),
        (
            Stage::ApplyingService { version },
            Event::ServiceApplied { endpoint, other_owned },
        ) => match endpoint {
            Err(e) => (Stage::Finished, Command::Finish(Err(e))),
            Ok(endpoint) => if !other_owned && recorded_id(&version).is_some() {
                (Stage::AskingLatest { version, endpoint }, Command::AskLatest)
            } else {
                (Stage::AskingUsage { version, endpoint }, Command::AskUsage)
            },
        },
        (Stage::AskingLatest { version, endpoint }, Event::Latest(latest)) => {
            let id: String = match recorded_id(&version) {
                Some(id) => id,
                None => {
                    return (Stage::AskingUsage { version, endpoint }, Command::AskUsage);
                },
            };
            if is_latest_for_some_service(&latest, id.as_str()) {
                proof {
                    let service = choose|service: Seq<char>| #[trigger]
                        routed_to(latest@, service, id@);
                    assert(routed_to(latest@, service, recorded_on(version)->0));
                }
                (Stage::Finished, Command::Finish(Ok((version, None))))
            } else {
                (Stage::AskingUsage { version, endpoint }, Command::AskUsage)
            }
        },
        (Stage::AskingUsage { version, endpoint }, Event::Usage { deployments, owned_ids }) => {
            let action = plan(&recorded_id(&version), &deployments, &owned_ids);
            proof {
                assert(planned(recorded_on(version), deployments@, texts(owned_ids@), action@));
            }
            follow_plan(inputs, version, endpoint, deployments, action)
        },
        (
            Stage::AskingCluster { version, endpoint, deployments, action },
            Event::Cluster(lookup),
        ) => check_cluster(inputs, version, endpoint, deployments, action, lookup),
        (
            Stage::Registering { version, deployments, action },
            Event::Registered(registered),
        ) => {
            let recorded: bool = match recorded_id(&version) {
                Some(id) => str_eq(id.as_str(), registered.id.as_str()),
                None => false,
            };
            if recorded {
                ask_to_confirm(inputs, version, deployments, action, registered)
            } else {
                let id = registered.id.clone();
                (
                    Stage::Recording { version, deployments, action, registered },
                    Command::RecordId { id },
                )
            }
        },
        (Stage::Recording { version, deployments, action, registered }, _) => ask_to_confirm(
            inputs,
            version,
            deployments,
            action,
            registered,
        ),
        (
            Stage::Confirming { version, deployments, action, registered },
            Event::Latest(latest),
        ) => match confirm_latest(&latest, &registered) {
            Err(e) => (Stage::Finished, Command::Finish(Err(e))),
            Ok(()) => conclude(inputs, version, deployments, action, registered),
        },
        (Stage::Announcing { version, deployments, registered }, _) => clean_up(
            version,
            deployments,
            registered.id,
        ),
        (Stage::CleaningUp { version }, Event::CleanedUp { next_removal }) => (
            Stage::Finished,
            Command::Finish(Ok((version, next_removal))),
        ),
        _ => unreached(),
    }
}

/// How many commands a reconcile can still give.
pub open spec fn steps_left(s: Stage) -> int {
    match s {
        Stage::Start => 15,
        Stage::Creating => 14,
        Stage::Fetching => 13,
        Stage::Propagating { .. } => 12,
        Stage::RemovingHpa { .. } => 11,
        Stage::ApplyingService { .. } => 10,
        Stage::AskingLatest { .. } => 9,
        Stage::AskingUsage { .. } => 8,
        Stage::AskingCluster { .. } => 7,
        Stage::Registering { .. } => 6,
        Stage::Recording { .. } => 5,
        Stage::Confirming { .. } => 4,
        Stage::Announcing { .. } => 3,
        Stage::CleaningUp { .. } => 2,
        Stage::Clearing { .. } => 1,
        Stage::Finished => 0,
    }
}

/// Every reconcile comes to an end: each step leaves fewer commands to give, and it is finished
/// exactly when it gives its result.
pub proof fn every_reconcile_ends(
    inputs: ReconcileInputs,
    from: Stage,
    event: Event,
    to: Stage,
    command: Command,
)
    requires
        answers(from, event),
        goes_on(inputs, from, event, to, command),
    ensures
        0 <= steps_left(to) < steps_left(from),
        to is Finished <==> command is Finish,
{
}

/// A reconcile succeeds only where Restate routes new work to the version: it says so of the
/// recorded deployment, or the reconcile comes out of the cleanup that follows a confirmation.
pub proof fn success_means_new_work_lands_here(
    inputs: ReconcileInputs,
    from: Stage,
    event: Event,
    to: Stage,
    command: Command,
)
    requires
        answers(from, event),
        goes_on(inputs, from, event, to, command),
        command matches Command::Finish(r) && r is Ok,
    ensures
        from is CleaningUp || (from is AskingLatest && event is Latest && recorded_on(
            from->AskingLatest_version,
        ) is Some && exists|service: Seq<char>| #[trigger]
            routed_to(event->Latest_0@, service, recorded_on(from->AskingLatest_version)->0)),
{
}

/// The cleanup that precedes success begins only where the version serves: Restate listed its
/// recorded deployment as serving, or has just been seen to route every service of the registered
/// deployment to it, if it has any.
pub proof fn cleanup_follows_confirmation(
    inputs: ReconcileInputs,
    from: Stage,
    event: Event,
    to: Stage,
    command: Command,
)
    requires
        answers(from, event),
        goes_on(inputs, from, event, to, command),
        to is CleaningUp,
    ensures
        ({
            ||| from is AskingUsage && event is Usage && recorded_on(from->AskingUsage_version)
                is Some && serves(
                event->Usage_deployments@,
                recorded_on(from->AskingUsage_version)->0,
            )
            ||| from is Confirming && event is Latest && fully_routed(
                event->Latest_0@,
                from->Confirming_registered,
            )
            ||| from is Registering && event is Registered
                && event->Registered_0.services@.len() == 0
            ||| from is Recording && from->Recording_registered.services@.len() == 0
            ||| from is Announcing
        }),
        command is CleanUp,
        exists|id: Seq<char>| #[trigger] serves(command->CleanUp_deployments@, id),
{
    if from is AskingUsage {
        let version = from->AskingUsage_version;
        let action = choose|action: ActionView| #[trigger]
            planned(
                recorded_on(version),
                event->Usage_deployments@,
                texts(event->Usage_owned_ids@),
                action,
            ) && follows_plan(
                inputs,
                version,
                from->AskingUsage_endpoint,
                event->Usage_deployments,
                action,
                to,
                command,
            );
        assert(action is AlreadyLatest);
        assert(serves(command->CleanUp_deployments@, recorded_on(version)->0));
    } else if from is Confirming {
        assert(serves(command->CleanUp_deployments@, from->Confirming_registered.id@));
    } else if from is Registering {
        assert(serves(command->CleanUp_deployments@, event->Registered_0.id@));
    } else if from is Recording {
        assert(serves(command->CleanUp_deployments@, from->Recording_registered.id@));
    } else {
        assert(serves(command->CleanUp_deployments@, from->Announcing_registered.id@));
    }
}

/// Where something outside serves what the version is registered for, nothing is registered and no
/// other version is touched.
pub proof fn conflicts_write_nothing(
    inputs: ReconcileInputs,
    version: CurrentVersion,
    endpoint: String,
    deployments: DeploymentUsageMap,
    owned_ids: Vec<String>,
    to: Stage,
    command: Command,
)
    requires
        is_superseded(recorded_on(version), deployments@),
        forall|id: Seq<char>|
            !#[trigger] serves_for_us(
                recorded_on(version)->0,
                deployments@,
                texts(owned_ids@),
                id,
            ),
        goes_on(
            inputs,
            Stage::AskingUsage { version, endpoint },
            Event::Usage { deployments, owned_ids },
            to,
            command,
        ),
    ensures
        to is Finished,
        command matches Command::Finish(r) && r is Err,
{
}

/// Only a promotion, which puts a version back in place of another of ours, overwrites a
/// registration.
pub proof fn only_promotions_overwrite(
    inputs: ReconcileInputs,
    from: Stage,
    event: Event,
    to: Stage,
    command: Command,
)
    requires
        answers(from, event),
        goes_on(inputs, from, event, to, command),
        command is Register,
    ensures
        to is Registering,
        command->overwrite == Overwrite::Yes <==> to->Registering_action@ is Promote,
{
}

/// Whether these stages, events and commands are those of a reconcile from its start.
pub open spec fn is_run(
    inputs: ReconcileInputs,
    stages: Seq<Stage>,
    events: Seq<Event>,
    commands: Seq<Command>,
) -> bool {
    &&& stages.len() == events.len() + 1
    &&& commands.len() == events.len()
    &&& stages[0] is Start
    &&& forall|i: int|
        0 <= i < events.len() ==> answers(stages[i], #[trigger] events[i]) && goes_on(
            inputs,
            stages[i],
            events[i],
            stages[i + 1],
            commands[i],
        )
}

/// Whether an event shows that the version is the one that serves: Restate routes a service to the
/// deployment that is recorded on it, or lists that deployment as serving, or routes every service
/// of the deployment that was just registered to it. A deployment without services has none to
/// route.
pub open spec fn shows_serving(at: Stage, event: Event) -> bool {
    match (at, event) {
        (Stage::AskingLatest { version, .. }, Event::Latest(latest)) => recorded_on(version)
            is Some && exists|service: Seq<char>| #[trigger]
            routed_to(latest@, service, recorded_on(version)->0),
        (Stage::AskingUsage { version, .. }, Event::Usage { deployments, .. }) => recorded_on(
            version,
        ) is Some && serves(deployments@, recorded_on(version)->0),
        (Stage::Confirming { registered, .. }, Event::Latest(latest)) => fully_routed(
            latest@,
            registered,
        ),
        (Stage::Registering { .. }, Event::Registered(registered)) => registered.services@.len()
            == 0,
        (Stage::Recording { registered, .. }, Event::Done) => registered.services@.len() == 0,
        _ => false,
    }
}

proof fn lemma_steps_left(
    inputs: ReconcileInputs,
    stages: Seq<Stage>,
    events: Seq<Event>,
    commands: Seq<Command>,
    i: int,
)
    requires
        is_run(inputs, stages, events, commands),
        0 <= i < stages.len(),
    ensures
        0 <= steps_left(stages[i]) <= 15 - i,
    decreases i,
{
    if i > 0 {
        lemma_steps_left(inputs, stages, events, commands, i - 1);
        assert(answers(stages[i - 1], events[i - 1]));
        every_reconcile_ends(
            inputs,
            stages[i - 1],
            events[i - 1],
            stages[i],
            commands[i - 1],
        );
    }
}

/// A reconcile is over after at most fifteen commands.
pub proof fn runs_are_short(
    inputs: ReconcileInputs,
    stages: Seq<Stage>,
    events: Seq<Event>,
    commands: Seq<Command>,
)
    requires
        is_run(inputs, stages, events, commands),
    ensures
        commands.len() <= 15,
{
    lemma_steps_left(inputs, stages, events, commands, stages.len() - 1);
}

/// Every reconcile that succeeds has seen, on its way, that the version is the one that serves.
pub proof fn successful_runs_have_seen_the_version_serve(
    inputs: ReconcileInputs,
    stages: Seq<Stage>,
    events: Seq<Event>,
    commands: Seq<Command>,
)
    requires
        is_run(inputs, stages, events, commands),
        commands.len() > 0,
        commands.last() matches Command::Finish(r) && r is Ok,
    ensures
        exists|i: int| 0 <= i < events.len() && #[trigger] shows_serving(stages[i], events[i]),
{
    let n = events.len() - 1;
    assert(answers(stages[n], events[n]));
    if stages[n] is AskingLatest {
        assert(shows_serving(stages[n], events[n]));
    } else {
        assert(stages[n] is CleaningUp);
        assert(n > 0);
        let k = n - 1;
        assert(answers(stages[k], events[k]));
        cleanup_follows_confirmation(inputs, stages[k], events[k], stages[n], commands[k]);
        if stages[k] is Announcing {
            assert(k > 0);
            assert(answers(stages[k - 1], events[k - 1]));
            assert(shows_serving(stages[k - 1], events[k - 1]));
        } else {
            assert(shows_serving(stages[k], events[k]));
        }
    }
}

} // verus!
