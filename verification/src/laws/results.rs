//! What the functions give back: the promises that callers see, whatever they pass.

use vstd::prelude::*;

use crate::control::{
    deletion_outcome, generation_after_deletion, opt_conditions, Action, Condition,
    ReconciliationState,
};
use crate::error::{error_text, Error, KubeFailure, KubeFailureKind, ReplicaSetStatus};
use crate::json::{at2, at3, at4, at5, field, items, Json, Value};
use crate::laws::documents::{sets_once, times_named};
use crate::laws::knative::{how_a_revision_is_scaled, users_annotations, what_a_configuration_says};
use crate::laws::nodes::what_the_statefulset_says;
use crate::laws::tunnel::what_the_tunnel_client_is_told;
use crate::laws::versions::what_a_replica_set_says;
use crate::manifest::{custom_env, env_views, EnvVar};
use crate::meta::{opt_map, ObjectMeta, OwnerReference};
use crate::readiness::{crd_name, judge_crd_poll, CrdPoll, DiscoveryAnswer};
use crate::restatecloudenvironment::resource::{
    RestateCloudEnvironment, RestateCloudEnvironmentSpec, RestateCloudEnvironmentStatus,
};
use crate::restatecloudenvironment::tunnel::env;
use crate::restatecluster::canary::{check_pia, CanaryConfig, CanaryVerdict};
use crate::restatecluster::compute::{judge_iam_policy_member, judge_pod_identity_association};
use crate::restatecluster::objects::{condition_holds, ConditionedStatus};
use crate::restatecluster::reconcile::expected_nodes;
use crate::restatecluster::resource::{
    RestateCluster, RestateClusterSpec, RestateClusterStatus, SigningKey,
};
use crate::restatecluster::schema::{
    env_schema, expanding_volume_request, immutable_storage_class_name, json_schema, metadata_json,
};
use crate::restatecluster::statefulset::restate_statefulset;
use crate::restatecluster::storage::check_claim_bound;
use crate::restatedeployment::cleanup::{stamp_patch, CleanupMode, ManagedPatch};
use crate::restatedeployment::controller::{
    in_process_tunnel_params, retry_resource, says_ready, validate_cluster_status,
    validate_replica_set_status, ClusterLookup,
};
use crate::restatedeployment::deletion::{
    begin_cleanup, conclude_deletion, resume_cleanup, CleanupStart, ClusterPresence,
    DeletionVerdict,
};
use crate::restatedeployment::knative::{
    build_configuration_spec, configuration_cleanup_policy, parent_deployment,
    registration_annotations,
};
use crate::restatedeployment::registration::{
    check_admin_response, check_deregistration, registration_payload, AdminAnswer, Overwrite,
    RegistrationAction,
};
use crate::restatedeployment::replicaset::{
    build_replica_set, recognise_existing, versioned_name, ExistingVersion,
};
use crate::restatedeployment::resource::{DeploymentMode, InProcessTunnelParams, RestateDeployment};
use crate::restatedeployment::retirement::{
    after_failure, deregister_path, replica_set_cleanup_policy, CleanupOutcome, CleanupPolicy,
    FailedOperation, Operation,
};
use crate::restatedeployment::service::{build_service, PortView, PortedContainer, Service};
use crate::restatedeployment::status::deployment_mode;
use crate::restatekafkaintegration::controller::KafkaOutcome;
use crate::restatekafkaintegration::deployment::label_selector_string;
use crate::restatekafkaintegration::resource::{
    RestateKafkaIntegration, RestateKafkaIntegrationStatus,
};
use crate::restateservice::controller::{
    check_cluster, update_status, RestateService, RestateServiceStatus,
};
use crate::string_map::StringMap;
use crate::text::{int_text, opt_text, texts};
use crate::time::Timestamp;

verus! {

/// The ReplicaSet that is built for a version asks for the replicas of the deployment, and is named,
/// placed and annotated as told.
pub proof fn a_built_replica_set_is_as_asked(
    rsd: RestateDeployment,
    namespace: &str,
    name: &str,
    match_labels: StringMap,
    annotations: StringMap,
    hash: &str,
    tunnel: Option<&InProcessTunnelParams>,
    built: Result<Value, Error>,
    key: Seq<char>,
)
    requires
        rsd.metadata.name is Some,
        rsd.metadata.uid is Some,
        call_ensures(
            build_replica_set,
            (&rsd, namespace, name, &match_labels, &annotations, hash, tunnel),
            built,
        ),
    ensures
        built matches Ok(v) ==> {
            let j = v@;
            &&& field(j, "kind"@) == Some(Json::Text("ReplicaSet"@))
            &&& at2(j, "spec"@, "replicas"@) == Some(Json::Int(rsd.spec.replicas as int))
            &&& at2(j, "metadata"@, "name"@) == Some(Json::Text(name@))
            &&& at2(j, "metadata"@, "namespace"@) == Some(Json::Text(namespace@))
            &&& at4(j, "spec"@, "selector"@, "matchLabels"@, key) == (
            if match_labels@.contains_key(key) {
                Some(Json::Text(match_labels@[key]))
            } else {
                None
            })
            &&& at3(j, "metadata"@, "annotations"@, key) == (if annotations@.contains_key(key) {
                Some(Json::Text(annotations@[key]))
            } else {
                None
            })
        },
{
    let given = match tunnel {
        Some(p) => Some(*p),
        None => None,
    };
    if let Ok(v) = built {
        let spec = crate::restatedeployment::replicaset::version_pod_spec(rsd, name@, given);
        if let Ok(pod_spec) = spec {
            what_a_replica_set_says(
                rsd,
                namespace@,
                name@,
                match_labels@,
                annotations@,
                hash@,
                pod_spec,
            );
            let j = v@;
            assert(at4(j, "spec"@, "selector"@, "matchLabels"@, key) == crate::json::inner(
                at3(j, "spec"@, "selector"@, "matchLabels"@),
                key,
            ));
            assert(at3(j, "metadata"@, "annotations"@, key) == crate::json::inner(
                at2(j, "metadata"@, "annotations"@),
                key,
            ));
        }
    }
}

/// The StatefulSet that is built for a cluster asks for the nodes of the cluster, where any number is
/// asked for, so that it is ready with as many as are expected.
pub proof fn a_built_statefulset_is_as_asked(
    base: ObjectMeta,
    spec: RestateClusterSpec,
    pod_annotations: Option<StringMap>,
    signing_key: Option<SigningKey>,
    cm_name: &str,
    canary_image: &str,
    built: Value,
)
    requires
        base.name is Some,
        call_ensures(
            restate_statefulset,
            (&base, &spec, &pod_annotations, &signing_key, cm_name, canary_image),
            built,
        ),
    ensures
        field(built@, "kind"@) == Some(Json::Text("StatefulSet"@)),
        spec.compute.replicas is None ==> at2(built@, "spec"@, "replicas"@) is None
            && expected_nodes(spec) == 1,
        spec.compute.replicas matches Some(n) ==> at2(built@, "spec"@, "replicas"@) == Some(
            Json::Int(n as int),
        ) && expected_nodes(spec) == n,
{
    what_the_statefulset_says(
        base@,
        spec,
        opt_map(pod_annotations),
        signing_key,
        cm_name@,
        canary_image@,
    );
}

/// The Configuration that is built for a version scales its revisions as asked for, unless the user
/// says otherwise on the template.
pub proof fn a_built_configuration_is_as_asked(
    rsd: RestateDeployment,
    name: &str,
    namespace: &str,
    tag: &str,
    pod_template: Option<&str>,
    parsed: Result<Vec<PortedContainer>, String>,
    built: Result<Value, Error>,
    key: Seq<char>,
)
    requires
        rsd.metadata.name is Some,
        rsd.metadata.uid is Some,
        call_ensures(
            build_configuration_spec,
            (&rsd, name, namespace, tag, pod_template, parsed),
            built,
        ),
    ensures
        rsd.spec.knative is None ==> built is Err,
        built matches Ok(v) ==> {
            let j = v@;
            let k = rsd.spec.knative->0;
            let user = users_annotations(rsd);
            let min = "autoscaling.knative.dev/min-scale"@;
            let max = "autoscaling.knative.dev/max-scale"@;
            let target = "autoscaling.knative.dev/target"@;
            let said = |key: Seq<char>|
                at5(j, "spec"@, "template"@, "metadata"@, "annotations"@, key);
            &&& rsd.spec.knative is Some
            &&& at2(j, "metadata"@, "name"@) == Some(Json::Text(name@))
            &&& at2(j, "metadata"@, "namespace"@) == Some(Json::Text(namespace@))
            &&& !user.contains_key(min) && k.min_scale is Some ==> said(min) == Some(
                Json::Text(int_text(k.min_scale->0 as int)),
            )
            &&& !user.contains_key(min) && k.min_scale is None ==> said(min) == Some(
                Json::Text("0"@),
            )
            &&& !user.contains_key(max) && k.max_scale is Some ==> said(max) == Some(
                Json::Text(int_text(k.max_scale->0 as int)),
            )
            &&& !user.contains_key(max) && k.max_scale is None ==> said(max) is None
            &&& !user.contains_key(target) && k.target is Some ==> said(target) == Some(
                Json::Text(int_text(k.target->0 as int)),
            )
            &&& !user.contains_key(target) && k.target is None ==> said(target) is None
            &&& user.contains_key(key) && key != "restate.dev/deployment"@ ==> said(key) == Some(
                Json::Text(user[key]),
            )
        },
{
    reveal_strlit("autoscaling.knative.dev/min-scale");
    reveal_strlit("autoscaling.knative.dev/max-scale");
    reveal_strlit("autoscaling.knative.dev/target");
    reveal_strlit("restate.dev/deployment");
    assert("autoscaling.knative.dev/min-scale"@.len() == 33);
    assert("autoscaling.knative.dev/max-scale"@.len() == 33);
    assert("autoscaling.knative.dev/target"@.len() == 30);
    assert("restate.dev/deployment"@.len() == 22);
    assert("autoscaling.knative.dev/min-scale"@[25] == 'i');
    assert("autoscaling.knative.dev/max-scale"@[25] == 'a');
    if let Ok(v) = built {
        let k = rsd.spec.knative->0;
        let template = crate::text::opt_str(pod_template);
        let j = v@;
        how_a_revision_is_scaled(rsd, k, key);
        what_a_configuration_says(rsd, k, name@, namespace@, tag@, template, key);
        assert forall|key: Seq<char>| #[trigger]
            at5(j, "spec"@, "template"@, "metadata"@, "annotations"@, key) == crate::json::inner(
                at4(j, "spec"@, "template"@, "metadata"@, "annotations"@),
                key,
            ) by {}
    }
}

/// The client of a tunnel learns each thing that the user does not set, once and rightly.
pub proof fn a_tunnel_client_is_told_as_asked(
    tunnel_name: &str,
    spec: RestateCloudEnvironmentSpec,
    built: Vec<EnvVar>,
)
    requires
        call_ensures(env, (tunnel_name, &spec), built),
    ensures
        ({
            let vars = env_views(built@);
            let custom = match spec.tunnel {
                Some(t) => custom_env(t.env),
                None => Seq::empty(),
            };
            &&& times_named(custom, "RESTATE_TUNNEL_NAME"@) == 0 ==> sets_once(
                vars,
                "RESTATE_TUNNEL_NAME"@,
                tunnel_name@,
            )
            &&& times_named(custom, "RESTATE_SIGNING_PUBLIC_KEY"@) == 0 ==> sets_once(
                vars,
                "RESTATE_SIGNING_PUBLIC_KEY"@,
                spec.signing_public_key@,
            )
            &&& times_named(custom, "RESTATE_ENVIRONMENT_ID"@) == 0 ==> sets_once(
                vars,
                "RESTATE_ENVIRONMENT_ID"@,
                spec.environment_id@,
            )
            &&& times_named(custom, "RESTATE_CLOUD_REGION"@) == 0 ==> sets_once(
                vars,
                "RESTATE_CLOUD_REGION"@,
                spec.region@,
            )
        }),
{
    what_the_tunnel_client_is_told(tunnel_name@, spec);
}

/// A failed reconcile of a cluster, of an environment or of an integration is tried again after half
/// a minute.
pub proof fn when_a_failed_reconcile_is_tried_again(
    e: Error,
    cluster: Action,
    integration: Action,
)
    requires
        call_ensures(crate::restatecluster::status::error_policy, (&e,), cluster),
        call_ensures(
            crate::restatekafkaintegration::controller::error_policy,
            (&e,),
            integration,
        ),
    ensures
        cluster is Requeue && cluster->Requeue_0@ == 30_000_000_000,
        integration is Requeue && integration->Requeue_0@ == 30_000_000_000,
{
}

/// A deletion has come about where the object is gone already, and says whether it was there.
pub proof fn when_a_deletion_has_come_about(result: Result<(), KubeFailure>, r: Result<bool, Error>)
    requires
        call_ensures(deletion_outcome, (result,), r),
    ensures
        result is Ok ==> r == Ok::<bool, Error>(true),
        result matches Err(f) ==> f.kind == KubeFailureKind::Api(404) ==> r == Ok::<bool, Error>(
            false,
        ),
        result matches Err(f) ==> f.kind != KubeFailureKind::Api(404) ==> r == Err::<bool, Error>(
            Error::KubeError(f),
        ),
{
}

/// The generation that a deletion leaves behind is a new one.
pub proof fn which_generation_follows(generation: Option<i64>, r: Option<i64>)
    requires
        generation matches Some(g) ==> g < i64::MAX,
        call_ensures(generation_after_deletion, (generation,), r),
    ensures
        generation matches Some(g) ==> r is Some && r->0 == g + 1,
        generation is None ==> r == Some(0i64),
{
}

/// A definition is there where its plural is listed; it is waited for where it is not, where its
/// version is not served, or where the apiserver cannot tell yet; and any other failure is one.
pub proof fn how_a_definition_is_looked_for(
    answer: DiscoveryAnswer,
    plural: &str,
    crd: &str,
    api_version: &str,
    group: &str,
    name: String,
    r: CrdPoll,
)
    requires
        call_ensures(crd_name, (plural, group), name),
        call_ensures(judge_crd_poll, (answer, plural, crd, api_version), r),
    ensures
        name@ == plural@ + "."@ + group@,
        answer matches DiscoveryAnswer::Resources(names) ==> (r is Available <==> texts(
            names@,
        ).contains(plural@)),
        answer matches DiscoveryAnswer::Resources(names) ==> r is Available || r is Wait,
        answer matches DiscoveryAnswer::Failed(f) ==> {
            let passing = f.kind is Transport || (f.kind matches KubeFailureKind::Api(code) && (code
                == 404 || code == 429 || code >= 500));
            &&& passing ==> r is Wait
            &&& !passing ==> r == CrdPoll::Fail(f)
        },
{
}

/// An answer of the admin API is taken where its code says that it went well; what is not there any
/// more counts as removed.
pub proof fn which_answers_are_taken(
    answer: AdminAnswer,
    r: Result<String, Error>,
    removed: Result<(), Error>,
)
    requires
        call_ensures(check_admin_response, (answer,), r),
        call_ensures(check_deregistration, (answer,), removed),
    ensures
        r is Ok <==> 200 <= answer.code < 300,
        r matches Ok(body) ==> body == answer.body,
        r matches Err(e) ==> e == (Error::AdminCallRejected {
            status: answer.status,
            url: answer.url,
            body: answer.body,
        }),
        removed is Ok <==> 200 <= answer.code < 300 || answer.code == 404,
{
}

/// A registration overwrites just where a version is promoted.
pub proof fn when_a_registration_overwrites(
    action: RegistrationAction,
    overwrite: Overwrite,
    force: bool,
    uri: &str,
    http11: Option<bool>,
    body: Value,
)
    requires
        call_ensures(RegistrationAction::overwrite, (&action,), overwrite),
        call_ensures(Overwrite::force, (overwrite,), force),
        call_ensures(registration_payload, (uri, http11, overwrite), body),
    ensures
        force <==> action is Promote,
        field(body@, "uri"@) == Some(Json::Text(uri@)),
        field(body@, "force"@) == Some(Json::Bool(action is Promote)),
        http11 is None ==> field(body@, "use_http_11"@) is None,
        http11 matches Some(b) ==> field(body@, "use_http_11"@) == Some(Json::Bool(b)),
{
    crate::laws::rollout::what_a_registration_says(uri@, http11, overwrite == Overwrite::Yes);
}

/// A deployment is removed from Restate by its id, whatever still runs on it.
pub proof fn how_a_deployment_is_removed(id: &str, path: String)
    requires
        call_ensures(deregister_path, (id,), path),
    ensures
        path@ == "/deployments/"@ + id@ + "?force=true"@,
{
}

/// A version is named after the deployment and its hash.
pub proof fn what_a_version_is_named(deployment: &str, hash: &str, name: String)
    requires
        call_ensures(versioned_name, (deployment, hash), name),
    ensures
        name@ == deployment@ + "-"@ + hash@,
{
}

/// A ReplicaSet of the name is this version where it was made from this template for this deployment.
pub proof fn when_a_replica_set_is_adopted(
    existing: ObjectMeta,
    uid: &str,
    template: &str,
    r: ExistingVersion,
)
    requires
        call_ensures(recognise_existing, (&existing, uid, template), r),
    ensures
        r is Adopt <==> existing.owner_references is Some && existing.owner_references->0@.len() > 0
            && existing.owner_references->0@[0].uid@ == uid@ && existing.annotation(
            "restate.dev/pod-template"@,
        ) == Some(template@),
{
}

/// Versions are cleaned up as the deployment says: by ReplicaSets after its own drain delay, and by
/// Configurations after five minutes.
pub proof fn how_versions_are_cleaned_up(
    rsd: RestateDeployment,
    mode: CleanupMode,
    now: Timestamp,
    sets: CleanupPolicy,
    configurations: CleanupPolicy,
)
    requires
        call_ensures(replica_set_cleanup_policy, (&rsd, mode, now), sets),
        call_ensures(configuration_cleanup_policy, (&rsd, mode, now), configurations),
    ensures
        sets.mode == mode && configurations.mode == mode,
        sets.now == now && configurations.now == now,
        sets.revision_history_limit == rsd.spec.revision_history_limit,
        configurations.revision_history_limit == rsd.spec.revision_history_limit,
        sets.drain_delay_seconds == rsd.spec.restate.drain_delay_seconds,
        configurations.drain_delay_seconds == 300,
        sets.autoscaling <==> rsd.spec.autoscaling is Some,
        !configurations.autoscaling,
        sets.poll_while_draining && !configurations.poll_while_draining,
{
}

/// A cleanup goes on where only an autoscaler could not be applied, and stops at any other failure.
pub proof fn which_failures_stop_a_cleanup(
    operation: Operation,
    name: &str,
    e: Error,
    r: FailedOperation,
)
    requires
        call_ensures(after_failure, (&operation, name, e), r),
    ensures
        operation is ApplyHpa ==> r is CarryOn,
        !(operation is ApplyHpa) ==> r == FailedOperation::Abort(e),
{
}

/// The in-process tunnel is used where it is asked for, and then needs an environment that is there.
pub proof fn when_the_tunnel_runs_in_process(
    rsd: RestateDeployment,
    found: Option<InProcessTunnelParams>,
    r: Result<Option<InProcessTunnelParams>, Error>,
)
    requires
        call_ensures(in_process_tunnel_params, (&rsd, found), r),
    ensures
        !rsd.spec.restate.in_process_tunnel ==> r == Ok::<Option<InProcessTunnelParams>, Error>(
            None,
        ),
        rsd.spec.restate.in_process_tunnel && rsd.spec.restate.register.cloud is None ==> r is Err
            && r->Err_0 is InvalidRestateConfig,
        rsd.spec.restate.in_process_tunnel && rsd.spec.restate.register.cloud is Some ==> {
            &&& found is None ==> (r matches Err(Error::RestateCloudEnvironmentNotFound(t)) && t@
                == rsd.spec.restate.register.cloud->0@)
            &&& found is Some ==> r == Ok::<Option<InProcessTunnelParams>, Error>(found)
        },
{
}

/// The in-process tunnel is not for Knative.
pub proof fn which_modes_take_a_tunnel(
    rsd: RestateDeployment,
    r: (DeploymentMode, Result<(), Error>),
)
    requires
        call_ensures(deployment_mode, (&rsd,), r),
    ensures
        ({
            let (mode, allowed) = r;
            &&& rsd.spec.deployment_mode is None ==> mode is ReplicaSet
            &&& rsd.spec.deployment_mode matches Some(m) ==> mode == m
            &&& allowed is Err <==> mode is Knative && rsd.spec.restate.in_process_tunnel
        }),
{
}

/// What failures are counted under: the uid of a resource, or else its namespace and its name.
pub proof fn what_failures_are_counted_under(rsd: RestateDeployment, r: String)
    requires
        call_ensures(retry_resource, (&rsd,), r),
    ensures
        rsd.metadata.uid matches Some(u) ==> r@ == u@,
        rsd.metadata.uid is None && rsd.metadata.namespace is Some ==> r@
            == rsd.metadata.namespace->0@ + "/"@ + rsd.metadata.any_name(),
{
}

/// A version is registered once its ReplicaSet and the cluster that it refers to are ready.
pub proof fn what_a_registration_waits_for(
    status: Option<ReplicaSetStatus>,
    expected: i32,
    set: Result<(), Error>,
    name: &str,
    lookup: ClusterLookup,
    cluster: Result<(), Error>,
)
    requires
        call_ensures(validate_replica_set_status, (status, expected), set),
        call_ensures(validate_cluster_status, (name, lookup), cluster),
    ensures
        ({
            let ready = if status is Some && status->0.ready_replicas is Some {
                status->0.ready_replicas->0 as int
            } else {
                0
            };
            let available = if status is Some && status->0.available_replicas is Some {
                status->0.available_replicas->0 as int
            } else {
                0
            };
            set is Ok <==> status is Some && status->0.replicas == expected && ready >= expected
                && available >= expected
        }),
        set matches Err(e) ==> (e matches Error::DeploymentNotReady { replica_set_status, .. }
            && replica_set_status == status),
        cluster is Ok <==> (lookup matches ClusterLookup::Found(c) && says_ready(
            opt_conditions(c),
        )),
        lookup is NotFound ==> cluster is Err && cluster->Err_0 is InvalidRestateConfig,
        lookup matches ClusterLookup::Failed(f) ==> cluster == Err::<(), Error>(
            Error::KubeError(f),
        ),
        lookup is Found && cluster is Err ==> (cluster->Err_0 matches Error::DeploymentNotReady {
            requeue_after,
            reason,
            ..
        } && requeue_after is Some && requeue_after->0@ == 30_000_000_000 && reason@
            == "ClusterNotReady"@),
{
    crate::laws::rollout::when_a_replica_set_is_ready(status, expected as int);
}

/// The Service of a version selects its pods and leads to the port of its container.
pub proof fn a_built_service_is_as_asked(
    namespace: &str,
    name: &str,
    selector: StringMap,
    labels: StringMap,
    annotations: StringMap,
    owner: OwnerReference,
    target_port: i32,
    built: Service,
)
    requires
        call_ensures(
            build_service,
            (namespace, name, &selector, &labels, &annotations, &owner, target_port),
            built,
        ),
    ensures
        built.metadata@.name == Some(name@),
        built.metadata@.namespace == Some(namespace@),
        built.metadata@.labels == Some(labels@),
        built.metadata@.annotations == Some(annotations@),
        built.metadata@.owner_references is Some && built.metadata@.owner_references->0.len() == 1
            && built.metadata@.owner_references->0[0] == owner@,
        built.spec is Some,
        opt_map(built.spec->0.selector) == Some(selector@),
        opt_text(built.spec->0.type_) == Some("ClusterIP"@),
        ({
            let ports = crate::restatedeployment::service::port_views(built.spec->0.ports);
            &&& ports.len() == 1
            &&& ports[0].name == Some("restate"@)
            &&& ports[0].port == 9080
            &&& ports[0].protocol == Some("TCP"@)
            &&& ports[0].target_port == Some(PortView::Int(target_port as int))
        }),
{
}

/// A planned removal is written as one annotation, by a manager of its own.
pub proof fn how_a_removal_is_planned(
    api_version: &str,
    kind: &str,
    at: Timestamp,
    patch: ManagedPatch,
)
    requires
        call_ensures(stamp_patch, (api_version, kind, &at), patch),
    ensures
        patch.field_manager@ == "restate-operator/remove-version-at"@,
        field(patch.body@, "apiVersion"@) == Some(Json::Text(api_version@)),
        field(patch.body@, "kind"@) == Some(Json::Text(kind@)),
        at3(patch.body@, "metadata"@, "annotations"@, "restate.dev/remove-version-at"@) == Some(
            Json::Text(crate::time::rfc3339(at@)),
        ),
{
    reveal_strlit("apiVersion");
    reveal_strlit("kind");
    reveal_strlit("metadata");
    reveal_strlit("annotations");
    assert("apiVersion"@.len() == 10);
    assert("kind"@.len() == 4);
    assert("metadata"@.len() == 8);
    assert("annotations"@.len() == 11);
}

/// A registration is recorded on the Configuration where it is new, with its time.
pub proof fn what_a_registration_records(
    config: ObjectMeta,
    id: &str,
    now: Timestamp,
    r: Option<StringMap>,
)
    requires
        call_ensures(registration_annotations, (&config, id, &now), r),
    ensures
        r is None <==> config.annotation("restate.dev/deployment-id"@) == Some(id@),
        r matches Some(m) ==> m@.contains_key("restate.dev/deployment-id"@)
            && m@["restate.dev/deployment-id"@] == id@ && m@.contains_key(
            "restate.dev/registered-at"@,
        ) && m@["restate.dev/registered-at"@] == crate::time::rfc3339(now@),
{
    reveal_strlit("restate.dev/deployment-id");
    reveal_strlit("restate.dev/registered-at");
    assert("restate.dev/deployment-id"@.len() == 25);
    assert("restate.dev/registered-at"@.len() == 25);
    assert("restate.dev/deployment-id"@[12] == 'd');
    assert("restate.dev/registered-at"@[12] == 'r');
}

/// A version leads back to its deployment by its namespace and its annotation.
pub proof fn where_a_version_leads_back_to(meta: ObjectMeta, r: Option<(String, String)>)
    requires
        call_ensures(parent_deployment, (&meta,), r),
    ensures
        r is Some <==> meta.namespace is Some && meta.annotation("restate.dev/deployment"@) is Some,
        r matches Some((namespace, name)) ==> meta.namespace->0@ == namespace@ && meta.annotation(
            "restate.dev/deployment"@,
        )->0 == name@,
{
}

/// A deletion asks Restate first, in the mode of that time, unless the cluster is gone.
pub proof fn how_a_deletion_begins(
    rsd: RestateDeployment,
    cluster: ClusterPresence,
    now: Timestamp,
    r: Result<CleanupStart, Error>,
)
    requires
        call_ensures(begin_cleanup, (&rsd, &cluster, &now), r),
    ensures
        ({
            let refers = rsd.spec.restate.register.cluster is Some;
            &&& refers && cluster is Absent ==> r is Ok && r->Ok_0 is Done
            &&& refers && cluster is Unknown ==> r is Err && r->Err_0 is InvalidRestateConfig
            &&& !refers || cluster is Present ==> (r matches Ok(CleanupStart::Query {
                mode,
                report,
            }) && mode == crate::restatedeployment::cleanup::mode_of(rsd, now@) && (report is Some
                <==> mode == CleanupMode::ForceDeleting))
        }),
{
}

/// A deletion that runs into its deadline while it asks is forced, and reports that once.
pub proof fn how_a_deletion_goes_on(
    rsd: RestateDeployment,
    asked_in: CleanupMode,
    now: Timestamp,
    r: (CleanupMode, Option<crate::restatedeployment::resource::DeletionStatus>),
)
    requires
        call_ensures(resume_cleanup, (&rsd, asked_in, &now), r),
    ensures
        ({
            let (mode, report) = r;
            &&& mode == crate::restatedeployment::cleanup::mode_of(rsd, now@)
            &&& report is Some <==> mode == CleanupMode::ForceDeleting && asked_in
                != CleanupMode::ForceDeleting
            &&& report matches Some(d) ==> d.phase is Forcing
        }),
{
}

/// A deletion ends where nothing holds it and nothing is waited for; what was torn down in spite of
/// its invocations is told.
pub proof fn how_a_deletion_ends(
    rsd: RestateDeployment,
    outcome: CleanupOutcome,
    now: Timestamp,
    r: DeletionVerdict,
)
    requires
        call_ensures(conclude_deletion, (&rsd, &outcome, &now), r),
    ensures
        r.abandoned is Some <==> outcome.abandoned@.len() > 0,
        r.result is Ok <==> outcome.blocking@.len() == 0 && outcome.next_removal is None,
        r.result is Ok ==> r.result->Ok_0 is AwaitChange && r.report is None,
        outcome.blocking@.len() > 0 ==> {
            let late = crate::restatedeployment::deletion::overdue(rsd, now@);
            &&& late ==> r.result->Err_0 is DeletionDrainOverdue && r.report is Some
                && r.report->0.phase is Overdue
            &&& !late ==> r.result->Err_0 is DeploymentInUse && r.report is Some
                && r.report->0.phase
                is Draining
        },
        outcome.blocking@.len() == 0 && outcome.next_removal is Some ==> r.result->Err_0
            is DeploymentDraining && r.report is Some && r.report->0.phase is Draining,
{
    assert(crate::restatedeployment::cleanup::blocking_views(outcome.blocking@).len()
        == outcome.blocking@.len());
}

/// The association with a role is there once AWS says so, and the binding of an account once GCP does;
/// a definition that is not installed is looked for again after a minute.
pub proof fn when_rights_are_there(
    status: Option<ConditionedStatus>,
    role: Result<(), Error>,
    applied: Result<Option<ConditionedStatus>, KubeFailure>,
    account: Result<(), Error>,
)
    requires
        call_ensures(judge_pod_identity_association, (&status,), role),
        call_ensures(judge_iam_policy_member, (applied,), account),
    ensures
        role is Ok <==> condition_holds(status, "ACK.ResourceSynced"@),
        role matches Err(e) ==> e is NotReady && e->NotReady_reason@
            == "PodIdentityAssociationNotSynced"@,
        account is Ok <==> applied is Ok && condition_holds(applied->Ok_0, "Ready"@),
        applied matches Err(f) ==> f.kind == KubeFailureKind::Api(404) ==> (account matches Err(
            Error::NotReady { requeue_after, .. },
        ) && requeue_after is Some && requeue_after->0@ == 60_000_000_000),
        applied matches Err(f) ==> f.kind != KubeFailureKind::Api(404) ==> account == Err::<
            (),
            Error,
        >(Error::KubeError(f)),
{
}

/// A claim is waited for until it is bound.
pub proof fn when_a_claim_is_there(name: &str, phase: Option<&str>, r: Result<(), Error>)
    requires
        call_ensures(check_claim_bound, (name, phase), r),
    ensures
        r is Ok <==> phase is Some && phase->0@ == "Bound"@,
        r matches Err(e) ==> e is NotReady && e->NotReady_message@ == "PersistentVolumeClaim "@
            + name@ + " is not yet bound to a volume"@,
{
}

/// A pod got its role where its volume is there; where it did not, the job is run again, and where
/// there is no pod yet, it is waited for.
pub proof fn when_a_pod_has_its_role(
    config: CanaryConfig,
    first_pod: Option<Vec<String>>,
    r: CanaryVerdict,
)
    requires
        call_ensures(check_pia, (&config, &first_pod), r),
    ensures
        first_pod matches Some(volumes) ==> {
            let there = texts(volumes@).contains("eks-pod-identity-token"@);
            &&& there ==> r is Passed
            &&& !there ==> r is Restart
        },
        first_pod is None ==> r is Fail,
{
}

/// The selector of an integration, as text, asks for the instance and the component.
pub proof fn how_an_integration_is_selected(name: &str, r: String)
    requires
        call_ensures(label_selector_string, (name,), r),
    ensures
        r@ == "app.kubernetes.io/instance"@ + "="@ + name@ + ","@ + "app.kubernetes.io/name"@ + "="@
            + "restate-kafka-integration"@,
{
}

/// A service refers to a cluster that has to be ready, and otherwise looks again after half a minute.
pub proof fn what_a_service_waits_for(
    rs: RestateService,
    cluster: Result<Option<Vec<Condition>>, KubeFailure>,
    r: Result<(), Error>,
)
    requires
        call_ensures(check_cluster, (&rs, cluster), r),
    ensures
        r is Ok <==> cluster is Ok && says_ready(opt_conditions(cluster->Ok_0)),
        cluster is Err ==> r is Err && r->Err_0 is InvalidRestateConfig,
        cluster is Ok && r is Err ==> (r->Err_0 matches Error::ServiceNotReady { requeue_after, .. }
            && requeue_after is Some && requeue_after->0@ == 30_000_000_000),
{
}

/// A service starts out with nothing available, and is looked at again after five minutes.
pub proof fn what_a_service_starts_with(
    rs: RestateService,
    now: Timestamp,
    r: (RestateServiceStatus, Action),
)
    requires
        call_ensures(update_status, (&rs, now), r),
    ensures
        ({
            let (status, action) = r;
            let conditions = opt_conditions(status.conditions);
            &&& status.replicas == rs.replicas && status.unavailable_replicas == rs.replicas
            &&& status.available_replicas == Some(0i32) && status.updated_replicas == Some(0i32)
            &&& rs.metadata.generation matches Some(g) ==> status.observed_generation == Some(g)
            &&& conditions.len() == 1
            &&& conditions[0].type_ == "Ready"@ && conditions[0].status == "False"@
            &&& conditions[0].reason == Some("Initializing"@)
            &&& conditions[0].last_transition_time == Some(now@)
            &&& action is Requeue && action->Requeue_0@ == 300_000_000_000
        }),
{
}

/// What an environment says of itself: it is ready where its reconcile went well, and is then looked
/// at again after five minutes.
pub proof fn what_an_environment_says_of_itself(
    rce: RestateCloudEnvironment,
    outcome: Result<(), Error>,
    now: Timestamp,
    r: (RestateCloudEnvironmentStatus, Result<Action, Error>),
)
    requires
        call_ensures(
            crate::restatecloudenvironment::controller::reconcile_status,
            (&rce, outcome, now),
            r,
        ),
    ensures
        ({
            let (status, action) = r;
            let conditions = opt_conditions(status.conditions);
            &&& conditions.len() == 1
            &&& conditions[0].type_ == "Ready"@
            &&& outcome is Ok ==> conditions[0].status == "True"@ && conditions[0].reason == Some(
                "Reconciled"@,
            )
            &&& outcome matches Err(e) ==> conditions[0].status == "Unknown"@
                && conditions[0].reason == Some("FailedReconcile"@)
                    && conditions[0].message == Some(
                error_text(e),
            )
            &&& outcome is Ok ==> action is Ok && action->Ok_0 is Requeue
                && action->Ok_0->Requeue_0@ == 300_000_000_000
            &&& outcome matches Err(e) ==> action == Err::<Action, Error>(e)
            &&& outcome is Ok ==> status.reconciliation == Some(ReconciliationState::Reconciling)
        }),
{
}

/// The size of a claim may only grow, and its class may not change.
pub proof fn what_may_change_of_a_claim(class: Value, size: Value)
    requires
        call_ensures(immutable_storage_class_name, (), class),
        call_ensures(expanding_volume_request, (), size),
    ensures
        ({
            let rule = items(field(class@, "x-kubernetes-validations"@))[0];
            &&& items(field(class@, "x-kubernetes-validations"@)).len() == 1
            &&& field(rule, "rule"@) == Some(Json::Text("self == oldSelf"@))
            &&& field(rule, "message"@) == Some(Json::Text("storageClassName is immutable"@))
            &&& field(class@, "type"@) == Some(Json::Text("string"@))
            &&& field(class@, "nullable"@) == Some(Json::Bool(true))
        }),
        ({
            let rule = items(field(size@, "x-kubernetes-validations"@))[0];
            &&& items(field(size@, "x-kubernetes-validations"@)).len() == 1
            &&& field(rule, "rule"@) == Some(Json::Text("self >= oldSelf"@))
            &&& field(rule, "message"@) == Some(
                Json::Text("storageRequestBytes cannot be decreased"@),
            )
            &&& field(size@, "type"@) == Some(Json::Text("integer"@))
            &&& field(size@, "format"@) == Some(Json::Text("int64"@))
        }),
{
    reveal_strlit("nullable");
    reveal_strlit("type");
    reveal_strlit("x-kubernetes-validations");
    reveal_strlit("format");
    reveal_strlit("rule");
    reveal_strlit("message");
    assert("nullable"@.len() == 8);
    assert("type"@.len() == 4);
    assert("x-kubernetes-validations"@.len() == 24);
    assert("format"@.len() == 6);
    assert("rule"@.len() == 4);
    assert("message"@.len() == 7);
    assert("type"@[0] == 't');
    assert("rule"@[0] == 'r');
}

/// Variables are told apart by their names, and a cluster needs a name and a specification.
pub proof fn what_a_cluster_needs(item: Value, list: Value, spec: Value, status: Value, all: Value)
    requires
        call_ensures(env_schema, (item,), list),
        call_ensures(json_schema, (spec, status), all),
    ensures
        field(list@, "items"@) == Some(item@),
        field(list@, "type"@) == Some(Json::Text("array"@)),
        field(list@, "nullable"@) == Some(Json::Bool(true)),
        field(list@, "x-kubernetes-list-type"@) == Some(Json::Text("map"@)),
        items(field(list@, "x-kubernetes-list-map-keys"@)) == seq![Json::Text("name"@)],
        field(all@, "type"@) == Some(Json::Text("object"@)),
        at2(all@, "properties"@, "spec"@) == Some(spec@),
        at2(all@, "properties"@, "status"@) == Some(status@),
        at2(all@, "properties"@, "metadata"@) == Some(metadata_json()),
        items(field(all@, "required"@)) == seq![Json::Text("metadata"@), Json::Text("spec"@)],
{
    reveal_strlit("items");
    reveal_strlit("nullable");
    reveal_strlit("type");
    reveal_strlit("x-kubernetes-list-map-keys");
    reveal_strlit("x-kubernetes-list-type");
    reveal_strlit("description");
    reveal_strlit("properties");
    reveal_strlit("required");
    reveal_strlit("metadata");
    reveal_strlit("spec");
    reveal_strlit("status");
    assert("items"@.len() == 5);
    assert("nullable"@.len() == 8);
    assert("type"@.len() == 4);
    assert("x-kubernetes-list-map-keys"@.len() == 26);
    assert("x-kubernetes-list-type"@.len() == 22);
    assert("description"@.len() == 11);
    assert("properties"@.len() == 10);
    assert("required"@.len() == 8);
    assert("metadata"@.len() == 8);
    assert("spec"@.len() == 4);
    assert("status"@.len() == 6);
    assert("nullable"@[0] == 'n');
    assert("required"@[0] == 'r');
    assert("metadata"@[0] == 'm');
    assert("type"@[0] == 't');
    assert("spec"@[0] == 's');
    assert(items(field(list@, "x-kubernetes-list-map-keys"@)) =~= seq![Json::Text("name"@)]);
    assert(items(field(all@, "required"@)) =~= seq![Json::Text("metadata"@), Json::Text("spec"@)]);
}

/// What an integration says of itself: it is looked at again after five minutes where it is ready, and
/// after ten seconds where it is not; a failure keeps what was last seen.
pub proof fn what_an_integration_says_of_itself(
    rki: RestateKafkaIntegration,
    outcome: Result<KafkaOutcome, Error>,
    now: Timestamp,
    r: (RestateKafkaIntegrationStatus, Result<Action, Error>),
)
    requires
        call_ensures(
            crate::restatekafkaintegration::controller::reconcile_status,
            (&rki, outcome, now),
            r,
        ),
    ensures
        ({
            let (status, action) = r;
            let conditions = opt_conditions(status.conditions);
            let available = if outcome is Ok && outcome->Ok_0.deployment is Some
                && outcome->Ok_0.deployment->0.available_replicas is Some {
                outcome->Ok_0.deployment->0.available_replicas->0 as int
            } else {
                0
            };
            let ready = outcome is Ok && (rki.spec.replicas == 0 || available >= 1);
            &&& conditions.len() == 1 && conditions[0].type_ == "Ready"@
            &&& ready ==> conditions[0].status == "True"@
            &&& !ready ==> conditions[0].status == "False"@
            &&& ready ==> action is Ok && action->Ok_0 is Requeue && action->Ok_0->Requeue_0@
                == 300_000_000_000
            &&& outcome is Ok && !ready ==> action is Ok && action->Ok_0 is Requeue
                && action->Ok_0->Requeue_0@ == 10_000_000_000
            &&& outcome matches Err(e) ==> action == Err::<Action, Error>(e)
            &&& outcome is Ok ==> opt_text(status.ingress_url) == Some(outcome->Ok_0.ingress_url@)
            &&& outcome is Err && rki.status is Some ==> status.replicas == rki.status->0.replicas
                && status.ready_replicas == rki.status->0.ready_replicas
            &&& status.observed_generation == rki.metadata.generation
            &&& status.label_selector is Some && status.label_selector->0@
                == "app.kubernetes.io/instance"@ + "="@ + rki.metadata.any_name() + ","@
                + "app.kubernetes.io/name"@ + "="@ + "restate-kafka-integration"@
        }),
{
    reveal_strlit("True");
    reveal_strlit("False");
    assert("True"@.len() == 4);
    assert("False"@.len() == 5);
}

/// What a cluster says of itself: one condition, and when it is looked at again.
pub proof fn what_a_cluster_reports(
    rc: RestateCluster,
    outcome: Result<(), Error>,
    now: Timestamp,
    r: (RestateClusterStatus, Result<Action, Error>),
)
    requires
        call_ensures(crate::restatecluster::status::reconcile_status, (&rc, outcome, now), r),
    ensures
        ({
            let (status, action) = r;
            let conditions = opt_conditions(status.conditions);
            &&& conditions.len() == 1 && conditions[0].type_ == "Ready"@
            &&& outcome is Ok ==> conditions[0].status == "True"@ && action is Ok && action->Ok_0
                is Requeue && action->Ok_0->Requeue_0@ == 300_000_000_000
            &&& outcome is Ok ==> status.reconciliation == Some(ReconciliationState::Reconciling)
            &&& outcome is Ok && rc.status is Some ==> status.provisioned
                == rc.status->0.provisioned
            &&& outcome == Err::<(), Error>(Error::Provisioned) ==> status.provisioned == Some(true)
                && action is Ok && action->Ok_0 is Requeue && action->Ok_0->Requeue_0@ == 0
        }),
{
}

} // verus!
