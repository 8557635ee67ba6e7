//! Versions of a deployment: their objects, names, autoscalers and services.

use std::hash::{Hash, Hasher};

use restate_operator::control::{deletion_outcome, Condition, ReconciliationState};
use restate_operator::error::{Error, KubeFailure, KubeFailureKind, ReplicaSetStatus};
use restate_operator::json::{Object, Value};
use restate_operator::meta::{
    LabelSelector, LabelSelectorRequirement, ManagedFieldsEntry, ObjectMeta, OwnerReference,
};
use restate_operator::restatedeployment::autoscaling::{
    build_version_hpa, plan_active_version_hpa, HpaPlan,
};
use restate_operator::restatedeployment::cleanup::{
    clear_patch, stamp_patch, CleanupMode, DeploymentUsage, DeploymentUsageMap,
    RESTATE_REMOVE_VERSION_AT_ANNOTATION,
};
use restate_operator::restatedeployment::controller::{
    in_process_tunnel_params, latest_version_label_selector, retry_resource,
    status_from_replica_set, validate_cluster_status, validate_replica_set_status,
    ClusterLookup, TUNNEL_NEEDS_CLOUD,
};
use restate_operator::restatedeployment::hash::{
    generate_pod_template_hash, healthy_requeue_after, requeue_for_hash, safe_encode_u32,
};
use restate_operator::restatedeployment::replicaset::{
    build_replica_set, inject_in_process_tunnel_env, new_replica_set_annotations,
    propagated_annotations, propagated_labels, recognise_existing, replicaset_selector,
    service_labels, versioned_name, ExistingVersion, APP_MANAGED_BY_LABEL, INPROC_CLOUD_REGION_ENV,
    INPROC_ENVIRONMENT_ID_ENV, INPROC_SIGNING_PUBLIC_KEY_ENV, INPROC_TUNNEL_NAME_ENV,
    OWNED_BY_LABEL, POD_TEMPLATE_HASH_LABEL,
};
use restate_operator::restatedeployment::resource::{
    InProcessTunnelParams, PodTemplate, RestateAdminEndpoint, RestateDeployment,
    RestateDeploymentSpec, RestateDeploymentStatus, RestateSpec,
};
use restate_operator::restatedeployment::retirement::{
    deregister_path, replica_set_cleanup_policy, CleanupOutcome, CleanupPass, Operation,
};
use restate_operator::restatedeployment::service::{
    build_service, find_service_port, needs_apply, ContainerPort, IntOrString, PortedContainer,
    Service, ServicePort, ServiceSpec, SERVICE_FIELD_MANAGER,
};
use restate_operator::restatedeployment::versions::{
    old_configurations, old_replica_sets, RESTATE_DEPLOYMENT_ID_ANNOTATION, RESTATE_TAG_ANNOTATION,
};
use restate_operator::string_map::StringMap;
use restate_operator::time::{Duration, Timestamp};

fn plain(value: &Value) -> serde_json::Value {
    match value {
        Value::Null => serde_json::Value::Null,
        Value::Bool(b) => serde_json::Value::Bool(*b),
        Value::Int(i) => serde_json::Value::from(*i),
        Value::Decimal(text) => serde_json::from_str(text).unwrap(),
        Value::Text(text) => serde_json::Value::from(text.as_str()),
        Value::Array(items) => serde_json::Value::Array(items.iter().map(plain).collect()),
        Value::Object(object) => {
            let mut out = serde_json::Map::new();
            for i in 0..object.len() {
                let (name, item) = object.entry(i);
                out.insert(name.clone(), plain(item));
            }
            serde_json::Value::Object(out)
        }
    }
}

fn convert(value: serde_json::Value) -> Value {
    match value {
        serde_json::Value::Null => Value::Null,
        serde_json::Value::Bool(b) => Value::Bool(b),
        serde_json::Value::Number(n) => match n.as_i64() {
            Some(i) => Value::Int(i),
            None => Value::Decimal(n.to_string()),
        },
        serde_json::Value::String(s) => Value::Text(s),
        serde_json::Value::Array(items) => Value::Array(items.into_iter().map(convert).collect()),
        serde_json::Value::Object(entries) => {
            let mut object = Object::new();
            for (name, item) in entries {
                object.insert(name, convert(item));
            }
            Value::Object(object)
        }
    }
}

fn value(text: &str) -> Value {
    convert(serde_json::from_str(text).unwrap())
}

fn json(text: &str) -> serde_json::Value {
    serde_json::from_str(text).unwrap()
}

fn map(entries: &[(&str, &str)]) -> StringMap {
    let mut map = StringMap::new();
    for (k, v) in entries {
        map.insert(k.to_string(), v.to_string());
    }
    map
}

const NOW: i64 = 1_800_000_000;

fn at(seconds: i64) -> Timestamp {
    Timestamp::from_nanos(seconds as i128 * 1_000_000_000).unwrap()
}

fn deployment(replicas: i32, register: RestateAdminEndpoint, spec: &str) -> RestateDeployment {
    let mut metadata = ObjectMeta::empty();
    metadata.name = Some("greeter".to_owned());
    metadata.uid = Some("uid-123".to_owned());
    RestateDeployment {
        metadata,
        spec: RestateDeploymentSpec {
            replicas,
            revision_history_limit: 10,
            min_ready_seconds: None,
            selector: None,
            template: PodTemplate { metadata: None, spec: Some(value(spec)) },
            restate: RestateSpec {
                register,
                service_path: None,
                use_http11: None,
                drain_delay_seconds: 300,
                delete_policy: None,
                drain: None,
                in_process_tunnel: false,
            },
            deployment_mode: None,
            knative: None,
            autoscaling: None,
        },
        status: None,
    }
}

fn by_url(url: &str) -> RestateAdminEndpoint {
    RestateAdminEndpoint { cluster: None, cloud: None, url: Some(url.to_owned()) }
}

fn hpa_rsd() -> RestateDeployment {
    deployment(
        3,
        by_url("http://localhost:9070/"),
        r#"{ "containers": [{ "name": "main", "image": "greeter:v1" }] }"#,
    )
}

fn template_json() -> serde_json::Value {
    json(
        r#"{
            "minReplicas": 1,
            "maxReplicas": 10,
            "metrics": [{
                "type": "Resource",
                "resource": {
                    "name": "cpu",
                    "target": { "type": "Utilization", "averageUtilization": 70 }
                }
            }]
        }"#,
    )
}

#[test]
fn injects_scale_target_ref_to_versioned_replicaset() {
    let hpa =
        plain(&build_version_hpa(&hpa_rsd(), "ns", "greeter-abc", &convert(template_json())));
    assert_eq!(hpa["spec"]["scaleTargetRef"]["apiVersion"], "apps/v1");
    assert_eq!(hpa["spec"]["scaleTargetRef"]["kind"], "ReplicaSet");
    assert_eq!(hpa["spec"]["scaleTargetRef"]["name"], "greeter-abc");
}

#[test]
fn passes_through_user_template_verbatim() {
    let template = template_json();
    let hpa =
        plain(&build_version_hpa(&hpa_rsd(), "ns", "greeter-abc", &convert(template.clone())));
    assert_eq!(hpa["spec"]["maxReplicas"], 10);
    assert_eq!(hpa["spec"]["metrics"], template["metrics"]);
}

#[test]
fn floors_min_replicas_at_one() {
    let mut t = template_json();
    t["minReplicas"] = serde_json::Value::from(0);
    let hpa = plain(&build_version_hpa(&hpa_rsd(), "ns", "greeter-abc", &convert(t)));
    assert_eq!(hpa["spec"]["minReplicas"], 1);
}

#[test]
fn leaves_valid_min_replicas_untouched() {
    let mut t = template_json();
    t["minReplicas"] = serde_json::Value::from(3);
    let hpa = plain(&build_version_hpa(&hpa_rsd(), "ns", "greeter-abc", &convert(t)));
    assert_eq!(hpa["spec"]["minReplicas"], 3);
}

#[test]
fn owned_by_restate_deployment_and_labelled() {
    let hpa =
        plain(&build_version_hpa(&hpa_rsd(), "ns", "greeter-abc", &convert(template_json())));
    assert_eq!(hpa["metadata"]["labels"][APP_MANAGED_BY_LABEL], "restate-operator");
    assert_eq!(hpa["metadata"]["labels"][OWNED_BY_LABEL], "greeter");
    assert_eq!(hpa["metadata"]["ownerReferences"][0]["uid"], "uid-123");
    assert_eq!(hpa["metadata"]["ownerReferences"][0]["kind"], "RestateDeployment");
}

#[test]
fn tolerates_non_object_template() {
    // A malformed/empty template must not panic; scaleTargetRef is still set.
    let hpa = plain(&build_version_hpa(&hpa_rsd(), "ns", "greeter-abc", &Value::Null));
    assert_eq!(hpa["spec"]["scaleTargetRef"]["name"], "greeter-abc");
}

#[test]
fn plan_ensures_hpa_when_active_and_configured() {
    assert_eq!(plan_active_version_hpa(true, false), HpaPlan::Ensure);
}

#[test]
fn plan_removes_and_restores_when_active_but_unconfigured() {
    // autoscaling removed while the version is still active
    assert_eq!(plan_active_version_hpa(false, false), HpaPlan::RemoveAndRestore);
}

#[test]
fn plan_skips_while_restate_deployment_is_deleting() {
    // owned HPAs are GC'd with the RestateDeployment, so don't stamp during deletion
    assert_eq!(plan_active_version_hpa(true, true), HpaPlan::Skip);
    assert_eq!(plan_active_version_hpa(false, true), HpaPlan::Skip);
}

#[test]
fn delete_version_hpa_tolerates_missing() {
    let missing = KubeFailure {
        kind: KubeFailureKind::Api(404),
        reason: "NotFound".to_owned(),
        message: "not found".to_owned(),
    };
    assert!(!deletion_outcome(Err(missing)).unwrap());
}

// the hash of a version

const TEMPLATE: &str = r#"{"spec":{"containers":[{"image":"greeter:1","name":"app"}]}}"#;

fn test_rsd(in_process_tunnel: bool) -> RestateDeployment {
    let mut rsd = deployment(
        1,
        RestateAdminEndpoint { cluster: None, cloud: Some("my-env".to_owned()), url: None },
        r#"{"containers": [{"name": "app", "image": "greeter:1"}]}"#,
    );
    rsd.spec.restate.in_process_tunnel = in_process_tunnel;
    rsd
}

fn test_params() -> InProcessTunnelParams {
    InProcessTunnelParams {
        environment_id: "env_123".to_owned(),
        region: "us".to_owned(),
        signing_public_key: "publickeyv1_abc".to_owned(),
    }
}

#[test]
fn hash_unchanged_without_in_process_tunnel() {
    // the only-when-set property: deployments that don't use the mode must keep
    // their hashes across operator upgrades
    let rsd = test_rsd(false);
    assert_eq!(
        generate_pod_template_hash(&rsd, TEMPLATE, None),
        generate_pod_template_hash(&rsd, TEMPLATE, None),
    );
}

#[test]
fn hash_incorporates_in_process_tunnel_params() {
    let rsd = test_rsd(true);

    let without = generate_pod_template_hash(&rsd, TEMPLATE, None);
    let with = generate_pod_template_hash(&rsd, TEMPLATE, Some(&test_params()));
    assert_ne!(without, with);

    let mut repointed = test_params();
    repointed.environment_id = "env_456".to_owned();
    assert_ne!(generate_pod_template_hash(&rsd, TEMPLATE, Some(&repointed)), with);

    let mut rotated = test_params();
    rotated.signing_public_key = "publickeyv1_xyz".to_owned();
    assert_ne!(generate_pod_template_hash(&rsd, TEMPLATE, Some(&rotated)), with);

    let mut moved = test_params();
    moved.region = "eu".to_owned();
    assert_ne!(generate_pod_template_hash(&rsd, TEMPLATE, Some(&moved)), with);

    // deterministic for equal inputs
    assert_eq!(generate_pod_template_hash(&rsd, TEMPLATE, Some(&test_params())), with);
}

#[test]
fn a_hash_is_written_without_vowels() {
    assert_eq!(safe_encode_u32(0), "");
    assert_eq!(safe_encode_u32(4_294_967_295), "9f6cbf8f68");
}

#[test]
fn a_collision_count_changes_the_hash() {
    let mut rsd = test_rsd(false);
    let first = generate_pod_template_hash(&rsd, TEMPLATE, None);
    let mut status = no_status();
    status.collision_count = Some(1);
    rsd.status = Some(status);
    assert_ne!(generate_pod_template_hash(&rsd, TEMPLATE, None), first);
}

#[test]
fn healthy_deployments_are_spread_over_a_minute() {
    for uid in ["a", "b", "c", "d"] {
        let mut rsd = test_rsd(false);
        rsd.metadata.uid = Some(uid.to_owned());
        let after = healthy_requeue_after(&rsd);
        assert!(after >= Duration::from_secs(300));
        assert!(after <= Duration::from_secs(360));
        assert_eq!(after, healthy_requeue_after(&rsd));
    }
    assert_eq!(requeue_for_hash(0), Duration::from_secs(300));
    assert_eq!(requeue_for_hash(60), Duration::from_secs(360));
    assert_eq!(requeue_for_hash(61), Duration::from_secs(300));
}

#[test]
fn the_spread_goes_by_the_hash_of_the_identity() {
    for uid in ["", "a", "uid-123", "8c2f1f0e-0d7b-4b52-9d5e-2f5f3d5a1c11", "gr\u{fc}\u{df}e"] {
        let mut rsd = test_rsd(false);
        rsd.metadata.uid = Some(uid.to_owned());
        let mut hasher = fnv::FnvHasher::default();
        uid.hash(&mut hasher);
        assert_eq!(healthy_requeue_after(&rsd), requeue_for_hash(hasher.finish()), "{uid}");
    }
}

// the environment of an in-process tunnel

#[test]
fn inject_appends_env_to_every_container() {
    let spec = value(
        r#"{
            "containers": [
                {"name": "app", "image": "greeter:1", "env": [{"name": "USER_VAR", "value": "kept"}]},
                {"name": "sidecar", "image": "proxy:1"}
            ],
            "serviceAccountName": "greeter"
        }"#,
    );

    let injected =
        plain(&inject_in_process_tunnel_env(spec, "greeter-abc123", &test_params()).unwrap());

    // untouched fields pass through
    assert_eq!(injected["serviceAccountName"], "greeter");

    for (container, expected_len) in [(0, 5), (1, 4)] {
        let variables = injected["containers"][container]["env"].as_array().unwrap();
        assert_eq!(variables.len(), expected_len, "container {container}");
        let get = |name: &str| {
            variables
                .iter()
                .find(|e| e["name"] == name)
                .unwrap_or_else(|| panic!("{name} missing in container {container}"))["value"]
                .clone()
        };
        assert_eq!(get(INPROC_TUNNEL_NAME_ENV), "greeter-abc123");
        assert_eq!(get(INPROC_ENVIRONMENT_ID_ENV), "env_123");
        assert_eq!(get(INPROC_CLOUD_REGION_ENV), "us");
        assert_eq!(get(INPROC_SIGNING_PUBLIC_KEY_ENV), "publickeyv1_abc");
    }

    // user env is preserved
    assert_eq!(injected["containers"][0]["env"][0]["name"], "USER_VAR");
}

#[test]
fn inject_covers_init_containers() {
    // native sidecars (initContainers with restartPolicy: Always) may host the
    // tunnel client too — they get the same env vars and the same conflict check
    let spec = value(
        r#"{
            "containers": [{"name": "app"}],
            "initContainers": [{"name": "sidecar", "restartPolicy": "Always"}]
        }"#,
    );
    let injected =
        plain(&inject_in_process_tunnel_env(spec, "greeter-abc123", &test_params()).unwrap());
    let variables = injected["initContainers"][0]["env"].as_array().unwrap();
    assert_eq!(variables.len(), 4);
    assert_eq!(variables[0]["name"], INPROC_TUNNEL_NAME_ENV);

    let conflicting = value(
        r#"{
            "containers": [{"name": "app"}],
            "initContainers": [
                {"name": "sidecar", "env": [{"name": "RESTATE_INPROC_ENVIRONMENT_ID", "value": "mine"}]}
            ]
        }"#,
    );
    let err = inject_in_process_tunnel_env(conflicting, "greeter-abc123", &test_params())
        .expect_err("user-declared RESTATE_INPROC_* in an initContainer must be rejected");
    assert!(err.message().contains("sidecar"));
}

#[test]
fn inject_rejects_user_declared_inproc_var() {
    let spec = value(
        r#"{
            "containers": [
                {"name": "app", "env": [{"name": "RESTATE_INPROC_TUNNEL_NAME", "value": "mine"}]}
            ]
        }"#,
    );

    let err = inject_in_process_tunnel_env(spec, "greeter-abc123", &test_params())
        .expect_err("user-declared RESTATE_INPROC_* must be rejected");
    assert!(matches!(err, Error::InvalidRestateConfig(_)));
    assert!(err.message().contains(INPROC_TUNNEL_NAME_ENV));
    assert!(err.message().contains("app"));
}

#[test]
fn inject_rejects_non_array_env() {
    let spec = value(r#"{ "containers": [{"name": "app", "env": "oops"}] }"#);

    let err = inject_in_process_tunnel_env(spec, "greeter-abc123", &test_params())
        .expect_err("non-array env must be rejected");
    assert!(matches!(err, Error::InvalidRestateConfig(_)));
}

#[test]
fn inject_passes_through_invalid_pod_specs() {
    // a pod spec without containers is invalid; the api server reports that better
    let spec = json(r#"{"volumes": []}"#);
    let injected =
        inject_in_process_tunnel_env(convert(spec.clone()), "greeter-abc123", &test_params())
            .unwrap();
    assert_eq!(plain(&injected), spec);
}

#[test]
fn a_tunnel_needs_a_cloud_environment() {
    let mut rsd = test_rsd(true);
    assert!(in_process_tunnel_params(&rsd, Some(test_params())).unwrap().is_some());
    rsd.spec.restate.register = by_url("http://restate:9070/");
    match in_process_tunnel_params(&rsd, None) {
        Err(Error::InvalidRestateConfig(text)) => assert_eq!(text, TUNNEL_NEEDS_CLOUD),
        other => panic!("{other:?}"),
    }
    rsd.spec.restate.in_process_tunnel = false;
    assert!(in_process_tunnel_params(&rsd, None).unwrap().is_none());
}

// the object of a version

#[test]
fn a_replica_set_is_built_from_the_template() {
    let mut rsd = test_rsd(false);
    rsd.metadata.annotations = Some(map(&[("team", "core")]));
    rsd.spec.restate.register.cluster = Some("c1".to_owned());
    let name = versioned_name("greeter", "abc");
    assert_eq!(name, "greeter-abc");
    let selector = replicaset_selector(&rsd, "abc");
    let annotations =
        new_replica_set_annotations(&propagated_annotations(&rsd), TEMPLATE, Some("tunnel"));
    let set = plain(
        &build_replica_set(&rsd, "apps", &name, &selector, &annotations, "abc", None).unwrap(),
    );
    assert_eq!(set["metadata"]["name"], "greeter-abc");
    assert_eq!(set["metadata"]["annotations"]["restate.dev/pod-template"], TEMPLATE);
    assert_eq!(set["metadata"]["annotations"]["restate.dev/tunnel-name"], "tunnel");
    assert_eq!(set["metadata"]["annotations"]["team"], "core");
    assert_eq!(set["metadata"]["labels"][OWNED_BY_LABEL], "greeter");
    assert_eq!(set["metadata"]["labels"][POD_TEMPLATE_HASH_LABEL], "abc");
    assert_eq!(set["metadata"]["ownerReferences"][0]["uid"], "uid-123");
    assert_eq!(set["spec"]["replicas"], 1);
    assert_eq!(set["spec"]["selector"]["matchLabels"][POD_TEMPLATE_HASH_LABEL], "abc");
    assert_eq!(
        set["spec"]["template"]["metadata"]["labels"]["allow.restate.dev/c1"],
        "true"
    );
    assert_eq!(set["spec"]["template"]["spec"]["containers"][0]["image"], "greeter:1");
}

#[test]
fn an_existing_version_is_adopted_if_it_is_ours() {
    let mut existing = ObjectMeta::empty();
    existing.owner_references = Some(vec![OwnerReference {
        api_version: "restate.dev/v1beta1".to_owned(),
        kind: "RestateDeployment".to_owned(),
        name: "greeter".to_owned(),
        uid: "uid-123".to_owned(),
        controller: Some(true),
        block_owner_deletion: None,
    }]);
    existing.annotations = Some(map(&[("restate.dev/pod-template", TEMPLATE)]));
    assert_eq!(recognise_existing(&existing, "uid-123", TEMPLATE), ExistingVersion::Adopt);
    assert_eq!(recognise_existing(&existing, "uid-456", TEMPLATE), ExistingVersion::Collision);
    assert_eq!(recognise_existing(&existing, "uid-123", "{}"), ExistingVersion::Collision);
}

// teardown

const NAMESPACE: &str = "apps";
const RSD_UID: &str = "uid-123";
const VERSION: &str = "greeter-old";

fn teardown_rsd(autoscaling: bool, deleting: bool) -> RestateDeployment {
    let mut rsd = deployment(
        3,
        by_url("http://restate:9070/"),
        r#"{ "containers": [{ "name": "app", "image": "greeter:v1" }] }"#,
    );
    if autoscaling {
        rsd.spec.autoscaling = Some(value(r#"{ "minReplicas": 1, "maxReplicas": 5 }"#));
    }
    rsd.metadata.namespace = Some(NAMESPACE.to_owned());
    if deleting {
        rsd.metadata.deletion_timestamp = Some(at(NOW));
    }
    rsd
}

fn version(deployment_id: &str, remove_at: Option<&Timestamp>) -> ObjectMeta {
    let mut annotations = map(&[(RESTATE_DEPLOYMENT_ID_ANNOTATION, deployment_id)]);
    if let Some(remove_at) = remove_at {
        annotations
            .insert(RESTATE_REMOVE_VERSION_AT_ANNOTATION.to_owned(), remove_at.to_rfc3339());
    }
    let mut meta = ObjectMeta::empty();
    meta.name = Some(VERSION.to_owned());
    meta.namespace = Some(NAMESPACE.to_owned());
    meta.creation_timestamp = Timestamp::parse_rfc3339("2026-01-01T00:00:00Z");
    meta.annotations = Some(annotations);
    meta.owner_references = Some(vec![OwnerReference {
        api_version: "restate.dev/v1beta1".to_owned(),
        kind: "RestateDeployment".to_owned(),
        name: "greeter".to_owned(),
        uid: RSD_UID.to_owned(),
        controller: Some(true),
        block_owner_deletion: None,
    }]);
    meta
}

fn usage_of(deployment_id: &str, usage: DeploymentUsage) -> DeploymentUsageMap {
    let mut map = DeploymentUsageMap::new();
    map.insert(deployment_id.to_owned(), usage);
    map
}

fn idle() -> DeploymentUsage {
    DeploymentUsage { latest_for_service: false, pinned_invocations: 0, unpinned_invocations: 0 }
}

/// One pass over the versions of a deployment, with the requests that it makes.
fn cleanup_old_replicasets(
    rsd: &RestateDeployment,
    versions: Vec<ObjectMeta>,
    has_hpa: bool,
    mode: CleanupMode,
    deployments: &DeploymentUsageMap,
) -> (CleanupOutcome, Vec<String>, Vec<String>) {
    let mut pass = CleanupPass::new(replica_set_cleanup_policy(rsd, mode, at(NOW)));
    let mut calls = vec![];
    let mut field_managers = vec![];
    for i in old_replica_sets(&versions, NAMESPACE, RSD_UID, None) {
        let plan = pass.decide(&versions[i], Some(3), has_hpa, deployments);
        let hpa = format!(
            "/apis/autoscaling/v2/namespaces/{NAMESPACE}/horizontalpodautoscalers/{VERSION}"
        );
        let replica_set = format!("/apis/apps/v1/namespaces/{NAMESPACE}/replicasets/{VERSION}");
        for operation in plan.operations() {
            calls.push(match operation {
                Operation::ApplyHpa => format!("PATCH {hpa}"),
                Operation::DeleteHpa => format!("DELETE {hpa}"),
                Operation::RestoreScale | Operation::ScaleToZero => {
                    format!("PATCH {replica_set}/scale")
                }
                Operation::Unschedule => {
                    field_managers.push(clear_patch("apps/v1", "ReplicaSet").field_manager);
                    format!("PATCH {replica_set}")
                }
                Operation::Schedule(remove_at) => {
                    let patch = stamp_patch("apps/v1", "ReplicaSet", &remove_at);
                    field_managers.push(patch.field_manager);
                    format!("PATCH {replica_set}")
                }
                Operation::Deregister(id) => format!("DELETE {}", deregister_path(&id)),
                Operation::DeleteVersion => format!("DELETE {replica_set}"),
            });
        }
    }
    (pass.finish(), calls, field_managers)
}

fn about_the_version(calls: &[String]) -> Vec<String> {
    calls.iter().filter(|call| call.contains(VERSION)).cloned().collect()
}

#[test]
fn autoscaler_is_removed_immediately_before_the_scale_to_zero() {
    // the endpoint was deregistered by other means, so the version is
    // scaled down on this pass rather than waiting out a drain
    let (outcome, calls, _) = cleanup_old_replicasets(
        &teardown_rsd(true, false),
        vec![version("dp_gone", None)],
        true,
        CleanupMode::Rollout,
        &DeploymentUsageMap::new(),
    );

    assert!(outcome.blocking.is_empty());
    assert_eq!(outcome.next_removal, None);
    assert_eq!(
        about_the_version(&calls),
        vec![
            format!(
                "DELETE /apis/autoscaling/v2/namespaces/{NAMESPACE}/horizontalpodautoscalers/{VERSION}"
            ),
            format!("PATCH /apis/apps/v1/namespaces/{NAMESPACE}/replicasets/{VERSION}/scale"),
        ],
    );
}

#[test]
fn draining_version_keeps_its_autoscaler_until_the_deadline() {
    let remove_at = at(NOW + 300);
    // registered, superseded, and nothing in flight: drained but not yet due
    let (outcome, calls, _) = cleanup_old_replicasets(
        &teardown_rsd(true, false),
        vec![version("dp_draining", Some(&remove_at))],
        true,
        CleanupMode::Rollout,
        &usage_of("dp_draining", idle()),
    );

    assert!(outcome.blocking.is_empty());
    assert_eq!(outcome.next_removal, Some(remove_at));
    assert_eq!(
        about_the_version(&calls),
        Vec::<String>::new(),
        "nothing is touched until the deadline passes"
    );
}

#[test]
fn force_deletion_tears_down_a_busy_version_immediately() {
    let remove_at = at(NOW + 300);
    let busy = DeploymentUsage {
        latest_for_service: true,
        pinned_invocations: 4,
        unpinned_invocations: 0,
    };
    let (outcome, calls, _) = cleanup_old_replicasets(
        &teardown_rsd(true, true),
        vec![version("dp_busy", Some(&remove_at))],
        true,
        CleanupMode::ForceDeleting,
        &usage_of("dp_busy", busy),
    );

    assert!(outcome.blocking.is_empty(), "nothing holds a force deletion");
    assert_eq!(outcome.abandoned.len(), 1);
    assert_eq!(outcome.abandoned[0].name, VERSION);
    assert_eq!(outcome.abandoned[0].deployment_id.as_deref(), Some("dp_busy"));
    assert_eq!(outcome.abandoned[0].usage, busy);
    assert_eq!(
        about_the_version(&calls),
        vec![
            format!(
                "DELETE /apis/autoscaling/v2/namespaces/{NAMESPACE}/horizontalpodautoscalers/{VERSION}"
            ),
            format!("PATCH /apis/apps/v1/namespaces/{NAMESPACE}/replicasets/{VERSION}/scale"),
            format!("DELETE /apis/apps/v1/namespaces/{NAMESPACE}/replicasets/{VERSION}"),
        ],
        "no remove-version-at patch: the drain delay is skipped entirely"
    );
    let admin: Vec<&String> = calls.iter().filter(|c| c.contains("/deployments/")).collect();
    assert_eq!(admin, vec!["DELETE /deployments/dp_busy?force=true"]);
}

#[test]
fn deletion_does_not_strip_autoscalers_up_front() {
    let remove_at = at(NOW + 300);
    let busy = DeploymentUsage {
        latest_for_service: true,
        pinned_invocations: 2,
        unpinned_invocations: 0,
    };
    let (outcome, calls, _) = cleanup_old_replicasets(
        &teardown_rsd(true, true),
        vec![version("dp_busy", Some(&remove_at))],
        true,
        CleanupMode::Deleting,
        &usage_of("dp_busy", busy),
    );

    assert_eq!(outcome.blocking.len(), 1, "in-flight invocations hold the deletion, and say so");
    assert_eq!(outcome.blocking[0].name, VERSION);
    assert_eq!(outcome.blocking[0].deployment_id.as_deref(), Some("dp_busy"));
    assert_eq!(outcome.blocking[0].usage, busy);
    assert!(
        !calls.iter().any(|call| call.contains("horizontalpodautoscalers")),
        "an owned HPA is garbage-collected with the RestateDeployment, not by us"
    );
}

#[test]
fn the_drain_deadline_is_stamped_and_cleared_by_one_field_manager() {
    const MANAGER: &str = "restate-operator/remove-version-at";
    let patch_of =
        |name: &str| format!("PATCH /apis/apps/v1/namespaces/{NAMESPACE}/replicasets/{name}");
    let rsd = teardown_rsd(false, false);

    // superseded with nothing in flight, so this pass stamps a deadline
    let (outcome, calls, managers) = cleanup_old_replicasets(
        &rsd,
        vec![version("dp_super", None)],
        false,
        CleanupMode::Rollout,
        &usage_of("dp_super", idle()),
    );

    assert!(outcome.next_removal.is_some(), "the version is left to drain");
    assert_eq!(about_the_version(&calls), vec![patch_of(VERSION)]);
    assert_eq!(managers, vec![MANAGER]);

    // a version still holding an invocation sheds its deadline, same manager
    let pinned = DeploymentUsage {
        latest_for_service: false,
        pinned_invocations: 1,
        unpinned_invocations: 0,
    };
    let (outcome, calls, managers) = cleanup_old_replicasets(
        &rsd,
        vec![version("dp_pinned", Some(&at(NOW)))],
        false,
        CleanupMode::Rollout,
        &usage_of("dp_pinned", pinned),
    );

    assert_eq!(outcome.blocking.len(), 1);
    assert_eq!(outcome.blocking[0].name, VERSION);
    assert_eq!(outcome.blocking[0].deployment_id.as_deref(), Some("dp_pinned"));
    assert_eq!(outcome.blocking[0].usage, pinned);
    assert_eq!(about_the_version(&calls), vec![patch_of(VERSION)]);
    assert_eq!(managers, vec![MANAGER]);
}

#[test]
fn only_owned_versions_are_old_and_the_newest_come_first() {
    let named = |name: &str, namespace: &str, uid: &str, created: i64| {
        let mut meta = version("dp", None);
        meta.name = Some(name.to_owned());
        meta.namespace = Some(namespace.to_owned());
        meta.creation_timestamp = Some(at(created));
        meta.owner_references.as_mut().unwrap()[0].uid = uid.to_owned();
        meta
    };
    let all = vec![
        named("current", NAMESPACE, RSD_UID, NOW),
        named("oldest", NAMESPACE, RSD_UID, NOW - 20),
        named("foreign", NAMESPACE, "other", NOW - 10),
        named("elsewhere", "other", RSD_UID, NOW - 10),
        named("older", NAMESPACE, RSD_UID, NOW - 10),
    ];
    assert_eq!(old_replica_sets(&all, NAMESPACE, RSD_UID, Some("current")), vec![4, 1]);

    let tagged = |tag: &str, created: i64| {
        let mut meta = named("c", NAMESPACE, RSD_UID, created);
        meta.annotations = Some(map(&[(RESTATE_TAG_ANNOTATION, tag)]));
        meta
    };
    let configurations = vec![tagged("v1", NOW - 10), tagged("v2", NOW)];
    assert_eq!(old_configurations(&configurations, NAMESPACE, RSD_UID, Some("v2")), vec![0]);
}

// the service of a version

fn desired_service() -> Service {
    let mut metadata = ObjectMeta::empty();
    metadata.name = Some("greeter-abc123".to_owned());
    metadata.namespace = Some("default".to_owned());
    metadata.labels = Some(map(&[("app", "greeter")]));
    metadata.annotations = Some(map(&[("team", "core")]));
    Service {
        metadata,
        spec: Some(ServiceSpec {
            selector: Some(map(&[("pod-template-hash", "abc123")])),
            ports: Some(vec![ServicePort {
                name: Some("restate".to_owned()),
                port: 9080,
                protocol: Some("TCP".to_owned()),
                target_port: Some(IntOrString::Int(9080)),
            }]),
            type_: Some("ClusterIP".to_owned()),
        }),
    }
}

// as the apiserver hands it back: the deployment id from the other field manager, and what is owned
fn live_service() -> Service {
    let mut live = desired_service();
    live.metadata
        .annotations
        .as_mut()
        .unwrap()
        .insert("restate.dev/deployment-id".to_owned(), "dp_1".to_owned());
    live.metadata.managed_fields = Some(vec![ManagedFieldsEntry {
        manager: Some(SERVICE_FIELD_MANAGER.to_owned()),
        subresource: None,
        fields_v1: Some(value(
            r#"{
                "f:metadata": {
                    "f:labels": { "f:app": {} },
                    "f:annotations": { "f:team": {} }
                }
            }"#,
        )),
    }]);
    live
}

#[test]
fn no_apply_when_the_live_service_already_matches() {
    assert!(!needs_apply(Some(&live_service()), &desired_service()));
}

#[test]
fn apply_when_the_service_does_not_exist_yet() {
    assert!(needs_apply(None, &desired_service()));
}

#[test]
fn apply_when_the_selector_drifts() {
    let mut live = live_service();
    live.spec.as_mut().unwrap().selector = Some(map(&[("pod-template-hash", "stale")]));
    assert!(needs_apply(Some(&live), &desired_service()));
}

#[test]
fn apply_when_the_target_port_drifts() {
    let mut live = live_service();
    live.spec.as_mut().unwrap().ports.as_mut().unwrap()[0].target_port =
        Some(IntOrString::Int(8080));
    assert!(needs_apply(Some(&live), &desired_service()));
}

#[test]
fn apply_when_an_owner_differs_in_any_field() {
    let owner = |block: Option<bool>| OwnerReference {
        api_version: "apps/v1".to_owned(),
        kind: "ReplicaSet".to_owned(),
        name: "greeter-abc123".to_owned(),
        uid: "uid-1".to_owned(),
        controller: Some(true),
        block_owner_deletion: block,
    };
    let mut desired = desired_service();
    desired.metadata.owner_references = Some(vec![owner(None)]);
    let mut live = live_service();
    assert!(needs_apply(Some(&live), &desired));
    live.metadata.owner_references = Some(vec![owner(None)]);
    assert!(!needs_apply(Some(&live), &desired));
    live.metadata.owner_references = Some(vec![owner(Some(true))]);
    assert!(needs_apply(Some(&live), &desired));
    let written = plain(&owner(Some(true)).value());
    assert_eq!(written["blockOwnerDeletion"], true);
}

#[test]
fn apply_when_a_propagated_label_was_removed_from_the_deployment() {
    let mut desired = desired_service();
    let live = live_service();
    // app is gone from the rsd, so the apply has to run to prune it
    desired.metadata.labels = Some(StringMap::new());
    assert!(needs_apply(Some(&live), &desired));
}

#[test]
fn the_service_leads_to_the_restate_port() {
    let container = |ports: Vec<(Option<&str>, i32)>| PortedContainer {
        name: Some("app".to_owned()),
        ports: Some(
            ports
                .into_iter()
                .map(|(name, container_port)| ContainerPort {
                    name: name.map(|n| n.to_owned()),
                    container_port,
                })
                .collect(),
        ),
    };
    assert_eq!(find_service_port(&vec![]), 9080);
    assert_eq!(find_service_port(&vec![container(vec![(None, 8080), (None, 8081)])]), 8080);
    assert_eq!(
        find_service_port(&vec![
            container(vec![(None, 8080)]),
            container(vec![(Some("restate"), 9999)]),
        ]),
        9999
    );
    let owner = OwnerReference {
        api_version: "restate.dev/v1beta1".to_owned(),
        kind: "RestateDeployment".to_owned(),
        name: "greeter".to_owned(),
        uid: "uid-123".to_owned(),
        controller: Some(true),
        block_owner_deletion: None,
    };
    let service = build_service(
        "apps",
        "greeter-abc",
        &map(&[("pod-template-hash", "abc")]),
        &map(&[]),
        &map(&[]),
        &owner,
        8080,
    );
    let service = plain(&service.value());
    assert_eq!(
        service["spec"],
        json(
            r#"{
                "selector": {"pod-template-hash": "abc"},
                "ports": [
                    {"name": "restate", "port": 9080, "protocol": "TCP", "targetPort": 8080}
                ],
                "type": "ClusterIP"
            }"#
        )
    );
}

// the selector of the latest version

fn selector_rsd(match_labels: Option<&[(&str, &str)]>, image: &str) -> RestateDeployment {
    let mut rsd = deployment(
        1,
        by_url("http://localhost:9070/"),
        &format!(r#"{{ "containers": [{{ "name": "main", "image": "{image}" }}] }}"#),
    );
    rsd.spec.selector = match_labels.map(|labels| LabelSelector {
        match_labels: Some(map(labels)),
        match_expressions: None,
    });
    rsd
}

fn template_of(image: &str) -> String {
    format!(r#"{{"metadata":null,"spec":{{"containers":[{{"image":"{image}","name":"main"}}]}}}}"#)
}

/// The hash the latest versioned ReplicaSet would use, recomputed independently.
fn latest_hash(rsd: &RestateDeployment, template: &str) -> String {
    generate_pod_template_hash(rsd, template, None)
}

#[test]
fn label_selector_appends_pod_template_hash_when_no_user_selector() {
    let rsd = selector_rsd(None, "greeter:v1");
    let template = template_of("greeter:v1");
    let selector =
        latest_version_label_selector(&rsd, &template, None).expect("selector is set");

    // With no user selector the result is exactly the version scoping.
    assert_eq!(
        selector,
        format!("{}={}", POD_TEMPLATE_HASH_LABEL, latest_hash(&rsd, &template))
    );
}

#[test]
fn label_selector_preserves_user_match_labels() {
    let rsd = selector_rsd(Some(&[("app", "greeter")]), "greeter:v1");
    let template = template_of("greeter:v1");
    let selector =
        latest_version_label_selector(&rsd, &template, None).expect("selector is set");

    // Both the user's label and the version scoping must be present.
    assert!(selector.contains("app=greeter"), "user label missing from {selector:?}");
    assert!(
        selector.contains(&format!(
            "{}={}",
            POD_TEMPLATE_HASH_LABEL,
            latest_hash(&rsd, &template)
        )),
        "pod-template-hash missing from {selector:?}"
    );
}

#[test]
fn label_selector_hash_matches_latest_replicaset_name() {
    // the hash baked into the status selector is the same one used to name/select the latest
    // versioned ReplicaSet, so the HPA aggregates exactly that RS's pods and not old draining
    // versions'.
    let rsd = selector_rsd(Some(&[("app", "greeter")]), "greeter:v1");
    let template = template_of("greeter:v1");
    let selector =
        latest_version_label_selector(&rsd, &template, None).expect("selector is set");

    let versioned_name = versioned_name("greeter", &latest_hash(&rsd, &template));
    let hash = versioned_name
        .rsplit_once('-')
        .map(|(_, h)| h)
        .expect("versioned name has a hash suffix");

    assert!(
        selector.contains(&format!("{}={}", POD_TEMPLATE_HASH_LABEL, hash)),
        "selector {selector:?} does not scope to latest RS hash {hash}"
    );
}

#[test]
fn label_selector_tracks_in_process_tunnel_params() {
    // the selector hash incorporates the same tunnel params as the latest ReplicaSet's hash —
    // computed without them it would scope the HPA to a hash no RS has.
    let rsd = selector_rsd(Some(&[("app", "greeter")]), "greeter:v1");
    let template = template_of("greeter:v1");
    let params = test_params();

    let rs_hash = generate_pod_template_hash(&rsd, &template, Some(&params));

    let selector =
        latest_version_label_selector(&rsd, &template, Some(&params)).expect("selector is set");
    assert!(
        selector.contains(&format!("{}={}", POD_TEMPLATE_HASH_LABEL, rs_hash)),
        "selector {selector:?} does not scope to the in-process RS hash {rs_hash}"
    );
    assert_ne!(
        selector,
        latest_version_label_selector(&rsd, &template, None).expect("selector without params"),
        "params must change the selector, or the two hash sites have diverged"
    );
}

#[test]
fn label_selector_changes_with_pod_template() {
    // A different pod template => different version => different selector,
    // so the status selector actually tracks the current version.
    let v1 = selector_rsd(Some(&[("app", "greeter")]), "greeter:v1");
    let v2 = selector_rsd(Some(&[("app", "greeter")]), "greeter:v2");
    let t1 = template_of("greeter:v1");
    let t2 = template_of("greeter:v2");

    let s1 = latest_version_label_selector(&v1, &t1, None).expect("v1 selector");
    let s2 = latest_version_label_selector(&v2, &t2, None).expect("v2 selector");

    assert_ne!(s1, s2, "selector should differ across pod templates");

    // ...and it is deterministic for the same template.
    let s1_again = latest_version_label_selector(&v1, &t1, None).expect("v1 selector again");
    assert_eq!(s1, s1_again, "selector should be deterministic");
}

fn requirement(key: &str, operator: &str, values: Option<&[&str]>) -> LabelSelectorRequirement {
    LabelSelectorRequirement {
        key: key.to_owned(),
        operator: operator.to_owned(),
        values: values.map(|values| values.iter().map(|v| v.to_string()).collect()),
    }
}

#[test]
fn requirements_follow_the_labels_in_the_selector() {
    let mut rsd = selector_rsd(None, "greeter:v1");
    rsd.spec.selector = Some(LabelSelector {
        match_labels: Some(map(&[("zone", "a"), ("app", "greeter")])),
        match_expressions: Some(vec![
            requirement("tier", "In", Some(&["web", "api", "web"])),
            requirement("env", "NotIn", Some(&["dev"])),
            requirement("team", "Exists", None),
            requirement("canary", "DoesNotExist", None),
        ]),
    });
    let template = template_of("greeter:v1");
    assert_eq!(
        latest_version_label_selector(&rsd, &template, None).unwrap(),
        format!(
            "app=greeter,{}={},zone=a,tier in (api,web),env notin (dev),team,!canary",
            POD_TEMPLATE_HASH_LABEL,
            latest_hash(&rsd, &template)
        )
    );
    for operator in ["In", "NotIn"] {
        rsd.spec.selector.as_mut().unwrap().match_expressions =
            Some(vec![requirement("tier", operator, None)]);
        assert_eq!(latest_version_label_selector(&rsd, &template, None), None);
    }
}

#[test]
fn an_unreadable_selector_is_left_out() {
    let mut rsd = selector_rsd(None, "greeter:v1");
    rsd.spec.selector = Some(LabelSelector {
        match_labels: None,
        match_expressions: Some(vec![LabelSelectorRequirement {
            key: "app".to_owned(),
            operator: "Near".to_owned(),
            values: None,
        }]),
    });
    assert_eq!(latest_version_label_selector(&rsd, "{}", None), None);
}

#[test]
fn propagated_labels_exclude_applyset_bookkeeping() {
    let labels = map(&[
        ("app.kubernetes.io/name", "greeter"),
        ("applyset.kubernetes.io/part-of", "applyset-parent-id"),
        ("applyset.kubernetes.io/id", "applyset-parent-id"),
    ]);

    assert!(propagated_labels(&labels).same(&map(&[("app.kubernetes.io/name", "greeter")])));
}

#[test]
fn the_service_of_a_version_is_found_by_its_labels() {
    let mut rsd = test_rsd(false);
    rsd.metadata.labels =
        Some(map(&[("team", "core"), ("applyset.kubernetes.io/part-of", "applyset-parent-id")]));
    assert!(service_labels(&rsd).same(&map(&[
        ("team", "core"),
        (APP_MANAGED_BY_LABEL, "restate-operator"),
        (OWNED_BY_LABEL, "greeter"),
    ])));
}

// what is read of the cluster and of the current version

fn no_status() -> RestateDeploymentStatus {
    RestateDeploymentStatus {
        replicas: 0,
        desired_replicas: None,
        ready_replicas: None,
        available_replicas: None,
        unavailable_replicas: None,
        label_selector: None,
        deployment_id: None,
        collision_count: None,
        observed_generation: None,
        conditions: None,
        reconciliation: Some(ReconciliationState::Reconciling),
        knative: None,
    }
}

#[test]
fn replica_counts_are_copied() {
    let mut status = no_status();
    status_from_replica_set(
        3,
        &mut status,
        Some(ReplicaSetStatus {
            replicas: 2,
            ready_replicas: Some(2),
            available_replicas: Some(1),
        }),
    );
    assert_eq!(status.desired_replicas, Some(3));
    assert_eq!(status.replicas, 2);
    assert_eq!(status.ready_replicas, Some(2));
    assert_eq!(status.available_replicas, Some(1));
    assert_eq!(status.unavailable_replicas, Some(2));
}

#[test]
fn a_version_is_registered_once_it_is_ready() {
    let status = |replicas, ready| {
        Some(ReplicaSetStatus {
            replicas,
            ready_replicas: Some(ready),
            available_replicas: Some(ready),
        })
    };
    assert!(validate_replica_set_status(status(2, 2), 2).is_ok());
    assert!(matches!(
        validate_replica_set_status(status(2, 1), 2),
        Err(Error::DeploymentNotReady { .. })
    ));
    assert!(matches!(
        validate_replica_set_status(None, 2),
        Err(Error::DeploymentNotReady { .. })
    ));
}

#[test]
fn a_cluster_has_to_be_ready() {
    let ready = |status: &str| {
        ClusterLookup::Found(Some(vec![Condition {
            last_transition_time: None,
            message: None,
            reason: None,
            status: status.to_owned(),
            type_: "Ready".to_owned(),
        }]))
    };
    assert!(validate_cluster_status("c1", ready("True")).is_ok());
    assert!(validate_cluster_status("c1", ready("False")).is_err());
    assert!(validate_cluster_status("c1", ClusterLookup::Found(None)).is_err());
    assert!(validate_cluster_status("c1", ClusterLookup::NotFound).is_err());
    let failure = KubeFailure {
        kind: KubeFailureKind::Transport,
        reason: String::new(),
        message: "down".to_owned(),
    };
    assert!(matches!(
        validate_cluster_status("c1", ClusterLookup::Failed(failure)),
        Err(Error::KubeError(_))
    ));
}

#[test]
fn retries_are_counted_per_resource() {
    let mut rsd = test_rsd(false);
    assert_eq!(retry_resource(&rsd), "uid-123");
    rsd.metadata.uid = None;
    rsd.metadata.namespace = Some("apps".to_owned());
    assert_eq!(retry_resource(&rsd), "apps/greeter");
}
