//! Promises of the library as a whole, on concrete values.

use restate_operator::control::{Condition, ReconciliationState, RECONCILING_CONDITION};
use restate_operator::json::{Object, Value};
use restate_operator::meta::ObjectMeta;
use restate_operator::restatedeployment::cleanup::{
    CleanupMode, DeploymentUsage, DeploymentUsageMap,
};
use restate_operator::restatedeployment::hash::{generate_pod_template_hash, safe_encode_u32};
use restate_operator::restatedeployment::knative_reconcile::start_status;
use restate_operator::restatedeployment::resource::{
    InProcessTunnelParams, KnativeDeploymentStatus, PodTemplate, RestateAdminEndpoint,
    RestateDeployment, RestateDeploymentSpec, RestateDeploymentStatus, RestateSpec,
};
use restate_operator::restatedeployment::retirement::{CleanupPass, CleanupPolicy, Operation};
use restate_operator::restatedeployment::retry::{
    ExpensiveOperationRetries, ENDPOINT_SPACING_SECONDS,
};
use restate_operator::restatedeployment::usage_cache::UsageCache;
use restate_operator::restatekafkaintegration::merge::strategic_merge;
use restate_operator::string_map::StringMap;
use restate_operator::time::{Duration, Timestamp};

const NOW: i64 = 1_800_000_000;

fn at(seconds: i64) -> Timestamp {
    Timestamp::from_nanos(seconds as i128 * 1_000_000_000).unwrap()
}

fn rsd() -> RestateDeployment {
    let mut metadata = ObjectMeta::empty();
    metadata.name = Some("greeter".to_owned());
    metadata.uid = Some("uid-123".to_owned());
    RestateDeployment {
        metadata,
        spec: RestateDeploymentSpec {
            replicas: 1,
            revision_history_limit: 10,
            min_ready_seconds: None,
            selector: None,
            template: PodTemplate { metadata: None, spec: None },
            restate: RestateSpec {
                register: RestateAdminEndpoint {
                    cluster: None,
                    cloud: Some("env".to_owned()),
                    url: None,
                },
                service_path: None,
                use_http11: None,
                drain_delay_seconds: 300,
                delete_policy: None,
                drain: None,
                in_process_tunnel: true,
            },
            deployment_mode: None,
            knative: None,
            autoscaling: None,
        },
        status: None,
    }
}

fn no_status() -> RestateDeploymentStatus {
    RestateDeploymentStatus {
        replicas: 0,
        desired_replicas: None,
        ready_replicas: None,
        available_replicas: None,
        unavailable_replicas: None,
        label_selector: None,
        deployment_id: None,
        collision_count: None,
        observed_generation: None,
        conditions: None,
        reconciliation: None,
        knative: None,
    }
}

#[test]
fn different_numbers_have_different_names() {
    let names: Vec<String> = (0..2000).map(safe_encode_u32).collect();
    for (i, name) in names.iter().enumerate() {
        assert!(!names[..i].contains(name), "{i} {name}");
    }
}

#[test]
fn tunnel_values_do_not_run_together() {
    let params = |environment_id: &str, region: &str| InProcessTunnelParams {
        environment_id: environment_id.to_owned(),
        region: region.to_owned(),
        signing_public_key: "key".to_owned(),
    };
    let rsd = rsd();
    assert_ne!(
        generate_pod_template_hash(&rsd, "{}", Some(&params("ab", "c"))),
        generate_pod_template_hash(&rsd, "{}", Some(&params("a", "bc")))
    );
}

#[test]
fn a_cleared_suspension_is_not_cleared_again() {
    let mut rsd = rsd();
    let mut status = no_status();
    status.reconciliation = Some(ReconciliationState::Disabled);
    status.conditions = Some(vec![Condition {
        last_transition_time: None,
        message: None,
        reason: None,
        status: "False".to_owned(),
        type_: RECONCILING_CONDITION.to_owned(),
    }]);
    rsd.status = Some(status);
    let kept = rsd.suspension_to_clear().unwrap();
    assert!(kept.is_empty());
    let mut status = no_status();
    status.reconciliation = Some(ReconciliationState::Reconciling);
    status.conditions = Some(kept);
    rsd.status = Some(status);
    assert!(rsd.suspension_to_clear().is_none());
}

#[test]
fn a_new_version_shows_nothing_of_the_one_before() {
    let mut status = no_status();
    status.deployment_id = Some("dp_1".to_owned());
    status.replicas = 3;
    status.knative = Some(KnativeDeploymentStatus {
        configuration_name: Some("greeter-v1".to_owned()),
        route_name: Some("greeter-v1".to_owned()),
        latest_revision: Some("greeter-v1-00001".to_owned()),
        url: Some("http://greeter/".to_owned()),
    });
    start_status(&mut status, "greeter-v1");
    assert_eq!(status.deployment_id.as_deref(), Some("dp_1"));
    start_status(&mut status, "greeter-v2");
    assert_eq!(status.deployment_id, None);
    assert_eq!(status.replicas, 0);
    let knative = status.knative.as_ref().unwrap();
    assert_eq!(knative.configuration_name.as_deref(), Some("greeter-v2"));
    assert_eq!(knative.url, None);
}

fn version(name: &str, id: &str, remove_at: Option<i64>) -> ObjectMeta {
    let mut annotations = StringMap::new();
    annotations.insert("restate.dev/deployment-id".to_owned(), id.to_owned());
    if let Some(seconds) = remove_at {
        annotations
            .insert("restate.dev/remove-version-at".to_owned(), at(seconds).to_rfc3339());
    }
    let mut meta = ObjectMeta::empty();
    meta.name = Some(name.to_owned());
    meta.annotations = Some(annotations);
    meta
}

#[test]
fn a_finished_drain_leaves_nothing() {
    let idle = DeploymentUsage {
        latest_for_service: true,
        pinned_invocations: 0,
        unpinned_invocations: 0,
    };
    let mut deployments = DeploymentUsageMap::new();
    deployments.insert("dp_1".to_owned(), idle);
    deployments.insert("dp_2".to_owned(), idle);
    let policy = CleanupPolicy {
        mode: CleanupMode::Deleting,
        autoscaling: false,
        revision_history_limit: 10,
        drain_delay_seconds: 300,
        poll_while_draining: true,
        now: at(NOW),
    };
    let mut pass = CleanupPass::new(policy);
    for meta in [version("a", "dp_1", Some(NOW - 1)), version("b", "dp_2", Some(NOW - 1))] {
        let operations = pass.decide(&meta, Some(1), false, &deployments).operations();
        assert!(matches!(operations.last().unwrap(), Operation::DeleteVersion));
    }
    let outcome = pass.finish();
    assert!(outcome.blocking.is_empty());
    assert_eq!(outcome.next_removal, None);

    // one version that still waits out the delay keeps the deletion open
    let mut pass = CleanupPass::new(policy);
    pass.decide(&version("a", "dp_1", Some(NOW + 9)), Some(1), false, &deployments);
    assert_eq!(pass.finish().next_removal, Some(at(NOW + 9)));
}

#[test]
fn a_deferred_caller_finds_the_answer() {
    let mut retries = ExpensiveOperationRetries::new();
    let mut cache = UsageCache::new();
    assert!(retries.acquire("http://e/", "uid-a", &at(NOW)).is_ok());
    cache.insert_at(
        "http://e/".to_owned(),
        CleanupMode::Rollout,
        &DeploymentUsageMap::new(),
        at(NOW),
    );
    retries.finish("http://e/");
    let wait = retries.acquire("http://e/", "uid-b", &at(NOW)).unwrap_err();
    assert_eq!(wait, Duration::from_secs(ENDPOINT_SPACING_SECONDS));
    let back = at(NOW).plus(wait).unwrap();
    assert!(cache.get_at("http://e/", CleanupMode::Rollout, &back).is_some());
}

#[test]
fn an_empty_overlay_changes_nothing() {
    let mut base = Object::new();
    base.put_text("image", "i");
    base.put("ports", Value::singleton(Value::Int(1)));
    let base = Value::Object(base);
    let merged = strategic_merge(base.duplicate(), &Value::Object(Object::new()));
    assert!(merged.same(&base));
}
