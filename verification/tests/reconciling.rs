//! Whole reconciles, step by step, and what is reported of them.

use restate_operator::control::{Action, Condition, ReconciliationState};
use restate_operator::error::{Error, KubeFailure, KubeFailureKind, ReplicaSetStatus};
use restate_operator::json::{Object, Value};
use restate_operator::manifest::EnvVar;
use restate_operator::meta::{ObjectMeta, OwnerReference};
use restate_operator::restatecloudenvironment::controller as cloud;
use restate_operator::restatecloudenvironment::resource::{
    Authentication, RestateCloudEnvironment, RestateCloudEnvironmentSpec,
    RestateCloudEnvironmentStatus, SecretKeyRef, SecretProvider, TunnelSpec,
};
use restate_operator::restatecloudenvironment::tunnel;
use restate_operator::restatedeployment::cleanup::{
    CleanupMode, DeploymentUsage, DeploymentUsageMap,
};
use restate_operator::restatedeployment::controller::ClusterLookup;
use restate_operator::restatedeployment::knative::{
    build_configuration_spec, build_route_spec, check_revision_ready, check_route_ready,
    configuration_cleanup_policy, determine_tag, get_initial_scale, parent_deployment,
    register_or_lookup_deployment, registration_annotations, validate_knative_containers,
    Configuration, ConfigurationStatus, DeploymentLookup, KnativeCondition, Revision,
    RevisionStatus, Route, RouteStatus,
};
use restate_operator::restatedeployment::knative_reconcile::{
    knative_expects, knative_step, KnativeCommand, KnativeEvent, KnativeStage,
};
use restate_operator::restatedeployment::reconcile::{
    expects, step, tunnel_name, Command, CurrentVersion, Event, ReconcileInputs, Stage,
};
use restate_operator::restatedeployment::registration::{Overwrite, RegisteredDeployment};
use restate_operator::restatedeployment::resource::{
    DeploymentMode, KnativeSpec, PodTemplate, RestateAdminEndpoint, RestateDeployment,
    RestateDeploymentSpec, RestateDeploymentStatus, RestateSpec, TemplateMeta,
};
use restate_operator::restatedeployment::retirement::{CleanupPass, VersionPlan};
use restate_operator::restatedeployment::retry::ExpensiveOperationRetries;
use restate_operator::restatedeployment::service::{ContainerPort, PortedContainer};
use restate_operator::restatedeployment::status::{
    deployment_mode, judge, reconcile_status, reconcile_suspended, ReadyStatus, ReconcileOutcome,
    ReplicaSetSeen,
};
use restate_operator::restateservice::controller::{check_cluster, update_status, RestateService};
use restate_operator::string_map::StringMap;
use restate_operator::time::{Duration, Timestamp};

fn plain(value: &Value) -> serde_json::Value {
    match value {
        Value::Null => serde_json::Value::Null,
        Value::Bool(b) => serde_json::Value::Bool(*b),
        Value::Int(i) => serde_json::Value::from(*i),
        Value::Decimal(text) => serde_json::from_str(text).unwrap(),
        Value::Text(text) => serde_json::Value::from(text.as_str()),
        Value::Array(items) => serde_json::Value::Array(items.iter().map(plain).collect()),
        Value::Object(object) => {
            let mut out = serde_json::Map::new();
            for i in 0..object.len() {
                let (name, item) = object.entry(i);
                out.insert(name.clone(), plain(item));
            }
            serde_json::Value::Object(out)
        }
    }
}

fn json(text: &str) -> serde_json::Value {
    serde_json::from_str(text).unwrap()
}

fn map(entries: &[(&str, &str)]) -> StringMap {
    let mut map = StringMap::new();
    for (k, v) in entries {
        map.insert(k.to_string(), v.to_string());
    }
    map
}

const NOW: i64 = 1_800_000_000;
const TEMPLATE: &str = "{\"spec\":{}}";
const NAME: &str = "greeter-abc";

fn at(seconds: i64) -> Timestamp {
    Timestamp::from_nanos(seconds as i128 * 1_000_000_000).unwrap()
}

// ReplicaSets

fn inputs(cluster: Option<&str>) -> ReconcileInputs {
    ReconcileInputs {
        versioned_name: NAME.to_owned(),
        pod_template: TEMPLATE.to_owned(),
        my_uid: "uid-123".to_owned(),
        replicas: 2,
        cluster: cluster.map(|c| c.to_owned()),
    }
}

fn version(id: Option<&str>, ready: i32) -> CurrentVersion {
    let mut annotations = map(&[("restate.dev/pod-template", TEMPLATE)]);
    if let Some(id) = id {
        annotations.insert("restate.dev/deployment-id".to_owned(), id.to_owned());
    }
    let mut meta = ObjectMeta::empty();
    meta.name = Some(NAME.to_owned());
    meta.annotations = Some(annotations);
    meta.owner_references = Some(vec![OwnerReference {
        api_version: "restate.dev/v1beta1".to_owned(),
        kind: "RestateDeployment".to_owned(),
        name: "greeter".to_owned(),
        uid: "uid-123".to_owned(),
        controller: Some(true),
        block_owner_deletion: None,
    }]);
    CurrentVersion {
        meta,
        status: Some(ReplicaSetStatus {
            replicas: 2,
            ready_replicas: Some(ready),
            available_replicas: Some(ready),
        }),
    }
}

fn known(entries: &[(&str, bool)]) -> DeploymentUsageMap {
    let mut map = DeploymentUsageMap::new();
    for (id, latest) in entries {
        map.insert(
            id.to_string(),
            DeploymentUsage {
                latest_for_service: *latest,
                pinned_invocations: 0,
                unpinned_invocations: 0,
            },
        );
    }
    map
}

fn go(inputs: &ReconcileInputs, stage: Stage, event: Event) -> (Stage, Command) {
    assert!(expects(&stage, &event), "{stage:?} {event:?}");
    step(inputs, stage, event)
}

fn applied() -> Event {
    Event::ServiceApplied { endpoint: Ok("http://e:9080/".to_owned()), other_owned: false }
}

#[test]
fn a_new_version_is_created_registered_and_confirmed() {
    let inputs = inputs(None);
    let (stage, command) = go(&inputs, Stage::Start, Event::Begin);
    assert!(matches!(command, Command::CreateReplicaSet));
    let created = Event::Created { version: version(None, 2), has_hpa: false };
    let (stage, command) = go(&inputs, stage, created);
    assert!(matches!(command, Command::ApplyService));
    let (stage, command) = go(&inputs, stage, applied());
    assert!(matches!(command, Command::AskUsage | Command::AskLatest));
    let (stage, command) = match command {
        Command::AskLatest => go(&inputs, stage, Event::Latest(map(&[]))),
        _ => (stage, command),
    };
    assert!(matches!(command, Command::AskUsage), "{command:?}");
    let usage = Event::Usage { deployments: known(&[]), owned_ids: vec![] };
    let (stage, command) = go(&inputs, stage, usage);
    match command {
        Command::Register { endpoint, overwrite } => {
            assert_eq!(endpoint, "http://e:9080/");
            assert_eq!(overwrite, Overwrite::No);
        }
        other => panic!("{other:?}"),
    }
    let registered = Event::Registered(RegisteredDeployment {
        id: "dp_1".to_owned(),
        services: vec!["Greeter".to_owned()],
    });
    let (stage, command) = go(&inputs, stage, registered);
    assert!(matches!(command, Command::RecordId { id } if id == "dp_1"));
    let (stage, command) = go(&inputs, stage, Event::Done);
    assert!(matches!(command, Command::AskLatest));
    let (stage, command) = go(&inputs, stage, Event::Latest(map(&[("Greeter", "dp_1")])));
    match &command {
        Command::CleanUp { deployments } => {
            assert!(deployments.get("dp_1").unwrap().latest_for_service)
        }
        other => panic!("{other:?}"),
    }
    let done = Event::CleanedUp { next_removal: Some(at(NOW)) };
    let (stage, command) = go(&inputs, stage, done);
    assert!(matches!(stage, Stage::Finished));
    assert!(matches!(command, Command::Finish(Ok((_, Some(t)))) if t == at(NOW)));
}

#[test]
fn a_version_that_does_not_take_over_fails_the_reconcile() {
    let inputs = inputs(None);
    let confirming = {
        let (stage, _) = go(&inputs, Stage::Start, Event::Begin);
        let created = Event::Created { version: version(None, 2), has_hpa: false };
        let (stage, _) = go(&inputs, stage, created);
        let (stage, command) = go(&inputs, stage, applied());
        let (stage, _) = match command {
            Command::AskLatest => go(&inputs, stage, Event::Latest(map(&[]))),
            other => (stage, other),
        };
        let usage = Event::Usage { deployments: known(&[]), owned_ids: vec![] };
        let (stage, _) = go(&inputs, stage, usage);
        let registered = Event::Registered(RegisteredDeployment {
            id: "dp_1".to_owned(),
            services: vec!["Greeter".to_owned()],
        });
        let (stage, _) = go(&inputs, stage, registered);
        go(&inputs, stage, Event::Done).0
    };
    let (stage, command) = go(&inputs, confirming, Event::Latest(map(&[("Greeter", "dp_0")])));
    assert!(matches!(stage, Stage::Finished));
    assert!(matches!(command, Command::Finish(Err(Error::DeploymentNotLatest { .. }))));
}

#[test]
fn a_version_that_exists_is_adopted() {
    let inputs = inputs(None);
    let exists = || {
        Event::Failed(Error::KubeError(KubeFailure {
            kind: KubeFailureKind::Api(409),
            reason: "AlreadyExists".to_owned(),
            message: "exists".to_owned(),
        }))
    };
    let (stage, _) = go(&inputs, Stage::Start, Event::Begin);
    let (stage, command) = go(&inputs, stage, exists());
    assert!(matches!(command, Command::FetchReplicaSet));
    let (_, command) = go(&inputs, stage, Event::Fetched { version: version(None, 2) });
    assert!(matches!(command, Command::Propagate { unschedule: false }));

    let (stage, _) = go(&inputs, Stage::Start, Event::Begin);
    let (stage, _) = go(&inputs, stage, exists());
    let mut foreign = version(None, 2);
    foreign.meta.owner_references = None;
    let (_, command) = go(&inputs, stage, Event::Fetched { version: foreign });
    assert!(matches!(command, Command::Finish(Err(Error::HashCollision))));
}

fn after_usage(
    inputs: &ReconcileInputs,
    current: CurrentVersion,
    deployments: DeploymentUsageMap,
    owned: &[&str],
) -> (Stage, Command) {
    let (stage, _) = go(inputs, Stage::Start, Event::Begin);
    let (stage, _) = go(inputs, stage, Event::Created { version: current, has_hpa: false });
    let event =
        Event::ServiceApplied { endpoint: Ok("http://e:9080/".to_owned()), other_owned: true };
    let (stage, command) = go(inputs, stage, event);
    let (stage, command) = match command {
        Command::AskLatest => go(inputs, stage, Event::Latest(map(&[]))),
        other => (stage, other),
    };
    assert!(matches!(command, Command::AskUsage), "{command:?}");
    let owned_ids = owned.iter().map(|id| id.to_string()).collect();
    go(inputs, stage, Event::Usage { deployments, owned_ids })
}

#[test]
fn a_rollback_is_promoted_by_force() {
    let (_, command) = after_usage(
        &inputs(None),
        version(Some("dp_1"), 2),
        known(&[("dp_1", false), ("dp_2", true)]),
        &["dp_1", "dp_2"],
    );
    assert!(matches!(command, Command::Register { overwrite: Overwrite::Yes, .. }));
}

#[test]
fn a_foreign_registration_is_left_alone() {
    let (stage, command) = after_usage(
        &inputs(None),
        version(Some("dp_1"), 2),
        known(&[("dp_1", false), ("dp_2", true)]),
        &["dp_1"],
    );
    assert!(matches!(stage, Stage::Finished));
    match command {
        Command::Finish(Err(Error::DeploymentNotLatest { reason, message, .. })) => {
            assert_eq!(reason, "ForeignDeployment");
            assert!(message.starts_with("Deployment dp_1 is registered but superseded"));
        }
        other => panic!("{other:?}"),
    }
}

#[test]
fn a_version_that_is_not_ready_is_not_registered() {
    let (stage, command) = after_usage(&inputs(None), version(None, 1), known(&[]), &[]);
    assert!(matches!(command, Command::CleanUp { .. }));
    let (_, command) = go(&inputs(None), stage, Event::CleanedUp { next_removal: None });
    assert!(matches!(command, Command::Finish(Err(Error::DeploymentNotReady { .. }))));
}

#[test]
fn the_cluster_is_asked_for_before_a_registration() {
    let inputs = inputs(Some("c1"));
    let (stage, command) = after_usage(&inputs, version(None, 2), known(&[]), &[]);
    assert!(matches!(command, Command::AskCluster));
    let (_, command) = go(&inputs, stage, Event::Cluster(ClusterLookup::NotFound));
    assert!(matches!(command, Command::Finish(Err(_))));
    let (stage, _) = after_usage(&inputs, version(None, 2), known(&[]), &[]);
    let ready = ClusterLookup::Found(Some(vec![Condition {
        last_transition_time: None,
        message: None,
        reason: None,
        status: "True".to_owned(),
        type_: "Ready".to_owned(),
    }]));
    let (_, command) = go(&inputs, stage, Event::Cluster(ready));
    assert!(matches!(command, Command::Register { overwrite: Overwrite::No, .. }));
}

#[test]
fn events_have_to_fit_the_stage() {
    assert!(expects(&Stage::Start, &Event::Begin));
    assert!(!expects(&Stage::Start, &Event::Done));
    assert!(!expects(&Stage::Finished, &Event::Begin));
    assert!(expects(&Stage::Creating, &Event::Failed(Error::HashCollision)));
}

#[test]
fn a_tunnel_keeps_the_name_it_was_registered_under() {
    let mut current = version(None, 2);
    assert_eq!(tunnel_name(&current, NAME), NAME);
    current
        .meta
        .annotations
        .as_mut()
        .unwrap()
        .insert("restate.dev/tunnel-name".to_owned(), "older".to_owned());
    assert_eq!(tunnel_name(&current, NAME), "older");
}

// status

fn rsd() -> RestateDeployment {
    let mut metadata = ObjectMeta::empty();
    metadata.name = Some("greeter".to_owned());
    metadata.namespace = Some("apps".to_owned());
    metadata.uid = Some("uid-123".to_owned());
    metadata.generation = Some(3);
    RestateDeployment {
        metadata,
        spec: RestateDeploymentSpec {
            replicas: 2,
            revision_history_limit: 10,
            min_ready_seconds: None,
            selector: None,
            template: PodTemplate { metadata: None, spec: None },
            restate: RestateSpec {
                register: RestateAdminEndpoint {
                    cluster: Some("c1".to_owned()),
                    cloud: None,
                    url: None,
                },
                service_path: None,
                use_http11: None,
                drain_delay_seconds: 300,
                delete_policy: None,
                drain: None,
                in_process_tunnel: false,
            },
            deployment_mode: None,
            knative: None,
            autoscaling: None,
        },
        status: None,
    }
}

fn no_status() -> RestateDeploymentStatus {
    RestateDeploymentStatus {
        replicas: 0,
        desired_replicas: None,
        ready_replicas: None,
        available_replicas: None,
        unavailable_replicas: None,
        label_selector: None,
        deployment_id: None,
        collision_count: None,
        observed_generation: None,
        conditions: None,
        reconciliation: None,
        knative: None,
    }
}

#[test]
fn a_mode_needs_its_own_block() {
    let mut rsd = rsd();
    let (mode, check) = deployment_mode(&rsd);
    assert_eq!(mode, DeploymentMode::ReplicaSet);
    assert!(check.is_ok());
    rsd.spec.deployment_mode = Some(DeploymentMode::Knative);
    let (mode, _) = deployment_mode(&rsd);
    assert_eq!(mode, DeploymentMode::Knative);
}

#[test]
fn a_reconcile_is_judged() {
    let now = at(NOW);
    let healthy = Duration::from_secs(320);
    let judged = |outcome: ReconcileOutcome| judge(DeploymentMode::ReplicaSet, &outcome, &now, healthy);

    let fine = judged(ReconcileOutcome::Deployed { next_removal: None, replica_set: None });
    assert_eq!(fine.action, Some(healthy));
    assert_eq!(fine.reason, "Deployed");
    assert_eq!(fine.status, ReadyStatus::True);

    let soon = judged(ReconcileOutcome::Deployed {
        next_removal: Some(at(NOW + 42)),
        replica_set: None,
    });
    assert_eq!(soon.action, Some(Duration::from_secs(42)));

    let due = judged(ReconcileOutcome::Deployed {
        next_removal: Some(at(NOW - 1)),
        replica_set: None,
    });
    assert_eq!(due.action, Some(Duration::from_secs(0)));

    let waiting = judged(ReconcileOutcome::Failed(Error::DeploymentNotReady {
        message: "m".to_owned(),
        reason: "r".to_owned(),
        requeue_after: None,
        replica_set_status: None,
    }));
    assert_eq!(waiting.action, Some(Duration::from_secs(60)));
    assert_eq!(waiting.status, ReadyStatus::False);

    let collided = judged(ReconcileOutcome::Failed(Error::HashCollision));
    assert_eq!(collided.action, Some(Duration::from_secs(0)));

    let failed = judged(ReconcileOutcome::Failed(Error::NameConflict));
    assert_eq!(failed.action, None);
    assert_eq!(failed.status, ReadyStatus::Unknown);
    assert_eq!(failed.reason, "FailedReconcile");
}

#[test]
fn the_status_tells_what_was_seen() {
    let rsd = rsd();
    let mut status = no_status();
    let mut retries = ExpensiveOperationRetries::new();
    let seen = ReplicaSetSeen {
        status: Some(ReplicaSetStatus {
            replicas: 2,
            ready_replicas: Some(2),
            available_replicas: Some(2),
        }),
        deployment_id: Some("dp_1".to_owned()),
    };
    let report = reconcile_status(
        &rsd,
        DeploymentMode::ReplicaSet,
        ReconcileOutcome::Deployed { next_removal: Some(at(NOW + 42)), replica_set: Some(seen) },
        &mut status,
        &mut retries,
        "http://e/",
        "uid-123",
        &at(NOW),
        Some(Some("pod-template-hash=abc".to_owned())),
    );
    assert!(matches!(report.result, Ok(Action::Requeue(d)) if d == Duration::from_secs(42)));
    assert_eq!(status.replicas, 2);
    assert_eq!(status.unavailable_replicas, Some(0));
    assert_eq!(status.deployment_id.as_deref(), Some("dp_1"));
    assert_eq!(status.label_selector.as_deref(), Some("pod-template-hash=abc"));
    assert_eq!(status.observed_generation, Some(3));
    assert_eq!(status.reconciliation, Some(ReconciliationState::Reconciling));
    assert_eq!(status.conditions.as_ref().unwrap()[0].status, "True");

    let report = reconcile_status(
        &rsd,
        DeploymentMode::ReplicaSet,
        ReconcileOutcome::Failed(Error::HashCollision),
        &mut status,
        &mut retries,
        "http://e/",
        "uid-123",
        &at(NOW),
        None,
    );
    assert!(matches!(report.result, Ok(Action::Requeue(d)) if d == Duration::from_secs(0)));
    assert_eq!(status.collision_count, Some(1));

    reconcile_suspended(&mut status, at(NOW));
    assert_eq!(status.reconciliation, Some(ReconciliationState::Disabled));
    assert_eq!(status.conditions.as_ref().unwrap().len(), 2);
}

// Knative

fn knative_rsd(tag: Option<&str>) -> RestateDeployment {
    let mut rsd = rsd();
    rsd.spec.deployment_mode = Some(DeploymentMode::Knative);
    rsd.spec.knative = Some(KnativeSpec {
        tag: tag.map(|t| t.to_owned()),
        min_scale: None,
        max_scale: Some(5),
        target: None,
    });
    rsd
}

fn ported(name: &str, ports: &[(Option<&str>, i32)]) -> PortedContainer {
    PortedContainer {
        name: Some(name.to_owned()),
        ports: Some(
            ports
                .iter()
                .map(|(name, port)| ContainerPort {
                    name: name.map(|n| n.to_owned()),
                    container_port: *port,
                })
                .collect(),
        ),
    }
}

#[test]
fn one_container_takes_the_traffic() {
    assert!(validate_knative_containers(&vec![ported("app", &[(Some("h2c"), 9080)])]).is_ok());
    assert!(validate_knative_containers(&vec![
        ported("app", &[(Some("http1-main"), 9080)]),
        PortedContainer { name: None, ports: None },
    ])
    .is_ok());
    for containers in [
        vec![],
        vec![ported("app", &[(None, 9080)])],
        vec![ported("app", &[(Some("grpc"), 9080)])],
        vec![ported("a", &[(Some("h2c"), 1)]), ported("b", &[(Some("h2c"), 2)])],
    ] {
        assert!(matches!(
            validate_knative_containers(&containers),
            Err(Error::InvalidRestateConfig(_))
        ));
    }
}

#[test]
fn a_configuration_is_built_from_the_template() {
    let mut rsd = knative_rsd(Some("v1"));
    assert_eq!(determine_tag(&rsd, TEMPLATE), "v1");
    rsd.metadata.annotations = Some(map(&[
        ("team", "core"),
        ("serving.knative.dev/rollout-duration", "60s"),
        ("kubectl.kubernetes.io/last-applied-configuration", "{}"),
    ]));
    rsd.spec.template.spec = Some(Value::Object(Object::new()));
    rsd.spec.template.metadata = Some(TemplateMeta {
        labels: None,
        annotations: Some(map(&[("autoscaling.knative.dev/max-scale", "9")])),
    });
    let containers = || Ok(vec![ported("app", &[(Some("h2c"), 9080)])]);
    let config = plain(
        &build_configuration_spec(&rsd, "greeter-v1", "apps", "v1", Some(TEMPLATE), containers())
            .unwrap(),
    );
    assert_eq!(config["apiVersion"], "serving.knative.dev/v1");
    assert_eq!(config["kind"], "Configuration");
    assert_eq!(
        config["metadata"]["annotations"],
        json(
            r#"{
                "team": "core",
                "restate.dev/deployment": "greeter",
                "restate.dev/tag": "v1",
                "restate.dev/pod-template": "{\"spec\":{}}"
            }"#
        )
    );
    let template = &config["spec"]["template"]["metadata"];
    assert_eq!(template["labels"]["allow.restate.dev/c1"], "true");
    assert_eq!(template["annotations"]["autoscaling.knative.dev/min-scale"], "0");
    // what the template says has precedence
    assert_eq!(template["annotations"]["autoscaling.knative.dev/max-scale"], "9");

    assert!(matches!(
        build_configuration_spec(&rsd, "n", "apps", "v1", None, Err("bad".to_owned())),
        Err(Error::InvalidRestateConfig(t)) if t == "Failed to parse pod template spec: bad"
    ));
    rsd.spec.knative = None;
    assert!(matches!(
        build_configuration_spec(&rsd, "n", "apps", "v1", None, containers()),
        Err(Error::InvalidRestateConfig(t)) if t == "Missing knative spec"
    ));

    let owner = configuration(None).metadata;
    let route = plain(&build_route_spec(&rsd, "greeter-v1", "apps", "greeter-v1", &owner));
    assert_eq!(route["kind"], "Route");
    assert_eq!(route["metadata"]["ownerReferences"][0]["uid"], "config-uid");
    assert_eq!(
        route["metadata"]["annotations"]["serving.knative.dev/rollout-duration"],
        "60s"
    );
}

fn configuration(id: Option<&str>) -> Configuration {
    let mut metadata = ObjectMeta::empty();
    metadata.name = Some("greeter-v1".to_owned());
    metadata.namespace = Some("apps".to_owned());
    metadata.uid = Some("config-uid".to_owned());
    metadata.generation = Some(1);
    let mut annotations = map(&[("restate.dev/deployment", "greeter")]);
    if let Some(id) = id {
        annotations.insert("restate.dev/deployment-id".to_owned(), id.to_owned());
    }
    metadata.annotations = Some(annotations);
    Configuration {
        metadata,
        template_annotations: None,
        status: Some(ConfigurationStatus {
            observed_generation: Some(1),
            latest_created_revision_name: Some("greeter-v1-00001".to_owned()),
        }),
    }
}

fn ready(status: &str) -> Option<Vec<KnativeCondition>> {
    Some(vec![KnativeCondition {
        type_: "Ready".to_owned(),
        status: status.to_owned(),
        message: "m".to_owned(),
        reason: "r".to_owned(),
    }])
}

fn route(status: &str) -> Route {
    let mut metadata = ObjectMeta::empty();
    metadata.name = Some("greeter-v1".to_owned());
    Route {
        metadata,
        status: Some(RouteStatus {
            conditions: ready(status),
            traffic: Some(vec![Some("greeter-v1-00001".to_owned())]),
            url: Some("http://greeter-v1.apps.svc.cluster.local".to_owned()),
        }),
    }
}

fn revision() -> Revision {
    let mut metadata = ObjectMeta::empty();
    metadata.name = Some("greeter-v1-00001".to_owned());
    Revision {
        metadata,
        status: Some(RevisionStatus {
            conditions: ready("True"),
            desired_replicas: Some(1),
            actual_replicas: Some(1),
        }),
    }
}

#[test]
fn routes_and_revisions_are_waited_for() {
    assert!(check_route_ready(&route("True"), "greeter-v1-00001").is_ok());
    assert!(matches!(
        check_route_ready(&route("False"), "greeter-v1-00001"),
        Err(Error::RouteNotReady { .. })
    ));
    assert!(matches!(
        check_route_ready(&route("True"), "greeter-v1-00002"),
        Err(Error::RouteNotReady { .. })
    ));
    assert!(check_revision_ready(&revision()).is_ok());
    let mut unknown = revision();
    unknown.status = None;
    assert!(check_revision_ready(&unknown).is_err());
}

#[test]
fn a_recorded_id_is_not_registered_again() {
    assert!(matches!(
        register_or_lookup_deployment(&configuration(Some("dp_1")).metadata, &route("True")),
        Ok(DeploymentLookup::Known(id)) if id == "dp_1"
    ));
    assert!(matches!(
        register_or_lookup_deployment(&configuration(None).metadata, &route("True")),
        Ok(DeploymentLookup::Register(url)) if url == "http://greeter-v1.apps.svc.cluster.local/"
    ));
    let mut waiting = route("True");
    waiting.status.as_mut().unwrap().url = None;
    assert!(matches!(
        register_or_lookup_deployment(&configuration(None).metadata, &waiting),
        Err(Error::RouteNotReady { .. })
    ));

    assert!(registration_annotations(
        &configuration(Some("dp_1")).metadata,
        "dp_1",
        &at(NOW)
    )
    .is_none());
    let annotations =
        registration_annotations(&configuration(None).metadata, "dp_1", &at(0)).unwrap();
    assert_eq!(annotations.get("restate.dev/deployment-id").unwrap(), "dp_1");
    assert_eq!(annotations.get("restate.dev/registered-at").unwrap(), "1970-01-01T00:00:00+00:00");
}

#[test]
fn small_facts_of_configurations() {
    let mut config = configuration(None);
    assert_eq!(get_initial_scale(&config), 1);
    config.template_annotations = Some(map(&[("autoscaling.knative.dev/initial-scale", "3")]));
    assert_eq!(get_initial_scale(&config), 3);
    config.template_annotations = Some(map(&[("autoscaling.knative.dev/initial-scale", "x")]));
    assert_eq!(get_initial_scale(&config), 1);
    assert_eq!(
        parent_deployment(&config.metadata),
        Some(("apps".to_owned(), "greeter".to_owned()))
    );
    assert_eq!(parent_deployment(&ObjectMeta::empty()), None);
    let policy = configuration_cleanup_policy(&rsd(), CleanupMode::Rollout, at(NOW));
    assert_eq!(policy.drain_delay_seconds, 300);
    assert!(!policy.autoscaling);
    assert!(!policy.poll_while_draining);
}

#[test]
fn draining_configurations_are_not_polled_for() {
    let mut old = configuration(None).metadata;
    let mut annotations = map(&[("restate.dev/deployment-id", "dp_1")]);
    old.annotations = Some(annotations.duplicate());
    let policy = configuration_cleanup_policy(&rsd(), CleanupMode::Rollout, at(NOW));
    let mut pass = CleanupPass::new(policy);
    let plan = pass.decide(&old, None, false, &known(&[("dp_1", true)]));
    assert!(matches!(plan, VersionPlan::Keep { unschedule: false, .. }));
    let outcome = pass.finish();
    assert_eq!(outcome.blocking.len(), 1);
    assert_eq!(outcome.next_removal, None);

    // a removal that has been set is still looked at in time
    let mut pass = CleanupPass::new(policy);
    annotations.insert("restate.dev/remove-version-at".to_owned(), at(NOW + 9).to_rfc3339());
    old.annotations = Some(annotations);
    let plan = pass.decide(&old, None, false, &known(&[("dp_1", false)]));
    assert!(matches!(plan, VersionPlan::Wait));
    assert_eq!(pass.finish().next_removal, Some(at(NOW + 9)));
}

fn go_knative(
    rsd: &RestateDeployment,
    status: &mut RestateDeploymentStatus,
    stage: KnativeStage,
    event: KnativeEvent,
) -> (KnativeStage, KnativeCommand) {
    assert!(knative_expects(&stage, &event));
    knative_step(rsd, "greeter-v1", TEMPLATE, &at(NOW), status, stage, event)
}

#[test]
fn a_knative_version_is_rolled_out_and_registered() {
    let rsd = knative_rsd(Some("v1"));
    let mut status = no_status();
    let begin = KnativeEvent::Begin { existing: None };
    let (stage, command) = go_knative(&rsd, &mut status, KnativeStage::Start, begin);
    assert!(matches!(command, KnativeCommand::ApplyConfiguration));
    let applied = KnativeEvent::ConfigurationApplied { config: configuration(None) };
    let (stage, command) = go_knative(&rsd, &mut status, stage, applied);
    assert!(matches!(command, KnativeCommand::ApplyRoute));
    let routed = KnativeEvent::RouteApplied { route: route("True"), revision: Some(revision()) };
    let (stage, command) = go_knative(&rsd, &mut status, stage, routed);
    assert!(matches!(command, KnativeCommand::Register { .. }), "{command:?}");
    let registered = KnativeEvent::Registered { id: "dp_1".to_owned() };
    let (stage, command) = go_knative(&rsd, &mut status, stage, registered);
    assert!(matches!(command, KnativeCommand::Annotate { .. }));
    assert_eq!(status.deployment_id.as_deref(), Some("dp_1"));
    let (stage, command) = go_knative(&rsd, &mut status, stage, KnativeEvent::Done);
    assert!(matches!(command, KnativeCommand::AskUsage));
    let usage = KnativeEvent::Usage { deployments: known(&[("dp_1", true)]) };
    let (stage, command) = go_knative(&rsd, &mut status, stage, usage);
    assert!(matches!(command, KnativeCommand::CleanUp { .. }));
    let done = KnativeEvent::CleanedUp { next_removal: None };
    let (stage, command) = go_knative(&rsd, &mut status, stage, done);
    assert!(matches!(stage, KnativeStage::Finished));
    assert!(matches!(command, KnativeCommand::Finish(Ok(None))));
    let seen = status.knative.as_ref().unwrap();
    assert_eq!(seen.configuration_name.as_deref(), Some("greeter-v1"));
    assert_eq!(seen.latest_revision.as_deref(), Some("greeter-v1-00001"));
}

#[test]
fn an_unready_route_is_not_registered() {
    let rsd = knative_rsd(Some("v1"));
    let mut status = no_status();
    let stage = KnativeStage::ApplyingRoute { config: configuration(None) };
    let routed = KnativeEvent::RouteApplied { route: route("False"), revision: Some(revision()) };
    let (stage, command) = go_knative(&rsd, &mut status, stage, routed);
    assert!(matches!(stage, KnativeStage::Finished));
    assert!(matches!(
        command,
        KnativeCommand::Finish(Err(
            Error::RouteNotReady { .. } | Error::ConfigurationNotReady { .. }
        ))
    ));
}

#[test]
fn another_template_under_the_same_tag_is_a_collision() {
    let rsd = knative_rsd(None);
    let mut status = no_status();
    let mut existing = ObjectMeta::empty();
    existing.annotations = Some(map(&[("restate.dev/pod-template", "{}")]));
    let begin = KnativeEvent::Begin { existing: Some(existing) };
    let (_, command) = go_knative(&rsd, &mut status, KnativeStage::Start, begin);
    assert!(matches!(command, KnativeCommand::Finish(Err(Error::HashCollision))));
}

// cloud environments

fn environment() -> RestateCloudEnvironment {
    let mut metadata = ObjectMeta::empty();
    metadata.name = Some("env".to_owned());
    metadata.uid = Some("uid-9".to_owned());
    metadata.annotations = Some(map(&[
        ("team", "core"),
        ("kubectl.kubernetes.io/last-applied-configuration", "{}"),
    ]));
    RestateCloudEnvironment {
        metadata,
        spec: RestateCloudEnvironmentSpec {
            environment_id: "env_123".to_owned(),
            region: "us".to_owned(),
            signing_public_key: "publickeyv1_abc".to_owned(),
            authentication: Authentication {
                secret: SecretKeyRef { name: "tok".to_owned(), key: "k".to_owned() },
                secret_provider: None,
            },
            tunnel: None,
        },
        status: None,
    }
}

fn tunnel_spec() -> TunnelSpec {
    TunnelSpec {
        replicas: Some(2),
        image: Some("mine:1".to_owned()),
        image_pull_policy: None,
        env: Some(vec![EnvVar::plain("RUST_LOG", "debug")]),
        resources: None,
        dns_config: None,
        dns_policy: None,
        affinity: None,
        tolerations: None,
        node_selector: None,
        remote_proxy: Some(true),
    }
}

#[test]
fn a_tunnel_is_deployed_for_an_environment() {
    let mut rce = environment();
    let base = cloud::base_metadata(&rce, "operators");
    assert_eq!(base.name.as_deref(), Some("tunnel-env"));
    assert_eq!(base.namespace.as_deref(), Some("operators"));
    let deployment =
        plain(&tunnel::tunnel_deployment(&base, "operators/env", &rce.spec, "tunnel:latest"));
    assert!(deployment["metadata"]["annotations"]
        .get("kubectl.kubernetes.io/last-applied-configuration")
        .is_none());
    let pod = &deployment["spec"]["template"]["spec"];
    let container = &pod["containers"][0];
    assert_eq!(container["image"], "tunnel:latest");
    assert_eq!(container["ports"], json(r#"[{"name": "health", "containerPort": 9090}]"#));
    assert_eq!(
        container["resources"],
        json(
            r#"{
                "limits": {"cpu": "2", "memory": "2Gi"},
                "requests": {"cpu": "1", "memory": "1Gi"}
            }"#
        )
    );
    assert_eq!(container["env"].as_array().unwrap().len(), 9);
    assert_eq!(
        container["env"][5],
        json(r#"{"name": "RESTATE_REMOTE_PROXY", "value": "false"}"#)
    );
    assert_eq!(
        container["volumeMounts"],
        json(
            r#"[{
                "mountPath": "/restate-bearer-token",
                "name": "bearer-token",
                "subPath": "bearer-token",
                "readOnly": true
            }]"#
        )
    );
    assert_eq!(
        pod["volumes"],
        json(
            r#"[{
                "name": "bearer-token",
                "secret": {
                    "secretName": "tok",
                    "items": [{"key": "k", "path": "bearer-token"}]
                }
            }]"#
        )
    );
    assert_eq!(pod["terminationGracePeriodSeconds"], 310);

    rce.spec.tunnel = Some(tunnel_spec());
    rce.spec.authentication.secret_provider = Some(SecretProvider {
        secret_provider_class: "class".to_owned(),
        path: "token".to_owned(),
    });
    assert!(tunnel::remote_proxy(&rce.spec));
    let deployment =
        plain(&tunnel::tunnel_deployment(&base, "operators/env", &rce.spec, "tunnel:latest"));
    let pod = &deployment["spec"]["template"]["spec"];
    let container = &pod["containers"][0];
    assert_eq!(container["image"], "mine:1");
    assert_eq!(container["ports"].as_array().unwrap().len(), 3);
    assert_eq!(container["env"].as_array().unwrap().len(), 9);
    assert_eq!(container["env"][8], json(r#"{"name": "RUST_LOG", "value": "debug"}"#));
    assert_eq!(container["volumeMounts"][0]["subPath"], "token");
    assert_eq!(
        pod["volumes"][0]["csi"],
        json(
            r#"{
                "driver": "secrets-store.csi.k8s.io",
                "readOnly": true,
                "volumeAttributes": {"secretProviderClass": "class"}
            }"#
        )
    );
    let (whole, front) = cloud::reconcile(&rce, "operators", "tunnel:latest");
    let uid = plain(&whole)["spec"]["template"]["spec"]["containers"][0]["env"][0].clone();
    assert_eq!(uid, json(r#"{"name": "RESTATE_TUNNEL_NAME", "value": "uid-9"}"#));
    assert_eq!(plain(&front), plain(&tunnel::tunnel_service(&base, true)));
    let service = plain(&tunnel::tunnel_service(&base, true));
    assert_eq!(service["spec"]["ports"].as_array().unwrap().len(), 3);
    assert_eq!(
        service["spec"]["selector"],
        deployment["spec"]["selector"]["matchLabels"]
    );
    let service = plain(&tunnel::tunnel_service(&base, false));
    assert_eq!(service["spec"]["ports"], json(r#"[{"port": 9090, "name": "health"}]"#));
}

#[test]
fn a_resumed_environment_says_so() {
    let mut rce = environment();
    let suspended = cloud::reconcile_suspended(&rce, at(NOW));
    assert_eq!(suspended.reconciliation, Some(ReconciliationState::Disabled));
    rce.status = Some(suspended);
    let (status, result) = cloud::reconcile_status(&rce, Err(Error::HashCollision), at(NOW));
    assert!(result.is_err());
    assert_eq!(status.reconciliation, Some(ReconciliationState::ResumingReconciliation));
    rce.status = Some(RestateCloudEnvironmentStatus {
        conditions: status.conditions,
        reconciliation: status.reconciliation,
    });
    let (status, result) = cloud::reconcile_status(&rce, Ok(()), at(NOW));
    assert!(matches!(result, Ok(Action::Requeue(d)) if d == Duration::from_secs(300)));
    assert_eq!(status.reconciliation, Some(ReconciliationState::Reconciling));
    let conditions = status.conditions.unwrap();
    assert_eq!(conditions.len(), 1);
    assert_eq!(conditions[0].reason.as_deref(), Some("Reconciled"));
}

// services

#[test]
fn a_service_waits_for_its_cluster() {
    let mut metadata = ObjectMeta::empty();
    metadata.name = Some("greeter".to_owned());
    let rs = RestateService { metadata, replicas: Some(3), cluster_ref: "c1".to_owned() };
    let ready = |status: &str| {
        Ok(Some(vec![Condition {
            last_transition_time: None,
            message: None,
            reason: None,
            status: status.to_owned(),
            type_: "Ready".to_owned(),
        }]))
    };
    assert!(check_cluster(&rs, ready("True")).is_ok());
    match check_cluster(&rs, ready("False")) {
        Err(Error::ServiceNotReady { message, reason, requeue_after }) => {
            assert_eq!(message, "Referenced Restate cluster 'c1' is not ready");
            assert_eq!(reason, "ClusterNotReady");
            assert_eq!(requeue_after, Some(Duration::from_secs(30)));
        }
        other => panic!("{other:?}"),
    }
    assert!(check_cluster(&rs, Ok(None)).is_err());
    let missing = KubeFailure {
        kind: KubeFailureKind::Api(404),
        reason: "NotFound".to_owned(),
        message: "gone".to_owned(),
    };
    match check_cluster(&rs, Err(missing)) {
        Err(Error::InvalidRestateConfig(t)) => {
            assert_eq!(t, "Referenced Restate cluster 'c1' not found: gone")
        }
        other => panic!("{other:?}"),
    }
    let (status, action) = update_status(&rs, at(NOW));
    assert_eq!(action, Action::Requeue(Duration::from_secs(300)));
    assert_eq!(status.unavailable_replicas, Some(3));
    assert_eq!(status.observed_generation, Some(0));
    let conditions = status.conditions.unwrap();
    assert_eq!(conditions[0].reason.as_deref(), Some("Initializing"));
}
