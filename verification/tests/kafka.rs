//! The Kafka integration.

use restate_operator::control::Action;
use restate_operator::error::{Error, KubeFailure, KubeFailureKind};
use restate_operator::json::{Object, Value};
use restate_operator::meta::ObjectMeta;
use restate_operator::restatecloudenvironment::resource::SecretKeyRef;
use restate_operator::restatedeployment::resource::TemplateMeta;
use restate_operator::restatekafkaintegration::config::{config_hash, config_map};
use restate_operator::restatekafkaintegration::controller::{
    error_policy, error_reason, ready_condition, reconcile, reconcile_status, validate_auth_token,
    DeploymentStatus, KafkaOutcome, KafkaStep,
};
use restate_operator::restatekafkaintegration::deployment::{
    apply_template_overlay, base_deployment, label_selector_string, METRICS_PORT,
};
use restate_operator::restatekafkaintegration::merge::{merge_key, strategic_merge};
use restate_operator::restatekafkaintegration::resource::{
    ConfigRef, ConfigSource, IngressRef, KafkaRestateSpec, RestateKafkaIntegration,
    RestateKafkaIntegrationSpec, TemplateOverlay,
};
use restate_operator::string_map::StringMap;
use restate_operator::time::{Duration, Timestamp};

fn plain(value: &Value) -> serde_json::Value {
    match value {
        Value::Null => serde_json::Value::Null,
        Value::Bool(b) => serde_json::Value::Bool(*b),
        Value::Int(i) => serde_json::Value::from(*i),
        Value::Decimal(text) => serde_json::from_str(text).unwrap(),
        Value::Text(text) => serde_json::Value::from(text.as_str()),
        Value::Array(items) => serde_json::Value::Array(items.iter().map(plain).collect()),
        Value::Object(object) => {
            let mut out = serde_json::Map::new();
            for i in 0..object.len() {
                let (name, item) = object.entry(i);
                out.insert(name.clone(), plain(item));
            }
            serde_json::Value::Object(out)
        }
    }
}

fn convert(value: serde_json::Value) -> Value {
    match value {
        serde_json::Value::Null => Value::Null,
        serde_json::Value::Bool(b) => Value::Bool(b),
        serde_json::Value::Number(n) => match n.as_i64() {
            Some(i) => Value::Int(i),
            None => Value::Decimal(n.to_string()),
        },
        serde_json::Value::String(s) => Value::Text(s),
        serde_json::Value::Array(items) => Value::Array(items.into_iter().map(convert).collect()),
        serde_json::Value::Object(entries) => {
            let mut object = Object::new();
            for (name, item) in entries {
                object.insert(name, convert(item));
            }
            Value::Object(object)
        }
    }
}

fn json(text: &str) -> serde_json::Value {
    serde_json::from_str(text).unwrap()
}

fn value(text: &str) -> Value {
    convert(json(text))
}

fn merged(base: &str, overlay: &str) -> serde_json::Value {
    plain(&strategic_merge(value(base), &value(overlay)))
}

fn at(seconds: i128) -> Timestamp {
    Timestamp::from_nanos(seconds * 1_000_000_000).unwrap()
}

#[test]
fn scalars_and_missing_keys_are_taken_from_the_overlay() {
    assert_eq!(
        merged(r#"{"replicas": 1, "paused": false}"#, r#"{"replicas": 3, "minReadySeconds": 5}"#),
        json(r#"{"replicas": 3, "paused": false, "minReadySeconds": 5}"#)
    );
}

#[test]
fn objects_merge_recursively() {
    assert_eq!(
        merged(
            r#"{"securityContext": {"runAsUser": 1000, "fsGroup": 2000}}"#,
            r#"{"securityContext": {"runAsUser": 65534}}"#
        ),
        json(r#"{"securityContext": {"runAsUser": 65534, "fsGroup": 2000}}"#)
    );
}

#[test]
fn null_removes_a_generated_field() {
    assert_eq!(
        merged(
            r#"{"automountServiceAccountToken": false, "securityContext": {"runAsUser": 1000}}"#,
            r#"{"securityContext": null}"#
        ),
        json(r#"{"automountServiceAccountToken": false}"#)
    );
}

#[test]
fn containers_merge_by_name_without_dropping_the_others() {
    assert_eq!(
        merged(
            r#"{"containers": [
                {"name": "kafka-integration", "image": "upstream:1", "ports": [{"containerPort": 9464, "name": "metrics"}]}
            ]}"#,
            r#"{"containers": [
                {"name": "kafka-integration", "image": "mine:2"},
                {"name": "sidecar", "image": "sidecar:1"}
            ]}"#
        ),
        json(
            r#"{"containers": [
                {"name": "kafka-integration", "image": "mine:2", "ports": [{"containerPort": 9464, "name": "metrics"}]},
                {"name": "sidecar", "image": "sidecar:1"}
            ]}"#
        )
    );
}

#[test]
fn env_merges_by_name() {
    assert_eq!(
        merged(
            r#"{"containers": [{"name": "c", "env": [
                {"name": "RESTATE_INGRESS_URL", "value": "http://restate:8080/"},
                {"name": "CONFIG_FILE", "value": "/etc/config.properties"}
            ]}]}"#,
            r#"{"containers": [{"name": "c", "env": [
                {"name": "CONFIG_FILE", "value": "/somewhere/else.properties"},
                {"name": "JDK_JAVA_OPTIONS", "value": "-Xmx512m"}
            ]}]}"#
        ),
        json(
            r#"{"containers": [{"name": "c", "env": [
                {"name": "RESTATE_INGRESS_URL", "value": "http://restate:8080/"},
                {"name": "CONFIG_FILE", "value": "/somewhere/else.properties"},
                {"name": "JDK_JAVA_OPTIONS", "value": "-Xmx512m"}
            ]}]}"#
        )
    );
}

#[test]
fn volumes_and_mounts_merge_by_their_own_keys() {
    assert_eq!(
        merged(
            r#"{
                "volumes": [{"name": "config", "configMap": {"name": "generated"}}],
                "containers": [{"name": "c", "volumeMounts": [
                    {"name": "config", "mountPath": "/etc/restate-kafka/config.properties", "readOnly": true}
                ]}]
            }"#,
            r#"{
                "volumes": [{"name": "extra-libs", "emptyDir": {}}],
                "containers": [{"name": "c", "volumeMounts": [
                    {"mountPath": "/app/extra-libs", "name": "extra-libs"}
                ]}]
            }"#
        ),
        json(
            r#"{
                "volumes": [
                    {"name": "config", "configMap": {"name": "generated"}},
                    {"name": "extra-libs", "emptyDir": {}}
                ],
                "containers": [{"name": "c", "volumeMounts": [
                    {"name": "config", "mountPath": "/etc/restate-kafka/config.properties", "readOnly": true},
                    {"mountPath": "/app/extra-libs", "name": "extra-libs"}
                ]}]
            }"#
        )
    );
}

#[test]
fn unknown_lists_are_replaced_wholesale() {
    assert_eq!(
        merged(
            r#"{"tolerations": [{"key": "a", "operator": "Exists"}]}"#,
            r#"{"tolerations": [{"key": "b", "operator": "Exists"}]}"#
        ),
        json(r#"{"tolerations": [{"key": "b", "operator": "Exists"}]}"#)
    );
}

#[test]
fn a_list_entry_without_the_merge_key_is_appended() {
    assert_eq!(
        merged(
            r#"{"containers": [{"name": "c", "image": "i"}]}"#,
            r#"{"containers": [{"image": "anonymous"}]}"#
        ),
        json(r#"{"containers": [{"name": "c", "image": "i"}, {"image": "anonymous"}]}"#)
    );
}

#[test]
fn a_list_replacing_a_scalar_just_wins() {
    assert_eq!(merged(r#"{"env": "nonsense"}"#, r#"{"env": []}"#), json(r#"{"env": []}"#));
}

#[test]
fn lists_have_their_own_merge_keys() {
    assert_eq!(merge_key("containers"), Some("name"));
    assert_eq!(merge_key("volumeMounts"), Some("mountPath"));
    assert_eq!(merge_key("ports"), Some("containerPort"));
    assert_eq!(merge_key("tolerations"), None);
}

// readiness

fn status(available: Option<i32>) -> DeploymentStatus {
    DeploymentStatus {
        replicas: None,
        ready_replicas: None,
        available_replicas: available,
        unavailable_replicas: None,
    }
}

#[test]
fn one_available_replica_is_ready() {
    let condition = ready_condition(2, Some(status(Some(1))));
    assert_eq!(condition.status, "True");
    assert_eq!(condition.reason, "Available");
    assert_eq!(condition.message, "1/2 replicas available");
}

#[test]
fn no_available_replicas_is_not_ready() {
    let condition = ready_condition(2, Some(status(Some(0))));
    assert_eq!(condition.status, "False");
    assert_eq!(condition.reason, "DeploymentNotAvailable");
}

#[test]
fn a_missing_status_is_not_ready() {
    assert_eq!(ready_condition(1, None).status, "False");
}

#[test]
fn scaled_to_zero_is_ready() {
    let condition = ready_condition(0, Some(status(None)));
    assert_eq!(condition.status, "True");
    assert_eq!(condition.reason, "ScaledToZero");
}

#[test]
fn error_reasons_are_specific_where_it_helps() {
    assert_eq!(
        error_reason(&Error::InvalidRestateConfig("bad".to_owned())),
        "InvalidConfiguration"
    );
    assert_eq!(
        error_reason(&Error::RestateCloudEnvironmentNotFound("env".to_owned())),
        "RestateCloudEnvironmentNotFound"
    );
    assert_eq!(error_reason(&Error::InvalidBearerToken), "FailedReconcile");
}

fn ingress(cluster: Option<&str>, cloud: Option<&str>, url: Option<&str>) -> IngressRef {
    IngressRef {
        cluster: cluster.map(|s| s.to_owned()),
        cloud: cloud.map(|s| s.to_owned()),
        url: url.map(|s| s.to_owned()),
    }
}

fn spec(ingress: IngressRef) -> RestateKafkaIntegrationSpec {
    RestateKafkaIntegrationSpec {
        replicas: 1,
        image: None,
        image_pull_policy: None,
        restate: KafkaRestateSpec { ingress, auth_token: None },
        config: None,
        config_from: None,
        template: None,
    }
}

fn token() -> Option<SecretKeyRef> {
    Some(SecretKeyRef { name: "tok".to_owned(), key: "k".to_owned() })
}

#[test]
fn cloud_without_an_auth_token_is_rejected() {
    let err = validate_auth_token(&spec(ingress(None, Some("my-env"), None)))
        .expect_err("cloud needs a token");
    assert!(matches!(err, Error::InvalidRestateConfig(message) if message.contains("authToken")));
}

#[test]
fn cloud_with_an_auth_token_is_accepted() {
    let mut spec = spec(ingress(None, Some("my-env"), None));
    spec.restate.auth_token = token();
    assert!(validate_auth_token(&spec).is_ok());
}

#[test]
fn other_references_do_not_need_an_auth_token() {
    for ingress in [
        ingress(Some("my-cluster"), None, None),
        ingress(None, None, Some("http://restate:8080/")),
    ] {
        assert!(validate_auth_token(&spec(ingress)).is_ok());
    }
}

#[test]
fn error_policy_requeues() {
    let action = error_policy(&Error::InvalidRestateConfig("bad".to_owned()));
    assert_eq!(action, Action::Requeue(Duration::from_secs(30)));
}

// configuration

fn meta() -> ObjectMeta {
    let mut meta = ObjectMeta::empty();
    meta.name = Some("orders".to_owned());
    meta.namespace = Some("apps".to_owned());
    meta
}

#[test]
fn config_hash_is_stable_and_content_addressed() {
    let a = config_hash("bootstrap.servers=broker:9092\n");
    assert_eq!(a, config_hash("bootstrap.servers=broker:9092\n"));
    assert_ne!(a, config_hash("bootstrap.servers=broker:9093\n"));
    assert_eq!(a.len(), 16);
}

#[test]
fn a_known_configuration_has_a_known_hash() {
    assert_eq!(config_hash("group.id=orders\n"), "c3cb3cbf3a7669fe");
}

#[test]
fn config_map_carries_the_config_under_the_well_known_key() {
    let cm = config_map(&meta(), "group.id=orders\n");
    assert_eq!(cm.metadata.name.as_deref(), Some("orders"));
    assert_eq!(
        cm.data.unwrap().get("config.properties").map(String::as_str),
        Some("group.id=orders\n")
    );
}

// the deployment

fn minimal() -> RestateKafkaIntegrationSpec {
    spec(ingress(Some("my-cluster"), None, None))
}

fn with_template(overlay: &str) -> RestateKafkaIntegrationSpec {
    let mut spec = minimal();
    spec.template = Some(TemplateOverlay { metadata: None, spec: Some(value(overlay)) });
    spec
}

fn built(spec: &RestateKafkaIntegrationSpec) -> serde_json::Value {
    let deployment = base_deployment(
        &meta(),
        spec,
        "http://restate.my-cluster.svc.cluster.local:8080/",
        "default-image:1",
    )
    .expect("builds");
    plain(&apply_template_overlay(deployment, &meta(), spec).expect("overlay applies"))
}

fn container(deployment: &serde_json::Value) -> &serde_json::Value {
    &deployment["spec"]["template"]["spec"]["containers"][0]
}

#[test]
fn the_ingress_url_and_defaults_are_set() {
    let deployment = built(&minimal());
    let container = container(&deployment);

    assert_eq!(container["name"], "kafka-integration");
    assert_eq!(container["image"], "default-image:1");
    assert_eq!(
        container["env"],
        json(
            r#"[{
                "name": "RESTATE_INGRESS_URL",
                "value": "http://restate.my-cluster.svc.cluster.local:8080/"
            }]"#
        )
    );
    // no config source, so no CONFIG_FILE, no volume and no mount
    assert!(container.get("volumeMounts").is_none());
    assert!(deployment["spec"]["template"]["spec"].get("volumes").is_none());
    assert_eq!(deployment["spec"]["replicas"], 1);
    assert_eq!(deployment["spec"]["strategy"]["rollingUpdate"]["maxSurge"], 0);
}

#[test]
fn the_cluster_reference_labels_the_pods_for_network_policies() {
    let deployment = built(&minimal());
    assert_eq!(
        deployment["spec"]["template"]["metadata"]["labels"]["allow.restate.dev/my-cluster"],
        "true"
    );
}

#[test]
fn a_url_reference_does_not_label_the_pods() {
    let deployment = built(&spec(ingress(None, None, Some("https://restate.example:8080/"))));
    let labels = &deployment["spec"]["template"]["metadata"]["labels"];
    assert!(labels.get("allow.restate.dev/my-cluster").is_none());
}

#[test]
fn an_auth_token_is_referenced_not_read() {
    let mut spec = spec(ingress(None, Some("my-env"), None));
    spec.restate.auth_token = token();
    let deployment = built(&spec);
    let variables = &container(&deployment)["env"];
    assert_eq!(
        variables[1],
        json(
            r#"{
                "name": "RESTATE_AUTH_TOKEN",
                "valueFrom": {"secretKeyRef": {"name": "tok", "key": "k"}}
            }"#
        )
    );
}

#[test]
fn inline_config_mounts_the_operators_configmap_and_hashes_it() {
    let mut spec = minimal();
    spec.config = Some("group.id=orders\n".to_owned());
    let deployment = built(&spec);
    let container = container(&deployment);

    assert_eq!(
        container["env"][1],
        json(r#"{"name": "CONFIG_FILE", "value": "/etc/restate-kafka/config.properties"}"#)
    );
    assert_eq!(
        container["volumeMounts"],
        json(
            r#"[{
                "name": "config",
                "mountPath": "/etc/restate-kafka/config.properties",
                "subPath": "config.properties",
                "readOnly": true
            }]"#
        )
    );
    assert_eq!(
        deployment["spec"]["template"]["spec"]["volumes"],
        json(
            r#"[{
                "name": "config",
                "configMap": {
                    "name": "orders",
                    "items": [{"key": "config.properties", "path": "config.properties"}]
                }
            }]"#
        )
    );
    assert_eq!(
        deployment["spec"]["template"]["metadata"]["annotations"]["restate.dev/config-hash"],
        config_hash("group.id=orders\n")
    );
}

fn config_ref(name: &str, key: Option<&str>) -> Option<ConfigRef> {
    Some(ConfigRef { name: name.to_owned(), key: key.map(|k| k.to_owned()) })
}

#[test]
fn config_from_a_secret_mounts_the_users_secret_and_is_not_hashed() {
    let mut spec = minimal();
    spec.config_from = Some(ConfigSource {
        secret_ref: config_ref("kafka-config", Some("kafka.properties")),
        config_map_ref: None,
    });
    let deployment = built(&spec);

    assert_eq!(
        deployment["spec"]["template"]["spec"]["volumes"],
        json(
            r#"[{
                "name": "config",
                "secret": {
                    "secretName": "kafka-config",
                    "items": [{"key": "kafka.properties", "path": "config.properties"}]
                }
            }]"#
        )
    );
    // we never read the Secret, so we cannot hash its contents
    assert!(deployment["spec"]["template"]["metadata"]["annotations"]
        .get("restate.dev/config-hash")
        .is_none());
}

#[test]
fn config_from_a_configmap_defaults_the_key() {
    let mut spec = minimal();
    spec.config_from = Some(ConfigSource {
        secret_ref: None,
        config_map_ref: config_ref("kafka-config", None),
    });
    let deployment = built(&spec);
    assert_eq!(
        deployment["spec"]["template"]["spec"]["volumes"][0]["configMap"],
        json(
            r#"{
                "name": "kafka-config",
                "items": [{"key": "config.properties", "path": "config.properties"}]
            }"#
        )
    );
}

#[test]
fn both_config_sources_is_rejected() {
    let mut spec = minimal();
    spec.config = Some("a=b\n".to_owned());
    spec.config_from =
        Some(ConfigSource { secret_ref: config_ref("s", None), config_map_ref: None });
    let err = base_deployment(&meta(), &spec, "http://restate:8080/", "img").expect_err("both");
    assert!(matches!(err, Error::InvalidRestateConfig(_)));
}

#[test]
fn a_config_source_names_one_object() {
    let mut spec = minimal();
    spec.config_from = Some(ConfigSource { secret_ref: None, config_map_ref: None });
    let err = base_deployment(&meta(), &spec, "http://restate:8080/", "img").expect_err("none");
    assert!(matches!(err, Error::InvalidRestateConfig(_)));
}

#[test]
fn the_template_overlay_reaches_the_operators_container() {
    let deployment = built(&with_template(
        r#"{
            "containers": [{
                "name": "kafka-integration",
                "image": "mine:2",
                "resources": {"requests": {"cpu": "500m"}},
                "env": [{"name": "JDK_JAVA_OPTIONS", "value": "-Xmx512m"}]
            }],
            "serviceAccountName": "kafka",
            "nodeSelector": {"kubernetes.io/arch": "arm64"}
        }"#,
    ));
    let container = container(&deployment);

    assert_eq!(container["image"], "mine:2");
    assert_eq!(container["resources"]["requests"]["cpu"], "500m");
    // the operator's own env survives, and the user's is appended
    assert_eq!(container["env"][0]["name"], "RESTATE_INGRESS_URL");
    assert_eq!(container["env"][1]["name"], "JDK_JAVA_OPTIONS");
    // the generated port is untouched
    assert_eq!(container["ports"][0]["containerPort"], METRICS_PORT);
    assert_eq!(deployment["spec"]["template"]["spec"]["serviceAccountName"], "kafka");
}

#[test]
fn the_template_overlay_can_add_a_sidecar_and_a_probe() {
    let deployment = built(&with_template(
        r#"{
            "containers": [
                {"name": "kafka-integration", "readinessProbe": {"tcpSocket": {"port": 9464}}},
                {"name": "sidecar", "image": "sidecar:1"}
            ]
        }"#,
    ));

    let containers = &deployment["spec"]["template"]["spec"]["containers"];
    assert_eq!(containers.as_array().unwrap().len(), 2);
    assert_eq!(containers[0]["readinessProbe"]["tcpSocket"]["port"], 9464);
    assert_eq!(containers[1]["name"], "sidecar");
}

#[test]
fn the_template_overlay_cannot_break_the_selector() {
    let mut labels = StringMap::new();
    labels.insert("app.kubernetes.io/name".to_owned(), "something-else".to_owned());
    labels.insert("team".to_owned(), "payments".to_owned());
    let mut spec = minimal();
    spec.template = Some(TemplateOverlay {
        metadata: Some(TemplateMeta { labels: Some(labels), annotations: None }),
        spec: None,
    });
    let deployment = built(&spec);
    let labels = &deployment["spec"]["template"]["metadata"]["labels"];

    assert_eq!(labels["app.kubernetes.io/name"], "restate-kafka-integration");
    assert_eq!(labels["app.kubernetes.io/instance"], "orders");
    // unrelated labels the user added are kept
    assert_eq!(labels["team"], "payments");
}

#[test]
fn the_template_overlay_can_remove_a_generated_field() {
    let deployment = built(&with_template(r#"{"securityContext": null}"#));
    assert!(deployment["spec"]["template"]["spec"].get("securityContext").is_none());
    // which is there otherwise
    assert!(built(&minimal())["spec"]["template"]["spec"].get("securityContext").is_some());
}

#[test]
fn the_label_selector_string_matches_the_selector() {
    assert_eq!(
        label_selector_string("orders"),
        "app.kubernetes.io/instance=orders,app.kubernetes.io/name=restate-kafka-integration"
    );
}

// reconciling

fn integration(spec: RestateKafkaIntegrationSpec) -> RestateKafkaIntegration {
    let mut metadata = meta();
    metadata.uid = Some("uid-1".to_owned());
    metadata.generation = Some(4);
    RestateKafkaIntegration { metadata, spec, status: None }
}

#[test]
fn a_stale_configuration_goes_last() {
    let url = || Ok("http://restate:8080/".to_owned());
    let steps = reconcile(&integration(minimal()), "apps", url(), "img").unwrap();
    assert_eq!(steps.len(), 2);
    assert!(matches!(steps[0], KafkaStep::ApplyDeployment(_)));
    assert!(matches!(steps[1], KafkaStep::DeleteConfigMap));

    let mut spec = minimal();
    spec.config = Some("a=b\n".to_owned());
    let steps = reconcile(&integration(spec), "apps", url(), "img").unwrap();
    assert_eq!(steps.len(), 2);
    assert!(matches!(steps[0], KafkaStep::ApplyConfigMap(_)));
    assert!(matches!(steps[1], KafkaStep::ApplyDeployment(_)));

    assert!(matches!(
        reconcile(
            &integration(minimal()),
            "apps",
            Err(Error::RestateCloudEnvironmentNotFound("e".to_owned())),
            "img"
        ),
        Err(Error::RestateCloudEnvironmentNotFound(_))
    ));
}

#[test]
fn the_status_follows_the_deployment() {
    let rki = integration(minimal());
    let outcome = KafkaOutcome {
        deployment: Some(DeploymentStatus {
            replicas: Some(1),
            ready_replicas: Some(1),
            available_replicas: Some(1),
            unavailable_replicas: None,
        }),
        ingress_url: "http://restate:8080/".to_owned(),
    };
    let (status, result) = reconcile_status(&rki, Ok(outcome), at(100));
    assert!(matches!(result, Ok(Action::Requeue(d)) if d == Duration::from_secs(300)));
    assert_eq!(status.replicas, 1);
    assert_eq!(status.observed_generation, Some(4));
    assert_eq!(status.ingress_url.as_deref(), Some("http://restate:8080/"));
    assert_eq!(status.conditions.as_ref().unwrap()[0].status, "True");

    let failure = KubeFailure {
        kind: KubeFailureKind::Api(500),
        reason: String::new(),
        message: "boom".to_owned(),
    };
    let (status, result) = reconcile_status(&rki, Err(Error::KubeError(failure)), at(100));
    assert!(matches!(result, Err(Error::KubeError(_))));
    let ready = &status.conditions.as_ref().unwrap()[0];
    assert_eq!(ready.status, "False");
    assert_eq!(ready.reason.as_deref(), Some("ApiCallFailed"));
    assert_eq!(ready.message.as_deref(), Some("Kube Error: boom"));
}
