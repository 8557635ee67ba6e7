//! The objects that make up a cluster.

use restate_operator::control::Condition;
use restate_operator::error::{Error, KubeFailure, KubeFailureKind};
use restate_operator::json::{Object, Value};
use restate_operator::manifest::EnvVar;
use restate_operator::meta::ObjectMeta;
use restate_operator::restatecluster::canary::{
    canary_config, canary_job_spec, check_canary_conditions, check_pia, run_canary_job,
    CanaryConfig, CanaryKind, CanaryResult, CanaryVerdict,
};
use restate_operator::restatecluster::compute::{
    judge_iam_policy_member, judge_pod_identity_association, reconcile_compute,
};
use restate_operator::restatecluster::objects::{
    is_iam_policy_member_ready, is_pod_identity_association_synced,
    parse_gcp_project_from_sa_email, pvc_patch, restate_cluster_service, restate_configmap,
    restate_iam_policy_member, restate_pod_disruption_budget, restate_pod_identity_association,
    restate_security_group_policy, restate_service, restate_service_account, ConditionedStatus,
};
use restate_operator::restatecluster::resource::{
    OperatorSettings, RestateClusterCompute, RestateClusterSecurity, RestateClusterSpec,
    RestateClusterStorage, SigningKey, TrustedCACert,
};
use restate_operator::restatecluster::statefulset;
use restate_operator::restatecluster::statefulset::{
    hash_trusted_ca_cert_refs, restate_statefulset, trusted_ca_init_container,
    COMBINED_CA_VOLUME, SYSTEM_CA_BUNDLE,
};
use restate_operator::restatecluster::steps::{ClusterStep, OwnedKind};
use restate_operator::string_map::StringMap;

fn plain(value: &Value) -> serde_json::Value {
    match value {
        Value::Null => serde_json::Value::Null,
        Value::Bool(b) => serde_json::Value::Bool(*b),
        Value::Int(i) => serde_json::Value::from(*i),
        Value::Decimal(text) => serde_json::from_str(text).unwrap(),
        Value::Text(text) => serde_json::Value::from(text.as_str()),
        Value::Array(items) => serde_json::Value::Array(items.iter().map(plain).collect()),
        Value::Object(object) => {
            let mut out = serde_json::Map::new();
            for i in 0..object.len() {
                let (name, item) = object.entry(i);
                out.insert(name.clone(), plain(item));
            }
            serde_json::Value::Object(out)
        }
    }
}

fn json(text: &str) -> serde_json::Value {
    serde_json::from_str(text).unwrap()
}

fn map(entries: &[(&str, &str)]) -> StringMap {
    let mut map = StringMap::new();
    for (k, v) in entries {
        map.insert(k.to_string(), v.to_string());
    }
    map
}

fn condition(type_: &str, status: &str) -> Condition {
    Condition {
        last_transition_time: None,
        message: None,
        reason: None,
        status: status.to_owned(),
        type_: type_.to_owned(),
    }
}

fn status_with(type_: &str, status: &str) -> Option<ConditionedStatus> {
    Some(ConditionedStatus { conditions: Some(vec![condition(type_, status)]) })
}

#[test]
fn test_parse_gcp_project_from_sa_email() {
    assert_eq!(
        parse_gcp_project_from_sa_email("restate@my-project.iam.gserviceaccount.com").as_deref(),
        Some("my-project")
    );
}

#[test]
fn test_parse_gcp_project_from_sa_email_complex_project() {
    assert_eq!(
        parse_gcp_project_from_sa_email("sa@my-org-prod-123.iam.gserviceaccount.com").as_deref(),
        Some("my-org-prod-123")
    );
}

#[test]
fn test_parse_gcp_project_from_sa_email_no_at() {
    assert_eq!(parse_gcp_project_from_sa_email("not-an-email"), None);
}

#[test]
fn test_parse_gcp_project_from_sa_email_wrong_suffix() {
    assert_eq!(parse_gcp_project_from_sa_email("sa@project.example.com"), None);
}

#[test]
fn test_parse_gcp_project_from_sa_email_empty() {
    assert_eq!(parse_gcp_project_from_sa_email(""), None);
}

#[test]
fn the_project_ends_at_the_next_at() {
    assert_eq!(parse_gcp_project_from_sa_email("a@b@p.iam.gserviceaccount.com"), None);
    assert_eq!(
        parse_gcp_project_from_sa_email("a@p.iam.gserviceaccount.com@c").as_deref(),
        Some("p")
    );
}

#[test]
fn test_is_iam_policy_member_ready_true() {
    assert!(is_iam_policy_member_ready(&status_with("Ready", "True")));
}

#[test]
fn test_is_iam_policy_member_ready_false() {
    let mut ready = condition("Ready", "False");
    ready.message = Some("error".to_owned());
    let status = Some(ConditionedStatus { conditions: Some(vec![ready]) });
    assert!(!is_iam_policy_member_ready(&status));
}

#[test]
fn test_is_iam_policy_member_ready_no_conditions() {
    assert!(!is_iam_policy_member_ready(&Some(ConditionedStatus { conditions: None })));
}

#[test]
fn test_is_iam_policy_member_ready_no_status() {
    assert!(!is_iam_policy_member_ready(&None));
}

#[test]
fn test_is_iam_policy_member_ready_wrong_condition_type() {
    assert!(!is_iam_policy_member_ready(&status_with("Reconciling", "True")));
}

fn test_base_metadata() -> ObjectMeta {
    let mut meta = ObjectMeta::empty();
    meta.name = Some("test-cluster".to_owned());
    meta.namespace = Some("test-ns".to_owned());
    meta.uid = Some("test-uid".to_owned());
    meta
}

#[test]
fn test_restate_iam_policy_member_member_format() {
    let ipm = plain(&restate_iam_policy_member(
        "my-namespace",
        &test_base_metadata(),
        "my-project",
        "restate@my-project.iam.gserviceaccount.com",
    ));
    assert_eq!(
        ipm["spec"]["member"],
        "serviceAccount:my-project.svc.id.goog[my-namespace/restate]"
    );
}

#[test]
fn test_restate_iam_policy_member_role() {
    let ipm = plain(&restate_iam_policy_member(
        "ns",
        &test_base_metadata(),
        "proj",
        "sa@proj.iam.gserviceaccount.com",
    ));
    assert_eq!(ipm["spec"]["role"], "roles/iam.workloadIdentityUser");
}

#[test]
fn test_restate_iam_policy_member_resource_ref() {
    let ipm = plain(&restate_iam_policy_member(
        "ns",
        &test_base_metadata(),
        "proj",
        "sa@proj.iam.gserviceaccount.com",
    ));
    assert_eq!(ipm["spec"]["resourceRef"]["kind"], "IAMServiceAccount");
    assert_eq!(
        ipm["spec"]["resourceRef"]["external"],
        "projects/proj/serviceAccounts/sa@proj.iam.gserviceaccount.com"
    );
}

#[test]
fn test_restate_iam_policy_member_project_annotation() {
    let ipm = plain(&restate_iam_policy_member(
        "ns",
        &test_base_metadata(),
        "my-project",
        "sa@my-project.iam.gserviceaccount.com",
    ));
    assert_eq!(
        ipm["metadata"]["annotations"]["cnrm.cloud.google.com/project-id"],
        "my-project"
    );
}

#[test]
fn test_check_canary_conditions_complete() {
    assert!(matches!(
        check_canary_conditions(&status_with("Complete", "True")),
        CanaryResult::Complete
    ));
}

#[test]
fn test_check_canary_conditions_failed() {
    assert!(matches!(
        check_canary_conditions(&status_with("Failed", "True")),
        CanaryResult::Failed
    ));
}

#[test]
fn test_check_canary_conditions_pending_no_conditions() {
    let none: Option<ConditionedStatus> = None;
    assert!(matches!(check_canary_conditions(&none), CanaryResult::Pending));
    let empty = Some(ConditionedStatus { conditions: None });
    assert!(matches!(check_canary_conditions(&empty), CanaryResult::Pending));
}

#[test]
fn test_check_canary_conditions_pending_not_true() {
    assert!(matches!(
        check_canary_conditions(&status_with("Complete", "False")),
        CanaryResult::Pending
    ));
}

#[test]
fn test_check_canary_conditions_no_status() {
    assert!(matches!(check_canary_conditions(&None), CanaryResult::Pending));
}

#[test]
fn test_canary_job_spec_structure() {
    let config = CanaryConfig {
        name: "test-canary",
        image: "my-registry/busybox:latest".to_owned(),
        command: vec!["echo".to_owned(), "hello".to_owned()],
        reason_prefix: "Test",
        failure_message: "test failed",
        pending_message: "test pending",
    };
    let job = plain(&canary_job_spec(&test_base_metadata(), &None, &config));

    let spec = &job["spec"];
    assert_eq!(spec["backoffLimit"], 1);

    let pod_spec = &spec["template"]["spec"];
    assert_eq!(pod_spec["serviceAccountName"], "restate");
    assert_eq!(pod_spec["restartPolicy"], "Never");
    assert_eq!(pod_spec["containers"].as_array().unwrap().len(), 1);

    let container = &pod_spec["containers"][0];
    assert_eq!(container["name"], "canary");
    assert_eq!(container["image"], "my-registry/busybox:latest");
    assert_eq!(container["command"], json(r#"["echo", "hello"]"#));
}

#[test]
fn test_canary_job_spec_label() {
    let config = CanaryConfig {
        name: "my-canary",
        image: "busybox:uclibc".to_owned(),
        command: vec!["true".to_owned()],
        reason_prefix: "Test",
        failure_message: "",
        pending_message: "",
    };
    let job = plain(&canary_job_spec(&test_base_metadata(), &None, &config));

    assert_eq!(job["metadata"]["labels"]["app.kubernetes.io/name"], "my-canary");
}

#[test]
fn test_canary_job_spec_tolerations() {
    let mut toleration = Object::new();
    toleration.put_text("key", "node-role");
    toleration.put_text("operator", "Exists");
    let tolerations = Some(Value::singleton(Value::Object(toleration)));
    let config = CanaryConfig {
        name: "test-canary",
        image: "busybox:uclibc".to_owned(),
        command: vec!["true".to_owned()],
        reason_prefix: "Test",
        failure_message: "",
        pending_message: "",
    };
    let job = plain(&canary_job_spec(&test_base_metadata(), &tolerations, &config));

    let pod_spec = &job["spec"]["template"]["spec"];
    assert_eq!(pod_spec["tolerations"].as_array().unwrap().len(), 1);
}

fn cert(secret_name: &str, key: &str) -> TrustedCACert {
    TrustedCACert { secret_name: secret_name.to_owned(), key: key.to_owned() }
}

#[test]
fn test_trusted_ca_init_container_single_cert() {
    let certs = vec![cert("my-ca", "ca.pem")];
    let (volumes, init) = trusted_ca_init_container(&certs, "busybox:uclibc");
    let volumes: Vec<serde_json::Value> = volumes.iter().map(plain).collect();
    let init = plain(&init);

    // 1 secret volume + 1 emptyDir
    assert_eq!(volumes.len(), 2);
    assert_eq!(volumes[0]["name"], "trusted-ca-0");
    assert!(volumes[0]["secret"].is_object());
    assert_eq!(volumes[1]["name"], COMBINED_CA_VOLUME);
    assert!(volumes[1]["emptyDir"].is_object());

    // init container uses canary image, not restate image
    assert_eq!(init["image"], "busybox:uclibc");

    // init container cat command includes system certs and custom cert
    let cmd = init["command"][2].as_str().unwrap();
    assert!(cmd.starts_with(&format!("cat {SYSTEM_CA_BUNDLE} /trusted-ca-0/ca.pem >")));

    // volume mount names match volume names
    let mounts = init["volumeMounts"].as_array().unwrap();
    let mount_names: Vec<&str> = mounts.iter().map(|m| m["name"].as_str().unwrap()).collect();
    assert_eq!(mount_names, vec!["trusted-ca-0", COMBINED_CA_VOLUME]);
}

#[test]
fn test_trusted_ca_init_container_multiple_certs() {
    let certs = vec![cert("ca-one", "cert.pem"), cert("ca-two", "root.pem")];
    let (volumes, init) = trusted_ca_init_container(&certs, "busybox:uclibc");
    let volumes: Vec<serde_json::Value> = volumes.iter().map(plain).collect();
    let init = plain(&init);

    // 2 secret volumes + 1 emptyDir
    assert_eq!(volumes.len(), 3);

    let cmd = init["command"][2].as_str().unwrap();
    assert!(cmd.contains("/trusted-ca-0/ca.pem"));
    assert!(cmd.contains("/trusted-ca-1/ca.pem"));

    // secret volume references correct secret names and keys
    assert_eq!(volumes[0]["secret"]["secretName"], "ca-one");
    assert_eq!(volumes[0]["secret"]["items"][0]["key"], "cert.pem");

    assert_eq!(volumes[1]["secret"]["secretName"], "ca-two");
    assert_eq!(volumes[1]["secret"]["items"][0]["key"], "root.pem");
}

#[test]
fn trust_is_known_by_the_references_to_it() {
    assert_eq!(
        hash_trusted_ca_cert_refs(&vec![cert("my-ca", "ca.pem")]),
        "ae6dd915c02d12ac5850676a2bb370721a14a3920f597030ecf71e8268fa521c"
    );
}

fn storage(bytes: i64) -> RestateClusterStorage {
    RestateClusterStorage {
        storage_class_name: None,
        volume_attributes_class_name: None,
        storage_request_bytes: bytes,
    }
}

fn minimal_spec(annotations: Option<StringMap>, labels: Option<StringMap>) -> RestateClusterSpec {
    RestateClusterSpec {
        cluster_name: None,
        storage: storage(1_000_000_000),
        compute: RestateClusterCompute {
            replicas: None,
            image: "restate:test".to_owned(),
            image_pull_policy: None,
            image_pull_secrets: None,
            command: None,
            args: None,
            env: None,
            resources: None,
            dns_config: None,
            dns_policy: None,
            affinity: None,
            tolerations: None,
            node_selector: None,
            topology_spread_constraints: None,
            priority_class_name: None,
            labels,
            annotations,
        },
        security: None,
        config: None,
        cluster: None,
    }
}

fn no_security() -> RestateClusterSecurity {
    RestateClusterSecurity {
        service_annotations: None,
        service_account_annotations: None,
        aws_pod_identity_association_role_arn: None,
        aws_pod_security_groups: None,
        network_peers: None,
        network_egress_rules: None,
        allow_operator_access_to_admin: None,
        trusted_ca_certs: None,
    }
}

#[test]
fn test_statefulset_user_annotations_merged_with_internal() {
    let user_annotations = map(&[
        ("cloud.google.com/compute-class", "restate-workload"),
        ("restate.dev/trusted-ca-certs", "user-should-lose"),
    ]);
    let internal_annotations = map(&[("restate.dev/trusted-ca-certs", "internal-wins")]);
    let spec = minimal_spec(Some(user_annotations), None);

    let ss = plain(&restate_statefulset(
        &test_base_metadata(),
        &spec,
        &Some(internal_annotations),
        &None,
        "config-abc",
        "busybox:uclibc",
    ));
    let pod_annotations = &ss["spec"]["template"]["metadata"]["annotations"];

    // User annotation preserved
    assert_eq!(pod_annotations["cloud.google.com/compute-class"], "restate-workload");
    // Internal annotation wins on conflict
    assert_eq!(pod_annotations["restate.dev/trusted-ca-certs"], "internal-wins");
}

#[test]
fn test_statefulset_user_labels_merged_with_standard() {
    let user_labels =
        map(&[("team", "platform"), ("app.kubernetes.io/name", "user-should-lose")]);
    let spec = minimal_spec(None, Some(user_labels));

    let ss = plain(&restate_statefulset(
        &test_base_metadata(),
        &spec,
        &None,
        &None,
        "config-abc",
        "busybox:uclibc",
    ));
    let pod_labels = &ss["spec"]["template"]["metadata"]["labels"];

    // User label preserved
    assert_eq!(pod_labels["team"], "platform");
    // Standard label wins on conflict
    assert_eq!(pod_labels["app.kubernetes.io/name"], "restate");
}

#[test]
fn test_statefulset_no_user_annotations_or_labels() {
    let spec = minimal_spec(None, None);

    let ss = plain(&restate_statefulset(
        &test_base_metadata(),
        &spec,
        &None,
        &None,
        "config-abc",
        "busybox:uclibc",
    ));
    let tmpl = &ss["spec"]["template"]["metadata"];

    // Labels should still have standard labels
    assert!(tmpl["labels"].get("app.kubernetes.io/name").is_some());
    // Annotations should be None (no user, no base, no internal)
    assert!(tmpl.get("annotations").is_none());
}

#[test]
fn the_nodes_are_described_in_full() {
    let ss = plain(&restate_statefulset(
        &test_base_metadata(),
        &minimal_spec(None, None),
        &None,
        &None,
        "config-abc",
        "busybox:uclibc",
    ));
    assert_eq!(ss["apiVersion"], "apps/v1");
    assert_eq!(ss["kind"], "StatefulSet");
    assert_eq!(ss["metadata"]["name"], "restate");
    let spec = &ss["spec"];
    assert!(spec.get("replicas").is_none());
    assert_eq!(spec["serviceName"], "restate-cluster");
    assert_eq!(spec["podManagementPolicy"], "Parallel");
    assert_eq!(spec["selector"]["matchLabels"], spec["template"]["metadata"]["labels"]);
    assert_eq!(
        spec["volumeClaimTemplates"],
        json(
            r#"[{
                "apiVersion": "v1",
                "kind": "PersistentVolumeClaim",
                "metadata": {
                    "name": "storage",
                    "labels": {
                        "app.kubernetes.io/name": "restate",
                        "app.kubernetes.io/instance": "test-cluster"
                    }
                },
                "spec": {
                    "accessModes": ["ReadWriteOnce"],
                    "resources": {"requests": {"storage": "1000000000"}}
                }
            }]"#
        )
    );
    let mut pod = spec["template"]["spec"].clone();
    let variables = pod["containers"][0].as_object_mut().unwrap().remove("env").unwrap();
    assert_eq!(variables.as_array().unwrap().len(), 11);
    assert_eq!(
        pod,
        json(
            r#"{
                "automountServiceAccountToken": false,
                "containers": [{
                    "name": "restate",
                    "image": "restate:test",
                    "ports": [
                        {"name": "ingress", "containerPort": 8080},
                        {"name": "admin", "containerPort": 9070},
                        {"name": "metrics", "containerPort": 5122}
                    ],
                    "readinessProbe": {
                        "httpGet": {"port": 9070, "path": "/health"},
                        "initialDelaySeconds": 30
                    },
                    "securityContext": {
                        "readOnlyRootFilesystem": true,
                        "allowPrivilegeEscalation": false
                    },
                    "volumeMounts": [
                        {"name": "storage", "mountPath": "/restate-data"},
                        {"name": "tmp", "mountPath": "/tmp"},
                        {"name": "config", "mountPath": "/config", "readOnly": true}
                    ]
                }],
                "securityContext": {
                    "runAsUser": 1000,
                    "runAsGroup": 3000,
                    "fsGroup": 2000,
                    "fsGroupChangePolicy": "OnRootMismatch",
                    "seccompProfile": {"type": "RuntimeDefault"}
                },
                "serviceAccountName": "restate",
                "terminationGracePeriodSeconds": 60,
                "volumes": [
                    {"name": "tmp", "emptyDir": {}},
                    {"name": "config", "configMap": {"name": "config-abc"}}
                ]
            }"#
        )
    );
}

#[test]
fn keys_and_trusted_certificates_are_mounted() {
    let mut spec = minimal_spec(None, None);
    let mut security = no_security();
    security.trusted_ca_certs = Some(vec![cert("my-ca", "ca.pem")]);
    spec.security = Some(security);
    let mut secret = Object::new();
    secret.put_text("secretName", "my-key");
    let mut volume = Object::new();
    volume.put("secret", Value::Object(secret));
    let key = SigningKey {
        volume_name: "key-volume".to_owned(),
        volume,
        relative_path: "private.pem".to_owned(),
    };
    let ss = plain(&restate_statefulset(
        &test_base_metadata(),
        &spec,
        &None,
        &Some(key),
        "config-abc",
        "busybox:uclibc",
    ));
    let pod = &ss["spec"]["template"]["spec"];
    let names: Vec<&str> = pod["volumes"]
        .as_array()
        .unwrap()
        .iter()
        .map(|v| v["name"].as_str().unwrap())
        .collect();
    assert_eq!(names, vec!["tmp", "config", "key-volume", "trusted-ca-0", COMBINED_CA_VOLUME]);
    assert_eq!(
        pod["volumes"][2],
        json(r#"{"name": "key-volume", "secret": {"secretName": "my-key"}}"#)
    );
    // every mount has its volume, or is the claim
    for container in [&pod["containers"][0], &pod["initContainers"][0]] {
        for mount in container["volumeMounts"].as_array().unwrap() {
            let name = mount["name"].as_str().unwrap();
            assert!(name == "storage" || names.contains(&name), "{name}");
        }
    }
    let container = &pod["containers"][0];
    assert_eq!(
        container["volumeMounts"][3],
        json(r#"{"name": "key-volume", "mountPath": "/signing-key", "readOnly": true}"#)
    );
    assert_eq!(
        container["volumeMounts"][4],
        json(r#"{"name": "combined-ca-certs", "mountPath": "/combined-certs", "readOnly": true}"#)
    );
    let variables = container["env"].as_array().unwrap();
    assert_eq!(
        variables[variables.len() - 2],
        json(
            r#"{
                "name": "RESTATE_REQUEST_IDENTITY_PRIVATE_KEY_PEM_FILE",
                "value": "/signing-key/private.pem"
            }"#
        )
    );
    assert_eq!(
        variables[variables.len() - 1],
        json(r#"{"name": "SSL_CERT_FILE", "value": "/combined-certs/ca-certificates.crt"}"#)
    );
    assert_eq!(pod["initContainers"][0]["name"], "combine-ca-certs");
}

#[test]
fn custom_variables_take_the_place_of_defaults() {
    let all = statefulset::env("c", &None);
    let names: Vec<&str> = all.iter().map(|e| e.name.as_str()).collect();
    assert_eq!(
        names,
        vec![
            "POD_NAME",
            "POD_ZONE",
            "POD_REGION",
            "RESTATE_LOG_FORMAT",
            "RESTATE_CLUSTER_NAME",
            "RESTATE_BASE_DIR",
            "RUST_BACKTRACE",
            "RUST_LIB_BACKTRACE",
            "RESTATE_CONFIG",
            "RESTATE_ADVERTISED_ADDRESS",
            "RESTATE_NODE_NAME",
        ]
    );
    assert_eq!(all[4].value.as_deref(), Some("c"));
    assert_eq!(
        plain(all[1].value_from.as_ref().unwrap()),
        json(r#"{"fieldRef": {"fieldPath": "metadata.labels['topology.kubernetes.io/zone']"}}"#)
    );

    let custom = statefulset::env(
        "c",
        &Some(vec![EnvVar::plain("RUST_BACKTRACE", "full"), EnvVar::plain("MINE", "yes")]),
    );
    assert_eq!(custom.len(), 12);
    assert_eq!(custom.iter().filter(|e| e.name == "RUST_BACKTRACE").count(), 1);
    assert_eq!(custom[10].value.as_deref(), Some("full"));
    assert_eq!(custom[11].name, "MINE");
}

#[test]
fn configurations_are_named_by_their_content() {
    let empty = restate_configmap(&test_base_metadata(), None);
    assert_eq!(empty.metadata.name.as_deref(), Some("restate-config-42c4b0e3"));
    assert_eq!(empty.data.as_ref().unwrap().get("config.toml").unwrap(), "");
    let full = restate_configmap(&test_base_metadata(), Some("auto-provision = false\n"));
    assert_eq!(full.metadata.name.as_deref(), Some("restate-config-ebbfa2e1"));
    assert_eq!(
        full.data.as_ref().unwrap().get("config.toml").unwrap(),
        "auto-provision = false\n"
    );
}

#[test]
fn small_objects_are_exact() {
    let base = test_base_metadata();
    let account = plain(&restate_service_account(&base, &Some(map(&[("a", "b")]))));
    assert_eq!(account["kind"], "ServiceAccount");
    assert_eq!(account["metadata"]["annotations"], json(r#"{"a": "b"}"#));

    let service = plain(&restate_service(&base, &None));
    assert_eq!(
        service["spec"],
        json(
            r#"{
                "selector": {
                    "app.kubernetes.io/name": "restate",
                    "app.kubernetes.io/instance": "test-cluster"
                },
                "ports": [
                    {"appProtocol": "kubernetes.io/h2c", "port": 8080, "name": "ingress"},
                    {"appProtocol": "kubernetes.io/h2c", "port": 9070, "name": "admin"},
                    {"appProtocol": "kubernetes.io/h2c", "port": 5122, "name": "metrics"}
                ]
            }"#
        )
    );
    let nodes = plain(&restate_cluster_service(&base));
    assert_eq!(nodes["metadata"]["name"], "restate-cluster");
    assert_eq!(nodes["spec"]["publishNotReadyAddresses"], true);
    assert_eq!(nodes["spec"]["clusterIP"], "None");
    assert_eq!(nodes["spec"]["ports"].as_array().unwrap().len(), 1);

    let budget = plain(&restate_pod_disruption_budget(&base));
    assert_eq!(budget["spec"]["maxUnavailable"], 1);
    assert_eq!(
        budget["spec"]["selector"]["matchLabels"]["app.kubernetes.io/instance"],
        "test-cluster"
    );

    let association = plain(&restate_pod_identity_association("ns", &base, "eks", "arn:role"));
    assert_eq!(
        association["spec"],
        json(
            r#"{
                "clusterName": "eks",
                "namespace": "ns",
                "serviceAccount": "restate",
                "roleARN": "arn:role"
            }"#
        )
    );

    let groups = plain(&restate_security_group_policy(&base, &vec!["sg-1".to_owned()]));
    assert_eq!(groups["spec"]["securityGroups"], json(r#"{"groupIds": ["sg-1"]}"#));

    let mut larger = storage(5);
    larger.volume_attributes_class_name = Some("gold".to_owned());
    let claim = plain(&pvc_patch("storage-restate-0", &larger));
    assert_eq!(claim["spec"]["resources"]["requests"]["storage"], "5");
    assert_eq!(claim["spec"]["volumeAttributesClassName"], "gold");
}

fn settings() -> OperatorSettings {
    OperatorSettings {
        aws_pod_identity_association_cluster: None,
        operator_namespace: None,
        operator_label_name: None,
        operator_label_value: None,
        security_group_policy_installed: false,
        gcp_workload_identity: false,
        canary_image: "busybox:uclibc".to_owned(),
    }
}

fn outline(steps: &[ClusterStep]) -> Vec<String> {
    steps
        .iter()
        .map(|step| match step {
            ClusterStep::ApplyNamespace(v)
            | ClusterStep::Apply(v)
            | ClusterStep::ApplyStatefulSet(v) => {
                let v = plain(v);
                format!(
                    "{}/{}",
                    v["kind"].as_str().unwrap(),
                    v["metadata"]["name"].as_str().unwrap()
                )
            }
            ClusterStep::Delete { kind, name } => format!("delete {kind:?}/{name}"),
            ClusterStep::ApplyPodIdentityAssociation(_) => "identity".to_owned(),
            ClusterStep::ApplyIamPolicyMember(_) => "member".to_owned(),
            ClusterStep::RunCanary { canary, .. } => format!("canary {canary:?}"),
            ClusterStep::ReconcileStorage => "storage".to_owned(),
            ClusterStep::Warn(_) => "warn".to_owned(),
            ClusterStep::Refuse(_) => "refuse".to_owned(),
        })
        .collect()
}

#[test]
fn a_plain_cluster_needs_few_objects() {
    let steps = reconcile_compute(
        &settings(),
        "test-cluster",
        &test_base_metadata(),
        &minimal_spec(None, None),
        &None,
    );
    assert_eq!(
        outline(&steps),
        vec![
            "ServiceAccount/restate",
            "ConfigMap/restate-config-42c4b0e3",
            "Service/restate",
            "Service/restate-cluster",
            "PodDisruptionBudget/restate",
            "storage",
            "StatefulSet/restate",
        ]
    );
}

#[test]
fn a_role_is_proved_by_a_canary_before_the_nodes_get_it() {
    let mut operator = settings();
    operator.aws_pod_identity_association_cluster = Some("eks".to_owned());
    let mut spec = minimal_spec(None, None);
    let mut security = no_security();
    security.aws_pod_identity_association_role_arn = Some("arn:role".to_owned());
    spec.security = Some(security);
    let steps =
        reconcile_compute(&operator, "test-cluster", &test_base_metadata(), &spec, &None);
    let lines = outline(&steps);
    assert_eq!(lines[2], "identity");
    assert_eq!(lines[3], "canary PodIdentity");
    match steps.last().unwrap() {
        ClusterStep::ApplyStatefulSet(v) => assert_eq!(
            plain(v)["spec"]["template"]["metadata"]["annotations"],
            json(
                r#"{
                    "restate.dev/aws-pod-identity-association-cluster": "eks",
                    "restate.dev/aws-pod-identity-association-role-arn": "arn:role"
                }"#
            )
        ),
        other => panic!("{other:?}"),
    }
    // without a role what an earlier one left behind is removed
    spec.security = None;
    let steps =
        reconcile_compute(&operator, "test-cluster", &test_base_metadata(), &spec, &None);
    assert!(matches!(
        steps[2],
        ClusterStep::Delete { kind: OwnedKind::PodIdentityAssociation, name: "restate" }
    ));
    assert!(matches!(
        steps[3],
        ClusterStep::Delete { kind: OwnedKind::Job, name: "restate-pia-canary" }
    ));
}

#[test]
fn outside_controllers_are_waited_for() {
    assert!(is_pod_identity_association_synced(&status_with("ACK.ResourceSynced", "True")));
    assert!(judge_pod_identity_association(&status_with("ACK.ResourceSynced", "True")).is_ok());
    match judge_pod_identity_association(&None) {
        Err(Error::NotReady { reason, .. }) => {
            assert_eq!(reason, "PodIdentityAssociationNotSynced")
        }
        other => panic!("{other:?}"),
    }
    assert!(judge_iam_policy_member(Ok(status_with("Ready", "True"))).is_ok());
    assert!(matches!(judge_iam_policy_member(Ok(None)), Err(Error::NotReady { .. })));
}

#[test]
fn a_canary_decides_on_the_identity() {
    let config = canary_config(CanaryKind::PodIdentity, "busybox:uclibc");
    assert_eq!(config.name, "restate-pia-canary");
    assert!(matches!(
        run_canary_job(&config, CanaryKind::PodIdentity, Ok(status_with("Complete", "True"))),
        CanaryVerdict::Passed
    ));
    match run_canary_job(&config, CanaryKind::PodIdentity, Ok(status_with("Failed", "True"))) {
        CanaryVerdict::Restart(Error::NotReady { reason, message, .. }) => {
            assert_eq!(reason, "PodIdentityAssociationCanaryFailed");
            assert_eq!(message, config.failure_message);
        }
        other => panic!("{other:?}"),
    }
    assert!(matches!(
        run_canary_job(&config, CanaryKind::PodIdentity, Ok(None)),
        CanaryVerdict::LookAtPods
    ));
    let workload = canary_config(CanaryKind::WorkloadIdentity, "busybox:uclibc");
    assert!(matches!(
        run_canary_job(&workload, CanaryKind::WorkloadIdentity, Ok(None)),
        CanaryVerdict::Fail(Error::NotReady { .. })
    ));
    let refused = KubeFailure {
        kind: KubeFailureKind::Api(403),
        reason: "Forbidden".to_owned(),
        message: "no".to_owned(),
    };
    assert!(matches!(
        run_canary_job(&config, CanaryKind::PodIdentity, Err(refused)),
        CanaryVerdict::Fail(Error::KubeError(_))
    ));

    // the token volume shows that the webhook has seen the pod
    let mounted = Some(vec!["eks-pod-identity-token".to_owned()]);
    assert!(matches!(check_pia(&config, &mounted), CanaryVerdict::Passed));
    assert!(!matches!(check_pia(&config, &Some(vec![])), CanaryVerdict::Passed));
    assert!(!matches!(check_pia(&config, &None), CanaryVerdict::Passed));
}
