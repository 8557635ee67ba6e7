//! Provisioning, storage, network access, schema and status of a cluster.

use restate_operator::control::{Action, Condition, ReconciliationState};
use restate_operator::error::Error;
use restate_operator::json::{Object, Value};
use restate_operator::manifest::EnvVar;
use restate_operator::meta::{ObjectMeta, OwnerReference};
use restate_operator::restatecluster::network_policies::{
    allow_access, allow_aws_pod_identity, allow_dns, allow_egress, allow_public, deny_all,
    reconcile_network_policies, AWS_POD_IDENTITY_POLICY_NAME,
};
use restate_operator::restatecluster::provisioning::{
    check_provisioning_pod, is_pod_running, provisioning_due, provisioning_endpoint,
    run_provisioning, validate_config_for_provisioning, ProvisionAnswer, VAR_NOT_FALSE,
};
use restate_operator::restatecluster::quantity::quantity_bytes;
use restate_operator::restatecluster::reconcile::{
    cluster_expects, cluster_step, reconcile, ClusterCommand, ClusterEvent, ClusterStage,
};
use restate_operator::restatecluster::resource::{
    ClusterProvisioning, NetworkPolicyEgressRule, OperatorSettings, RestateCluster,
    RestateClusterCompute, RestateClusterNetworkPeers, RestateClusterSecurity,
    RestateClusterSpec, RestateClusterStatus, RestateClusterStorage,
};
use restate_operator::restatecluster::schema::{
    env_schema, expanding_volume_request, immutable_storage_class_name, json_schema,
    network_peers_schema, network_ports_schema,
};
use restate_operator::restatecluster::status::{
    base_metadata, check_namespace, cluster_namespace, controller_owner_ref, error_policy,
    group_matches, has_api_group, is_installed, reconcile_status, reconcile_suspended, ApiGroup,
};
use restate_operator::restatecluster::steps::{ClusterStep, OwnedKind};
use restate_operator::restatecluster::storage::{
    change_statefulset_storage, check_claim_bound, claims_of_cluster, cluster_of_claim,
    validate_stateful_set_status, ExistingStorage, StatefulSetStatus,
};
use restate_operator::string_map::StringMap;
use restate_operator::time::{Duration, Timestamp};

fn plain(value: &Value) -> serde_json::Value {
    match value {
        Value::Null => serde_json::Value::Null,
        Value::Bool(b) => serde_json::Value::Bool(*b),
        Value::Int(i) => serde_json::Value::from(*i),
        Value::Decimal(text) => serde_json::from_str(text).unwrap(),
        Value::Text(text) => serde_json::Value::from(text.as_str()),
        Value::Array(items) => serde_json::Value::Array(items.iter().map(plain).collect()),
        Value::Object(object) => {
            let mut out = serde_json::Map::new();
            for i in 0..object.len() {
                let (name, item) = object.entry(i);
                out.insert(name.clone(), plain(item));
            }
            serde_json::Value::Object(out)
        }
    }
}

fn json(text: &str) -> serde_json::Value {
    serde_json::from_str(text).unwrap()
}

fn map(entries: &[(&str, &str)]) -> StringMap {
    let mut map = StringMap::new();
    for (k, v) in entries {
        map.insert(k.to_string(), v.to_string());
    }
    map
}

fn at(seconds: i128) -> Timestamp {
    Timestamp::from_nanos(seconds * 1_000_000_000).unwrap()
}

fn make_env_var(name: &str, value: &str) -> EnvVar {
    EnvVar { name: name.to_string(), value: Some(value.to_string()), value_from: None }
}

#[test]
fn test_validate_config_no_config_no_env() {
    let result = validate_config_for_provisioning(None, &None);
    assert!(result.is_err());
    assert!(matches!(result.unwrap_err(), Error::InvalidRestateConfig(_)));
}

#[test]
fn test_validate_config_empty() {
    let result = validate_config_for_provisioning(Some(""), &None);
    assert!(result.is_err());
    assert!(matches!(result.unwrap_err(), Error::InvalidRestateConfig(_)));
}

#[test]
fn test_validate_config_no_auto_provision() {
    let config = r#"
            [server]
            bind-address = "0.0.0.0:8080"
        "#;
    let result = validate_config_for_provisioning(Some(config), &None);
    assert!(result.is_err());
    assert!(matches!(result.unwrap_err(), Error::InvalidRestateConfig(_)));
}

#[test]
fn test_validate_config_auto_provision_false() {
    let config = r#"
            auto-provision = false
        "#;
    assert!(validate_config_for_provisioning(Some(config), &None).is_ok());
}

#[test]
fn test_validate_config_auto_provision_true() {
    let config = r#"
            auto-provision = true
        "#;
    let result = validate_config_for_provisioning(Some(config), &None);
    assert!(result.is_err());
    let err = result.unwrap_err();
    assert!(matches!(err, Error::InvalidRestateConfig(_)));
}

#[test]
fn test_validate_config_invalid_toml() {
    let config = "this is not valid [toml";
    let result = validate_config_for_provisioning(Some(config), &None);
    assert!(result.is_err());
    let err = result.unwrap_err();
    assert!(matches!(err, Error::InvalidRestateConfig(_)));
    assert!(err.message().contains("Failed to parse config TOML: "));
}

#[test]
fn test_env_var_false_overrides_missing_config() {
    let env = vec![make_env_var("RESTATE_AUTO_PROVISION", "false")];
    assert!(validate_config_for_provisioning(None, &Some(env)).is_ok());
}

#[test]
fn test_env_var_false_overrides_config_true() {
    let config = r#"
            auto-provision = true
        "#;
    let env = vec![make_env_var("RESTATE_AUTO_PROVISION", "false")];
    assert!(validate_config_for_provisioning(Some(config), &Some(env)).is_ok());
}

#[test]
fn test_env_var_false_case_insensitive() {
    let env = vec![make_env_var("RESTATE_AUTO_PROVISION", "FALSE")];
    assert!(validate_config_for_provisioning(None, &Some(env)).is_ok());

    let env = vec![make_env_var("RESTATE_AUTO_PROVISION", "False")];
    assert!(validate_config_for_provisioning(None, &Some(env)).is_ok());
}

#[test]
fn test_env_var_true_fails() {
    let env = vec![make_env_var("RESTATE_AUTO_PROVISION", "true")];
    let result = validate_config_for_provisioning(None, &Some(env));
    assert!(result.is_err());
    assert!(matches!(result.unwrap_err(), Error::InvalidRestateConfig(_)));
}

#[test]
fn test_env_var_true_overrides_config_false() {
    // Env var takes precedence, so even if config says false, env var true should fail
    let config = r#"
            auto-provision = false
        "#;
    let env = vec![make_env_var("RESTATE_AUTO_PROVISION", "true")];
    let result = validate_config_for_provisioning(Some(config), &Some(env));
    assert!(result.is_err());
    match result.unwrap_err() {
        Error::InvalidRestateConfig(text) => assert_eq!(text, VAR_NOT_FALSE),
        other => panic!("{other:?}"),
    }
}

#[test]
fn test_other_env_vars_ignored() {
    // Other env vars should not affect validation
    let config = r#"
            auto-provision = false
        "#;
    let env = vec![
        make_env_var("SOME_OTHER_VAR", "true"),
        make_env_var("RESTATE_CLUSTER_NAME", "test"),
    ];
    assert!(validate_config_for_provisioning(Some(config), &Some(env)).is_ok());
}

#[test]
fn test_empty_env_list_falls_back_to_config() {
    let config = r#"
            auto-provision = false
        "#;
    let env: Vec<EnvVar> = vec![];
    assert!(validate_config_for_provisioning(Some(config), &Some(env)).is_ok());
}

#[test]
fn test_env_var_with_value_from_falls_back_to_config() {
    // If env var uses valueFrom instead of value, fall back to config check
    let config = r#"
            auto-provision = false
        "#;
    let env = vec![EnvVar {
        name: "RESTATE_AUTO_PROVISION".to_string(),
        value: None,                                       // No direct value
        value_from: Some(Value::Object(Object::new())), // Uses valueFrom
    }];
    assert!(validate_config_for_provisioning(Some(config), &Some(env)).is_ok());
}

#[test]
fn only_a_top_level_boolean_disables_provisioning() {
    for config in ["auto-provision = \"false\"", "[server]\nauto-provision = false"] {
        assert!(validate_config_for_provisioning(Some(config), &None).is_err(), "{config}");
    }
}

fn spec() -> RestateClusterSpec {
    RestateClusterSpec {
        cluster_name: None,
        storage: RestateClusterStorage {
            storage_class_name: None,
            volume_attributes_class_name: None,
            storage_request_bytes: 1_073_741_824,
        },
        compute: RestateClusterCompute {
            replicas: Some(3),
            image: "restate:test".to_owned(),
            image_pull_policy: None,
            image_pull_secrets: None,
            command: None,
            args: None,
            env: None,
            resources: None,
            dns_config: None,
            dns_policy: None,
            affinity: None,
            tolerations: None,
            node_selector: None,
            topology_spread_constraints: None,
            priority_class_name: None,
            labels: None,
            annotations: None,
        },
        security: None,
        config: Some("auto-provision = false".to_owned()),
        cluster: None,
    }
}

#[test]
fn a_cluster_is_provisioned_once() {
    let mut s = spec();
    assert!(matches!(provisioning_due(&s, &None), Ok(false)));
    s.cluster = Some(ClusterProvisioning { auto_provision: true });
    assert!(matches!(provisioning_due(&s, &None), Ok(true)));
    let done = Some(RestateClusterStatus {
        conditions: None,
        provisioned: Some(true),
        reconciliation: None,
    });
    assert!(matches!(provisioning_due(&s, &done), Ok(false)));
    s.config = None;
    assert!(matches!(provisioning_due(&s, &None), Err(Error::InvalidRestateConfig(_))));
    // what is remembered is not questioned
    assert!(matches!(provisioning_due(&s, &done), Ok(false)));
}

#[test]
fn provisioning_waits_for_the_first_node() {
    assert!(is_pod_running(Some("Running")));
    assert!(!is_pod_running(Some("Pending")));
    assert!(!is_pod_running(None));
    assert!(check_provisioning_pod(Some("Running")).is_ok());
    match check_provisioning_pod(None) {
        Err(Error::NotReady { reason, message, requeue_after }) => {
            assert_eq!(reason, "ProvisioningPodNotRunning");
            assert_eq!(message, "Waiting for restate-0 pod to be Running before provisioning");
            assert_eq!(requeue_after, Some(Duration::from_secs(5)));
        }
        other => panic!("{other:?}"),
    }
    assert_eq!(
        provisioning_endpoint("ns", "cluster.local"),
        "http://restate-0.restate-cluster.ns.svc.cluster.local:5122"
    );
}

#[test]
fn an_already_provisioned_cluster_is_fine() {
    assert!(run_provisioning(&ProvisionAnswer::Provisioned).is_ok());
    assert!(run_provisioning(&ProvisionAnswer::AlreadyExists).is_ok());
    match run_provisioning(&ProvisionAnswer::Refused {
        code: "The service is currently unavailable".to_owned(),
        message: "no".to_owned(),
    }) {
        Err(Error::ProvisioningFailed(text)) => assert_eq!(
            text,
            "ProvisionCluster RPC failed: no (The service is currently unavailable)"
        ),
        other => panic!("{other:?}"),
    }
    match run_provisioning(&ProvisionAnswer::NotConnected {
        endpoint: "http://e".to_owned(),
        error: "refused".to_owned(),
    }) {
        Err(Error::ProvisioningFailed(text)) => {
            assert_eq!(text, "Failed to connect to http://e: refused")
        }
        other => panic!("{other:?}"),
    }
    match run_provisioning(&ProvisionAnswer::InvalidEndpoint("bad".to_owned())) {
        Err(Error::ProvisioningFailed(text)) => assert_eq!(text, "Invalid endpoint URL: bad"),
        other => panic!("{other:?}"),
    }
}

#[test]
fn quantities_are_read() {
    assert_eq!(quantity_bytes("1Gi"), Some(1_073_741_824));
    assert_eq!(quantity_bytes("2G"), Some(2_000_000_000));
    assert_eq!(quantity_bytes("1073741824"), Some(1_073_741_824));
    assert_eq!(quantity_bytes("16Ei"), None);
    assert_eq!(quantity_bytes("Gi"), None);
    assert_eq!(quantity_bytes("1Xi"), None);
    assert_eq!(quantity_bytes(""), None);
}

#[test]
fn storage_that_is_as_wanted_is_left_alone() {
    let storage = spec().storage;
    let existing = |request: &str, class: Option<&str>| {
        Some(ExistingStorage {
            request: Some(request.to_owned()),
            volume_attributes_class_name: class.map(|c| c.to_owned()),
        })
    };
    assert!(!change_statefulset_storage(&None, &storage));
    assert!(!change_statefulset_storage(&existing("1073741824", None), &storage));
    assert!(!change_statefulset_storage(&existing("1Gi", None), &storage));
    assert!(change_statefulset_storage(&existing("2Gi", None), &storage));
    assert!(change_statefulset_storage(&existing("1Gi", Some("gold")), &storage));
    let unknown = Some(ExistingStorage { request: None, volume_attributes_class_name: None });
    assert!(change_statefulset_storage(&unknown, &storage));
}

#[test]
fn claims_are_found_by_their_labels() {
    let claim = |name: &str, labels: &[(&str, &str)]| {
        let mut meta = ObjectMeta::empty();
        meta.name = Some(name.to_owned());
        meta.labels = Some(map(labels));
        meta
    };
    let ours = &[
        ("app.kubernetes.io/name", "restate"),
        ("app.kubernetes.io/instance", "c1"),
    ];
    let theirs = &[
        ("app.kubernetes.io/name", "restate"),
        ("app.kubernetes.io/instance", "c2"),
    ];
    let claims = vec![
        claim("storage-restate-0", ours),
        claim("storage-restate-1", theirs),
        claim("storage-other-0", &[("app.kubernetes.io/instance", "c1")]),
        claim("storage-restate-2", ours),
    ];
    assert_eq!(claims_of_cluster(&claims, "c1"), vec!["storage-restate-0", "storage-restate-2"]);
    assert_eq!(cluster_of_claim(&claims[1]).as_deref(), Some("c2"));
    assert_eq!(cluster_of_claim(&claims[2]), None);
    assert!(check_claim_bound("p", Some("Bound")).is_ok());
    match check_claim_bound("p", Some("Pending")) {
        Err(Error::NotReady { reason, message, .. }) => {
            assert_eq!(reason, "PersistentVolumeClaimNotBound");
            assert_eq!(message, "PersistentVolumeClaim p is not yet bound to a volume");
        }
        other => panic!("{other:?}"),
    }
}

#[test]
fn every_replica_has_to_be_ready() {
    let status = |replicas, ready_replicas| Some(StatefulSetStatus { replicas, ready_replicas });
    assert!(validate_stateful_set_status(status(3, Some(3)), 3).is_ok());
    match validate_stateful_set_status(status(2, Some(2)), 3) {
        Err(Error::NotReady { reason, message, .. }) => {
            assert_eq!(reason, "StatefulSetScaling");
            assert_eq!(
                message,
                "StatefulSet has 2 replicas instead of the expected 3; it may be scaling up or down"
            );
        }
        other => panic!("{other:?}"),
    }
    match validate_stateful_set_status(status(3, None), 3) {
        Err(Error::NotReady { reason, message, .. }) => {
            assert_eq!(reason, "StatefulSetPodNotReady");
            assert_eq!(
                message,
                "StatefulSet has 0 ready replicas instead of the expected 3; a pod may not be ready"
            );
        }
        other => panic!("{other:?}"),
    }
    assert!(matches!(validate_stateful_set_status(None, 3), Err(Error::NotReady { .. })));
}

fn base() -> ObjectMeta {
    let mut meta = ObjectMeta::empty();
    meta.name = Some("c1".to_owned());
    meta
}

const NODES: &str =
    r#"{"matchLabels": {"app.kubernetes.io/name": "restate", "app.kubernetes.io/instance": "c1"}}"#;

#[test]
fn network_policies_are_exact() {
    let all = plain(&deny_all(&base()));
    assert_eq!(all["apiVersion"], "networking.k8s.io/v1");
    assert_eq!(all["metadata"]["name"], "deny-all");
    assert_eq!(all["spec"]["policyTypes"], json(r#"["Egress", "Ingress"]"#));
    assert!(all["spec"].get("egress").is_none());

    let dns = plain(&allow_dns(&base()));
    assert_eq!(
        dns["spec"]["egress"],
        json(
            r#"[{
                "to": [{
                    "podSelector": {"matchLabels": {"k8s-app": "kube-dns"}},
                    "namespaceSelector": {
                        "matchLabels": {"kubernetes.io/metadata.name": "kube-system"}
                    }
                }],
                "ports": [{"protocol": "UDP", "port": 53}, {"protocol": "TCP", "port": 53}]
            }]"#
        )
    );

    let public = plain(&allow_public(&base()));
    assert_eq!(public["spec"]["podSelector"], json(NODES));
    assert_eq!(
        public["spec"]["egress"][0]["to"],
        json(
            r#"[
                {"ipBlock": {"cidr": "0.0.0.0/1", "except": ["10.0.0.0/8"]}},
                {"ipBlock": {
                    "cidr": "128.0.0.0/1",
                    "except": ["192.168.0.0/16", "172.16.0.0/12", "169.254.0.0/16"]
                }}
            ]"#
        )
    );

    let identity = plain(&allow_aws_pod_identity(&base()));
    assert_eq!(identity["metadata"]["name"], AWS_POD_IDENTITY_POLICY_NAME);
    assert_eq!(
        identity["spec"]["egress"][0],
        json(
            r#"{
                "to": [{"ipBlock": {"cidr": "169.254.170.23/32"}}],
                "ports": [{"port": 80, "protocol": "TCP"}]
            }"#
        )
    );

    let closed = plain(&allow_access("ingress", 8080, &base(), None));
    assert_eq!(closed["metadata"]["name"], "allow-ingress-access");
    assert!(closed["spec"].get("ingress").is_none());
    let open = plain(&allow_access(
        "ingress",
        8080,
        &base(),
        Some(vec![Value::Object(Object::new())]),
    ));
    assert_eq!(
        open["spec"]["ingress"],
        json(r#"[{"from": [{}], "ports": [{"protocol": "TCP", "port": 8080}]}]"#)
    );

    let rule = NetworkPolicyEgressRule { ports: None, to: Some(vec![]) };
    let egress = plain(&allow_egress("c1", &base(), &Some(vec![rule])));
    let rules = egress["spec"]["egress"].as_array().unwrap();
    assert_eq!(rules.len(), 3);
    assert_eq!(rules[0], json(r#"{"to": []}"#));
    assert_eq!(rules[1]["ports"], json(r#"[{"protocol": "TCP", "port": 5122}]"#));
    assert_eq!(rules[1]["to"][0]["podSelector"], json(NODES));
    assert_eq!(
        rules[2],
        json(
            r#"{
                "to": [{
                    "namespaceSelector": {},
                    "podSelector": {"matchLabels": {"allow.restate.dev/c1": "true"}}
                }]
            }"#
        )
    );
}

fn settings() -> OperatorSettings {
    OperatorSettings {
        aws_pod_identity_association_cluster: None,
        operator_namespace: Some("operators".to_owned()),
        operator_label_name: Some("app".to_owned()),
        operator_label_value: Some("restate-operator".to_owned()),
        security_group_policy_installed: false,
        gcp_workload_identity: false,
        canary_image: "busybox:uclibc".to_owned(),
    }
}

fn applied(step: &ClusterStep) -> serde_json::Value {
    match step {
        ClusterStep::Apply(v) => plain(v),
        other => panic!("{other:?}"),
    }
}

#[test]
fn the_operator_and_the_nodes_get_in() {
    let peers = Some(RestateClusterNetworkPeers {
        ingress: None,
        admin: Some(vec![Value::Object(Object::new())]),
        metrics: None,
    });
    let steps =
        reconcile_network_policies(&settings(), "c1", &base(), &peers, true, &None, false);
    assert_eq!(steps.len(), 8);
    assert!(matches!(
        steps[3],
        ClusterStep::Delete { kind: OwnedKind::NetworkPolicy, name: AWS_POD_IDENTITY_POLICY_NAME }
    ));
    let admin = applied(&steps[6]);
    let from = admin["spec"]["ingress"][0]["from"].as_array().unwrap();
    assert_eq!(from.len(), 2);
    assert_eq!(
        from[1],
        json(
            r#"{
                "namespaceSelector": {"matchLabels": {"kubernetes.io/metadata.name": "operators"}},
                "podSelector": {"matchLabels": {"app": "restate-operator"}}
            }"#
        )
    );
    let metrics = applied(&steps[7]);
    assert_eq!(metrics["spec"]["ingress"][0]["from"][0]["podSelector"], json(NODES));

    let steps =
        reconcile_network_policies(&settings(), "c1", &base(), &peers, false, &None, true);
    assert_eq!(applied(&steps[3])["metadata"]["name"], AWS_POD_IDENTITY_POLICY_NAME);
    let admin = applied(&steps[6]);
    assert_eq!(admin["spec"]["ingress"][0]["from"].as_array().unwrap().len(), 1);
}

fn cluster() -> RestateCluster {
    let mut metadata = ObjectMeta::empty();
    metadata.name = Some("c1".to_owned());
    metadata.uid = Some("uid-1".to_owned());
    metadata.labels = Some(map(&[("team", "a")]));
    RestateCluster { metadata, spec: spec(), status: None }
}

#[test]
fn a_namespace_of_another_owner_is_not_taken_over() {
    let rc = cluster();
    let owner = controller_owner_ref(&rc);
    assert_eq!(owner.api_version, "restate.dev/v1");
    assert_eq!(owner.kind, "RestateCluster");
    assert_eq!(owner.controller, Some(true));
    assert_eq!(owner.block_owner_deletion, None);
    assert!(check_namespace(&None, &owner).is_ok());
    let mut taken = ObjectMeta::empty();
    assert!(matches!(check_namespace(&Some(ObjectMeta::empty()), &owner), Err(Error::NameConflict)));
    taken.owner_references = Some(vec![OwnerReference {
        api_version: "restate.dev/v1".to_owned(),
        kind: "RestateCluster".to_owned(),
        name: "c1".to_owned(),
        uid: "uid-1".to_owned(),
        controller: Some(true),
        block_owner_deletion: None,
    }]);
    assert!(check_namespace(&Some(taken.duplicate()), &owner).is_ok());
    // the whole reference is compared
    taken.owner_references.as_mut().unwrap()[0].block_owner_deletion = Some(true);
    assert!(matches!(check_namespace(&Some(taken), &owner), Err(Error::NameConflict)));

    let meta = base_metadata(&rc);
    assert_eq!(meta.name.as_deref(), Some("c1"));
    assert_eq!(meta.labels.as_ref().unwrap().get("team").unwrap(), "a");
    let ns = plain(&cluster_namespace(&meta, "c1"));
    assert_eq!(ns["kind"], "Namespace");
    assert_eq!(ns["metadata"]["labels"]["team"], "a");
    assert_eq!(ns["metadata"]["ownerReferences"][0]["uid"], "uid-1");
}

#[test]
fn a_cluster_starts_with_its_namespace_and_its_policies() {
    let mut rc = cluster();
    let steps = reconcile(&settings(), &rc, &None, &None).unwrap();
    assert!(matches!(steps[0], ClusterStep::ApplyNamespace(_)));
    assert_eq!(applied(&steps[1])["metadata"]["name"], "deny-all");
    assert!(matches!(steps.last().unwrap(), ClusterStep::ApplyStatefulSet(_)));
    // the operator gets in unless that is forbidden
    let admin = applied(&steps[7]);
    assert_eq!(admin["metadata"]["name"], "allow-admin-access");
    assert_eq!(admin["spec"]["ingress"][0]["from"].as_array().unwrap().len(), 1);
    rc.spec.security = Some(RestateClusterSecurity {
        service_annotations: None,
        service_account_annotations: None,
        aws_pod_identity_association_role_arn: Some("arn:role".to_owned()),
        aws_pod_security_groups: None,
        network_peers: None,
        network_egress_rules: None,
        allow_operator_access_to_admin: Some(false),
        trusted_ca_certs: None,
    });
    let steps = reconcile(&settings(), &rc, &None, &None).unwrap();
    assert_eq!(applied(&steps[4])["metadata"]["name"], AWS_POD_IDENTITY_POLICY_NAME);
    assert!(applied(&steps[7])["spec"].get("ingress").is_none());
    assert!(matches!(
        reconcile(&settings(), &rc, &Some(ObjectMeta::empty()), &None),
        Err(Error::NameConflict)
    ));
}

#[test]
fn a_cluster_is_provisioned_before_its_nodes_are_waited_for() {
    let mut rc = cluster();
    let set = Some(StatefulSetStatus { replicas: 3, ready_replicas: Some(0) });
    let go = |rc: &RestateCluster, stage: ClusterStage, event: ClusterEvent| {
        assert!(cluster_expects(stage, &event));
        cluster_step(rc, "cluster.local", stage, event)
    };
    let (stage, command) = go(&rc, ClusterStage::Applying, ClusterEvent::Applied { set });
    assert_eq!(stage, ClusterStage::Finished);
    assert!(matches!(command, ClusterCommand::Finish(Err(Error::NotReady { .. }))));

    rc.spec.cluster = Some(ClusterProvisioning { auto_provision: true });
    let (stage, command) = go(&rc, ClusterStage::Applying, ClusterEvent::Applied { set });
    assert!(matches!(command, ClusterCommand::LookAtNode));
    let running = ClusterEvent::Node { phase: Some("Running".to_owned()) };
    let (stage, command) = go(&rc, stage, running);
    assert!(matches!(
        command,
        ClusterCommand::Provision { endpoint }
            if endpoint == "http://restate-0.restate-cluster.c1.svc.cluster.local:5122"
    ));
    let (_, command) = go(&rc, stage, ClusterEvent::Answered(ProvisionAnswer::AlreadyExists));
    assert!(matches!(command, ClusterCommand::Finish(Err(Error::Provisioned))));
    let failed = ClusterEvent::Answered(ProvisionAnswer::InvalidEndpoint("e".to_owned()));
    let (_, command) = go(&rc, ClusterStage::Provisioning, failed);
    assert!(matches!(command, ClusterCommand::Finish(Err(Error::ProvisioningFailed(_)))));
    let absent = ClusterEvent::Node { phase: None };
    let (_, command) = go(&rc, ClusterStage::LookingAtNode, absent);
    assert!(matches!(command, ClusterCommand::Finish(Err(Error::NotReady { .. }))));

    rc.spec.cluster = None;
    let set = Some(StatefulSetStatus { replicas: 3, ready_replicas: Some(3) });
    let (_, command) = go(&rc, ClusterStage::Applying, ClusterEvent::Applied { set });
    assert!(matches!(command, ClusterCommand::Finish(Ok(()))));
    let (_, command) =
        go(&rc, ClusterStage::Applying, ClusterEvent::Failed(Error::HashCollision));
    assert!(matches!(command, ClusterCommand::Finish(Err(Error::HashCollision))));
    assert!(!cluster_expects(ClusterStage::Finished, &ClusterEvent::Node { phase: None }));
}

#[test]
fn the_status_says_how_a_reconcile_went() {
    let mut rc = cluster();
    let (status, result) = reconcile_status(&rc, Ok(()), at(100));
    assert!(matches!(result, Ok(Action::Requeue(d)) if d == Duration::from_secs(300)));
    let ready = &status.conditions.as_ref().unwrap()[0];
    assert_eq!(ready.status, "True");
    assert_eq!(ready.reason.as_deref(), Some("Provisioned"));
    assert_eq!(ready.message.as_deref(), Some("Restate Cluster provisioned successfully"));

    let waiting = Error::NotReady {
        message: "m".to_owned(),
        reason: "r".to_owned(),
        requeue_after: None,
    };
    let (status, result) = reconcile_status(&rc, Err(waiting), at(100));
    assert!(matches!(result, Ok(Action::Requeue(d)) if d == Duration::from_secs(60)));
    assert_eq!(status.conditions.as_ref().unwrap()[0].status, "False");

    let (status, result) = reconcile_status(&rc, Err(Error::Provisioned), at(100));
    assert_eq!(status.provisioned, Some(true));
    assert!(matches!(result, Ok(Action::Requeue(d)) if d == Duration::from_secs(0)));

    rc.status = Some(RestateClusterStatus {
        conditions: Some(vec![Condition {
            last_transition_time: Some(at(7)),
            message: None,
            reason: None,
            status: "Unknown".to_owned(),
            type_: "Ready".to_owned(),
        }]),
        provisioned: Some(true),
        reconciliation: Some(ReconciliationState::Disabled),
    });
    let suspended = reconcile_suspended(&rc, at(100));
    assert_eq!(suspended.provisioned, Some(true));
    assert_eq!(suspended.reconciliation, Some(ReconciliationState::Disabled));
    assert_eq!(suspended.conditions.as_ref().unwrap().len(), 2);
    let (status, result) = reconcile_status(&rc, Err(Error::NameConflict), at(100));
    assert_eq!(status.reconciliation, Some(ReconciliationState::ResumingReconciliation));
    assert!(matches!(result, Err(Error::NameConflict)));
    let ready = &status.conditions.as_ref().unwrap()[0];
    assert_eq!(ready.status, "Unknown");
    assert_eq!(ready.reason.as_deref(), Some("FailedReconcile"));
    assert_eq!(ready.last_transition_time.unwrap().nanos(), at(7).nanos());
    assert_eq!(status.provisioned, Some(true));

    assert_eq!(error_policy(&Error::NameConflict), Action::Requeue(Duration::from_secs(30)));
}

#[test]
fn installed_groups_are_recognised() {
    let groups = vec![ApiGroup {
        name: "vpcresources.k8s.aws".to_owned(),
        versions: vec!["v1alpha1".to_owned(), "v1beta1".to_owned()],
    }];
    assert!(group_matches(&groups[0], "vpcresources.k8s.aws", "v1beta1"));
    assert!(!group_matches(&groups[0], "vpcresources.k8s.aws", "v1"));
    assert!(is_installed(&groups, "vpcresources.k8s.aws", "v1beta1"));
    assert!(!is_installed(&groups, "eks.services.k8s.aws", "v1beta1"));
    assert!(has_api_group(&groups, "vpcresources.k8s.aws"));
    assert!(!has_api_group(&groups, "serving.knative.dev"));
}

#[test]
fn schemas_refuse_what_cannot_be_changed() {
    let class = plain(&immutable_storage_class_name());
    assert_eq!(
        class["x-kubernetes-validations"],
        json(r#"[{"message": "storageClassName is immutable", "rule": "self == oldSelf"}]"#)
    );
    let request = plain(&expanding_volume_request());
    assert_eq!(request["format"], "int64");
    assert_eq!(
        request["x-kubernetes-validations"],
        json(
            r#"[{
                "message": "storageRequestBytes cannot be decreased",
                "rule": "self >= oldSelf"
            }]"#
        )
    );
    let variables = plain(&env_schema(Value::text("item")));
    assert_eq!(variables["items"], "item");
    assert_eq!(variables["x-kubernetes-list-map-keys"], json(r#"["name"]"#));
    let peers = plain(&network_peers_schema(Value::text("peer")));
    assert_eq!(peers["items"], "peer");
    assert_eq!(peers["x-kubernetes-list-type"], "atomic");
    let ports = plain(&network_ports_schema());
    assert_eq!(ports["items"]["properties"]["protocol"]["type"], "string");
    let whole = plain(&json_schema(Value::text("spec"), Value::text("status")));
    assert_eq!(whole["properties"]["spec"], "spec");
    assert_eq!(whole["properties"]["status"], "status");
}
