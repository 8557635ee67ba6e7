//! The nodes of a cluster: the StatefulSet that runs them, field by field.

use vstd::prelude::*;

use crate::json::{at2, at3, at4, field, inner, items, no_fields, opt_json, Json};
use crate::laws::documents::{
    holds_opt_texts, holds_texts, lemma_contains_add, lemma_contains_push, lemma_default_counts,
    lemma_times_named, lemma_times_named_add, lemma_times_named_push, lists_texts, sets_once,
    text_or_none, times_named, values_are_written_as_they_are, what_a_selector_says,
    what_metadata_says, what_template_metadata_says,
};
use crate::manifest::{
    container_port_json, container_security_json, custom_env, envs_json, mount_json,
    pod_security_json, with_default, EnvView,
};
use crate::meta::{meta_json, opt_map, MetaView};
use crate::restatecluster::labels::{cluster_selector, mandatory, object_view};
use crate::restatecluster::reconcile::expected_nodes;
use crate::restatecluster::resource::{
    RestateClusterCompute, RestateClusterSpec, RestateClusterStorage, SigningKey,
};
use crate::restatecluster::statefulset::{
    ca_init_container_json, ca_sources, claim_template_json, default_env, downward_env, key_path,
    key_volume_json, node_container_json, node_env, node_mounts, node_pod_json, node_volumes,
    pod_annotations, pod_labels, statefulset_json, trusted_certs,
};
use crate::text::{begins_with, decimal, int_text, join, opt_text, texts};

verus! {

/// What a cluster owns is labelled with Restate and the name of the cluster, whatever its own labels
/// say, is otherwise labelled and annotated as the cluster is, and is found by these two labels.
pub proof fn what_a_cluster_owns(base: MetaView, name: Seq<char>, key: Seq<char>)
    requires
        base.name is Some,
    ensures
        ({
            let m = object_view(base, name);
            let own = if base.labels is Some {
                base.labels->0
            } else {
                Map::empty()
            };
            let found_by = mandatory(base.name->0);
            &&& m.name == Some(name)
            &&& m.namespace == base.namespace && m.uid == base.uid
            &&& m.annotations == base.annotations && m.owner_references == base.owner_references
            &&& m.labels is Some
            &&& m.labels->0["app.kubernetes.io/name"@] == "restate"@
            &&& m.labels->0["app.kubernetes.io/instance"@] == base.name->0
            &&& m.labels->0.contains_key(key) <==> own.contains_key(key) || key
                == "app.kubernetes.io/name"@ || key == "app.kubernetes.io/instance"@
            &&& m.labels->0.contains_key(key) && key != "app.kubernetes.io/name"@ && key
                != "app.kubernetes.io/instance"@ ==> m.labels->0[key] == own[key]
            &&& found_by.contains_key(key) <==> key == "app.kubernetes.io/name"@ || key
                == "app.kubernetes.io/instance"@
            &&& found_by["app.kubernetes.io/name"@] == "restate"@
            &&& found_by["app.kubernetes.io/instance"@] == base.name->0
            &&& holds_texts(field(cluster_selector(base.name->0), "matchLabels"@), found_by)
            &&& field(cluster_selector(base.name->0), "matchExpressions"@) is None
        }),
{
    reveal_strlit("app.kubernetes.io/name");
    reveal_strlit("app.kubernetes.io/instance");
    assert("app.kubernetes.io/name"@.len() == 22);
    assert("app.kubernetes.io/instance"@.len() == 26);
    what_a_selector_says(Some(mandatory(base.name->0)), None);
}

/// The StatefulSet has as many replicas as are asked for, and where none are, leaves that to the
/// apiserver; its pods start together, are selected by the labels of the cluster, answer under the
/// headless Service, and claim their storage.
pub proof fn what_the_statefulset_says(
    base: MetaView,
    spec: RestateClusterSpec,
    internal: Option<Map<Seq<char>, Seq<char>>>,
    signing_key: Option<SigningKey>,
    cm_name: Seq<char>,
    canary_image: Seq<char>,
)
    requires
        base.name is Some,
    ensures
        ({
            let j = statefulset_json(base, spec, internal, signing_key, cm_name, canary_image);
            let replicas = at2(j, "spec"@, "replicas"@);
            let certs = trusted_certs(spec);
            &&& field(j, "apiVersion"@) == Some(Json::Text("apps/v1"@))
            &&& field(j, "kind"@) == Some(Json::Text("StatefulSet"@))
            &&& field(j, "metadata"@) == Some(meta_json(object_view(base, "restate"@)))
            &&& spec.compute.replicas is None ==> replicas is None
            &&& spec.compute.replicas matches Some(n) ==> replicas == Some(Json::Int(n as int))
                && n == expected_nodes(spec)
            &&& at2(j, "spec"@, "podManagementPolicy"@) == Some(Json::Text("Parallel"@))
            &&& at2(j, "spec"@, "serviceName"@) == Some(Json::Text("restate-cluster"@))
            &&& at2(j, "spec"@, "selector"@) == Some(cluster_selector(base.name->0))
            &&& at2(j, "spec"@, "volumeClaimTemplates"@) == Some(
                Json::Array(seq![claim_template_json(base, spec.storage)]),
            )
            &&& holds_texts(
                at4(j, "spec"@, "template"@, "metadata"@, "labels"@),
                pod_labels(base, spec.compute),
            )
            &&& holds_opt_texts(
                at4(j, "spec"@, "template"@, "metadata"@, "annotations"@),
                pod_annotations(base, spec.compute, internal),
            )
            &&& at3(j, "spec"@, "template"@, "spec"@) == Some(
                node_pod_json(
                    spec.compute,
                    if certs.len() > 0 {
                        Some(ca_init_container_json(certs.len(), canary_image))
                    } else {
                        None
                    },
                    node_container_json(
                        spec.compute,
                        node_env(base, spec, signing_key),
                        node_mounts(spec, signing_key),
                    ),
                    node_volumes(spec, signing_key, cm_name),
                ),
            )
        }),
{
    reveal_strlit("apiVersion");
    reveal_strlit("kind");
    reveal_strlit("metadata");
    reveal_strlit("spec");
    reveal_strlit("replicas");
    reveal_strlit("podManagementPolicy");
    reveal_strlit("serviceName");
    reveal_strlit("selector");
    reveal_strlit("volumeClaimTemplates");
    reveal_strlit("template");
    assert("apiVersion"@.len() == 10);
    assert("kind"@.len() == 4);
    assert("metadata"@.len() == 8);
    assert("spec"@.len() == 4);
    assert("replicas"@.len() == 8);
    assert("podManagementPolicy"@.len() == 19);
    assert("serviceName"@.len() == 11);
    assert("selector"@.len() == 8);
    assert("volumeClaimTemplates"@.len() == 20);
    assert("template"@.len() == 8);
    assert("kind"@[0] == 'k');
    assert("spec"@[0] == 's');
    assert("metadata"@[0] == 'm');
    assert("replicas"@[0] == 'r');
    assert("selector"@[0] == 's');
    assert("template"@[0] == 't');
    what_template_metadata_says(
        pod_labels(base, spec.compute),
        pod_annotations(base, spec.compute, internal),
    );
}

/// The pods carry the labels that the user gives them under those of what the cluster owns, and of
/// the annotations those of the operator win over those of the cluster, which win over the user's.
pub proof fn what_the_nodes_are_marked_with(
    base: MetaView,
    compute: RestateClusterCompute,
    internal: Option<Map<Seq<char>, Seq<char>>>,
    key: Seq<char>,
)
    requires
        base.name is Some,
    ensures
        ({
            let labels = pod_labels(base, compute);
            let owned = object_view(base, "restate"@).labels->0;
            let user = match compute.labels {
                Some(l) => l@,
                None => Map::empty(),
            };
            &&& labels.contains_key(key) <==> owned.contains_key(key) || user.contains_key(key)
            &&& owned.contains_key(key) ==> labels[key] == owned[key]
            &&& !owned.contains_key(key) && user.contains_key(key) ==> labels[key] == user[key]
        }),
        ({
            let all = pod_annotations(base, compute, internal);
            let user = match compute.annotations {
                Some(a) => a@,
                None => Map::empty(),
            };
            let own = if base.annotations is Some {
                base.annotations->0
            } else {
                Map::empty()
            };
            let ours = if internal is Some {
                internal->0
            } else {
                Map::empty()
            };
            &&& ours.contains_key(key) ==> all is Some && all->0.contains_key(key) && all->0[key]
                == ours[key]
            &&& !ours.contains_key(key) && own.contains_key(key) ==> all is Some
                && all->0.contains_key(key) && all->0[key] == own[key]
            &&& !ours.contains_key(key) && !own.contains_key(key) && user.contains_key(key) ==> all
                is Some && all->0.contains_key(key) && all->0[key] == user[key]
            &&& !ours.contains_key(key) && !own.contains_key(key) && !user.contains_key(key) && all
                is Some ==> !all->0.contains_key(key)
        }),
{
    let user = match compute.annotations {
        Some(a) => a@,
        None => Map::empty(),
    };
    let own = if base.annotations is Some {
        base.annotations->0
    } else {
        Map::empty()
    };
    let ours = if internal is Some {
        internal->0
    } else {
        Map::empty()
    };
    let merged = user.union_prefer_right(own).union_prefer_right(ours);
    if ours.contains_key(key) || own.contains_key(key) || user.contains_key(key) {
        assert(merged.contains_key(key));
        assert(merged != Map::<Seq<char>, Seq<char>>::empty());
    }
}

/// The container of a node runs the image asked for, with the settings asked for, listens on the
/// three ports of Restate, and is ready when its admin port says so.
pub proof fn what_the_node_container_says(
    compute: RestateClusterCompute,
    env: Seq<EnvView>,
    mounts: Seq<Json>,
)
    ensures
        ({
            let j = node_container_json(compute, env, mounts);
            let ports = items(field(j, "ports"@));
            &&& field(j, "name"@) == Some(Json::Text("restate"@))
            &&& field(j, "image"@) == Some(Json::Text(compute.image@))
            &&& field(j, "imagePullPolicy"@) == text_or_none(opt_text(compute.image_pull_policy))
            &&& field(j, "env"@) == Some(envs_json(env))
            &&& field(j, "volumeMounts"@) == Some(Json::Array(mounts))
            &&& field(j, "resources"@) == opt_json(compute.resources)
            &&& field(j, "securityContext"@) == Some(container_security_json(true))
            &&& compute.command is None ==> field(j, "command"@) is None
            &&& compute.command matches Some(c) ==> field(j, "command"@) is Some && lists_texts(
                field(j, "command"@)->0,
                texts(c@),
            )
            &&& compute.args is None ==> field(j, "args"@) is None
            &&& compute.args matches Some(c) ==> field(j, "args"@) is Some && lists_texts(
                field(j, "args"@)->0,
                texts(c@),
            )
            &&& ports.len() == 3
            &&& ports[0] == container_port_json("ingress"@, 8080)
            &&& ports[1] == container_port_json("admin"@, 9070)
            &&& ports[2] == container_port_json("metrics"@, 5122)
            &&& at3(j, "readinessProbe"@, "httpGet"@, "path"@) == Some(Json::Text("/health"@))
            &&& at3(j, "readinessProbe"@, "httpGet"@, "port"@) == Some(Json::Int(9070))
            &&& at2(j, "readinessProbe"@, "initialDelaySeconds"@) == Some(Json::Int(30))
        }),
{
    reveal_strlit("name");
    reveal_strlit("image");
    reveal_strlit("imagePullPolicy");
    reveal_strlit("env");
    reveal_strlit("volumeMounts");
    reveal_strlit("resources");
    reveal_strlit("securityContext");
    reveal_strlit("command");
    reveal_strlit("args");
    reveal_strlit("ports");
    reveal_strlit("readinessProbe");
    reveal_strlit("httpGet");
    reveal_strlit("path");
    reveal_strlit("port");
    reveal_strlit("initialDelaySeconds");
    assert("name"@.len() == 4);
    assert("image"@.len() == 5);
    assert("imagePullPolicy"@.len() == 15);
    assert("env"@.len() == 3);
    assert("volumeMounts"@.len() == 12);
    assert("resources"@.len() == 9);
    assert("securityContext"@.len() == 15);
    assert("command"@.len() == 7);
    assert("args"@.len() == 4);
    assert("ports"@.len() == 5);
    assert("readinessProbe"@.len() == 14);
    assert("httpGet"@.len() == 7);
    assert("path"@.len() == 4);
    assert("port"@.len() == 4);
    assert("initialDelaySeconds"@.len() == 19);
    assert("name"@[2] == 'm');
    assert("args"@[2] == 'g');
    assert("path"@[2] == 't');
    assert("port"@[2] == 'r');
    assert("image"@[0] == 'i');
    assert("ports"@[0] == 'p');
    assert("imagePullPolicy"@[0] == 'i');
    assert("securityContext"@[0] == 's');
    assert("command"@[0] == 'c');
    assert("httpGet"@[0] == 'h');
}

/// The pod of a node is placed as asked for, has a minute to stop, and runs under the account of the
/// cluster.
pub proof fn what_the_node_pod_says(
    compute: RestateClusterCompute,
    init: Option<Json>,
    container: Json,
    volumes: Seq<Json>,
)
    ensures
        ({
            let j = node_pod_json(compute, init, container, volumes);
            &&& field(j, "automountServiceAccountToken"@) == Some(Json::Bool(false))
            &&& field(j, "containers"@) == Some(Json::Array(seq![container]))
            &&& field(j, "initContainers"@) == (if init is Some {
                Some(Json::Array(seq![init->0]))
            } else {
                None
            })
            &&& field(j, "securityContext"@) == Some(pod_security_json(false))
            &&& field(j, "serviceAccountName"@) == Some(Json::Text("restate"@))
            &&& field(j, "terminationGracePeriodSeconds"@) == Some(Json::Int(60))
            &&& field(j, "volumes"@) == Some(Json::Array(volumes))
            &&& field(j, "affinity"@) == opt_json(compute.affinity)
            &&& field(j, "dnsPolicy"@) == text_or_none(opt_text(compute.dns_policy))
            &&& field(j, "dnsConfig"@) == opt_json(compute.dns_config)
            &&& field(j, "imagePullSecrets"@) == opt_json(compute.image_pull_secrets)
            &&& field(j, "tolerations"@) == opt_json(compute.tolerations)
            &&& holds_opt_texts(field(j, "nodeSelector"@), opt_map(compute.node_selector))
            &&& field(j, "topologySpreadConstraints"@) == opt_json(
                compute.topology_spread_constraints,
            )
            &&& field(j, "priorityClassName"@) == text_or_none(
                opt_text(compute.priority_class_name),
            )
        }),
{
    reveal_strlit("automountServiceAccountToken");
    reveal_strlit("containers");
    reveal_strlit("initContainers");
    reveal_strlit("securityContext");
    reveal_strlit("serviceAccountName");
    reveal_strlit("terminationGracePeriodSeconds");
    reveal_strlit("volumes");
    reveal_strlit("affinity");
    reveal_strlit("dnsPolicy");
    reveal_strlit("dnsConfig");
    reveal_strlit("imagePullSecrets");
    reveal_strlit("tolerations");
    reveal_strlit("nodeSelector");
    reveal_strlit("topologySpreadConstraints");
    reveal_strlit("priorityClassName");
    assert("automountServiceAccountToken"@.len() == 28);
    assert("containers"@.len() == 10);
    assert("initContainers"@.len() == 14);
    assert("securityContext"@.len() == 15);
    assert("serviceAccountName"@.len() == 18);
    assert("terminationGracePeriodSeconds"@.len() == 29);
    assert("volumes"@.len() == 7);
    assert("affinity"@.len() == 8);
    assert("dnsPolicy"@.len() == 9);
    assert("dnsConfig"@.len() == 9);
    assert("imagePullSecrets"@.len() == 16);
    assert("tolerations"@.len() == 11);
    assert("nodeSelector"@.len() == 12);
    assert("topologySpreadConstraints"@.len() == 25);
    assert("priorityClassName"@.len() == 17);
    assert("dnsPolicy"@[3] == 'P');
    assert("dnsConfig"@[3] == 'C');
    values_are_written_as_they_are(None, None, opt_map(compute.node_selector), Seq::empty());
}

/// Each node claims the storage asked for, of the classes asked for, for itself alone.
pub proof fn what_a_node_claims(base: MetaView, storage: RestateClusterStorage)
    requires
        base.name is Some,
    ensures
        ({
            let j = claim_template_json(base, storage);
            let modes = items(at2(j, "spec"@, "accessModes"@));
            &&& field(j, "apiVersion"@) == Some(Json::Text("v1"@))
            &&& field(j, "kind"@) == Some(Json::Text("PersistentVolumeClaim"@))
            &&& at2(j, "metadata"@, "name"@) == Some(Json::Text("storage"@))
            &&& holds_texts(at2(j, "metadata"@, "labels"@), mandatory(base.name->0))
            &&& modes.len() == 1 && modes[0] == Json::Text("ReadWriteOnce"@)
            &&& at4(j, "spec"@, "resources"@, "requests"@, "storage"@) == Some(
                Json::Text(int_text(storage.storage_request_bytes as int)),
            )
            &&& at2(j, "spec"@, "storageClassName"@) == text_or_none(
                opt_text(storage.storage_class_name),
            )
            &&& at2(j, "spec"@, "volumeAttributesClassName"@) == text_or_none(
                opt_text(storage.volume_attributes_class_name),
            )
        }),
{
    reveal_strlit("apiVersion");
    reveal_strlit("kind");
    reveal_strlit("metadata");
    reveal_strlit("spec");
    reveal_strlit("accessModes");
    reveal_strlit("resources");
    reveal_strlit("requests");
    reveal_strlit("storage");
    reveal_strlit("storageClassName");
    reveal_strlit("volumeAttributesClassName");
    assert("apiVersion"@.len() == 10);
    assert("kind"@.len() == 4);
    assert("metadata"@.len() == 8);
    assert("spec"@.len() == 4);
    assert("accessModes"@.len() == 11);
    assert("resources"@.len() == 9);
    assert("requests"@.len() == 8);
    assert("storage"@.len() == 7);
    assert("storageClassName"@.len() == 16);
    assert("volumeAttributesClassName"@.len() == 25);
    assert("kind"@[0] == 'k');
    assert("spec"@[0] == 's');
    assert("metadata"@[0] == 'm');
    assert("requests"@[0] == 'r');
    what_metadata_says(
        MetaView {
            name: Some("storage"@),
            namespace: None,
            uid: None,
            labels: Some(mandatory(base.name->0)),
            annotations: None,
            owner_references: None,
        },
    );
}

spec fn ind(custom: Seq<EnvView>, name: Seq<char>, other: Seq<char>) -> nat {
    if name == other && times_named(custom, name) == 0 {
        1
    } else {
        0
    }
}

/// Each variable that the user does not set is set once, to the value of the operator, and what the
/// user sets is passed on. The node is told the name of the cluster, which is that of the resource
/// unless the user gives another, where its signing key is, and which certificates to trust.
pub proof fn what_a_node_is_told(
    base: MetaView,
    spec: RestateClusterSpec,
    signing_key: Option<SigningKey>,
)
    requires
        base.name is Some,
    ensures
        ({
            let vars = node_env(base, spec, signing_key);
            let custom = custom_env(spec.compute.env);
            let cluster_name = match spec.cluster_name {
                Some(n) => n@,
                None => base.name->0,
            };
            &&& times_named(custom, "RESTATE_LOG_FORMAT"@) == 0
                ==> sets_once(vars, "RESTATE_LOG_FORMAT"@, "json"@)
            &&& times_named(custom, "RESTATE_CLUSTER_NAME"@) == 0
                ==> sets_once(vars, "RESTATE_CLUSTER_NAME"@, cluster_name)
            &&& times_named(custom, "RESTATE_BASE_DIR"@) == 0
                ==> sets_once(vars, "RESTATE_BASE_DIR"@, "/restate-data"@)
            &&& times_named(custom, "RUST_BACKTRACE"@) == 0
                ==> sets_once(vars, "RUST_BACKTRACE"@, "1"@)
            &&& times_named(custom, "RUST_LIB_BACKTRACE"@) == 0
                ==> sets_once(vars, "RUST_LIB_BACKTRACE"@, "0"@)
            &&& times_named(custom, "RESTATE_CONFIG"@) == 0
                ==> sets_once(vars, "RESTATE_CONFIG"@, "/config/config.toml"@)
            &&& times_named(custom, "RESTATE_ADVERTISED_ADDRESS"@) == 0
                ==> sets_once(vars, "RESTATE_ADVERTISED_ADDRESS"@,
                "http://$(POD_NAME).restate-cluster:5122"@)
            &&& times_named(custom, "RESTATE_NODE_NAME"@) == 0
                ==> sets_once(vars, "RESTATE_NODE_NAME"@, "$(POD_NAME)"@)
            &&& forall|e: EnvView| #[trigger] custom.contains(e) ==> vars.contains(e)
            &&& signing_key is Some && times_named(
                custom,
                "RESTATE_REQUEST_IDENTITY_PRIVATE_KEY_PEM_FILE"@,
            ) == 0 ==> sets_once(
                vars,
                "RESTATE_REQUEST_IDENTITY_PRIVATE_KEY_PEM_FILE"@,
                if begins_with(signing_key->0.relative_path@, "/"@) {
                    signing_key->0.relative_path@
                } else {
                    "/signing-key/"@ + signing_key->0.relative_path@
                },
            )
            &&& trusted_certs(spec).len() > 0 && times_named(custom, "SSL_CERT_FILE"@) == 0
                ==> sets_once(vars, "SSL_CERT_FILE"@, "/combined-certs/ca-certificates.crt"@)
        }),
{
    reveal_strlit("RESTATE_LOG_FORMAT");
    reveal_strlit("RESTATE_CLUSTER_NAME");
    reveal_strlit("RESTATE_BASE_DIR");
    reveal_strlit("RUST_BACKTRACE");
    reveal_strlit("RUST_LIB_BACKTRACE");
    reveal_strlit("RESTATE_CONFIG");
    reveal_strlit("RESTATE_ADVERTISED_ADDRESS");
    reveal_strlit("RESTATE_NODE_NAME");
    reveal_strlit("RESTATE_REQUEST_IDENTITY_PRIVATE_KEY_PEM_FILE");
    reveal_strlit("SSL_CERT_FILE");
    reveal_strlit("POD_NAME");
    reveal_strlit("POD_ZONE");
    reveal_strlit("POD_REGION");
    assert("RESTATE_LOG_FORMAT"@.len() == 18);
    assert("RESTATE_CLUSTER_NAME"@.len() == 20);
    assert("RESTATE_BASE_DIR"@.len() == 16);
    assert("RUST_BACKTRACE"@.len() == 14);
    assert("RUST_LIB_BACKTRACE"@.len() == 18);
    assert("RESTATE_CONFIG"@.len() == 14);
    assert("RESTATE_ADVERTISED_ADDRESS"@.len() == 26);
    assert("RESTATE_NODE_NAME"@.len() == 17);
    assert("RESTATE_REQUEST_IDENTITY_PRIVATE_KEY_PEM_FILE"@.len() == 45);
    assert("SSL_CERT_FILE"@.len() == 13);
    assert("POD_NAME"@.len() == 8);
    assert("POD_ZONE"@.len() == 8);
    assert("POD_REGION"@.len() == 10);
    assert("RESTATE_LOG_FORMAT"@[1] == 'E');
    assert("RUST_LIB_BACKTRACE"@[1] == 'U');
    assert("RUST_BACKTRACE"@[1] == 'U');
    assert("RESTATE_CONFIG"@[1] == 'E');
    assert("POD_NAME"@[4] == 'N');
    assert("POD_ZONE"@[4] == 'Z');
    let custom = custom_env(spec.compute.env);
    lemma_times_named(downward_env(), "POD_NAME"@);
    lemma_times_named(downward_env(), "RESTATE_LOG_FORMAT"@);
    lemma_times_named(downward_env(), "RESTATE_CLUSTER_NAME"@);
    lemma_times_named(downward_env(), "RESTATE_BASE_DIR"@);
    lemma_times_named(downward_env(), "RUST_BACKTRACE"@);
    lemma_times_named(downward_env(), "RUST_LIB_BACKTRACE"@);
    lemma_times_named(downward_env(), "RESTATE_CONFIG"@);
    lemma_times_named(downward_env(), "RESTATE_ADVERTISED_ADDRESS"@);
    lemma_times_named(downward_env(), "RESTATE_NODE_NAME"@);
    lemma_times_named(downward_env(), "RESTATE_REQUEST_IDENTITY_PRIVATE_KEY_PEM_FILE"@);
    lemma_times_named(downward_env(), "SSL_CERT_FILE"@);
    lemma_node_env(base, spec, signing_key, "RESTATE_LOG_FORMAT"@);
    lemma_node_env(base, spec, signing_key, "RESTATE_CLUSTER_NAME"@);
    lemma_node_env(base, spec, signing_key, "RESTATE_BASE_DIR"@);
    lemma_node_env(base, spec, signing_key, "RUST_BACKTRACE"@);
    lemma_node_env(base, spec, signing_key, "RUST_LIB_BACKTRACE"@);
    lemma_node_env(base, spec, signing_key, "RESTATE_CONFIG"@);
    lemma_node_env(base, spec, signing_key, "RESTATE_ADVERTISED_ADDRESS"@);
    lemma_node_env(base, spec, signing_key, "RESTATE_NODE_NAME"@);
    lemma_node_env(base, spec, signing_key, "RESTATE_REQUEST_IDENTITY_PRIVATE_KEY_PEM_FILE"@);
    lemma_node_env(base, spec, signing_key, "SSL_CERT_FILE"@);
}

/// A node is told its own name, its zone and its region by its pod.
pub proof fn what_a_node_learns_of_itself(cluster_name: Seq<char>, custom: Seq<EnvView>)
    ensures
        default_env(cluster_name, custom).len() >= 3,
        ({
            let v = default_env(cluster_name, custom);
            &&& v[0].name == "POD_NAME"@ && v[1].name == "POD_ZONE"@ && v[2].name == "POD_REGION"@
            &&& inner(inner(v[0].value_from, "fieldRef"@), "fieldPath"@) == Some(
                Json::Text("metadata.name"@),
            )
            &&& inner(inner(v[1].value_from, "fieldRef"@), "fieldPath"@) == Some(
                Json::Text("metadata.labels['topology.kubernetes.io/zone']"@),
            )
            &&& inner(inner(v[2].value_from, "fieldRef"@), "fieldPath"@) == Some(
                Json::Text("metadata.labels['topology.kubernetes.io/region']"@),
            )
        }),
{
}

proof fn lemma_node_env(
    base: MetaView,
    spec: RestateClusterSpec,
    signing_key: Option<SigningKey>,
    name: Seq<char>,
)
    requires
        base.name is Some,
    ensures
        ({
            let custom = custom_env(spec.compute.env);
            let vars = node_env(base, spec, signing_key);
            let cluster_name = match spec.cluster_name {
                Some(n) => n@,
                None => base.name->0,
            };
            &&& times_named(vars, name) == times_named(downward_env(), name)
                + ind(custom, "RESTATE_LOG_FORMAT"@, name)
                + ind(custom, "RESTATE_CLUSTER_NAME"@, name)
                + ind(custom, "RESTATE_BASE_DIR"@, name) + ind(custom, "RUST_BACKTRACE"@, name)
                + ind(custom, "RUST_LIB_BACKTRACE"@, name) + ind(custom, "RESTATE_CONFIG"@, name)
                + ind(custom, "RESTATE_ADVERTISED_ADDRESS"@, name)
                + ind(custom, "RESTATE_NODE_NAME"@, name) + times_named(custom, name)
                + (if signing_key is Some && name
                == "RESTATE_REQUEST_IDENTITY_PRIVATE_KEY_PEM_FILE"@ {
                1nat
            } else {
                0
            }) + (if trusted_certs(spec).len() > 0 && name == "SSL_CERT_FILE"@ {
                1nat
            } else {
                0
            })
            &&& times_named(custom, "RESTATE_LOG_FORMAT"@) == 0 ==> vars.contains(
                EnvView { name: "RESTATE_LOG_FORMAT"@, value: Some("json"@), value_from: None },
            )
            &&& times_named(custom, "RESTATE_CLUSTER_NAME"@) == 0 ==> vars.contains(
                EnvView { name: "RESTATE_CLUSTER_NAME"@, value: Some(cluster_name),
                    value_from: None },
            )
            &&& times_named(custom, "RESTATE_BASE_DIR"@) == 0 ==> vars.contains(
                EnvView { name: "RESTATE_BASE_DIR"@, value: Some("/restate-data"@),
                    value_from: None },
            )
            &&& times_named(custom, "RUST_BACKTRACE"@) == 0 ==> vars.contains(
                EnvView { name: "RUST_BACKTRACE"@, value: Some("1"@), value_from: None },
            )
            &&& times_named(custom, "RUST_LIB_BACKTRACE"@) == 0 ==> vars.contains(
                EnvView { name: "RUST_LIB_BACKTRACE"@, value: Some("0"@), value_from: None },
            )
            &&& times_named(custom, "RESTATE_CONFIG"@) == 0 ==> vars.contains(
                EnvView { name: "RESTATE_CONFIG"@, value: Some("/config/config.toml"@),
                    value_from: None },
            )
            &&& times_named(custom, "RESTATE_ADVERTISED_ADDRESS"@) == 0 ==> vars.contains(
                EnvView { name: "RESTATE_ADVERTISED_ADDRESS"@,
                    value: Some("http://$(POD_NAME).restate-cluster:5122"@), value_from: None },
            )
            &&& times_named(custom, "RESTATE_NODE_NAME"@) == 0 ==> vars.contains(
                EnvView { name: "RESTATE_NODE_NAME"@, value: Some("$(POD_NAME)"@),
                    value_from: None },
            )
            &&& forall|e: EnvView| #[trigger] custom.contains(e) ==> vars.contains(e)
            &&& signing_key matches Some(k) ==> vars.contains(
                EnvView {
                    name: "RESTATE_REQUEST_IDENTITY_PRIVATE_KEY_PEM_FILE"@,
                    value: Some(key_path(k.relative_path@)),
                    value_from: None,
                },
            )
            &&& trusted_certs(spec).len() > 0 ==> vars.contains(
                EnvView {
                    name: "SSL_CERT_FILE"@,
                    value: Some("/combined-certs/ca-certificates.crt"@),
                    value_from: None,
                },
            )
        }),
{
    let custom = custom_env(spec.compute.env);
    let cluster_name = match spec.cluster_name {
        Some(n) => n@,
        None => base.name->0,
    };
    let s0 = with_default(downward_env(), custom, "RESTATE_LOG_FORMAT"@, "json"@);
    lemma_default_counts(downward_env(), custom, "RESTATE_LOG_FORMAT"@, "json"@, name);
    let s1 = with_default(s0, custom, "RESTATE_CLUSTER_NAME"@, cluster_name);
    lemma_default_counts(s0, custom, "RESTATE_CLUSTER_NAME"@, cluster_name, name);
    let s2 = with_default(s1, custom, "RESTATE_BASE_DIR"@, "/restate-data"@);
    lemma_default_counts(s1, custom, "RESTATE_BASE_DIR"@, "/restate-data"@, name);
    let s3 = with_default(s2, custom, "RUST_BACKTRACE"@, "1"@);
    lemma_default_counts(s2, custom, "RUST_BACKTRACE"@, "1"@, name);
    let s4 = with_default(s3, custom, "RUST_LIB_BACKTRACE"@, "0"@);
    lemma_default_counts(s3, custom, "RUST_LIB_BACKTRACE"@, "0"@, name);
    let s5 = with_default(s4, custom, "RESTATE_CONFIG"@, "/config/config.toml"@);
    lemma_default_counts(s4, custom, "RESTATE_CONFIG"@, "/config/config.toml"@, name);
    let s6 = with_default(s5, custom, "RESTATE_ADVERTISED_ADDRESS"@,
        "http://$(POD_NAME).restate-cluster:5122"@);
    lemma_default_counts(s5, custom, "RESTATE_ADVERTISED_ADDRESS"@,
        "http://$(POD_NAME).restate-cluster:5122"@, name);
    let s7 = with_default(s6, custom, "RESTATE_NODE_NAME"@, "$(POD_NAME)"@);
    lemma_default_counts(s6, custom, "RESTATE_NODE_NAME"@, "$(POD_NAME)"@, name);
    assert(s7 == default_env(cluster_name, custom));
    lemma_times_named_add(s7, custom, name);
    lemma_contains_add(s7, custom);
    let a = s7 + custom;
    let b = match signing_key {
        Some(k) => {
            let e = EnvView {
                name: "RESTATE_REQUEST_IDENTITY_PRIVATE_KEY_PEM_FILE"@,
                value: Some(key_path(k.relative_path@)),
                value_from: None,
            };
            lemma_times_named_push(a, e, name);
            lemma_contains_push(a, e);
            a.push(e)
        },
        None => a,
    };
    if trusted_certs(spec).len() > 0 {
        let e = EnvView {
            name: "SSL_CERT_FILE"@,
            value: Some("/combined-certs/ca-certificates.crt"@),
            value_from: None,
        };
        lemma_times_named_push(b, e, name);
        lemma_contains_push(b, e);
    }
}

/// A node keeps its data on its storage, writes to a temporary volume, and reads its configuration,
/// its key and its certificates from volumes that it cannot write to.
pub proof fn what_is_mounted_where(spec: RestateClusterSpec, signing_key: Option<SigningKey>)
    ensures
        ({
            let m = node_mounts(spec, signing_key);
            let keys = if signing_key is Some {
                1int
            } else {
                0
            };
            let certs = if trusted_certs(spec).len() > 0 {
                1int
            } else {
                0
            };
            &&& m.len() == 3 + keys + certs
            &&& m[0] == mount_json("storage"@, "/restate-data"@, None, false)
            &&& m[1] == mount_json("tmp"@, "/tmp"@, None, false)
            &&& m[2] == mount_json("config"@, "/config"@, None, true)
            &&& signing_key matches Some(k) ==> m[3] == mount_json(
                k.volume_name@,
                "/signing-key"@,
                None,
                true,
            )
            &&& trusted_certs(spec).len() > 0 ==> m.last() == mount_json(
                "combined-ca-certs"@,
                "/combined-certs"@,
                None,
                true,
            )
        }),
{
}

/// The volumes of a node: a temporary one, its configuration, its key, and its certificates with the
/// one that they are combined in.
pub proof fn what_the_volumes_hold(
    spec: RestateClusterSpec,
    signing_key: Option<SigningKey>,
    cm_name: Seq<char>,
    i: int,
)
    ensures
        ({
            let v = node_volumes(spec, signing_key, cm_name);
            let certs = trusted_certs(spec);
            let keys = if signing_key is Some {
                1int
            } else {
                0
            };
            &&& v.len() == 2 + keys + if certs.len() > 0 {
                certs.len() + 1
            } else {
                0
            }
            &&& field(v[0], "name"@) == Some(Json::Text("tmp"@))
            &&& field(v[0], "emptyDir"@) == Some(Json::Object(no_fields()))
            &&& field(v[1], "name"@) == Some(Json::Text("config"@))
            &&& at2(v[1], "configMap"@, "name"@) == Some(Json::Text(cm_name))
            &&& at2(v[1], "configMap"@, "items"@) is None
            &&& signing_key matches Some(k) ==> v[2] == key_volume_json(k)
            &&& 0 <= i < certs.len() ==> {
                let c = v[2 + keys + i];
                let listed = items(at2(c, "secret"@, "items"@));
                &&& field(c, "name"@) == Some(Json::Text("trusted-ca-"@ + decimal(i as nat)))
                &&& at2(c, "secret"@, "secretName"@) == Some(Json::Text(certs[i].secret_name@))
                &&& listed.len() == 1
                &&& field(listed[0], "key"@) == Some(Json::Text(certs[i].key@))
                &&& field(listed[0], "path"@) == Some(Json::Text("ca.pem"@))
                &&& field(listed[0], "mode"@) == Some(Json::Int(292))
            }
            &&& certs.len() > 0 ==> {
                &&& field(v.last(), "name"@) == Some(Json::Text("combined-ca-certs"@))
                &&& field(v.last(), "emptyDir"@) == Some(Json::Object(no_fields()))
            }
        }),
        signing_key matches Some(k) ==> forall|key: Seq<char>| #[trigger]
            field(key_volume_json(k), key) == if key == "name"@ {
                Some(Json::Text(k.volume_name@))
            } else {
                field(Json::Object(k.volume@), key)
            },
{
    reveal_strlit("name");
    reveal_strlit("emptyDir");
    reveal_strlit("configMap");
    reveal_strlit("items");
    reveal_strlit("secret");
    reveal_strlit("secretName");
    reveal_strlit("key");
    reveal_strlit("path");
    reveal_strlit("mode");
    assert("name"@.len() == 4);
    assert("emptyDir"@.len() == 8);
    assert("configMap"@.len() == 9);
    assert("items"@.len() == 5);
    assert("secret"@.len() == 6);
    assert("secretName"@.len() == 10);
    assert("key"@.len() == 3);
    assert("path"@.len() == 4);
    assert("mode"@.len() == 4);
    assert("name"@[0] == 'n');
    assert("path"@[0] == 'p');
    assert("mode"@[0] == 'm');
}

/// The certificates to trust are those of the security settings.
pub proof fn which_certificates_are_trusted(spec: RestateClusterSpec)
    ensures
        spec.security matches Some(s) && s.trusted_ca_certs is Some ==> trusted_certs(spec)
            == spec.security->0.trusted_ca_certs->0@,
        spec.security is None || spec.security->0.trusted_ca_certs is None ==> trusted_certs(
            spec,
        ).len() == 0,
{
}

/// Before a node starts, the bundle of the system and each certificate are joined into one bundle.
pub proof fn how_certificates_are_combined(count: nat, image: Seq<char>, i: int)
    ensures
        ({
            let j = ca_init_container_json(count, image);
            let command = items(field(j, "command"@));
            let mounts = items(field(j, "volumeMounts"@));
            let sources = ca_sources(count);
            &&& field(j, "name"@) == Some(Json::Text("combine-ca-certs"@))
            &&& field(j, "image"@) == Some(Json::Text(image))
            &&& field(j, "securityContext"@) == Some(container_security_json(false))
            &&& command.len() == 3
            &&& command[0] == Json::Text("sh"@) && command[1] == Json::Text("-c"@)
            &&& command[2] == Json::Text(
                "cat "@ + join(sources, " "@) + " > "@ + "/combined-certs/ca-certificates.crt"@,
            )
            &&& sources.len() == count + 1
            &&& sources[0] == "/etc/ssl/certs/ca-certificates.crt"@
            &&& 0 <= i < count ==> sources[i + 1] == "/trusted-ca-"@ + decimal(i as nat)
                + "/ca.pem"@
            &&& mounts.len() == count + 1
            &&& 0 <= i < count ==> mounts[i] == mount_json(
                "trusted-ca-"@ + decimal(i as nat),
                "/trusted-ca-"@ + decimal(i as nat),
                None,
                true,
            )
            &&& mounts.last() == mount_json("combined-ca-certs"@, "/combined-certs"@, None, false)
        }),
{
    reveal_strlit("name");
    reveal_strlit("image");
    reveal_strlit("securityContext");
    reveal_strlit("command");
    reveal_strlit("volumeMounts");
    assert("name"@.len() == 4);
    assert("image"@.len() == 5);
    assert("securityContext"@.len() == 15);
    assert("command"@.len() == 7);
    assert("volumeMounts"@.len() == 12);
}

} // verus!
