//! The StatefulSet of a cluster.

use vstd::prelude::*;
use vstd::string::*;

use crate::digest::{digest_of, hex_bytes, hex_bytes_text, text_digest};
use crate::json::{
    jsons, no_fields, opt_json, text_array, with_field, Json, Object, Value,
};
use crate::manifest::{
    config_map_source, config_map_source_json, container_port, container_port_json,
    container_security, container_security_json, custom_env, duplicate_opt_value, env_values,
    env_views, envs_json, key_to_path, key_to_path_json, manifest, manifest_json, mount_json,
    named, plain_env, pod_security, pod_security_json, push_custom, push_default, push_plain,
    secret_source, secret_source_json, template_meta, template_meta_json, volume, volume_json,
    volume_mount, with_default, EnvVar, EnvView,
};
use crate::meta::{
    entries, map_or_empty, opt_map, opt_map_json, opt_map_value, opt_text_json, opt_text_value,
    MetaView, ObjectMeta,
};
use crate::restatecluster::labels::{
    cluster_selector, label_selector, mandatory, mandatory_labels, object_meta, object_view,
};
use crate::restatecluster::objects::{pvc_resources_json, restate_pvc_resources};
use crate::restatecluster::resource::{
    RestateClusterCompute, RestateClusterSpec, RestateClusterStorage, SigningKey, TrustedCACert,
};
use crate::string_map::StringMap;
use crate::text::{
    begins_with, cat, cat3, decimal, join, join_strings, opt_text, starts_with_str, texts, u64_text,
};

verus! {

pub const RESTATE_STATEFULSET_NAME: &'static str = "restate";

/// The CA bundle of the image that combines the certificates.
pub const SYSTEM_CA_BUNDLE: &'static str = "/etc/ssl/certs/ca-certificates.crt";

pub const COMBINED_CA_VOLUME: &'static str = "combined-ca-certs";

pub const COMBINED_CA_MOUNT: &'static str = "/combined-certs";

pub const COMBINED_CA_BUNDLE: &'static str = "/combined-certs/ca-certificates.crt";

/// A variable that takes its value from a field of the pod.
pub open spec fn field_env(name: Seq<char>, path: Seq<char>) -> EnvView {
    EnvView {
        name,
        value: None,
        value_from: Some(
            Json::Object(
                no_fields().insert(
                    "fieldRef"@,
                    Json::Object(no_fields().insert("fieldPath"@, Json::Text(path))),
                ),
            ),
        ),
    }
}

fn field_var(name: &str, path: &str) -> (r: EnvVar)
    ensures
        r@ == field_env(name@, path@),
{
    let mut reference = Object::new();
    reference.put_text("fieldPath", path);
    let mut from = Object::new();
    from.put("fieldRef", Value::Object(reference));
    EnvVar { name: name.to_owned(), value: None, value_from: Some(Value::Object(from)) }
}

/// What the pod says of itself.
pub open spec fn downward_env() -> Seq<EnvView> {
    seq![
        field_env("POD_NAME"@, "metadata.name"@),
        field_env("POD_ZONE"@, "metadata.labels['topology.kubernetes.io/zone']"@),
        field_env("POD_REGION"@, "metadata.labels['topology.kubernetes.io/region']"@),
    ]
}

/// The variables that the operator sets.
pub open spec fn default_env(cluster_name: Seq<char>, custom: Seq<EnvView>) -> Seq<EnvView> {
    let a = with_default(downward_env(), custom, "RESTATE_LOG_FORMAT"@, "json"@);
    let b = with_default(a, custom, "RESTATE_CLUSTER_NAME"@, cluster_name);
    let c = with_default(b, custom, "RESTATE_BASE_DIR"@, "/restate-data"@);
    let d = with_default(c, custom, "RUST_BACKTRACE"@, "1"@);
    let e = with_default(d, custom, "RUST_LIB_BACKTRACE"@, "0"@);
    let f = with_default(e, custom, "RESTATE_CONFIG"@, "/config/config.toml"@);
    let g = with_default(
        f,
        custom,
        "RESTATE_ADVERTISED_ADDRESS"@,
        "http://$(POD_NAME).restate-cluster:5122"@,
    );
    with_default(g, custom, "RESTATE_NODE_NAME"@, "$(POD_NAME)"@)
}

fn push_field(out: &mut Vec<EnvVar>, name: &str, path: &str)
    ensures
        env_views(final(out)@) == env_views(old(out)@).push(field_env(name@, path@)),
{
    let ghost before = env_views(out@);
    out.push(field_var(name, path));
    proof {
        assert(env_views(out@) =~= before.push(field_env(name@, path@)));
    }
}

/// The environment of a node: what the pod says of itself, the defaults that the user does not set,
/// and what the user sets.
pub fn env(cluster_name: &str, custom: &Option<Vec<EnvVar>>) -> (r: Vec<EnvVar>)
    ensures
        env_views(r@) == default_env(cluster_name@, custom_env(*custom)) + custom_env(*custom),
{
    let mut out: Vec<EnvVar> = Vec::new();
    proof {
        assert(env_views(out@) =~= Seq::empty());
    }
    push_field(&mut out, "POD_NAME", "metadata.name");
    push_field(&mut out, "POD_ZONE", "metadata.labels['topology.kubernetes.io/zone']");
    push_field(&mut out, "POD_REGION", "metadata.labels['topology.kubernetes.io/region']");
    proof {
        assert(env_views(out@) =~= downward_env());
    }
    push_default(&mut out, custom, "RESTATE_LOG_FORMAT", "json");
    push_default(&mut out, custom, "RESTATE_CLUSTER_NAME", cluster_name);
    push_default(&mut out, custom, "RESTATE_BASE_DIR", "/restate-data");
    push_default(&mut out, custom, "RUST_BACKTRACE", "1");
    push_default(&mut out, custom, "RUST_LIB_BACKTRACE", "0");
    push_default(&mut out, custom, "RESTATE_CONFIG", "/config/config.toml");
    push_default(
        &mut out,
        custom,
        "RESTATE_ADVERTISED_ADDRESS",
        "http://$(POD_NAME).restate-cluster:5122",
    );
    push_default(&mut out, custom, "RESTATE_NODE_NAME", "$(POD_NAME)");
    push_custom(&mut out, custom);
    out
}

/// What a user sets overrides the defaults: no default of the same name is left beside it.
pub proof fn custom_variables_override(cluster_name: Seq<char>, custom: Seq<EnvView>, i: int)
    requires
        3 <= i < default_env(cluster_name, custom).len(),
    ensures
        !named(custom, default_env(cluster_name, custom)[i].name),
{
}

/// The certificates to trust.
pub open spec fn trusted_certs(spec: RestateClusterSpec) -> Seq<TrustedCACert> {
    match spec.security {
        Some(s) => match s.trusted_ca_certs {
            Some(c) => c@,
            None => Seq::empty(),
        },
        None => Seq::empty(),
    }
}

/// The name of the volume of a certificate.
pub open spec fn ca_volume_name(i: int) -> Seq<char> {
    "trusted-ca-"@ + decimal(i as nat)
}

/// Where the volume of a certificate is mounted.
pub open spec fn ca_mount_path(i: int) -> Seq<char> {
    "/trusted-ca-"@ + decimal(i as nat)
}

/// The volume of a certificate: its key of the Secret, readable by all.
pub open spec fn ca_volume_json(cert: TrustedCACert, i: int) -> Json {
    volume_json(
        ca_volume_name(i),
        "secret"@,
        secret_source_json(cert.secret_name@, key_to_path_json(cert.key@, Some(292), "ca.pem"@)),
    )
}

/// The volumes of the certificates, and the one that they are combined in.
pub open spec fn ca_volumes(certs: Seq<TrustedCACert>) -> Seq<Json> {
    Seq::new(certs.len(), |i: int| ca_volume_json(certs[i], i)).push(
        volume_json(COMBINED_CA_VOLUME@, "emptyDir"@, Json::Object(no_fields())),
    )
}

/// Where the volumes are mounted to be combined.
pub open spec fn ca_mounts(count: nat) -> Seq<Json> {
    Seq::new(count, |i: int| mount_json(ca_volume_name(i), ca_mount_path(i), None, true)).push(
        mount_json(COMBINED_CA_VOLUME@, COMBINED_CA_MOUNT@, None, false),
    )
}

/// What is combined: the bundle of the system, and each certificate.
pub open spec fn ca_sources(count: nat) -> Seq<Seq<char>> {
    seq![SYSTEM_CA_BUNDLE@] + Seq::new(count, |i: int| ca_mount_path(i) + "/ca.pem"@)
}

/// The container that combines the certificates before a node starts.
pub open spec fn ca_init_container_json(count: nat, image: Seq<char>) -> Json {
    let command = "cat "@ + join(ca_sources(count), " "@) + " > "@ + COMBINED_CA_BUNDLE@;
    Json::Object(
        no_fields().insert("command"@, text_array(seq!["sh"@, "-c"@, command])).insert(
            "image"@,
            Json::Text(image),
        ).insert("name"@, Json::Text("combine-ca-certs"@)).insert(
            "securityContext"@,
            container_security_json(false),
        ).insert("volumeMounts"@, Json::Array(ca_mounts(count))),
    )
}

/// The volumes of the trusted certificates, and the container that combines them with the bundle of
/// the system.
pub fn trusted_ca_init_container(certs: &Vec<TrustedCACert>, canary_image: &str) -> (r: (
    Vec<Value>,
    Value,
))
    ensures
        jsons(r.0@) == ca_volumes(certs@),
        r.1@ == ca_init_container_json(certs@.len(), canary_image@),
{
    let mut volumes: Vec<Value> = Vec::new();
    let mut mounts: Vec<Value> = Vec::new();
    let mut sources: Vec<String> = Vec::new();
    sources.push(SYSTEM_CA_BUNDLE.to_owned());
    let mut i: usize = 0;
    while i < certs.len()
        invariant
            i <= certs.len(),
            volumes@.len() == i,
            mounts@.len() == i,
            sources@.len() == i + 1,
            sources@[0]@ == SYSTEM_CA_BUNDLE@,
            forall|j: int| 0 <= j < i ==> (#[trigger] volumes@[j])@ == ca_volume_json(certs@[j], j),
            forall|j: int|
                0 <= j < i ==> (#[trigger] mounts@[j])@ == mount_json(
                    ca_volume_name(j),
                    ca_mount_path(j),
                    None,
                    true,
                ),
            forall|j: int|
                1 <= j <= i ==> (#[trigger] sources@[j])@ == ca_mount_path(j - 1) + "/ca.pem"@,
        decreases certs.len() - i,
    {
        let cert = &certs[i];
        let number = u64_text(i as u64);
        let vol_name = cat("trusted-ca-", number.as_str());
        let mount_path = cat("/trusted-ca-", number.as_str());
        let item = key_to_path(cert.key.as_str(), Some(292), "ca.pem");
        volumes.push(
            volume(vol_name.as_str(), "secret", secret_source(cert.secret_name.as_str(), item)),
        );
        mounts.push(volume_mount(vol_name.as_str(), mount_path.as_str(), None, true));
        sources.push(cat(mount_path.as_str(), "/ca.pem"));
        i = i + 1;
    }
    volumes.push(volume(COMBINED_CA_VOLUME, "emptyDir", Value::Object(Object::new())));
    mounts.push(volume_mount(COMBINED_CA_VOLUME, COMBINED_CA_MOUNT, None, false));
    proof {
        assert(jsons(volumes@) =~= ca_volumes(certs@));
        assert(jsons(mounts@) =~= ca_mounts(certs@.len()));
        assert(texts(sources@) =~= ca_sources(certs@.len()));
    }
    let mut line: String = cat3("cat ", join_strings(&sources, " ").as_str(), " > ");
    line.append(COMBINED_CA_BUNDLE);
    let mut command: Vec<String> = Vec::new();
    command.push("sh".to_owned());
    command.push("-c".to_owned());
    command.push(line);
    proof {
        let full = "cat "@ + join(ca_sources(certs@.len()), " "@) + " > "@ + COMBINED_CA_BUNDLE@;
        assert(texts(command@) =~= seq!["sh"@, "-c"@, full]);
    }
    let mut o = Object::new();
    o.put("command", Value::texts(&command));
    o.put_text("image", canary_image);
    o.put_text("name", "combine-ca-certs");
    o.put("securityContext", container_security(false));
    o.put("volumeMounts", Value::array(mounts));
    (volumes, Value::Object(o))
}

/// The references to the trusted certificates, one after the other.
pub open spec fn cert_refs(certs: Seq<TrustedCACert>) -> Seq<char>
    decreases certs.len(),
{
    if certs.len() == 0 {
        Seq::empty()
    } else {
        cert_refs(certs.drop_last()) + certs.last().secret_name@ + ":"@ + certs.last().key@ + ","@
    }
}

/// A digest of the references to the trusted certificates. As an annotation of the pods it makes
/// them roll when the references change.
pub fn hash_trusted_ca_cert_refs(certs: &Vec<TrustedCACert>) -> (r: String)
    ensures
        r@ == hex_bytes(text_digest(cert_refs(certs@))),
{
    let mut text: String = String::new();
    let mut i: usize = 0;
    proof {
        assert(certs@.take(0) =~= Seq::empty());
    }
    while i < certs.len()
        invariant
            i <= certs.len(),
            text@ == cert_refs(certs@.take(i as int)),
        decreases certs.len() - i,
    {
        text.append(certs[i].secret_name.as_str());
        text.append(":");
        text.append(certs[i].key.as_str());
        text.append(",");
        proof {
            let next = certs@.take(i as int + 1);
            assert(next.drop_last() =~= certs@.take(i as int));
            assert(next.last() == certs@[i as int]);
        }
        i = i + 1;
    }
    proof {
        assert(certs@.take(i as int) =~= certs@);
    }
    hex_bytes_text(&digest_of(text.as_str()))
}

/// The labels of the pods: those of the user, and on top of them those of everything that the
/// cluster owns.
pub open spec fn pod_labels(base: MetaView, compute: RestateClusterCompute) -> Map<
    Seq<char>,
    Seq<char>,
> {
    entries(opt_map(compute.labels)).union_prefer_right(
        object_view(base, RESTATE_STATEFULSET_NAME@).labels->0,
    )
}

/// The annotations of the pods, where there are any: those of the user, on top of them those of the
/// cluster, and on top of them those of the operator.
pub open spec fn pod_annotations(
    base: MetaView,
    compute: RestateClusterCompute,
    internal: Option<Map<Seq<char>, Seq<char>>>,
) -> Option<Map<Seq<char>, Seq<char>>> {
    let merged = entries(opt_map(compute.annotations)).union_prefer_right(
        entries(base.annotations),
    ).union_prefer_right(entries(internal));
    if merged == Map::<Seq<char>, Seq<char>>::empty() {
        None
    } else {
        Some(merged)
    }
}

/// Where in the file system the signing key is: its path is taken from its volume unless it is
/// absolute.
pub open spec fn key_path(relative: Seq<char>) -> Seq<char> {
    if begins_with(relative, "/"@) {
        relative
    } else {
        "/signing-key/"@ + relative
    }
}

/// The environment of a node, with the signing key and the trusted certificates.
pub open spec fn node_env(
    base: MetaView,
    spec: RestateClusterSpec,
    signing_key: Option<SigningKey>,
) -> Seq<EnvView> {
    let custom = custom_env(spec.compute.env);
    let name = match spec.cluster_name {
        Some(n) => n@,
        None => base.name->0,
    };
    let a = default_env(name, custom) + custom;
    let b = match signing_key {
        Some(k) => a.push(
            plain_env(
                "RESTATE_REQUEST_IDENTITY_PRIVATE_KEY_PEM_FILE"@,
                key_path(k.relative_path@),
            ),
        ),
        None => a,
    };
    if trusted_certs(spec).len() > 0 {
        b.push(plain_env("SSL_CERT_FILE"@, COMBINED_CA_BUNDLE@))
    } else {
        b
    }
}

/// The volume of a signing key.
pub open spec fn key_volume_json(key: SigningKey) -> Json {
    Json::Object(key.volume@.insert("name"@, Json::Text(key.volume_name@)))
}

/// Where volumes are mounted in a node.
pub open spec fn node_mounts(spec: RestateClusterSpec, signing_key: Option<SigningKey>) -> Seq<Json> {
    let a = seq![
        mount_json("storage"@, "/restate-data"@, None, false),
        mount_json("tmp"@, "/tmp"@, None, false),
        mount_json("config"@, "/config"@, None, true),
    ];
    let b = match signing_key {
        Some(k) => a.push(mount_json(k.volume_name@, "/signing-key"@, None, true)),
        None => a,
    };
    if trusted_certs(spec).len() > 0 {
        b.push(mount_json(COMBINED_CA_VOLUME@, COMBINED_CA_MOUNT@, None, true))
    } else {
        b
    }
}

/// The volumes of a node beside its storage.
pub open spec fn node_volumes(
    spec: RestateClusterSpec,
    signing_key: Option<SigningKey>,
    cm_name: Seq<char>,
) -> Seq<Json> {
    let a = seq![
        volume_json("tmp"@, "emptyDir"@, Json::Object(no_fields())),
        volume_json("config"@, "configMap"@, config_map_source_json(cm_name, None)),
    ];
    let b = match signing_key {
        Some(k) => a.push(key_volume_json(k)),
        None => a,
    };
    if trusted_certs(spec).len() > 0 {
        b + ca_volumes(trusted_certs(spec))
    } else {
        b
    }
}

/// The texts of an optional list as JSON.
pub open spec fn opt_texts_json(s: Option<Vec<String>>) -> Option<Json> {
    match s {
        Some(s) => Some(text_array(texts(s@))),
        None => None,
    }
}

fn opt_texts_value(s: &Option<Vec<String>>) -> (r: Option<Value>)
    ensures
        opt_json(r) == opt_texts_json(*s),
{
    match s {
        Some(s) => Some(Value::texts(s)),
        None => None,
    }
}

/// The probe that tells whether a node is ready.
pub open spec fn readiness_probe_json() -> Json {
    Json::Object(
        no_fields().insert(
            "httpGet"@,
            Json::Object(
                no_fields().insert("path"@, Json::Text("/health"@)).insert("port"@, Json::Int(9070)),
            ),
        ).insert("initialDelaySeconds"@, Json::Int(30)),
    )
}

/// The container of a node.
pub open spec fn node_container_json(
    compute: RestateClusterCompute,
    env: Seq<EnvView>,
    mounts: Seq<Json>,
) -> Json {
    let a = no_fields().insert("name"@, Json::Text("restate"@)).insert(
        "image"@,
        Json::Text(compute.image@),
    ).insert("env"@, envs_json(env)).insert(
        "ports"@,
        Json::Array(
            seq![
                container_port_json("ingress"@, 8080),
                container_port_json("admin"@, 9070),
                container_port_json("metrics"@, 5122),
            ],
        ),
    ).insert("readinessProbe"@, readiness_probe_json()).insert(
        "securityContext"@,
        container_security_json(true),
    ).insert("volumeMounts"@, Json::Array(mounts));
    let b = with_field(a, "imagePullPolicy"@, opt_text_json(opt_text(compute.image_pull_policy)));
    let c = with_field(b, "command"@, opt_texts_json(compute.command));
    let d = with_field(c, "args"@, opt_texts_json(compute.args));
    Json::Object(with_field(d, "resources"@, opt_json(compute.resources)))
}

fn node_container(compute: &RestateClusterCompute, env: &Vec<EnvVar>, mounts: Vec<Value>) -> (r:
    Value)
    ensures
        r@ == node_container_json(*compute, env_views(env@), jsons(mounts@)),
{
    let mut ports: Vec<Value> = Vec::new();
    ports.push(container_port("ingress", 8080));
    ports.push(container_port("admin", 9070));
    ports.push(container_port("metrics", 5122));
    proof {
        assert(jsons(ports@) =~= seq![
            container_port_json("ingress"@, 8080),
            container_port_json("admin"@, 9070),
            container_port_json("metrics"@, 5122),
        ]);
    }
    let mut get = Object::new();
    get.put_text("path", "/health");
    get.put("port", Value::Int(9070));
    let mut probe = Object::new();
    probe.put("httpGet", Value::Object(get));
    probe.put("initialDelaySeconds", Value::Int(30));
    let mut o = Object::new();
    o.put_text("name", "restate");
    o.put_text("image", compute.image.as_str());
    o.put("env", env_values(env));
    o.put("ports", Value::array(ports));
    o.put("readinessProbe", Value::Object(probe));
    o.put("securityContext", container_security(true));
    o.put("volumeMounts", Value::array(mounts));
    o.put_opt("imagePullPolicy", opt_text_value(&compute.image_pull_policy));
    o.put_opt("command", opt_texts_value(&compute.command));
    o.put_opt("args", opt_texts_value(&compute.args));
    o.put_opt("resources", duplicate_opt_value(&compute.resources));
    Value::Object(o)
}

/// The pods of a cluster.
pub open spec fn node_pod_json(
    compute: RestateClusterCompute,
    init: Option<Json>,
    container: Json,
    volumes: Seq<Json>,
) -> Json {
    let a = no_fields().insert("automountServiceAccountToken"@, Json::Bool(false)).insert(
        "containers"@,
        Json::Array(seq![container]),
    ).insert("securityContext"@, pod_security_json(false)).insert(
        "serviceAccountName"@,
        Json::Text("restate"@),
    ).insert("terminationGracePeriodSeconds"@, Json::Int(60)).insert(
        "volumes"@,
        Json::Array(volumes),
    );
    let b = with_field(
        a,
        "initContainers"@,
        match init {
            Some(c) => Some(Json::Array(seq![c])),
            None => None,
        },
    );
    let c = with_field(b, "affinity"@, opt_json(compute.affinity));
    let d = with_field(c, "dnsPolicy"@, opt_text_json(opt_text(compute.dns_policy)));
    let e = with_field(d, "dnsConfig"@, opt_json(compute.dns_config));
    let f = with_field(e, "imagePullSecrets"@, opt_json(compute.image_pull_secrets));
    let g = with_field(f, "tolerations"@, opt_json(compute.tolerations));
    let h = with_field(g, "nodeSelector"@, opt_map_json(opt_map(compute.node_selector)));
    let i = with_field(
        h,
        "topologySpreadConstraints"@,
        opt_json(compute.topology_spread_constraints),
    );
    Json::Object(
        with_field(
            i,
            "priorityClassName"@,
            opt_text_json(opt_text(compute.priority_class_name)),
        ),
    )
}

fn node_pod(
    compute: &RestateClusterCompute,
    init: Option<Value>,
    container: Value,
    volumes: Vec<Value>,
) -> (r: Value)
    ensures
        r@ == node_pod_json(*compute, opt_json(init), container@, jsons(volumes@)),
{
    let mut o = Object::new();
    o.put("automountServiceAccountToken", Value::Bool(false));
    o.put("containers", Value::singleton(container));
    o.put("securityContext", pod_security(false));
    o.put_text("serviceAccountName", "restate");
    o.put("terminationGracePeriodSeconds", Value::Int(60));
    o.put("volumes", Value::array(volumes));
    let init_containers: Option<Value> = match init {
        Some(c) => Some(Value::singleton(c)),
        None => None,
    };
    o.put_opt("initContainers", init_containers);
    o.put_opt("affinity", duplicate_opt_value(&compute.affinity));
    o.put_opt("dnsPolicy", opt_text_value(&compute.dns_policy));
    o.put_opt("dnsConfig", duplicate_opt_value(&compute.dns_config));
    o.put_opt("imagePullSecrets", duplicate_opt_value(&compute.image_pull_secrets));
    o.put_opt("tolerations", duplicate_opt_value(&compute.tolerations));
    o.put_opt("nodeSelector", opt_map_value(&compute.node_selector));
    o.put_opt(
        "topologySpreadConstraints",
        duplicate_opt_value(&compute.topology_spread_constraints),
    );
    o.put_opt("priorityClassName", opt_text_value(&compute.priority_class_name));
    Value::Object(o)
}

/// The claim that each node makes for its storage.
pub open spec fn claim_template_json(base: MetaView, storage: RestateClusterStorage) -> Json {
    let meta = MetaView {
        name: Some("storage"@),
        namespace: None,
        uid: None,
        labels: Some(mandatory(base.name->0)),
        annotations: None,
        owner_references: None,
    };
    let a = no_fields().insert("accessModes"@, text_array(seq!["ReadWriteOnce"@])).insert(
        "resources"@,
        pvc_resources_json(storage.storage_request_bytes as int),
    );
    let b = with_field(
        a,
        "storageClassName"@,
        opt_text_json(opt_text(storage.storage_class_name)),
    );
    let c = with_field(
        b,
        "volumeAttributesClassName"@,
        opt_text_json(opt_text(storage.volume_attributes_class_name)),
    );
    manifest_json("v1"@, "PersistentVolumeClaim"@, meta, Some(Json::Object(c)))
}

fn claim_template(base_metadata: &ObjectMeta, storage: &RestateClusterStorage) -> (r: Value)
    requires
        base_metadata.name is Some,
    ensures
        r@ == claim_template_json(base_metadata@, *storage),
{
    let mut meta = ObjectMeta::empty();
    meta.name = Some("storage".to_owned());
    meta.labels = Some(mandatory_labels(base_metadata));
    let mut modes: Vec<String> = Vec::new();
    modes.push("ReadWriteOnce".to_owned());
    proof {
        assert(texts(modes@) =~= seq!["ReadWriteOnce"@]);
    }
    let mut spec = Object::new();
    spec.put("accessModes", Value::texts(&modes));
    spec.put("resources", restate_pvc_resources(storage));
    spec.put_opt("storageClassName", opt_text_value(&storage.storage_class_name));
    spec.put_opt("volumeAttributesClassName", opt_text_value(&storage.volume_attributes_class_name));
    manifest("v1", "PersistentVolumeClaim", &meta, Some(Value::Object(spec)))
}

/// The StatefulSet of a cluster. Its pods start at the same time: one after the other, a cluster of
/// which several nodes died could not come back.
pub open spec fn statefulset_json(
    base: MetaView,
    spec: RestateClusterSpec,
    internal: Option<Map<Seq<char>, Seq<char>>>,
    signing_key: Option<SigningKey>,
    cm_name: Seq<char>,
    canary_image: Seq<char>,
) -> Json {
    let container = node_container_json(
        spec.compute,
        node_env(base, spec, signing_key),
        node_mounts(spec, signing_key),
    );
    let certs = trusted_certs(spec);
    let pod = node_pod_json(
        spec.compute,
        if certs.len() > 0 {
            Some(ca_init_container_json(certs.len(), canary_image))
        } else {
            None
        },
        container,
        node_volumes(spec, signing_key, cm_name),
    );
    let template = Json::Object(
        no_fields().insert(
            "metadata"@,
            template_meta_json(
                pod_labels(base, spec.compute),
                pod_annotations(base, spec.compute, internal),
            ),
        ).insert("spec"@, pod),
    );
    let a = no_fields().insert("podManagementPolicy"@, Json::Text("Parallel"@)).insert(
        "selector"@,
        cluster_selector(base.name->0),
    ).insert("serviceName"@, Json::Text("restate-cluster"@)).insert("template"@, template).insert(
        "volumeClaimTemplates"@,
        Json::Array(seq![claim_template_json(base, spec.storage)]),
    );
    let b = with_field(
        a,
        "replicas"@,
        match spec.compute.replicas {
            Some(n) => Some(Json::Int(n as int)),
            None => None,
        },
    );
    manifest_json(
        "apps/v1"@,
        "StatefulSet"@,
        object_view(base, RESTATE_STATEFULSET_NAME@),
        Some(Json::Object(b)),
    )
}

fn merged_annotations(
    base_metadata: &ObjectMeta,
    compute: &RestateClusterCompute,
    internal: &Option<StringMap>,
) -> (r: Option<StringMap>)
    ensures
        opt_map(r) == pod_annotations(base_metadata@, *compute, opt_map(*internal)),
{
    let mut merged = map_or_empty(&compute.annotations);
    merged.extend(&map_or_empty(&base_metadata.annotations));
    merged.extend(&map_or_empty(internal));
    if merged.is_empty() {
        None
    } else {
        Some(merged)
    }
}

fn push_value(out: &mut Vec<Value>, v: Value)
    ensures
        jsons(final(out)@) == jsons(old(out)@).push(v@),
{
    let ghost before = jsons(out@);
    out.push(v);
    proof {
        assert(jsons(out@) =~= before.push(v@));
    }
}

fn append_values(out: &mut Vec<Value>, more: Vec<Value>)
    ensures
        jsons(final(out)@) == jsons(old(out)@) + jsons(more@),
{
    let ghost before = out@;
    let mut more = more;
    let ghost added = more@;
    out.append(&mut more);
    proof {
        assert(out@ =~= before + added);
        assert(jsons(out@) =~= jsons(before) + jsons(added));
    }
}

/// The StatefulSet of a cluster.
pub fn restate_statefulset(
    base_metadata: &ObjectMeta,
    spec: &RestateClusterSpec,
    pod_annotations: &Option<StringMap>,
    signing_key: &Option<SigningKey>,
    cm_name: &str,
    canary_image: &str,
) -> (r: Value)
    requires
        base_metadata.name is Some,
    ensures
        r@ == statefulset_json(
            base_metadata@,
            *spec,
            opt_map(*pod_annotations),
            *signing_key,
            cm_name@,
            canary_image@,
        ),
{
    let metadata = object_meta(base_metadata, RESTATE_STATEFULSET_NAME);
    let mut labels = map_or_empty(&spec.compute.labels);
    labels.extend(&map_or_empty(&metadata.labels));
    let annotations = merged_annotations(base_metadata, &spec.compute, pod_annotations);

    let mut mounts: Vec<Value> = Vec::new();
    mounts.push(volume_mount("storage", "/restate-data", None, false));
    mounts.push(volume_mount("tmp", "/tmp", None, false));
    mounts.push(volume_mount("config", "/config", None, true));
    let mut volumes: Vec<Value> = Vec::new();
    volumes.push(volume("tmp", "emptyDir", Value::Object(Object::new())));
    volumes.push(volume("config", "configMap", config_map_source(cm_name, None)));
    proof {
        assert(jsons(mounts@) =~= seq![
            mount_json("storage"@, "/restate-data"@, None, false),
            mount_json("tmp"@, "/tmp"@, None, false),
            mount_json("config"@, "/config"@, None, true),
        ]);
        assert(jsons(volumes@) =~= seq![
            volume_json("tmp"@, "emptyDir"@, Json::Object(no_fields())),
            volume_json("config"@, "configMap"@, config_map_source_json(cm_name@, None)),
        ]);
    }
    let own_name: Option<String> = base_metadata.name.clone();
    let cluster_name: String = match &spec.cluster_name {
        Some(n) => n.clone(),
        None => own_name.unwrap(),
    };
    let mut vars = env(cluster_name.as_str(), &spec.compute.env);
    match signing_key {
        Some(k) => {
            push_value(&mut mounts, volume_mount(k.volume_name.as_str(), "/signing-key", None, true));
            let mut key_volume = k.volume.duplicate();
            key_volume.put_text("name", k.volume_name.as_str());
            push_value(&mut volumes, Value::Object(key_volume));
            let path: String = if starts_with_str(k.relative_path.as_str(), "/") {
                k.relative_path.clone()
            } else {
                cat("/signing-key/", k.relative_path.as_str())
            };
            push_plain(
                &mut vars,
                "RESTATE_REQUEST_IDENTITY_PRIVATE_KEY_PEM_FILE",
                path.as_str(),
            );
        },
        None => {},
    }
    let none: Vec<TrustedCACert> = Vec::new();
    let certs: &Vec<TrustedCACert> = match &spec.security {
        Some(s) => match &s.trusted_ca_certs {
            Some(c) => c,
            None => &none,
        },
        None => &none,
    };
    proof {
        assert(none@ =~= Seq::<TrustedCACert>::empty());
    }
    let init: Option<Value> = if certs.len() > 0 {
        let (ca, container) = trusted_ca_init_container(certs, canary_image);
        append_values(&mut volumes, ca);
        push_value(
            &mut mounts,
            volume_mount(COMBINED_CA_VOLUME, COMBINED_CA_MOUNT, None, true),
        );
        push_plain(&mut vars, "SSL_CERT_FILE", COMBINED_CA_BUNDLE);
        Some(container)
    } else {
        None
    };

    let container = node_container(&spec.compute, &vars, mounts);
    let mut template = Object::new();
    template.put("metadata", template_meta(&labels, &annotations));
    template.put("spec", node_pod(&spec.compute, init, container, volumes));
    let mut o = Object::new();
    o.put_text("podManagementPolicy", "Parallel");
    o.put("selector", label_selector(base_metadata).value());
    o.put_text("serviceName", "restate-cluster");
    o.put("template", Value::Object(template));
    o.put("volumeClaimTemplates", Value::singleton(claim_template(base_metadata, &spec.storage)));
    let replicas: Option<Value> = match spec.compute.replicas {
        Some(n) => Some(Value::Int(n as i64)),
        None => None,
    };
    o.put_opt("replicas", replicas);
    manifest("apps/v1", "StatefulSet", &metadata, Some(Value::Object(o)))
}

/// Whatever labels a user puts on the pods, the selector of the cluster finds them.
pub proof fn selector_finds_the_nodes(base: MetaView, compute: RestateClusterCompute, key: Seq<char>)
    requires
        base.name is Some,
        mandatory(base.name->0).contains_key(key),
    ensures
        pod_labels(base, compute).contains_key(key),
        pod_labels(base, compute)[key] == mandatory(base.name->0)[key],
{
}

/// The annotations by which the operator makes the pods roll win over all others.
pub proof fn internal_annotations_win(
    base: MetaView,
    compute: RestateClusterCompute,
    internal: Map<Seq<char>, Seq<char>>,
    key: Seq<char>,
)
    requires
        internal.contains_key(key),
    ensures
        pod_annotations(base, compute, Some(internal)) is Some,
        pod_annotations(base, compute, Some(internal))->0.contains_key(key),
        pod_annotations(base, compute, Some(internal))->0[key] == internal[key],
{
    let merged = entries(opt_map(compute.annotations)).union_prefer_right(
        entries(base.annotations),
    ).union_prefer_right(internal);
    assert(merged.dom().contains(key));
}

/// The name in a document, where it has one.
pub open spec fn name_in(j: Json) -> Option<Seq<char>> {
    match j {
        Json::Object(fields) => if fields.contains_key("name"@) {
            match fields["name"@] {
                Json::Text(t) => Some(t),
                _ => None,
            }
        } else {
            None
        },
        _ => None,
    }
}

/// Whether there is a volume of a name.
pub open spec fn has_volume(volumes: Seq<Json>, name: Option<Seq<char>>) -> bool {
    exists|j: int| 0 <= j < volumes.len() && name_in(#[trigger] volumes[j]) == name
}

/// Whatever is mounted in a node beside its storage is a volume of its pod, and so is whatever the
/// container mounts that combines the certificates.
pub proof fn every_mount_has_a_volume(
    spec: RestateClusterSpec,
    signing_key: Option<SigningKey>,
    cm_name: Seq<char>,
)
    ensures
        name_in(node_mounts(spec, signing_key)[0]) == Some("storage"@),
        forall|i: int|
            1 <= i < node_mounts(spec, signing_key).len() ==> has_volume(
                node_volumes(spec, signing_key, cm_name),
                name_in(#[trigger] node_mounts(spec, signing_key)[i]),
            ),
        trusted_certs(spec).len() > 0 ==> forall|i: int|
            0 <= i < ca_mounts(trusted_certs(spec).len()).len() ==> has_volume(
                node_volumes(spec, signing_key, cm_name),
                name_in(#[trigger] ca_mounts(trusted_certs(spec).len())[i]),
            ),
{
    lemma_field_names();
    let mounts = node_mounts(spec, signing_key);
    let volumes = node_volumes(spec, signing_key, cm_name);
    let certs = trusted_certs(spec);
    let before: int = if signing_key is Some {
        3
    } else {
        2
    };
    assert(name_in(volumes[0]) == Some("tmp"@));
    assert(name_in(volumes[1]) == Some("config"@));
    if let Some(k) = signing_key {
        assert(volumes[2] == key_volume_json(k));
        assert(name_in(volumes[2]) == Some(k.volume_name@));
    }
    if certs.len() > 0 {
        let last = before + certs.len();
        assert(volumes[last] == ca_volumes(certs)[certs.len() as int]);
        assert(name_in(volumes[last]) == Some(COMBINED_CA_VOLUME@));
        assert forall|i: int| 0 <= i < ca_mounts(certs.len()).len() implies has_volume(
            volumes,
            name_in(#[trigger] ca_mounts(certs.len())[i]),
        ) by {
            if i < certs.len() {
                assert(volumes[before + i] == ca_volume_json(certs[i], i));
                assert(name_in(volumes[before + i]) == Some(ca_volume_name(i)));
            }
        }
    }
}

proof fn lemma_field_names()
    ensures
        "name"@ != "readOnly"@,
        "name"@ != "subPath"@,
        "name"@ != "mountPath"@,
        "name"@ != "emptyDir"@,
        "name"@ != "configMap"@,
        "name"@ != "secret"@,
{
    reveal_strlit("name");
    reveal_strlit("readOnly");
    reveal_strlit("subPath");
    reveal_strlit("mountPath");
    reveal_strlit("emptyDir");
    reveal_strlit("configMap");
    reveal_strlit("secret");
    assert("name"@.len() == 4);
    assert("readOnly"@.len() != 4 && "subPath"@.len() != 4 && "mountPath"@.len() != 4);
    assert("emptyDir"@.len() != 4 && "configMap"@.len() != 4 && "secret"@.len() != 4);
}

} // verus!
