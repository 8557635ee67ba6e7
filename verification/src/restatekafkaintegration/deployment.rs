//! The Deployment of an integration.

use vstd::prelude::*;
use vstd::string::*;

use crate::component::{
    instance_selector, label_selector, object_meta, owned_view, INSTANCE_LABEL, NAME_LABEL,
};
use crate::error::Error;
use crate::json::{field, no_fields, opt_json, with_field, Json, Object, Value};
use crate::manifest::{
    config_map_source, config_map_source_json, container_port, container_port_json,
    container_security, container_security_json, env_values, env_views, envs_json, key_to_path,
    key_to_path_json, manifest, manifest_json, mount_json, plain_env, pod_security,
    pod_security_json, secret_source, secret_source_json, template_meta, template_meta_json, volume,
    volume_json, volume_mount, EnvVar, EnvView,
};
use crate::meta::{
    entries, map_or_empty, opt_map, opt_map_json, opt_map_value, opt_text_json, opt_text_value,
    MetaView, ObjectMeta,
};
use crate::restatecloudenvironment::resource::SecretKeyRef;
use crate::restatedeployment::replicaset::{add_allow_label, with_allow_label};
use crate::restatekafkaintegration::config::{
    config_digest, config_hash, COMPONENT, CONFIG_HASH_ANNOTATION,
};
use crate::restatekafkaintegration::merge::{merged, merged_fields, strategic_merge};
use crate::restatekafkaintegration::resource::{
    ConfigRef, RestateKafkaIntegrationSpec, TemplateOverlay, CONFIG_FILE_KEY, CONFIG_FILE_PATH,
};
use crate::text::{cat3, opt_text};

verus! {

/// The container that the operator generates. Users name it to override its fields.
pub const CONTAINER_NAME: &'static str = "kafka-integration";

/// The volume through which the configuration is projected.
pub const CONFIG_VOLUME_NAME: &'static str = "config";

/// The port at which the image offers its metrics.
pub const METRICS_PORT: i32 = 9464;

/// Where the configuration is in its volume, so that it is mounted as a single file.
pub const CONFIG_SUB_PATH: &'static str = "config.properties";

pub const BOTH_CONFIGS: &'static str = "only one of spec.config and spec.configFrom may be set";

pub const ONE_SOURCE: &'static str = "exactly one of spec.configFrom.secretRef and spec.configFrom.configMapRef must be set";

pub const LABELS_NO_OBJECT: &'static str = "spec.template.metadata.labels must be an object";

/// The variable that takes the token from a Secret.
pub open spec fn token_env(token: SecretKeyRef) -> EnvView {
    EnvView {
        name: "RESTATE_AUTH_TOKEN"@,
        value: None,
        value_from: Some(
            Json::Object(
                no_fields().insert(
                    "secretKeyRef"@,
                    Json::Object(
                        no_fields().insert("key"@, Json::Text(token.key@)).insert(
                            "name"@,
                            Json::Text(token.name@),
                        ),
                    ),
                ),
            ),
        ),
    }
}

/// The variables that the operator sets. They have precedence over the configuration, so that what
/// is left in there does not decide where Restate is.
pub open spec fn env_of(spec: RestateKafkaIntegrationSpec, ingress_url: Seq<char>) -> Seq<EnvView> {
    let a = seq![plain_env("RESTATE_INGRESS_URL"@, ingress_url)];
    let b = match spec.restate.auth_token {
        Some(t) => a.push(token_env(t)),
        None => a,
    };
    if spec.config is Some || spec.config_from is Some {
        b.push(plain_env("CONFIG_FILE"@, CONFIG_FILE_PATH@))
    } else {
        b
    }
}

/// The variables that the operator sets.
pub fn env(spec: &RestateKafkaIntegrationSpec, ingress_url: &str) -> (r: Vec<EnvVar>)
    ensures
        env_views(r@) == env_of(*spec, ingress_url@),
{
    let mut out: Vec<EnvVar> = Vec::new();
    out.push(EnvVar::plain("RESTATE_INGRESS_URL", ingress_url));
    match &spec.restate.auth_token {
        Some(t) => {
            let mut reference = Object::new();
            reference.put_text("key", t.key.as_str());
            reference.put_text("name", t.name.as_str());
            let mut from = Object::new();
            from.put("secretKeyRef", Value::Object(reference));
            out.push(
                EnvVar {
                    name: "RESTATE_AUTH_TOKEN".to_owned(),
                    value: None,
                    value_from: Some(Value::Object(from)),
                },
            );
        },
        None => {},
    }
    if spec.config.is_some() || spec.config_from.is_some() {
        out.push(EnvVar::plain("CONFIG_FILE", CONFIG_FILE_PATH));
    }
    proof {
        assert(env_views(out@) =~= env_of(*spec, ingress_url@));
    }
    out
}

/// The key under which a configuration is held.
pub open spec fn config_key(r: ConfigRef) -> Seq<char> {
    match r.key {
        Some(k) => k@,
        None => CONFIG_FILE_KEY@,
    }
}

fn key_of(r: &ConfigRef) -> (k: String)
    ensures
        k@ == config_key(*r),
{
    match &r.key {
        Some(k) => k.clone(),
        None => CONFIG_FILE_KEY.to_owned(),
    }
}

/// A volume that projects a key of a ConfigMap.
pub open spec fn config_map_volume(name: Seq<char>, key: Seq<char>) -> Json {
    volume_json(
        CONFIG_VOLUME_NAME@,
        "configMap"@,
        config_map_source_json(name, Some(key_to_path_json(key, None, CONFIG_SUB_PATH@))),
    )
}

/// A volume that projects a key of a Secret.
pub open spec fn secret_volume(name: Seq<char>, key: Seq<char>) -> Json {
    volume_json(
        CONFIG_VOLUME_NAME@,
        "secret"@,
        secret_source_json(name, key_to_path_json(key, None, CONFIG_SUB_PATH@)),
    )
}

/// The volume of the configuration, where there is one, or what is wrong. A configuration that is
/// given is held by the ConfigMap of the operator, named after the integration.
pub open spec fn config_volume_of(name: Seq<char>, spec: RestateKafkaIntegrationSpec) -> Result<
    Option<Json>,
    Seq<char>,
> {
    match (spec.config, spec.config_from) {
        (Some(_), Some(_)) => Err(BOTH_CONFIGS@),
        (None, None) => Ok(None),
        (Some(_), None) => Ok(Some(config_map_volume(name, CONFIG_FILE_KEY@))),
        (None, Some(source)) => match (source.secret_ref, source.config_map_ref) {
            (Some(s), None) => Ok(Some(secret_volume(s.name@, config_key(s)))),
            (None, Some(c)) => Ok(Some(config_map_volume(c.name@, config_key(c)))),
            _ => Err(ONE_SOURCE@),
        },
    }
}

/// The volume of the configuration, where there is one.
pub fn config_volume(name: &str, spec: &RestateKafkaIntegrationSpec) -> (r: Result<
    Option<Value>,
    Error,
>)
    ensures
        match config_volume_of(name@, *spec) {
            Ok(v) => r is Ok && opt_json(r->Ok_0) == v,
            Err(t) => r matches Err(Error::InvalidRestateConfig(m)) && m@ == t,
        },
{
    match (&spec.config, &spec.config_from) {
        (Some(_), Some(_)) => Err(Error::InvalidRestateConfig(BOTH_CONFIGS.to_owned())),
        (None, None) => Ok(None),
        (Some(_), None) => {
            let item = key_to_path(CONFIG_FILE_KEY, None, CONFIG_SUB_PATH);
            Ok(
                Some(
                    volume(CONFIG_VOLUME_NAME, "configMap", config_map_source(name, Some(item))),
                ),
            )
        },
        (None, Some(source)) => match (&source.secret_ref, &source.config_map_ref) {
            (Some(s), None) => {
                let item = key_to_path(key_of(s).as_str(), None, CONFIG_SUB_PATH);
                Ok(
                    Some(
                        volume(CONFIG_VOLUME_NAME, "secret", secret_source(s.name.as_str(), item)),
                    ),
                )
            },
            (None, Some(c)) => {
                let item = key_to_path(key_of(c).as_str(), None, CONFIG_SUB_PATH);
                Ok(
                    Some(
                        volume(
                            CONFIG_VOLUME_NAME,
                            "configMap",
                            config_map_source(c.name.as_str(), Some(item)),
                        ),
                    ),
                )
            },
            _ => Err(Error::InvalidRestateConfig(ONE_SOURCE.to_owned())),
        },
    }
}

/// The container of an integration. It has no probe: the image has no endpoint for one, and exits
/// where it cannot go on.
pub open spec fn container_json(
    spec: RestateKafkaIntegrationSpec,
    ingress_url: Seq<char>,
    default_image: Seq<char>,
    mounted: bool,
) -> Json {
    let a = no_fields().insert("name"@, Json::Text(CONTAINER_NAME@)).insert(
        "image"@,
        Json::Text(
            match spec.image {
                Some(i) => i@,
                None => default_image,
            },
        ),
    ).insert("env"@, envs_json(env_of(spec, ingress_url))).insert(
        "ports"@,
        Json::Array(seq![container_port_json("metrics"@, METRICS_PORT as int)]),
    ).insert("securityContext"@, container_security_json(true));
    let b = with_field(a, "imagePullPolicy"@, opt_text_json(opt_text(spec.image_pull_policy)));
    Json::Object(
        with_field(
            b,
            "volumeMounts"@,
            if mounted {
                Some(
                    Json::Array(
                        seq![
                            mount_json(
                                CONFIG_VOLUME_NAME@,
                                CONFIG_FILE_PATH@,
                                Some(CONFIG_SUB_PATH@),
                                true,
                            ),
                        ],
                    ),
                )
            } else {
                None
            },
        ),
    )
}

fn container(
    spec: &RestateKafkaIntegrationSpec,
    ingress_url: &str,
    default_image: &str,
    mounted: bool,
) -> (r: Value)
    ensures
        r@ == container_json(*spec, ingress_url@, default_image@, mounted),
{
    let image: String = match &spec.image {
        Some(i) => i.clone(),
        None => default_image.to_owned(),
    };
    let mut o = Object::new();
    o.put_text("name", CONTAINER_NAME);
    o.put_text("image", image.as_str());
    o.put("env", env_values(&env(spec, ingress_url)));
    o.put("ports", Value::singleton(container_port("metrics", METRICS_PORT)));
    o.put("securityContext", container_security(true));
    o.put_opt("imagePullPolicy", opt_text_value(&spec.image_pull_policy));
    if mounted {
        o.put(
            "volumeMounts",
            Value::singleton(
                volume_mount(CONFIG_VOLUME_NAME, CONFIG_FILE_PATH, Some(CONFIG_SUB_PATH), true),
            ),
        );
    }
    Value::Object(o)
}

/// The labels of the pods: those of everything that the integration owns, and the one that lets the
/// cluster be reached from them.
pub open spec fn pod_labels(base: MetaView, spec: RestateKafkaIntegrationSpec) -> Map<
    Seq<char>,
    Seq<char>,
> {
    with_allow_label(
        owned_view(COMPONENT@, base).labels->0,
        opt_text(spec.restate.ingress.cluster),
    )
}

/// The annotations of the pods: those of the integration, and the digest of the configuration that
/// is given. One that is held elsewhere is not read.
pub open spec fn pod_annotations(base: MetaView, spec: RestateKafkaIntegrationSpec) -> Map<
    Seq<char>,
    Seq<char>,
> {
    match spec.config {
        Some(c) => entries(base.annotations).insert(CONFIG_HASH_ANNOTATION@, config_digest(c@)),
        None => entries(base.annotations),
    }
}

/// The pod template, before the user lays anything over it.
pub open spec fn template_json(
    base: MetaView,
    spec: RestateKafkaIntegrationSpec,
    ingress_url: Seq<char>,
    default_image: Seq<char>,
    config: Option<Json>,
) -> Map<Seq<char>, Json> {
    let pod = with_field(
        no_fields().insert("automountServiceAccountToken"@, Json::Bool(false)).insert(
            "containers"@,
            Json::Array(
                seq![container_json(spec, ingress_url, default_image, config is Some)],
            ),
        ).insert("securityContext"@, pod_security_json(true)).insert(
            "terminationGracePeriodSeconds"@,
            Json::Int(60),
        ),
        "volumes"@,
        match config {
            Some(v) => Some(Json::Array(seq![v])),
            None => None,
        },
    );
    no_fields().insert(
        "metadata"@,
        template_meta_json(pod_labels(base, spec), Some(pod_annotations(base, spec))),
    ).insert("spec"@, Json::Object(pod))
}

/// A generated Deployment, with its pod template apart.
#[derive(Debug)]
pub struct GeneratedDeployment {
    pub metadata: ObjectMeta,
    pub replicas: i32,
    pub template: Value,
}

/// The Deployment that the operator wants, before the user lays anything over its template.
pub fn base_deployment(
    base_metadata: &ObjectMeta,
    spec: &RestateKafkaIntegrationSpec,
    ingress_url: &str,
    default_image: &str,
) -> (r: Result<GeneratedDeployment, Error>)
    requires
        base_metadata.name is Some,
    ensures
        match config_volume_of(base_metadata@.name->0, *spec) {
            Err(t) => r matches Err(Error::InvalidRestateConfig(m)) && m@ == t,
            Ok(config) => r matches Ok(d) && d.metadata@ == owned_view(COMPONENT@, base_metadata@)
                && d.replicas == spec.replicas && d.template@ == Json::Object(
                template_json(base_metadata@, *spec, ingress_url@, default_image@, config),
            ),
        },
{
    let name: Option<String> = base_metadata.name.clone();
    let name: String = name.unwrap();
    let config = match config_volume(name.as_str(), spec) {
        Err(e) => {
            return Err(e);
        },
        Ok(c) => c,
    };
    let metadata = object_meta(COMPONENT, base_metadata);
    let mut labels = map_or_empty(&metadata.labels);
    add_allow_label(&mut labels, &spec.restate.ingress.cluster);
    let mut annotations = map_or_empty(&metadata.annotations);
    match &spec.config {
        Some(c) => {
            annotations.insert(CONFIG_HASH_ANNOTATION.to_owned(), config_hash(c.as_str()));
        },
        None => {},
    }
    let mut pod = Object::new();
    pod.put("automountServiceAccountToken", Value::Bool(false));
    pod.put(
        "containers",
        Value::singleton(container(spec, ingress_url, default_image, config.is_some())),
    );
    pod.put("securityContext", pod_security(true));
    pod.put("terminationGracePeriodSeconds", Value::Int(60));
    match config {
        Some(v) => {
            pod.put("volumes", Value::singleton(v));
        },
        None => {},
    }
    let mut template = Object::new();
    template.put("metadata", template_meta(&labels, &Some(annotations)));
    template.put("spec", Value::Object(pod));
    Ok(
        GeneratedDeployment {
            metadata,
            replicas: spec.replicas,
            template: Value::Object(template),
        },
    )
}

/// The metadata that a user lays over the template. What is not given is left out: a `null` would
/// remove what the operator has set.
pub open spec fn overlay_metadata(t: TemplateOverlay) -> Map<Seq<char>, Json> {
    match t.metadata {
        Some(m) => with_field(
            with_field(no_fields(), "labels"@, opt_map_json(opt_map(m.labels))),
            "annotations"@,
            opt_map_json(opt_map(m.annotations)),
        ),
        None => no_fields(),
    }
}

/// What a user lays over the template.
pub open spec fn overlay_json(t: TemplateOverlay) -> Map<Seq<char>, Json> {
    let metadata = overlay_metadata(t);
    with_field(
        if metadata == no_fields() {
            no_fields()
        } else {
            no_fields().insert("metadata"@, Json::Object(metadata))
        },
        "spec"@,
        opt_json(t.spec),
    )
}

/// The template with what the user lays over it.
pub open spec fn overlaid(template: Json, overlay: Option<TemplateOverlay>) -> Json {
    match overlay {
        Some(t) => merged(template, Json::Object(overlay_json(t))),
        None => template,
    }
}

/// The labels of a template.
pub open spec fn labels_of(template: Json) -> Option<Map<Seq<char>, Json>> {
    match field(template, "metadata"@) {
        Some(m) => match field(m, "labels"@) {
            Some(Json::Object(l)) => Some(l),
            _ => None,
        },
        None => None,
    }
}

/// The labels with those that the selector goes by put back.
pub open spec fn reselected(labels: Map<Seq<char>, Json>, instance: Seq<char>) -> Map<
    Seq<char>,
    Json,
> {
    labels.insert(INSTANCE_LABEL@, Json::Text(instance)).insert(
        NAME_LABEL@,
        Json::Text(COMPONENT@),
    )
}

/// The template with the labels that the selector goes by put back. A Deployment whose template its
/// selector does not match could never be applied.
pub open spec fn relabelled(template: Json, instance: Seq<char>) -> Json {
    let fields = template->Object_0;
    let metadata = fields["metadata"@]->Object_0;
    Json::Object(
        fields.insert(
            "metadata"@,
            Json::Object(
                metadata.insert(
                    "labels"@,
                    Json::Object(reselected(labels_of(template)->0, instance)),
                ),
            ),
        ),
    )
}

/// A Deployment with its template. A rollout does not surge: more consumers would cost another
/// rebalance of the group.
pub open spec fn deployment_json(
    meta: MetaView,
    replicas: int,
    instance: Seq<char>,
    template: Json,
) -> Json {
    let strategy = Json::Object(
        no_fields().insert(
            "rollingUpdate"@,
            Json::Object(
                no_fields().insert("maxSurge"@, Json::Int(0)).insert(
                    "maxUnavailable"@,
                    Json::Int(1),
                ),
            ),
        ).insert("type"@, Json::Text("RollingUpdate"@)),
    );
    manifest_json(
        "apps/v1"@,
        "Deployment"@,
        meta,
        Some(
            Json::Object(
                no_fields().insert("replicas"@, Json::Int(replicas)).insert(
                    "selector"@,
                    instance_selector(COMPONENT@, instance),
                ).insert("strategy"@, strategy).insert("template"@, template),
            ),
        ),
    )
}

fn overlay_value(t: &TemplateOverlay) -> (r: Value)
    ensures
        r@ == Json::Object(overlay_json(*t)),
{
    let mut metadata = Object::new();
    match &t.metadata {
        Some(m) => {
            metadata.put_opt("labels", opt_map_value(&m.labels));
            metadata.put_opt("annotations", opt_map_value(&m.annotations));
        },
        None => {},
    }
    let mut o = Object::new();
    if metadata.len() > 0 {
        o.put("metadata", Value::Object(metadata));
    }
    match &t.spec {
        Some(s) => {
            o.put("spec", s.duplicate());
        },
        None => {},
    }
    Value::Object(o)
}

fn relabel(template: Value, base_metadata: &ObjectMeta) -> (r: Option<Value>)
    requires
        base_metadata.name is Some,
    ensures
        match labels_of(template@) {
            Some(_) => r matches Some(v) && v@ == relabelled(template@, base_metadata@.name->0),
            None => r is None,
        },
{
    let ghost whole = template@;
    let name: Option<String> = base_metadata.name.clone();
    let name: String = name.unwrap();
    match template {
        Value::Object(fields) => {
            let mut fields = fields;
            let ghost all = fields@;
            match fields.remove("metadata") {
                Some(Value::Object(metadata)) => {
                    let mut metadata = metadata;
                    let ghost meta = metadata@;
                    match metadata.remove("labels") {
                        Some(Value::Object(labels)) => {
                            let mut labels = labels;
                            labels.put_text(INSTANCE_LABEL, name.as_str());
                            labels.put_text(NAME_LABEL, COMPONENT);
                            metadata.put("labels", Value::Object(labels));
                            fields.put("metadata", Value::Object(metadata));
                            proof {
                                assert(metadata@ =~= meta.insert(
                                    "labels"@,
                                    Json::Object(labels@),
                                ));
                                assert(fields@ =~= all.insert(
                                    "metadata"@,
                                    Json::Object(metadata@),
                                ));
                            }
                            Some(Value::Object(fields))
                        },
                        _ => None,
                    }
                },
                _ => None,
            }
        },
        _ => None,
    }
}

/// Lays what the user gives over the generated template.
pub fn apply_template_overlay(
    deployment: GeneratedDeployment,
    base_metadata: &ObjectMeta,
    spec: &RestateKafkaIntegrationSpec,
) -> (r: Result<Value, Error>)
    requires
        base_metadata.name is Some,
    ensures
        ({
            let template = overlaid(deployment.template@, spec.template);
            match labels_of(template) {
                Some(_) => r matches Ok(v) && v@ == deployment_json(
                    deployment.metadata@,
                    deployment.replicas as int,
                    base_metadata@.name->0,
                    relabelled(template, base_metadata@.name->0),
                ),
                None => r matches Err(Error::InvalidRestateConfig(t)) && t@ == LABELS_NO_OBJECT@,
            }
        }),
{
    let template: Value = match &spec.template {
        Some(t) => strategic_merge(deployment.template, &overlay_value(t)),
        None => deployment.template,
    };
    let template: Value = match relabel(template, base_metadata) {
        Some(t) => t,
        None => {
            return Err(Error::InvalidRestateConfig(LABELS_NO_OBJECT.to_owned()));
        },
    };
    let mut rolling = Object::new();
    rolling.put("maxSurge", Value::Int(0));
    rolling.put("maxUnavailable", Value::Int(1));
    let mut strategy = Object::new();
    strategy.put("rollingUpdate", Value::Object(rolling));
    strategy.put_text("type", "RollingUpdate");
    let mut o = Object::new();
    o.put("replicas", Value::Int(deployment.replicas as i64));
    o.put("selector", label_selector(COMPONENT, base_metadata).value());
    o.put("strategy", Value::Object(strategy));
    o.put("template", template);
    Ok(manifest("apps/v1", "Deployment", &deployment.metadata, Some(Value::Object(o))))
}

/// Whatever a user lays over the generated template, it keeps labels, so that the overlay is never
/// refused, and the selector finds the pods.
pub proof fn overlay_cannot_break_the_selector(
    base: MetaView,
    spec: RestateKafkaIntegrationSpec,
    ingress_url: Seq<char>,
    default_image: Seq<char>,
    config: Option<Json>,
)
    requires
        base.name is Some,
    ensures
        ({
            let template = Json::Object(
                template_json(base, spec, ingress_url, default_image, config),
            );
            let result = overlaid(template, spec.template);
            let labels = labels_of(relabelled(result, base.name->0));
            &&& labels_of(result) is Some
            &&& labels is Some
            &&& labels->0[NAME_LABEL@] == Json::Text(COMPONENT@)
            &&& labels->0.contains_key(NAME_LABEL@)
            &&& labels->0.contains_key(INSTANCE_LABEL@)
            &&& labels->0[INSTANCE_LABEL@] == Json::Text(base.name->0)
        }),
{
    reveal_strlit("metadata");
    reveal_strlit("spec");
    reveal_strlit("labels");
    reveal_strlit("annotations");
    reveal_strlit("app.kubernetes.io/name");
    reveal_strlit("app.kubernetes.io/instance");
    assert("metadata"@.len() != "spec"@.len());
    assert("labels"@.len() != "annotations"@.len());
    assert(NAME_LABEL@.len() != INSTANCE_LABEL@.len());
    let fields = template_json(base, spec, ingress_url, default_image, config);
    let template = Json::Object(fields);
    let metadata = fields["metadata"@]->Object_0;
    assert(metadata["labels"@] is Object);
    match spec.template {
        Some(t) => {
            let overlay = overlay_json(t);
            let over_meta = overlay_metadata(t);
            let result = merged_fields(fields, Json::Object(overlay));
            assert(merged(template, Json::Object(overlay)) == Json::Object(result));
            if overlay.contains_key("metadata"@) {
                assert(overlay["metadata"@] == Json::Object(over_meta));
                let inner = merged_fields(metadata, Json::Object(over_meta));
                assert(result["metadata"@] == Json::Object(inner));
                if over_meta.contains_key("labels"@) {
                    assert(over_meta["labels"@] is Object);
                    assert(inner["labels"@] is Object);
                } else {
                    assert(inner["labels"@] == metadata["labels"@]);
                }
                assert(inner.contains_key("labels"@));
            } else {
                assert(result["metadata"@] == fields["metadata"@]);
            }
            assert(result.contains_key("metadata"@));
        },
        None => {},
    }
}

/// The selector of the pods as text, for the scale subresource.
pub fn label_selector_string(name: &str) -> (r: String)
    ensures
        r@ == INSTANCE_LABEL@ + "="@ + name@ + ","@ + NAME_LABEL@ + "="@ + COMPONENT@,
{
    let mut s: String = cat3(INSTANCE_LABEL, "=", name);
    s.append(",");
    s.append(NAME_LABEL);
    s.append("=");
    s.append(COMPONENT);
    s
}

} // verus!
