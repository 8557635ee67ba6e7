//! The tunnel client of an environment.

use vstd::prelude::*;
use vstd::string::*;

use crate::component::{
    instance_selector, label_selector, object_meta, owned_view, selecting, selector_labels,
};
use crate::json::{jsons, no_fields, opt_json, text_object, with_field, Json, Object, Value};
use crate::manifest::{
    container_port, container_port_json, container_security, container_security_json, custom_env,
    duplicate_opt_value, env_values, env_views, envs_json, key_to_path, key_to_path_json, manifest,
    manifest_json, mount_json, named, pod_security, pod_security_json, push_custom, push_default,
    secret_source, secret_source_json, volume, volume_json, volume_mount, with_default, EnvVar,
    EnvView,
};
use crate::meta::{
    opt_map, opt_map_json, opt_map_value, opt_text_json, opt_text_value, MetaView, ObjectMeta,
};
use crate::restatecloudenvironment::resource::{
    Authentication, RestateCloudEnvironmentSpec, TunnelSpec,
};
use crate::text::opt_text;

verus! {

/// The name by which the tunnel client is known in labels.
pub const COMPONENT: &'static str = "restate-cloud-tunnel-client";

pub const BEARER_TOKEN_MOUNT_PATH: &'static str = "/restate-bearer-token";

/// Amounts of processors and memory.
pub open spec fn amounts_json(cpu: Seq<char>, memory: Seq<char>) -> Json {
    Json::Object(
        no_fields().insert("cpu"@, Json::Text(cpu)).insert("memory"@, Json::Text(memory)),
    )
}

fn amounts(cpu: &str, memory: &str) -> (r: Value)
    ensures
        r@ == amounts_json(cpu@, memory@),
{
    let mut o = Object::new();
    o.put_text("cpu", cpu);
    o.put_text("memory", memory);
    Value::Object(o)
}

/// The resources of a tunnel client of which nothing else is said.
pub open spec fn default_resources_json() -> Json {
    Json::Object(
        no_fields().insert("limits"@, amounts_json("2"@, "2Gi"@)).insert(
            "requests"@,
            amounts_json("1"@, "1Gi"@),
        ),
    )
}

/// The resources of a tunnel client of which nothing else is said.
pub fn default_resources() -> (r: Value)
    ensures
        r@ == default_resources_json(),
{
    let mut o = Object::new();
    o.put("limits", amounts("2", "2Gi"));
    o.put("requests", amounts("1", "1Gi"));
    Value::Object(o)
}

/// Whether the environment can be reached through the tunnel.
pub open spec fn proxies(spec: RestateCloudEnvironmentSpec) -> bool {
    spec.tunnel matches Some(t) && t.remote_proxy == Some(true)
}

/// Whether the environment can be reached through the tunnel. It cannot unless told otherwise.
pub fn remote_proxy(spec: &RestateCloudEnvironmentSpec) -> (r: bool)
    ensures
        r == proxies(*spec),
{
    match &spec.tunnel {
        Some(t) => match t.remote_proxy {
            Some(b) => b,
            None => false,
        },
        None => false,
    }
}

/// The variables that a user sets.
pub open spec fn tunnel_custom_env(spec: RestateCloudEnvironmentSpec) -> Seq<EnvView> {
    match spec.tunnel {
        Some(t) => custom_env(t.env),
        None => Seq::empty(),
    }
}

/// The variables that the operator sets, unless the user does.
pub open spec fn tunnel_default_env(
    tunnel_name: Seq<char>,
    spec: RestateCloudEnvironmentSpec,
) -> Seq<EnvView> {
    let custom = tunnel_custom_env(spec);
    let a = with_default(Seq::empty(), custom, "RESTATE_TUNNEL_NAME"@, tunnel_name);
    let b = with_default(a, custom, "RESTATE_SIGNING_PUBLIC_KEY"@, spec.signing_public_key@);
    let c = with_default(b, custom, "RESTATE_ENVIRONMENT_ID"@, spec.environment_id@);
    let d = with_default(c, custom, "RESTATE_CLOUD_REGION"@, spec.region@);
    let e = with_default(d, custom, "RESTATE_BEARER_TOKEN_FILE"@, BEARER_TOKEN_MOUNT_PATH@);
    let f = with_default(
        e,
        custom,
        "RESTATE_REMOTE_PROXY"@,
        if proxies(spec) {
            "true"@
        } else {
            "false"@
        },
    );
    let g = with_default(f, custom, "RUST_BACKTRACE"@, "1"@);
    let h = with_default(g, custom, "RUST_LIB_BACKTRACE"@, "0"@);
    with_default(h, custom, "RUST_LOG"@, "info"@)
}

/// The environment of a tunnel client: the defaults that the user does not set, and what the user
/// sets.
pub fn env(tunnel_name: &str, spec: &RestateCloudEnvironmentSpec) -> (r: Vec<EnvVar>)
    ensures
        env_views(r@) == tunnel_default_env(tunnel_name@, *spec) + tunnel_custom_env(*spec),
{
    let none: Option<Vec<EnvVar>> = None;
    let custom: &Option<Vec<EnvVar>> = match &spec.tunnel {
        Some(t) => &t.env,
        None => &none,
    };
    let mut out: Vec<EnvVar> = Vec::new();
    proof {
        assert(env_views(out@) =~= Seq::empty());
    }
    push_default(&mut out, custom, "RESTATE_TUNNEL_NAME", tunnel_name);
    push_default(&mut out, custom, "RESTATE_SIGNING_PUBLIC_KEY", spec.signing_public_key.as_str());
    push_default(&mut out, custom, "RESTATE_ENVIRONMENT_ID", spec.environment_id.as_str());
    push_default(&mut out, custom, "RESTATE_CLOUD_REGION", spec.region.as_str());
    push_default(&mut out, custom, "RESTATE_BEARER_TOKEN_FILE", BEARER_TOKEN_MOUNT_PATH);
    push_default(
        &mut out,
        custom,
        "RESTATE_REMOTE_PROXY",
        if remote_proxy(spec) {
            "true"
        } else {
            "false"
        },
    );
    push_default(&mut out, custom, "RUST_BACKTRACE", "1");
    push_default(&mut out, custom, "RUST_LIB_BACKTRACE", "0");
    push_default(&mut out, custom, "RUST_LOG", "info");
    push_custom(&mut out, custom);
    out
}

/// What a user sets overrides the defaults: no default of the same name is left beside it.
pub proof fn custom_variables_override(
    tunnel_name: Seq<char>,
    spec: RestateCloudEnvironmentSpec,
    i: int,
)
    requires
        0 <= i < tunnel_default_env(tunnel_name, spec).len(),
    ensures
        !named(tunnel_custom_env(spec), tunnel_default_env(tunnel_name, spec)[i].name),
{
}

/// The ports of a tunnel client: those of the environment only where it can be reached.
pub open spec fn tunnel_ports(remote: bool) -> Seq<Json> {
    if remote {
        seq![
            container_port_json("ingress"@, 8080),
            container_port_json("admin"@, 9070),
            container_port_json("health"@, 9090),
        ]
    } else {
        seq![container_port_json("health"@, 9090)]
    }
}

fn tunnel_port_values(remote: bool) -> (r: Vec<Value>)
    ensures
        jsons(r@) == tunnel_ports(remote),
{
    let mut ports: Vec<Value> = Vec::new();
    if remote {
        ports.push(container_port("ingress", 8080));
        ports.push(container_port("admin", 9070));
    }
    ports.push(container_port("health", 9090));
    proof {
        assert(jsons(ports@) =~= tunnel_ports(remote));
    }
    ports
}

/// The volume of the bearer token: one that a driver mounts, or a Secret.
pub open spec fn token_volume_json(a: Authentication) -> Json {
    match a.secret_provider {
        Some(p) => volume_json(
            "bearer-token"@,
            "csi"@,
            Json::Object(
                no_fields().insert("driver"@, Json::Text("secrets-store.csi.k8s.io"@)).insert(
                    "readOnly"@,
                    Json::Bool(true),
                ).insert(
                    "volumeAttributes"@,
                    Json::Object(
                        no_fields().insert(
                            "secretProviderClass"@,
                            Json::Text(p.secret_provider_class@),
                        ),
                    ),
                ),
            ),
        ),
        None => volume_json(
            "bearer-token"@,
            "secret"@,
            secret_source_json(
                a.secret.name@,
                key_to_path_json(a.secret.key@, None, "bearer-token"@),
            ),
        ),
    }
}

/// Where in its volume the bearer token is.
pub open spec fn token_path(a: Authentication) -> Seq<char> {
    match a.secret_provider {
        Some(p) => p.path@,
        None => "bearer-token"@,
    }
}

fn token_volume(a: &Authentication) -> (r: Value)
    ensures
        r@ == token_volume_json(*a),
{
    match &a.secret_provider {
        Some(p) => {
            let mut attributes = Object::new();
            attributes.put_text("secretProviderClass", p.secret_provider_class.as_str());
            let mut csi = Object::new();
            csi.put_text("driver", "secrets-store.csi.k8s.io");
            csi.put("readOnly", Value::Bool(true));
            csi.put("volumeAttributes", Value::Object(attributes));
            volume("bearer-token", "csi", Value::Object(csi))
        },
        None => volume(
            "bearer-token",
            "secret",
            secret_source(
                a.secret.name.as_str(),
                key_to_path(a.secret.key.as_str(), None, "bearer-token"),
            ),
        ),
    }
}

/// The image of a tunnel client.
pub open spec fn tunnel_image(spec: RestateCloudEnvironmentSpec, default_image: Seq<char>) -> Seq<char> {
    match spec.tunnel {
        Some(t) => match t.image {
            Some(i) => i@,
            None => default_image,
        },
        None => default_image,
    }
}

/// The resources of a tunnel client.
pub open spec fn tunnel_resources(spec: RestateCloudEnvironmentSpec) -> Json {
    match spec.tunnel {
        Some(t) => match t.resources {
            Some(r) => r@,
            None => default_resources_json(),
        },
        None => default_resources_json(),
    }
}

/// The container of a tunnel client.
pub open spec fn tunnel_container_json(
    tunnel_name: Seq<char>,
    spec: RestateCloudEnvironmentSpec,
    default_image: Seq<char>,
) -> Json {
    let probe = Json::Object(
        no_fields().insert(
            "httpGet"@,
            Json::Object(
                no_fields().insert("path"@, Json::Text("/health"@)).insert("port"@, Json::Int(9090)),
            ),
        ),
    );
    let a = no_fields().insert("name"@, Json::Text("restate-cloud-tunnel-client"@)).insert(
        "image"@,
        Json::Text(tunnel_image(spec, default_image)),
    ).insert(
        "env"@,
        envs_json(tunnel_default_env(tunnel_name, spec) + tunnel_custom_env(spec)),
    ).insert("readinessProbe"@, probe).insert(
        "ports"@,
        Json::Array(tunnel_ports(proxies(spec))),
    ).insert("resources"@, tunnel_resources(spec)).insert(
        "securityContext"@,
        container_security_json(true),
    ).insert(
        "volumeMounts"@,
        Json::Array(
            seq![
                mount_json(
                    "bearer-token"@,
                    BEARER_TOKEN_MOUNT_PATH@,
                    Some(token_path(spec.authentication)),
                    true,
                ),
            ],
        ),
    );
    Json::Object(
        with_field(
            a,
            "imagePullPolicy"@,
            match spec.tunnel {
                Some(t) => opt_text_json(opt_text(t.image_pull_policy)),
                None => None,
            },
        ),
    )
}

fn tunnel_container(
    tunnel_name: &str,
    spec: &RestateCloudEnvironmentSpec,
    default_image: &str,
) -> (r: Value)
    ensures
        r@ == tunnel_container_json(tunnel_name@, *spec, default_image@),
{
    let mut get = Object::new();
    get.put_text("path", "/health");
    get.put("port", Value::Int(9090));
    let mut probe = Object::new();
    probe.put("httpGet", Value::Object(get));
    let image: String = match &spec.tunnel {
        Some(t) => match &t.image {
            Some(i) => i.clone(),
            None => default_image.to_owned(),
        },
        None => default_image.to_owned(),
    };
    let resources: Value = match &spec.tunnel {
        Some(t) => match &t.resources {
            Some(r) => r.duplicate(),
            None => default_resources(),
        },
        None => default_resources(),
    };
    let path: String = match &spec.authentication.secret_provider {
        Some(p) => p.path.clone(),
        None => "bearer-token".to_owned(),
    };
    let mut o = Object::new();
    o.put_text("name", "restate-cloud-tunnel-client");
    o.put_text("image", image.as_str());
    o.put("env", env_values(&env(tunnel_name, spec)));
    o.put("readinessProbe", Value::Object(probe));
    o.put("ports", Value::array(tunnel_port_values(remote_proxy(spec))));
    o.put("resources", resources);
    o.put("securityContext", container_security(true));
    o.put(
        "volumeMounts",
        Value::singleton(
            volume_mount("bearer-token", BEARER_TOKEN_MOUNT_PATH, Some(path.as_str()), true),
        ),
    );
    match &spec.tunnel {
        Some(t) => {
            o.put_opt("imagePullPolicy", opt_text_value(&t.image_pull_policy));
        },
        None => {},
    }
    Value::Object(o)
}

/// What the user says of the pods of a tunnel client, on top of what they have.
pub open spec fn with_pod_settings(fields: Map<Seq<char>, Json>, tunnel: Option<TunnelSpec>) -> Map<
    Seq<char>,
    Json,
> {
    match tunnel {
        Some(t) => {
            let a = with_field(fields, "affinity"@, opt_json(t.affinity));
            let b = with_field(a, "dnsPolicy"@, opt_text_json(opt_text(t.dns_policy)));
            let c = with_field(b, "dnsConfig"@, opt_json(t.dns_config));
            let d = with_field(c, "tolerations"@, opt_json(t.tolerations));
            with_field(d, "nodeSelector"@, opt_map_json(opt_map(t.node_selector)))
        },
        None => fields,
    }
}

/// The pods of a tunnel client. They have time to hand their connections over when they end.
pub open spec fn tunnel_pod_json(
    tunnel_name: Seq<char>,
    spec: RestateCloudEnvironmentSpec,
    default_image: Seq<char>,
) -> Json {
    Json::Object(
        with_pod_settings(
            no_fields().insert("automountServiceAccountToken"@, Json::Bool(false)).insert(
                "containers"@,
                Json::Array(seq![tunnel_container_json(tunnel_name, spec, default_image)]),
            ).insert("securityContext"@, pod_security_json(false)).insert(
                "terminationGracePeriodSeconds"@,
                Json::Int(310),
            ).insert("volumes"@, Json::Array(seq![token_volume_json(spec.authentication)])),
            spec.tunnel,
        ),
    )
}

fn tunnel_pod(tunnel_name: &str, spec: &RestateCloudEnvironmentSpec, default_image: &str) -> (r:
    Value)
    ensures
        r@ == tunnel_pod_json(tunnel_name@, *spec, default_image@),
{
    let mut o = Object::new();
    o.put("automountServiceAccountToken", Value::Bool(false));
    o.put("containers", Value::singleton(tunnel_container(tunnel_name, spec, default_image)));
    o.put("securityContext", pod_security(false));
    o.put("terminationGracePeriodSeconds", Value::Int(310));
    o.put("volumes", Value::singleton(token_volume(&spec.authentication)));
    match &spec.tunnel {
        Some(t) => {
            o.put_opt("affinity", duplicate_opt_value(&t.affinity));
            o.put_opt("dnsPolicy", opt_text_value(&t.dns_policy));
            o.put_opt("dnsConfig", duplicate_opt_value(&t.dns_config));
            o.put_opt("tolerations", duplicate_opt_value(&t.tolerations));
            o.put_opt("nodeSelector", opt_map_value(&t.node_selector));
        },
        None => {},
    }
    Value::Object(o)
}

/// The labels and annotations of a template that are those of the object.
pub open spec fn same_meta_json(meta: MetaView) -> Json {
    Json::Object(
        with_field(
            with_field(no_fields(), "annotations"@, opt_map_json(meta.annotations)),
            "labels"@,
            opt_map_json(meta.labels),
        ),
    )
}

/// The Deployment of a tunnel client.
pub open spec fn tunnel_deployment_json(
    base: MetaView,
    tunnel_name: Seq<char>,
    spec: RestateCloudEnvironmentSpec,
    default_image: Seq<char>,
) -> Json {
    let meta = owned_view(COMPONENT@, base);
    let template = Json::Object(
        no_fields().insert("metadata"@, same_meta_json(meta)).insert(
            "spec"@,
            tunnel_pod_json(tunnel_name, spec, default_image),
        ),
    );
    manifest_json(
        "apps/v1"@,
        "Deployment"@,
        meta,
        Some(
            Json::Object(
                with_field(
                    no_fields().insert(
                        "selector"@,
                        instance_selector(COMPONENT@, base.name->0),
                    ).insert("template"@, template),
                    "replicas"@,
                    match spec.tunnel {
                        Some(t) => match t.replicas {
                            Some(n) => Some(Json::Int(n as int)),
                            None => None,
                        },
                        None => None,
                    },
                ),
            ),
        ),
    )
}

/// The Deployment of a tunnel client.
pub fn tunnel_deployment(
    base_metadata: &ObjectMeta,
    tunnel_name: &str,
    spec: &RestateCloudEnvironmentSpec,
    tunnel_client_default_image: &str,
) -> (r: Value)
    requires
        base_metadata.name is Some,
    ensures
        r@ == tunnel_deployment_json(
            base_metadata@,
            tunnel_name@,
            *spec,
            tunnel_client_default_image@,
        ),
{
    let metadata = object_meta(COMPONENT, base_metadata);
    let mut template_metadata = Object::new();
    template_metadata.put_opt("annotations", opt_map_value(&metadata.annotations));
    template_metadata.put_opt("labels", opt_map_value(&metadata.labels));
    let mut template = Object::new();
    template.put("metadata", Value::Object(template_metadata));
    template.put("spec", tunnel_pod(tunnel_name, spec, tunnel_client_default_image));
    let mut o = Object::new();
    o.put("selector", label_selector(COMPONENT, base_metadata).value());
    o.put("template", Value::Object(template));
    let replicas: Option<Value> = match &spec.tunnel {
        Some(t) => match t.replicas {
            Some(n) => Some(Value::Int(n as i64)),
            None => None,
        },
        None => None,
    };
    o.put_opt("replicas", replicas);
    manifest("apps/v1", "Deployment", &metadata, Some(Value::Object(o)))
}

/// A port of the Service, with the protocol that is spoken there where that is said.
pub open spec fn service_port_json(name: Seq<char>, port: int, protocol: Option<Seq<char>>) -> Json {
    Json::Object(
        with_field(
            no_fields().insert("name"@, Json::Text(name)).insert("port"@, Json::Int(port)),
            "appProtocol"@,
            opt_text_json(protocol),
        ),
    )
}

fn service_port(name: &str, port: i32, h2c: bool) -> (r: Value)
    ensures
        r@ == service_port_json(
            name@,
            port as int,
            if h2c {
                Some("kubernetes.io/h2c"@)
            } else {
                None
            },
        ),
{
    let mut o = Object::new();
    o.put_text("name", name);
    o.put("port", Value::Int(port as i64));
    if h2c {
        o.put_text("appProtocol", "kubernetes.io/h2c");
    }
    Value::Object(o)
}

/// The ports of the Service of a tunnel client.
pub open spec fn tunnel_service_ports(remote: bool) -> Seq<Json> {
    let health = service_port_json("health"@, 9090, None);
    if remote {
        seq![
            service_port_json("ingress"@, 8080, Some("kubernetes.io/h2c"@)),
            service_port_json("admin"@, 9070, Some("kubernetes.io/h2c"@)),
            health,
        ]
    } else {
        seq![health]
    }
}

/// The Service of a tunnel client.
pub open spec fn tunnel_service_json(base: MetaView, remote: bool) -> Json {
    manifest_json(
        "v1"@,
        "Service"@,
        owned_view(COMPONENT@, base),
        Some(
            Json::Object(
                no_fields().insert("ports"@, Json::Array(tunnel_service_ports(remote))).insert(
                    "selector"@,
                    text_object(selecting(COMPONENT@, base.name->0)),
                ),
            ),
        ),
    )
}

/// The Service of a tunnel client.
pub fn tunnel_service(base_metadata: &ObjectMeta, remote_proxy: bool) -> (r: Value)
    requires
        base_metadata.name is Some,
    ensures
        r@ == tunnel_service_json(base_metadata@, remote_proxy),
{
    let mut ports: Vec<Value> = Vec::new();
    if remote_proxy {
        ports.push(service_port("ingress", 8080, true));
        ports.push(service_port("admin", 9070, true));
    }
    ports.push(service_port("health", 9090, false));
    proof {
        assert(jsons(ports@) =~= tunnel_service_ports(remote_proxy));
    }
    let mut spec = Object::new();
    spec.put("ports", Value::array(ports));
    spec.put("selector", Value::labels(&selector_labels(COMPONENT, base_metadata)));
    manifest("v1", "Service", &object_meta(COMPONENT, base_metadata), Some(Value::Object(spec)))
}

} // verus!
