//! The tunnel client of a cloud environment: how it is run and what it is told.

use vstd::prelude::*;

use crate::component::{instance_selector, owned_view, selecting};
use crate::json::{at2, at3, at4, field, items, opt_json, Json};
use crate::laws::documents::{
    holds_opt_texts, holds_texts, lemma_contains_add, lemma_default_counts, lemma_times_named,
    lemma_times_named_add, sets_once, text_or_none, times_named, values_are_written_as_they_are,
    what_a_mount_says, what_a_selector_says,
};
use crate::manifest::{
    container_port_json, container_security_json, custom_env, envs_json, pod_security_json,
    with_default, EnvView,
};
use crate::meta::{meta_json, opt_map, MetaView, OwnerView};
use crate::restatecloudenvironment::controller::base_view;
use crate::restatecloudenvironment::resource::{
    Authentication, RestateCloudEnvironment, RestateCloudEnvironmentSpec,
};
use crate::restatecloudenvironment::tunnel::{
    default_resources_json, token_volume_json, tunnel_container_json, tunnel_custom_env,
    tunnel_default_env, tunnel_deployment_json, tunnel_pod_json, tunnel_ports, tunnel_service_json,
    tunnel_service_ports,
};
use crate::text::opt_text;

verus! {

/// The whole environment of the tunnel client.
pub open spec fn client_env(tunnel_name: Seq<char>,
    spec: RestateCloudEnvironmentSpec) -> Seq<EnvView> {
    tunnel_default_env(tunnel_name, spec) + tunnel_custom_env(spec)
}

spec fn ind(custom: Seq<EnvView>, name: Seq<char>, other: Seq<char>) -> nat {
    if name == other && times_named(custom, name) == 0 {
        1
    } else {
        0
    }
}

/// Each variable that the user does not set is set once: to the name of the tunnel, the signing key,
/// the id and the region of the environment, the file of the token, whether it proxies, and the
/// defaults of logging. What the user sets is passed on.
pub proof fn what_the_tunnel_client_is_told(tunnel_name: Seq<char>,
    spec: RestateCloudEnvironmentSpec)
    ensures
        ({
            let vars = client_env(tunnel_name, spec);
            let custom = match spec.tunnel {
                Some(t) => custom_env(t.env),
                None => Seq::empty(),
            };
            let remote = if spec.tunnel matches Some(t) && t.remote_proxy == Some(true) {
                "true"@
            } else {
                "false"@
            };
            &&& times_named(custom, "RESTATE_TUNNEL_NAME"@) == 0
                ==> sets_once(vars, "RESTATE_TUNNEL_NAME"@, tunnel_name)
            &&& times_named(custom, "RESTATE_SIGNING_PUBLIC_KEY"@) == 0
                ==> sets_once(vars, "RESTATE_SIGNING_PUBLIC_KEY"@, spec.signing_public_key@)
            &&& times_named(custom, "RESTATE_ENVIRONMENT_ID"@) == 0
                ==> sets_once(vars, "RESTATE_ENVIRONMENT_ID"@, spec.environment_id@)
            &&& times_named(custom, "RESTATE_CLOUD_REGION"@) == 0
                ==> sets_once(vars, "RESTATE_CLOUD_REGION"@, spec.region@)
            &&& times_named(custom, "RESTATE_BEARER_TOKEN_FILE"@) == 0
                ==> sets_once(vars, "RESTATE_BEARER_TOKEN_FILE"@, "/restate-bearer-token"@)
            &&& times_named(custom, "RESTATE_REMOTE_PROXY"@) == 0
                ==> sets_once(vars, "RESTATE_REMOTE_PROXY"@, remote)
            &&& times_named(custom, "RUST_BACKTRACE"@) == 0
                ==> sets_once(vars, "RUST_BACKTRACE"@, "1"@)
            &&& times_named(custom, "RUST_LIB_BACKTRACE"@) == 0
                ==> sets_once(vars, "RUST_LIB_BACKTRACE"@, "0"@)
            &&& times_named(custom, "RUST_LOG"@) == 0 ==> sets_once(vars, "RUST_LOG"@, "info"@)
            &&& forall|e: EnvView| #[trigger] custom.contains(e) ==> vars.contains(e)
        }),
{
    reveal_strlit("RESTATE_TUNNEL_NAME");
    reveal_strlit("RESTATE_SIGNING_PUBLIC_KEY");
    reveal_strlit("RESTATE_ENVIRONMENT_ID");
    reveal_strlit("RESTATE_CLOUD_REGION");
    reveal_strlit("RESTATE_BEARER_TOKEN_FILE");
    reveal_strlit("RESTATE_REMOTE_PROXY");
    reveal_strlit("RUST_BACKTRACE");
    reveal_strlit("RUST_LIB_BACKTRACE");
    reveal_strlit("RUST_LOG");
    assert("RESTATE_TUNNEL_NAME"@.len() == 19);
    assert("RESTATE_SIGNING_PUBLIC_KEY"@.len() == 26);
    assert("RESTATE_ENVIRONMENT_ID"@.len() == 22);
    assert("RESTATE_CLOUD_REGION"@.len() == 20);
    assert("RESTATE_BEARER_TOKEN_FILE"@.len() == 25);
    assert("RESTATE_REMOTE_PROXY"@.len() == 20);
    assert("RUST_BACKTRACE"@.len() == 14);
    assert("RUST_LIB_BACKTRACE"@.len() == 18);
    assert("RUST_LOG"@.len() == 8);
    assert("RESTATE_CLOUD_REGION"@[8] == 'C');
    assert("RESTATE_REMOTE_PROXY"@[8] == 'R');
    let custom = tunnel_custom_env(spec);
    lemma_contains_add(tunnel_default_env(tunnel_name, spec), custom);
    lemma_tunnel_env(tunnel_name, spec, "RESTATE_TUNNEL_NAME"@);
    lemma_tunnel_env(tunnel_name, spec, "RESTATE_SIGNING_PUBLIC_KEY"@);
    lemma_tunnel_env(tunnel_name, spec, "RESTATE_ENVIRONMENT_ID"@);
    lemma_tunnel_env(tunnel_name, spec, "RESTATE_CLOUD_REGION"@);
    lemma_tunnel_env(tunnel_name, spec, "RESTATE_BEARER_TOKEN_FILE"@);
    lemma_tunnel_env(tunnel_name, spec, "RESTATE_REMOTE_PROXY"@);
    lemma_tunnel_env(tunnel_name, spec, "RUST_BACKTRACE"@);
    lemma_tunnel_env(tunnel_name, spec, "RUST_LIB_BACKTRACE"@);
    lemma_tunnel_env(tunnel_name, spec, "RUST_LOG"@);
}

proof fn lemma_tunnel_env(tunnel_name: Seq<char>, spec: RestateCloudEnvironmentSpec,
    name: Seq<char>)
    ensures
        ({
            let custom = tunnel_custom_env(spec);
            let vars = tunnel_default_env(tunnel_name, spec);
            let remote = if spec.tunnel matches Some(t) && t.remote_proxy == Some(true) {
                "true"@
            } else {
                "false"@
            };
            &&& times_named(vars, name) == ind(custom, "RESTATE_TUNNEL_NAME"@, name)
                + ind(custom, "RESTATE_SIGNING_PUBLIC_KEY"@, name)
                + ind(custom, "RESTATE_ENVIRONMENT_ID"@, name)
                + ind(custom, "RESTATE_CLOUD_REGION"@, name)
                + ind(custom, "RESTATE_BEARER_TOKEN_FILE"@, name)
                + ind(custom, "RESTATE_REMOTE_PROXY"@, name) + ind(custom, "RUST_BACKTRACE"@, name)
                + ind(custom, "RUST_LIB_BACKTRACE"@, name) + ind(custom, "RUST_LOG"@, name)
            &&& times_named(client_env(tunnel_name, spec), name) == times_named(vars, name)
                + times_named(custom, name)
            &&& times_named(custom, "RESTATE_TUNNEL_NAME"@) == 0 ==> vars.contains(
                EnvView { name: "RESTATE_TUNNEL_NAME"@, value: Some(tunnel_name),
                    value_from: None },
            )
            &&& times_named(custom, "RESTATE_SIGNING_PUBLIC_KEY"@) == 0 ==> vars.contains(
                EnvView { name: "RESTATE_SIGNING_PUBLIC_KEY"@,
                    value: Some(spec.signing_public_key@), value_from: None },
            )
            &&& times_named(custom, "RESTATE_ENVIRONMENT_ID"@) == 0 ==> vars.contains(
                EnvView { name: "RESTATE_ENVIRONMENT_ID"@, value: Some(spec.environment_id@),
                    value_from: None },
            )
            &&& times_named(custom, "RESTATE_CLOUD_REGION"@) == 0 ==> vars.contains(
                EnvView { name: "RESTATE_CLOUD_REGION"@, value: Some(spec.region@),
                    value_from: None },
            )
            &&& times_named(custom, "RESTATE_BEARER_TOKEN_FILE"@) == 0 ==> vars.contains(
                EnvView { name: "RESTATE_BEARER_TOKEN_FILE"@, value: Some("/restate-bearer-token"@),
                    value_from: None },
            )
            &&& times_named(custom, "RESTATE_REMOTE_PROXY"@) == 0 ==> vars.contains(
                EnvView { name: "RESTATE_REMOTE_PROXY"@, value: Some(remote), value_from: None },
            )
            &&& times_named(custom, "RUST_BACKTRACE"@) == 0 ==> vars.contains(
                EnvView { name: "RUST_BACKTRACE"@, value: Some("1"@), value_from: None },
            )
            &&& times_named(custom, "RUST_LIB_BACKTRACE"@) == 0 ==> vars.contains(
                EnvView { name: "RUST_LIB_BACKTRACE"@, value: Some("0"@), value_from: None },
            )
            &&& times_named(custom, "RUST_LOG"@) == 0 ==> vars.contains(
                EnvView { name: "RUST_LOG"@, value: Some("info"@), value_from: None },
            )
        }),
{
    let custom = tunnel_custom_env(spec);
    let remote = if spec.tunnel matches Some(t) && t.remote_proxy == Some(true) {
        "true"@
    } else {
        "false"@
    };
    lemma_times_named(Seq::empty(), name);
    let s0 = with_default(Seq::empty(), custom, "RESTATE_TUNNEL_NAME"@, tunnel_name);
    lemma_default_counts(Seq::empty(), custom, "RESTATE_TUNNEL_NAME"@, tunnel_name, name);
    let s1 = with_default(s0, custom, "RESTATE_SIGNING_PUBLIC_KEY"@, spec.signing_public_key@);
    lemma_default_counts(s0, custom, "RESTATE_SIGNING_PUBLIC_KEY"@, spec.signing_public_key@, name);
    let s2 = with_default(s1, custom, "RESTATE_ENVIRONMENT_ID"@, spec.environment_id@);
    lemma_default_counts(s1, custom, "RESTATE_ENVIRONMENT_ID"@, spec.environment_id@, name);
    let s3 = with_default(s2, custom, "RESTATE_CLOUD_REGION"@, spec.region@);
    lemma_default_counts(s2, custom, "RESTATE_CLOUD_REGION"@, spec.region@, name);
    let s4 = with_default(s3, custom, "RESTATE_BEARER_TOKEN_FILE"@, "/restate-bearer-token"@);
    lemma_default_counts(s3, custom, "RESTATE_BEARER_TOKEN_FILE"@, "/restate-bearer-token"@, name);
    let s5 = with_default(s4, custom, "RESTATE_REMOTE_PROXY"@, remote);
    lemma_default_counts(s4, custom, "RESTATE_REMOTE_PROXY"@, remote, name);
    let s6 = with_default(s5, custom, "RUST_BACKTRACE"@, "1"@);
    lemma_default_counts(s5, custom, "RUST_BACKTRACE"@, "1"@, name);
    let s7 = with_default(s6, custom, "RUST_LIB_BACKTRACE"@, "0"@);
    lemma_default_counts(s6, custom, "RUST_LIB_BACKTRACE"@, "0"@, name);
    let s8 = with_default(s7, custom, "RUST_LOG"@, "info"@);
    lemma_default_counts(s7, custom, "RUST_LOG"@, "info"@, name);
    assert(s8 == tunnel_default_env(tunnel_name, spec));
    lemma_times_named_add(s8, custom, name);
}

/// The container of the tunnel client runs the image asked for, with its environment and its
/// resources, and reads its token from the volume.
pub proof fn what_the_tunnel_container_says(
    tunnel_name: Seq<char>,
    spec: RestateCloudEnvironmentSpec,
    default_image: Seq<char>,
)
    ensures
        ({
            let j = tunnel_container_json(tunnel_name, spec, default_image);
            let t = spec.tunnel;
            let image = if t matches Some(t) && t.image is Some {
                t->0.image->0@
            } else {
                default_image
            };
            let path = match spec.authentication.secret_provider {
                Some(p) => p.path@,
                None => "bearer-token"@,
            };
            let remote = t matches Some(t) && t.remote_proxy == Some(true);
            let mounts = items(field(j, "volumeMounts"@));
            &&& field(j, "name"@) == Some(Json::Text("restate-cloud-tunnel-client"@))
            &&& field(j, "image"@) == Some(Json::Text(image))
            &&& field(j, "imagePullPolicy"@) == (if t is Some {
                text_or_none(opt_text(t->0.image_pull_policy))
            } else {
                None
            })
            &&& field(j, "env"@) == Some(envs_json(client_env(tunnel_name, spec)))
            &&& at3(j, "readinessProbe"@, "httpGet"@, "path"@) == Some(Json::Text("/health"@))
            &&& at3(j, "readinessProbe"@, "httpGet"@, "port"@) == Some(Json::Int(9090))
            &&& field(j, "ports"@) == Some(Json::Array(tunnel_ports(remote)))
            &&& field(j, "resources"@) == (if t matches Some(t) && t.resources is Some {
                opt_json(t->0.resources)
            } else {
                Some(default_resources_json())
            })
            &&& field(j, "securityContext"@) == Some(container_security_json(true))
            &&& mounts.len() == 1
            &&& field(mounts[0], "name"@) == Some(Json::Text("bearer-token"@))
            &&& field(mounts[0], "mountPath"@) == Some(Json::Text("/restate-bearer-token"@))
            &&& field(mounts[0], "subPath"@) == Some(Json::Text(path))
            &&& field(mounts[0], "readOnly"@) == Some(Json::Bool(true))
        }),
{
    reveal_strlit("name");
    reveal_strlit("image");
    reveal_strlit("env");
    reveal_strlit("readinessProbe");
    reveal_strlit("httpGet");
    reveal_strlit("path");
    reveal_strlit("port");
    reveal_strlit("ports");
    reveal_strlit("resources");
    reveal_strlit("securityContext");
    reveal_strlit("volumeMounts");
    reveal_strlit("imagePullPolicy");
    assert("name"@.len() == 4);
    assert("image"@.len() == 5);
    assert("env"@.len() == 3);
    assert("readinessProbe"@.len() == 14);
    assert("httpGet"@.len() == 7);
    assert("path"@.len() == 4);
    assert("port"@.len() == 4);
    assert("ports"@.len() == 5);
    assert("resources"@.len() == 9);
    assert("securityContext"@.len() == 15);
    assert("volumeMounts"@.len() == 12);
    assert("imagePullPolicy"@.len() == 15);
    assert("name"@[2] == 'm');
    assert("path"@[2] == 't');
    assert("port"@[2] == 'r');
    assert("image"@[0] == 'i');
    assert("ports"@[0] == 'p');
    assert("securityContext"@[0] == 's');
    assert("imagePullPolicy"@[0] == 'i');
    what_a_mount_says(
        "bearer-token"@,
        "/restate-bearer-token"@,
        Some(
            match spec.authentication.secret_provider {
                Some(p) => p.path@,
                None => "bearer-token"@,
            },
        ),
        true,
    );
}

/// The client listens for health checks on 9090, and where it proxies for requests on 8080 and 9070,
/// and its Service leads there.
pub proof fn where_the_tunnel_listens(remote: bool)
    ensures
        tunnel_ports(remote).len() == (if remote {
            3int
        } else {
            1
        }),
        tunnel_ports(remote).last() == container_port_json("health"@, 9090),
        remote ==> tunnel_ports(remote)[0] == container_port_json("ingress"@, 8080)
            && tunnel_ports(remote)[1] == container_port_json("admin"@, 9070),
        tunnel_service_ports(remote).len() == tunnel_ports(remote).len(),
        ({
            let p = tunnel_service_ports(remote);
            let h = p.last();
            &&& field(h, "name"@) == Some(Json::Text("health"@))
            &&& field(h, "port"@) == Some(Json::Int(9090))
            &&& field(h, "appProtocol"@) is None
            &&& remote ==> {
                &&& field(p[0], "name"@) == Some(Json::Text("ingress"@))
                &&& field(p[0], "port"@) == Some(Json::Int(8080))
                &&& field(p[0], "appProtocol"@) == Some(Json::Text("kubernetes.io/h2c"@))
                &&& field(p[1], "name"@) == Some(Json::Text("admin"@))
                &&& field(p[1], "port"@) == Some(Json::Int(9070))
                &&& field(p[1], "appProtocol"@) == Some(Json::Text("kubernetes.io/h2c"@))
            }
        }),
{
    reveal_strlit("name");
    reveal_strlit("port");
    reveal_strlit("appProtocol");
    assert("name"@.len() == 4);
    assert("port"@.len() == 4);
    assert("appProtocol"@.len() == 11);
    assert("name"@[0] == 'n');
    assert("port"@[0] == 'p');
}

/// The client gets two cores and two gibibytes at most, and half of that for certain, unless it is
/// told otherwise.
pub proof fn what_the_tunnel_may_use()
    ensures
        ({
            let j = default_resources_json();
            &&& at2(j, "limits"@, "cpu"@) == Some(Json::Text("2"@))
            &&& at2(j, "limits"@, "memory"@) == Some(Json::Text("2Gi"@))
            &&& at2(j, "requests"@, "cpu"@) == Some(Json::Text("1"@))
            &&& at2(j, "requests"@, "memory"@) == Some(Json::Text("1Gi"@))
        }),
{
    reveal_strlit("limits");
    reveal_strlit("requests");
    reveal_strlit("cpu");
    reveal_strlit("memory");
    assert("limits"@.len() == 6);
    assert("requests"@.len() == 8);
    assert("cpu"@.len() == 3);
    assert("memory"@.len() == 6);
    assert("limits"@[0] == 'l');
    assert("memory"@[0] == 'm');
}

/// The token comes from the key of the Secret named, or through the provider class named.
pub proof fn where_the_token_comes_from(a: Authentication)
    ensures
        ({
            let j = token_volume_json(a);
            &&& field(j, "name"@) == Some(Json::Text("bearer-token"@))
            &&& a.secret_provider is None ==> {
                let keys = items(at2(j, "secret"@, "items"@));
                &&& at2(j, "secret"@, "secretName"@) == Some(Json::Text(a.secret.name@))
                &&& keys.len() == 1
                &&& field(keys[0], "key"@) == Some(Json::Text(a.secret.key@))
                &&& field(keys[0], "path"@) == Some(Json::Text("bearer-token"@))
                &&& field(j, "csi"@) is None
            }
            &&& a.secret_provider matches Some(p) ==> {
                &&& at2(j, "csi"@, "driver"@) == Some(Json::Text("secrets-store.csi.k8s.io"@))
                &&& at2(j, "csi"@, "readOnly"@) == Some(Json::Bool(true))
                &&& at3(j, "csi"@, "volumeAttributes"@, "secretProviderClass"@) == Some(
                    Json::Text(p.secret_provider_class@),
                )
                &&& field(j, "secret"@) is None
            }
        }),
{
    reveal_strlit("name");
    reveal_strlit("secret");
    reveal_strlit("csi");
    reveal_strlit("items");
    reveal_strlit("secretName");
    reveal_strlit("key");
    reveal_strlit("path");
    reveal_strlit("mode");
    reveal_strlit("driver");
    reveal_strlit("readOnly");
    reveal_strlit("volumeAttributes");
    reveal_strlit("secretProviderClass");
    assert("name"@.len() == 4);
    assert("secret"@.len() == 6);
    assert("csi"@.len() == 3);
    assert("items"@.len() == 5);
    assert("secretName"@.len() == 10);
    assert("key"@.len() == 3);
    assert("path"@.len() == 4);
    assert("mode"@.len() == 4);
    assert("driver"@.len() == 6);
    assert("readOnly"@.len() == 8);
    assert("volumeAttributes"@.len() == 16);
    assert("secretProviderClass"@.len() == 19);
    assert("name"@[0] == 'n');
    assert("path"@[0] == 'p');
    assert("mode"@[0] == 'm');
    assert("secret"@[0] == 's');
    assert("driver"@[0] == 'd');
    assert("csi"@[0] == 'c');
    assert("key"@[0] == 'k');
}

/// The pod of the tunnel client has one container and the volume of its token, and is placed as
/// asked for.
pub proof fn what_the_tunnel_pod_says(
    tunnel_name: Seq<char>,
    spec: RestateCloudEnvironmentSpec,
    default_image: Seq<char>,
)
    ensures
        ({
            let j = tunnel_pod_json(tunnel_name, spec, default_image);
            &&& field(j, "automountServiceAccountToken"@) == Some(Json::Bool(false))
            &&& field(j, "containers"@) == Some(
                Json::Array(seq![tunnel_container_json(tunnel_name, spec, default_image)]),
            )
            &&& field(j, "securityContext"@) == Some(pod_security_json(false))
            &&& field(j, "terminationGracePeriodSeconds"@) == Some(Json::Int(310))
            &&& field(j, "volumes"@) == Some(
                Json::Array(seq![token_volume_json(spec.authentication)]),
            )
            &&& spec.tunnel matches Some(t) ==> {
                &&& field(j, "affinity"@) == opt_json(t.affinity)
                &&& field(j, "dnsPolicy"@) == text_or_none(opt_text(t.dns_policy))
                &&& field(j, "dnsConfig"@) == opt_json(t.dns_config)
                &&& field(j, "tolerations"@) == opt_json(t.tolerations)
                &&& holds_opt_texts(field(j, "nodeSelector"@), opt_map(t.node_selector))
            }
        }),
{
    reveal_strlit("automountServiceAccountToken");
    reveal_strlit("containers");
    reveal_strlit("securityContext");
    reveal_strlit("terminationGracePeriodSeconds");
    reveal_strlit("volumes");
    reveal_strlit("affinity");
    reveal_strlit("dnsPolicy");
    reveal_strlit("dnsConfig");
    reveal_strlit("tolerations");
    reveal_strlit("nodeSelector");
    assert("automountServiceAccountToken"@.len() == 28);
    assert("containers"@.len() == 10);
    assert("securityContext"@.len() == 15);
    assert("terminationGracePeriodSeconds"@.len() == 29);
    assert("volumes"@.len() == 7);
    assert("affinity"@.len() == 8);
    assert("dnsPolicy"@.len() == 9);
    assert("dnsConfig"@.len() == 9);
    assert("tolerations"@.len() == 11);
    assert("nodeSelector"@.len() == 12);
    assert("dnsPolicy"@[3] == 'P');
    assert("dnsConfig"@[3] == 'C');
    if let Some(t) = spec.tunnel {
        values_are_written_as_they_are(None, None, opt_map(t.node_selector), Seq::empty());
    }
}

/// The Deployment of the tunnel client has the replicas asked for, where any are, and runs its pod
/// under the labels that its selector asks for.
pub proof fn what_the_tunnel_deployment_says(
    base: MetaView,
    tunnel_name: Seq<char>,
    spec: RestateCloudEnvironmentSpec,
    default_image: Seq<char>,
)
    requires
        base.name is Some,
    ensures
        ({
            let j = tunnel_deployment_json(base, tunnel_name, spec, default_image);
            let meta = owned_view("restate-cloud-tunnel-client"@, base);
            let replicas = if spec.tunnel is Some {
                spec.tunnel->0.replicas
            } else {
                None
            };
            &&& field(j, "apiVersion"@) == Some(Json::Text("apps/v1"@))
            &&& field(j, "kind"@) == Some(Json::Text("Deployment"@))
            &&& field(j, "metadata"@) == Some(meta_json(meta))
            &&& at2(j, "spec"@, "replicas"@) == (if replicas is Some {
                Some(Json::Int(replicas->0 as int))
            } else {
                None
            })
            &&& at2(j, "spec"@, "selector"@) == Some(
                instance_selector("restate-cloud-tunnel-client"@, base.name->0),
            )
            &&& holds_opt_texts(at4(j, "spec"@, "template"@, "metadata"@, "labels"@), meta.labels)
            &&& holds_opt_texts(
                at4(j, "spec"@, "template"@, "metadata"@, "annotations"@),
                meta.annotations,
            )
            &&& at3(j, "spec"@, "template"@, "spec"@) == Some(
                tunnel_pod_json(tunnel_name, spec, default_image),
            )
        }),
{
    reveal_strlit("apiVersion");
    reveal_strlit("kind");
    reveal_strlit("metadata");
    reveal_strlit("spec");
    reveal_strlit("replicas");
    reveal_strlit("selector");
    reveal_strlit("template");
    reveal_strlit("labels");
    reveal_strlit("annotations");
    assert("apiVersion"@.len() == 10);
    assert("kind"@.len() == 4);
    assert("metadata"@.len() == 8);
    assert("spec"@.len() == 4);
    assert("replicas"@.len() == 8);
    assert("selector"@.len() == 8);
    assert("template"@.len() == 8);
    assert("labels"@.len() == 6);
    assert("annotations"@.len() == 11);
    assert("kind"@[0] == 'k');
    assert("spec"@[0] == 's');
    assert("metadata"@[0] == 'm');
    assert("replicas"@[0] == 'r');
    assert("selector"@[0] == 's');
    assert("template"@[0] == 't');
    let meta = owned_view("restate-cloud-tunnel-client"@, base);
    values_are_written_as_they_are(None, None, meta.labels, Seq::empty());
    values_are_written_as_they_are(None, None, meta.annotations, Seq::empty());
}

/// The Service of the tunnel client selects its pods and leads to its ports.
pub proof fn what_the_tunnel_service_says(base: MetaView, remote: bool)
    requires
        base.name is Some,
    ensures
        ({
            let j = tunnel_service_json(base, remote);
            &&& field(j, "apiVersion"@) == Some(Json::Text("v1"@))
            &&& field(j, "kind"@) == Some(Json::Text("Service"@))
            &&& field(j, "metadata"@) == Some(
                meta_json(owned_view("restate-cloud-tunnel-client"@, base)),
            )
            &&& at2(j, "spec"@, "ports"@) == Some(Json::Array(tunnel_service_ports(remote)))
            &&& holds_texts(
                at2(j, "spec"@, "selector"@),
                selecting("restate-cloud-tunnel-client"@, base.name->0),
            )
        }),
{
    reveal_strlit("apiVersion");
    reveal_strlit("kind");
    reveal_strlit("metadata");
    reveal_strlit("spec");
    reveal_strlit("ports");
    reveal_strlit("selector");
    assert("apiVersion"@.len() == 10);
    assert("kind"@.len() == 4);
    assert("metadata"@.len() == 8);
    assert("spec"@.len() == 4);
    assert("ports"@.len() == 5);
    assert("selector"@.len() == 8);
    assert("kind"@[0] == 'k');
    assert("spec"@[0] == 's');
    assert("metadata"@[0] == 'm');
    assert("selector"@[0] == 's');
    values_are_written_as_they_are(
        None,
        None,
        Some(selecting("restate-cloud-tunnel-client"@, base.name->0)),
        Seq::empty(),
    );
}

/// What an environment owns is named after it, stands in the namespace of the operator, carries its
/// labels and its annotations but for what kubectl applied last, and is owned by it.
pub proof fn what_an_environment_owns(
    rce: RestateCloudEnvironment,
    operator_namespace: Seq<char>,
    key: Seq<char>,
)
    requires
        rce.metadata.name is Some,
        rce.metadata.uid is Some,
    ensures
        ({
            let m = base_view(rce, operator_namespace);
            let labels = match rce.metadata.labels {
                Some(l) => l@,
                None => Map::empty(),
            };
            let annotations = match rce.metadata.annotations {
                Some(a) => a@,
                None => Map::empty(),
            };
            &&& m.name == Some("tunnel-"@ + rce.metadata.any_name())
            &&& m.namespace == Some(operator_namespace)
            &&& m.uid is None
            &&& m.labels == Some(labels)
            &&& m.annotations is Some
            &&& m.annotations->0.contains_key(key) <==> annotations.contains_key(key) && key
                != "kubectl.kubernetes.io/last-applied-configuration"@
            &&& m.annotations->0.contains_key(key) ==> m.annotations->0[key] == annotations[key]
            &&& m.owner_references == Some(
                seq![
                    OwnerView {
                        api_version: "restate.dev/v1"@,
                        kind: "RestateCloudEnvironment"@,
                        name: rce.metadata.name->0@,
                        uid: rce.metadata.uid->0@,
                        controller: Some(true),
                        block_owner_deletion: None,
                    },
                ],
            )
        }),
{
}

/// What an instance of a component owns is labelled with the component, the instance and the
/// operator, whatever the user's labels say, and is otherwise labelled as the instance is. Its pods
/// are selected by the component and the instance.
pub proof fn what_an_instance_is_labelled_with(component: Seq<char>, base: MetaView, key: Seq<char>)
    requires
        base.name is Some,
    ensures
        ({
            let m = owned_view(component, base);
            let own = if base.labels is Some {
                base.labels->0
            } else {
                Map::empty()
            };
            let given = selecting(component, base.name->0);
            &&& m.name == base.name && m.namespace == base.namespace && m.uid == base.uid
            &&& m.annotations == base.annotations && m.owner_references == base.owner_references
            &&& m.labels is Some
            &&& m.labels->0["app.kubernetes.io/name"@] == component
            &&& m.labels->0["app.kubernetes.io/instance"@] == base.name->0
            &&& m.labels->0["app.kubernetes.io/managed-by"@] == "restate-operator"@
            &&& m.labels->0.contains_key(key) <==> own.contains_key(key) || key
                == "app.kubernetes.io/name"@ || key == "app.kubernetes.io/instance"@ || key
                == "app.kubernetes.io/managed-by"@
            &&& m.labels->0.contains_key(key) && key != "app.kubernetes.io/name"@ && key
                != "app.kubernetes.io/instance"@ && key != "app.kubernetes.io/managed-by"@
                ==> m.labels->0[key] == own[key]
            &&& given.contains_key(key) <==> key == "app.kubernetes.io/name"@ || key
                == "app.kubernetes.io/instance"@
            &&& given["app.kubernetes.io/name"@] == component
            &&& given["app.kubernetes.io/instance"@] == base.name->0
        }),
        holds_texts(
            field(instance_selector(component, base.name->0), "matchLabels"@),
            selecting(component, base.name->0),
        ),
        field(instance_selector(component, base.name->0), "matchExpressions"@) is None,
{
    reveal_strlit("app.kubernetes.io/name");
    reveal_strlit("app.kubernetes.io/instance");
    reveal_strlit("app.kubernetes.io/managed-by");
    assert("app.kubernetes.io/name"@.len() == 22);
    assert("app.kubernetes.io/instance"@.len() == 26);
    assert("app.kubernetes.io/managed-by"@.len() == 28);
    what_a_selector_says(Some(selecting(component, base.name->0)), None);
}

} // verus!
