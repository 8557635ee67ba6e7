//! Kafka integrations: their Deployment field by field, and what they say of themselves.

use vstd::prelude::*;

use crate::component::{instance_selector, owned_view};
use crate::control::ConditionView;
use crate::error::Error;
use crate::json::{at2, at3, at4, field, inner, items, Json};
use crate::laws::documents::{
    holds_opt_texts, holds_texts, text_or_none, what_a_config_map_says, what_a_container_may_do,
    what_a_mount_says, what_template_metadata_says,
};
use crate::manifest::{container_security_json, envs_json, pod_security_json, EnvView};
use crate::meta::{meta_json, opt_map, MetaView};
use crate::restatekafkaintegration::config::config_digest;
use crate::restatekafkaintegration::controller::{
    base_view, deployment_step, failure_reason, integration_owner, kafka_steps, kafka_transition,
    lacks_token, observed_counts, or_before, readiness, DeploymentStatus, KafkaOutcome,
    KafkaStepView,
};
use crate::restatekafkaintegration::deployment::{
    config_volume_of, container_json, deployment_json, env_of, labels_of, overlaid, overlay_json,
    overlay_metadata, pod_annotations, pod_labels, relabelled, template_json, token_env,
};
use crate::restatekafkaintegration::merge::merged;
use crate::restatekafkaintegration::resource::{
    RestateKafkaIntegration, RestateKafkaIntegrationSpec, TemplateOverlay,
};
use crate::text::{int_text, opt_text};

verus! {

/// What an integration owns stands in its namespace, is owned by it, and is labelled and annotated as
/// it is, but for what kubectl applied last.
pub proof fn what_an_integration_hands_on(
    rki: RestateKafkaIntegration,
    namespace: Seq<char>,
    key: Seq<char>,
)
    requires
        rki.metadata.name is Some,
        rki.metadata.uid is Some,
    ensures
        ({
            let m = base_view(rki, namespace);
            let own = match rki.metadata.annotations {
                Some(a) => a@,
                None => Map::empty(),
            };
            let kept = own.contains_key(key) && key
                != "kubectl.kubernetes.io/last-applied-configuration"@;
            let owner = integration_owner(rki);
            &&& m.name == Some(rki.metadata.any_name())
            &&& m.namespace == Some(namespace) && m.uid is None
            &&& m.labels == Some(
                match rki.metadata.labels {
                    Some(l) => l@,
                    None => Map::empty(),
                },
            )
            &&& m.annotations is Some
            &&& m.annotations->0.contains_key(key) <==> kept
            &&& kept ==> m.annotations->0[key] == own[key]
            &&& m.owner_references is Some && m.owner_references->0.len() == 1
            &&& m.owner_references->0[0] == owner
            &&& owner.api_version == "restate.dev/v1alpha1"@
            &&& owner.kind == "RestateKafkaIntegration"@
            &&& owner.name == rki.metadata.name->0@
            &&& owner.uid == rki.metadata.uid->0@
            &&& owner.controller == Some(true) && owner.block_owner_deletion is None
        }),
{
}

/// A reference to Restate Cloud wants a token, and nothing else does.
pub proof fn who_wants_a_token(spec: RestateKafkaIntegrationSpec)
    ensures
        spec.restate.ingress.cloud is None ==> !lacks_token(spec),
        spec.restate.auth_token is Some ==> !lacks_token(spec),
        spec.restate.ingress.cloud is Some && spec.restate.auth_token is None ==> lacks_token(spec),
{
}

/// The container learns the address of the ingress, the token where there is one, and where its
/// configuration is where it has one, each just once.
pub proof fn what_an_integration_is_told(
    spec: RestateKafkaIntegrationSpec,
    ingress_url: Seq<char>,
    e: EnvView,
)
    ensures
        ({
            let env = env_of(spec, ingress_url);
            let address = EnvView {
                name: "RESTATE_INGRESS_URL"@,
                value: Some(ingress_url),
                value_from: None,
            };
            let file = EnvView {
                name: "CONFIG_FILE"@,
                value: Some("/etc/restate-kafka/config.properties"@),
                value_from: None,
            };
            let configured = spec.config is Some || spec.config_from is Some;
            let token = spec.restate.auth_token;
            &&& env.contains(address)
            &&& configured ==> env.contains(file)
            &&& token is Some ==> env.contains(token_env(token->0))
            &&& env.contains(e) ==> e == address || (configured && e == file) || (token is Some && e
                == token_env(token->0))
            &&& env.len() == 1 + (if configured {
                1int
            } else {
                0int
            }) + (if token is Some {
                1int
            } else {
                0int
            })
            &&& token matches Some(t) ==> {
                let v = token_env(t);
                &&& v.name == "RESTATE_AUTH_TOKEN"@ && v.value is None && v.value_from is Some
                &&& at2(v.value_from->0, "secretKeyRef"@, "name"@) == Some(Json::Text(t.name@))
                &&& at2(v.value_from->0, "secretKeyRef"@, "key"@) == Some(Json::Text(t.key@))
            }
        }),
{
    reveal_strlit("secretKeyRef");
    reveal_strlit("name");
    reveal_strlit("key");
    assert("secretKeyRef"@.len() == 12);
    assert("name"@.len() == 4);
    assert("key"@.len() == 3);
    let env = env_of(spec, ingress_url);
    assert(env[0].name == "RESTATE_INGRESS_URL"@);
    if let Some(t) = spec.restate.auth_token {
        assert(env[1] == token_env(t));
    }
    if spec.config is Some || spec.config_from is Some {
        assert(env[env.len() - 1].name == "CONFIG_FILE"@);
    }
}

/// Whether a volume holds one key of an object as the configuration file.
pub open spec fn holds_config(
    v: Json,
    source: Seq<char>,
    name_field: Seq<char>,
    name: Seq<char>,
    key: Seq<char>,
) -> bool {
    let listed = items(at2(v, source, "items"@));
    &&& field(v, "name"@) == Some(Json::Text("config"@))
    &&& at2(v, source, name_field) == Some(Json::Text(name))
    &&& listed.len() == 1
    &&& field(listed[0], "key"@) == Some(Json::Text(key))
    &&& field(listed[0], "path"@) == Some(Json::Text("config.properties"@))
    &&& field(listed[0], "mode"@) is None
}

/// The configuration comes from just one place: the specification itself, by way of the ConfigMap of
/// the integration, or one key of a Secret or of a ConfigMap.
pub proof fn where_a_configuration_comes_from(name: Seq<char>, spec: RestateKafkaIntegrationSpec)
    ensures
        ({
            let v = config_volume_of(name, spec);
            let given = spec.config is Some;
            let from = spec.config_from;
            let key = "config.properties"@;
            &&& given && from is Some ==> v is Err
            &&& !given && from is None ==> v == Ok::<Option<Json>, Seq<char>>(None)
            &&& given && from is None ==> v is Ok && v->Ok_0 is Some && holds_config(
                v->Ok_0->0,
                "configMap"@,
                "name"@,
                name,
                key,
            )
            &&& !given && from is Some ==> {
                let s = from->0.secret_ref;
                let c = from->0.config_map_ref;
                &&& v is Err <==> (s is Some <==> c is Some)
                &&& s is Some && c is None ==> v->Ok_0 is Some && holds_config(
                    v->Ok_0->0,
                    "secret"@,
                    "secretName"@,
                    s->0.name@,
                    if s->0.key is Some {
                        s->0.key->0@
                    } else {
                        key
                    },
                )
                &&& s is None && c is Some ==> v->Ok_0 is Some && holds_config(
                    v->Ok_0->0,
                    "configMap"@,
                    "name"@,
                    c->0.name@,
                    if c->0.key is Some {
                        c->0.key->0@
                    } else {
                        key
                    },
                )
            }
        }),
{
    reveal_strlit("name");
    reveal_strlit("configMap");
    reveal_strlit("secret");
    reveal_strlit("items");
    reveal_strlit("secretName");
    reveal_strlit("key");
    reveal_strlit("path");
    reveal_strlit("mode");
    assert("name"@.len() == 4);
    assert("configMap"@.len() == 9);
    assert("secret"@.len() == 6);
    assert("items"@.len() == 5);
    assert("secretName"@.len() == 10);
    assert("key"@.len() == 3);
    assert("path"@.len() == 4);
    assert("mode"@.len() == 4);
    assert("name"@[0] == 'n');
    assert("path"@[0] == 'p');
    assert("mode"@[0] == 'm');
}

/// The container runs the image that is asked for, or else the usual one, offers its metrics, may not
/// write to its own files, and mounts its configuration where it has one.
pub proof fn what_the_integration_container_says(
    spec: RestateKafkaIntegrationSpec,
    ingress_url: Seq<char>,
    default_image: Seq<char>,
    mounted: bool,
)
    ensures
        ({
            let j = container_json(spec, ingress_url, default_image, mounted);
            let ports = items(field(j, "ports"@));
            let mounts = items(field(j, "volumeMounts"@));
            &&& field(j, "name"@) == Some(Json::Text("kafka-integration"@))
            &&& spec.image matches Some(i) ==> field(j, "image"@) == Some(Json::Text(i@))
            &&& spec.image is None ==> field(j, "image"@) == Some(Json::Text(default_image))
            &&& field(j, "imagePullPolicy"@) == text_or_none(opt_text(spec.image_pull_policy))
            &&& field(j, "env"@) == Some(envs_json(env_of(spec, ingress_url)))
            &&& field(j, "securityContext"@) == Some(container_security_json(true))
            &&& ports.len() == 1
            &&& field(ports[0], "name"@) == Some(Json::Text("metrics"@))
            &&& field(ports[0], "containerPort"@) == Some(Json::Int(9464))
            &&& !mounted ==> field(j, "volumeMounts"@) is None
            &&& mounted ==> {
                &&& mounts.len() == 1
                &&& field(mounts[0], "name"@) == Some(Json::Text("config"@))
                &&& field(mounts[0], "mountPath"@) == Some(
                    Json::Text("/etc/restate-kafka/config.properties"@),
                )
                &&& field(mounts[0], "subPath"@) == Some(Json::Text("config.properties"@))
                &&& field(mounts[0], "readOnly"@) == Some(Json::Bool(true))
            }
        }),
{
    reveal_strlit("name");
    reveal_strlit("image");
    reveal_strlit("env");
    reveal_strlit("ports");
    reveal_strlit("securityContext");
    reveal_strlit("imagePullPolicy");
    reveal_strlit("volumeMounts");
    assert("name"@.len() == 4);
    assert("image"@.len() == 5);
    assert("env"@.len() == 3);
    assert("ports"@.len() == 5);
    assert("securityContext"@.len() == 15);
    assert("imagePullPolicy"@.len() == 15);
    assert("volumeMounts"@.len() == 12);
    assert("image"@[0] == 'i');
    assert("ports"@[0] == 'p');
    assert("securityContext"@[0] == 's');
    assert("imagePullPolicy"@[0] == 'i');
    what_a_container_may_do("metrics"@, 9464, true);
    what_a_mount_says(
        "config"@,
        "/etc/restate-kafka/config.properties"@,
        Some("config.properties"@),
        true,
    );
}

/// The pods are labelled as what the integration owns, with the label that lets them reach a cluster
/// where they refer to one.
pub proof fn what_integration_pods_are_labelled_with(
    base: MetaView,
    spec: RestateKafkaIntegrationSpec,
    key: Seq<char>,
)
    ensures
        ({
            let labels = pod_labels(base, spec);
            let owned = owned_view("restate-kafka-integration"@, base).labels->0;
            let allows = spec.restate.ingress.cluster is Some && key == "allow.restate.dev/"@
                + spec.restate.ingress.cluster->0@;
            &&& allows ==> labels.contains_key(key) && labels[key] == "true"@
            &&& !allows ==> (labels.contains_key(key) <==> owned.contains_key(key))
            &&& !allows && owned.contains_key(key) ==> labels[key] == owned[key]
        }),
{
}

/// The pods are annotated as the integration is, and with a digest of the configuration where it
/// stands in the specification, so that they restart when it changes.
pub proof fn what_integration_pods_are_annotated_with(
    base: MetaView,
    spec: RestateKafkaIntegrationSpec,
    key: Seq<char>,
)
    requires
        base.annotations is Some,
    ensures
        ({
            let a = pod_annotations(base, spec);
            let own = base.annotations->0;
            &&& spec.config matches Some(c) ==> a.contains_key("restate.dev/config-hash"@)
                && a["restate.dev/config-hash"@] == config_digest(c@)
            &&& key != "restate.dev/config-hash"@ || spec.config is None ==> (a.contains_key(key)
                <==> own.contains_key(key)) && (own.contains_key(key) ==> a[key] == own[key])
        }),
{
}

/// The pod of an integration has no token of a service account, runs as no root, has a minute to end,
/// and its configuration where it has one.
pub proof fn what_the_integration_pod_says(
    base: MetaView,
    spec: RestateKafkaIntegrationSpec,
    ingress_url: Seq<char>,
    default_image: Seq<char>,
    config: Option<Json>,
)
    ensures
        ({
            let t = Json::Object(template_json(base, spec, ingress_url, default_image, config));
            let pod = field(t, "spec"@);
            &&& holds_texts(at2(t, "metadata"@, "labels"@), pod_labels(base, spec))
            &&& holds_texts(at2(t, "metadata"@, "annotations"@), pod_annotations(base, spec))
            &&& inner(pod, "automountServiceAccountToken"@) == Some(Json::Bool(false))
            &&& items(inner(pod, "containers"@)) == seq![
                container_json(spec, ingress_url, default_image, config is Some),
            ]
            &&& inner(pod, "securityContext"@) == Some(pod_security_json(true))
            &&& inner(pod, "terminationGracePeriodSeconds"@) == Some(Json::Int(60))
            &&& config is None ==> inner(pod, "volumes"@) is None
            &&& config matches Some(v) ==> inner(pod, "volumes"@) == Some(Json::Array(seq![v]))
        }),
{
    reveal_strlit("metadata");
    reveal_strlit("spec");
    reveal_strlit("automountServiceAccountToken");
    reveal_strlit("containers");
    reveal_strlit("securityContext");
    reveal_strlit("terminationGracePeriodSeconds");
    reveal_strlit("volumes");
    assert("metadata"@.len() == 8);
    assert("spec"@.len() == 4);
    assert("automountServiceAccountToken"@.len() == 28);
    assert("containers"@.len() == 10);
    assert("securityContext"@.len() == 15);
    assert("terminationGracePeriodSeconds"@.len() == 29);
    assert("volumes"@.len() == 7);
    what_template_metadata_says(pod_labels(base, spec), Some(pod_annotations(base, spec)));
}

/// The Deployment has the replicas that are asked for, selects the pods of the integration, and rolls
/// them one at a time without any beyond their number.
pub proof fn what_the_integration_deployment_says(
    meta: MetaView,
    replicas: int,
    instance: Seq<char>,
    template: Json,
)
    ensures
        ({
            let j = deployment_json(meta, replicas, instance, template);
            &&& field(j, "apiVersion"@) == Some(Json::Text("apps/v1"@))
            &&& field(j, "kind"@) == Some(Json::Text("Deployment"@))
            &&& field(j, "metadata"@) == Some(meta_json(meta))
            &&& at2(j, "spec"@, "replicas"@) == Some(Json::Int(replicas))
            &&& at2(j, "spec"@, "selector"@) == Some(
                instance_selector("restate-kafka-integration"@, instance),
            )
            &&& at3(j, "spec"@, "strategy"@, "type"@) == Some(Json::Text("RollingUpdate"@))
            &&& at4(j, "spec"@, "strategy"@, "rollingUpdate"@, "maxSurge"@) == Some(Json::Int(0))
            &&& at4(j, "spec"@, "strategy"@, "rollingUpdate"@, "maxUnavailable"@) == Some(
                Json::Int(1),
            )
            &&& at2(j, "spec"@, "template"@) == Some(template)
        }),
{
    reveal_strlit("apiVersion");
    reveal_strlit("kind");
    reveal_strlit("metadata");
    reveal_strlit("spec");
    reveal_strlit("replicas");
    reveal_strlit("selector");
    reveal_strlit("strategy");
    reveal_strlit("template");
    reveal_strlit("type");
    reveal_strlit("rollingUpdate");
    reveal_strlit("maxSurge");
    reveal_strlit("maxUnavailable");
    assert("apiVersion"@.len() == 10);
    assert("kind"@.len() == 4);
    assert("metadata"@.len() == 8);
    assert("spec"@.len() == 4);
    assert("replicas"@.len() == 8);
    assert("selector"@.len() == 8);
    assert("strategy"@.len() == 8);
    assert("template"@.len() == 8);
    assert("type"@.len() == 4);
    assert("rollingUpdate"@.len() == 13);
    assert("maxSurge"@.len() == 8);
    assert("maxUnavailable"@.len() == 14);
    assert("kind"@[0] == 'k');
    assert("spec"@[0] == 's');
    assert("type"@[0] == 't');
    assert("metadata"@[2] == 't');
    assert("replicas"@[2] == 'p');
    assert("selector"@[2] == 'l');
    assert("strategy"@[2] == 'r');
    assert("template"@[2] == 'm');
    assert("maxSurge"@[2] == 'x');
}

/// What a user lays over the template is just what they give: their labels and annotations, and their
/// specification.
pub proof fn what_is_laid_over(t: TemplateOverlay)
    ensures
        ({
            let j = Json::Object(overlay_json(t));
            &&& field(j, "spec"@) == (match t.spec {
                Some(s) => Some(s@),
                None => None,
            })
            &&& t.metadata is None ==> field(j, "metadata"@) is None
            &&& t.metadata matches Some(m) ==> {
                &&& m.labels is None && m.annotations is None ==> field(j, "metadata"@) is None
                &&& holds_opt_texts(at2(j, "metadata"@, "labels"@), opt_map(m.labels))
                &&& holds_opt_texts(at2(j, "metadata"@, "annotations"@), opt_map(m.annotations))
            }
        }),
        forall|template: Json| #[trigger] overlaid(template, None) == template,
        forall|template: Json| #[trigger]
            overlaid(template, Some(t)) == merged(template, Json::Object(overlay_json(t))),
{
    reveal_strlit("metadata");
    reveal_strlit("spec");
    reveal_strlit("labels");
    reveal_strlit("annotations");
    assert("metadata"@.len() == 8);
    assert("spec"@.len() == 4);
    assert("labels"@.len() == 6);
    assert("annotations"@.len() == 11);
    let m = overlay_metadata(t);
    if let Some(meta) = t.metadata {
        if meta.labels is None && meta.annotations is None {
            assert(m =~= crate::json::no_fields());
        }
        if meta.labels is Some {
            assert(m.contains_key("labels"@));
        }
        if meta.annotations is Some {
            assert(m.contains_key("annotations"@));
        }
    }
}

/// The labels by which the pods are selected are put back, and nothing else of a template changes.
pub proof fn what_is_put_back(template: Json, instance: Seq<char>, key: Seq<char>)
    requires
        labels_of(template) is Some,
    ensures
        ({
            let r = relabelled(template, instance);
            &&& at3(r, "metadata"@, "labels"@, "app.kubernetes.io/instance"@) == Some(
                Json::Text(instance),
            )
            &&& at3(r, "metadata"@, "labels"@, "app.kubernetes.io/name"@) == Some(
                Json::Text("restate-kafka-integration"@),
            )
            &&& key != "app.kubernetes.io/instance"@ && key != "app.kubernetes.io/name"@ ==> at3(
                r,
                "metadata"@,
                "labels"@,
                key,
            ) == at3(template, "metadata"@, "labels"@, key)
            &&& key != "labels"@ ==> at2(r, "metadata"@, key) == at2(template, "metadata"@, key)
            &&& key != "metadata"@ ==> field(r, key) == field(template, key)
        }),
{
    reveal_strlit("app.kubernetes.io/instance");
    reveal_strlit("app.kubernetes.io/name");
    assert("app.kubernetes.io/instance"@.len() == 26);
    assert("app.kubernetes.io/name"@.len() == 22);
}

/// The configuration is there before the pods that mount it, and goes after them; the Deployment is
/// refused where it cannot be told where the configuration comes from.
pub proof fn how_an_integration_is_brought_about(
    base: MetaView,
    spec: RestateKafkaIntegrationSpec,
    ingress_url: Seq<char>,
    default_image: Seq<char>,
)
    ensures
        ({
            let s = kafka_steps(base, spec, ingress_url, default_image);
            let d = deployment_step(base, spec, ingress_url, default_image);
            let volume = config_volume_of(base.name->0, spec);
            &&& s.len() == 2
            &&& spec.config is None ==> s[0] == d && s[1] is DeleteConfigMap
            &&& spec.config matches Some(c) ==> s[1] == d && s[0] is ApplyConfigMap && {
                let cm = s[0]->ApplyConfigMap_0;
                &&& field(cm, "kind"@) == Some(Json::Text("ConfigMap"@))
                &&& field(cm, "metadata"@) == Some(
                    meta_json(owned_view("restate-kafka-integration"@, base)),
                )
                &&& at2(cm, "data"@, "config.properties"@) == Some(Json::Text(c@))
            }
            &&& volume matches Err(t) ==> d == KafkaStepView::Refuse(t)
            &&& volume is Ok ==> d is ApplyDeployment && {
                let j = d->ApplyDeployment_0;
                let template = overlaid(
                    Json::Object(
                        template_json(base, spec, ingress_url, default_image, volume->Ok_0),
                    ),
                    spec.template,
                );
                &&& field(j, "metadata"@) == Some(
                    meta_json(owned_view("restate-kafka-integration"@, base)),
                )
                &&& at2(j, "spec"@, "replicas"@) == Some(Json::Int(spec.replicas as int))
                &&& at2(j, "spec"@, "selector"@) == Some(
                    instance_selector("restate-kafka-integration"@, base.name->0),
                )
                &&& at2(j, "spec"@, "template"@) == Some(relabelled(template, base.name->0))
            }
        }),
{
    let volume = config_volume_of(base.name->0, spec);
    if let Some(c) = spec.config {
        let data = Map::<Seq<char>, Seq<char>>::empty().insert("config.properties"@, c@);
        let meta = owned_view("restate-kafka-integration"@, base);
        what_a_config_map_says(meta, Some(data));
        let cm = crate::manifest::config_map_json(meta, Some(data));
        assert(at2(cm, "data"@, "config.properties"@) == inner(
            field(cm, "data"@),
            "config.properties"@,
        ));
    }
    if volume is Ok {
        let template = overlaid(
            Json::Object(template_json(base, spec, ingress_url, default_image, volume->Ok_0)),
            spec.template,
        );
        what_the_integration_deployment_says(
            owned_view("restate-kafka-integration"@, base),
            spec.replicas as int,
            base.name->0,
            relabelled(template, base.name->0),
        );
    }
}

/// An integration is ready where it asks for no replica, or where one is available.
pub proof fn when_an_integration_is_ready(desired: int, status: Option<DeploymentStatus>)
    ensures
        ({
            let available = if status is Some && status->0.available_replicas is Some {
                status->0.available_replicas->0 as int
            } else {
                0
            };
            let r = readiness(desired, status);
            &&& r.status == "True"@ || r.status == "False"@
            &&& r.status == "True"@ <==> desired == 0 || available >= 1
            &&& desired == 0 ==> r.reason == "ScaledToZero"@
            &&& desired != 0 && available >= 1 ==> r.reason == "Available"@
            &&& desired != 0 && available < 1 ==> r.reason == "DeploymentNotAvailable"@
            &&& desired != 0 ==> r.message == int_text(available) + "/"@ + int_text(desired)
                + " replicas available"@
        }),
{
    reveal_strlit("True");
    reveal_strlit("False");
    assert("True"@.len() == 4);
    assert("False"@.len() == 5);
}

/// What is reported is what is seen now, and otherwise what was reported before; the time of the
/// condition moves only when its status does.
pub proof fn what_is_kept_of_a_status(
    seen: Option<i32>,
    before: Option<i32>,
    existing: Option<ConditionView>,
    status: Seq<char>,
    now: int,
    outcome: Result<KafkaOutcome, Error>,
)
    ensures
        seen is Some ==> or_before(seen, before) == seen,
        seen is None ==> or_before(seen, before) == before,
        existing is Some && existing->0.status == status ==> kafka_transition(existing, status, now)
            == existing->0.last_transition_time,
        existing is None || existing->0.status != status ==> kafka_transition(existing, status, now)
            == Some(now),
        outcome matches Ok(o) && o.deployment is Some ==> observed_counts(outcome)
            == outcome->Ok_0.deployment->0,
        outcome is Err || outcome->Ok_0.deployment is None ==> observed_counts(outcome) == (
        DeploymentStatus {
            replicas: None,
            ready_replicas: None,
            available_replicas: None,
            unavailable_replicas: None,
        }),
{
}

/// A failure says what kind it is.
pub proof fn why_an_integration_failed(e: Error)
    ensures
        e is InvalidRestateConfig ==> failure_reason(e) == "InvalidConfiguration"@,
        e is RestateCloudEnvironmentNotFound ==> failure_reason(e)
            == "RestateCloudEnvironmentNotFound"@,
        e is KubeError ==> failure_reason(e) == "ApiCallFailed"@,
        !(e is InvalidRestateConfig) && !(e is RestateCloudEnvironmentNotFound) && !(e is KubeError)
            ==> failure_reason(e) == "FailedReconcile"@,
{
}

} // verus!
