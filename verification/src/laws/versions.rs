//! The objects of a version: its ReplicaSet, its Service and its HorizontalPodAutoscaler.

use vstd::prelude::*;

use crate::json::{at2, at3, at4, field, items, Json};
use crate::laws::documents::{
    holds_opt_texts, holds_texts, says_owner, text_or_none, values_are_written_as_they_are,
    what_a_selector_says, what_an_owner_reference_says, what_metadata_says,
};
use crate::meta::{
    meta_json, opt_map, opt_requirements, requirement_json, LabelSelector, MetaView, ObjectMeta,
    OwnerView,
};
use crate::restatedeployment::autoscaling::{hpa_json, hpa_plan, HpaPlan};
use crate::restatedeployment::replicaset::{
    container_name, copied_annotations, declared_text, declares, first_declared, injected,
    injected_container, injected_field, injected_list, non_array_text, owner_of, pod_labels,
    replica_set_annotations, replica_set_json, replica_set_labels, template_annotations,
    tunnel_vars, version_pod_spec, version_selector, without_applyset,
};
use crate::restatedeployment::resource::{InProcessTunnelParams, RestateDeployment};
use crate::restatedeployment::service::{
    all_ports, is_service_port, service_port_json, service_spec_json, ContainerPort, PortView,
    PortedContainer, ServicePortView, ServiceSpec,
};
use crate::restatedeployment::versions::{
    comes_before, is_old_configuration, is_old_replica_set, lists_newest_first, newer,
};
use crate::text::{begins_with, opt_text};
use crate::time::opt_time;

verus! {

/// A deployment owns its versions as their controller, by its name and uid.
pub proof fn who_owns_a_version(rsd: RestateDeployment)
    requires
        rsd.metadata.name is Some,
        rsd.metadata.uid is Some,
    ensures
        owner_of(rsd) == (OwnerView {
            api_version: "restate.dev/v1beta1"@,
            kind: "RestateDeployment"@,
            name: rsd.metadata.name->0@,
            uid: rsd.metadata.uid->0@,
            controller: Some(true),
            block_owner_deletion: None,
        }),
{
}

/// The ReplicaSet of a version has the replicas that the deployment asks for, selects its pods by
/// the labels given and by the requirements of the deployment, runs the pod specification given, and
/// is owned by the deployment.
pub proof fn what_a_replica_set_says(
    rsd: RestateDeployment,
    namespace: Seq<char>,
    name: Seq<char>,
    match_labels: Map<Seq<char>, Seq<char>>,
    annotations: Map<Seq<char>, Seq<char>>,
    hash: Seq<char>,
    pod_spec: Option<Json>,
)
    requires
        rsd.metadata.name is Some,
        rsd.metadata.uid is Some,
    ensures
        ({
            let j = replica_set_json(
                rsd,
                namespace,
                name,
                match_labels,
                annotations,
                hash,
                pod_spec,
            );
            let owners = items(at2(j, "metadata"@, "ownerReferences"@));
            let asked = match rsd.spec.selector {
                Some(s) => opt_requirements(s.match_expressions),
                None => None,
            };
            let requirements = at3(j, "spec"@, "selector"@, "matchExpressions"@);
            &&& field(j, "apiVersion"@) == Some(Json::Text("apps/v1"@))
            &&& field(j, "kind"@) == Some(Json::Text("ReplicaSet"@))
            &&& at2(j, "metadata"@, "name"@) == Some(Json::Text(name))
            &&& at2(j, "metadata"@, "namespace"@) == Some(Json::Text(namespace))
            &&& holds_texts(at2(j, "metadata"@, "labels"@), replica_set_labels(rsd, hash))
            &&& holds_texts(at2(j, "metadata"@, "annotations"@), annotations)
            &&& owners.len() == 1 && says_owner(owners[0], owner_of(rsd))
            &&& at2(j, "spec"@, "replicas"@) == Some(Json::Int(rsd.spec.replicas as int))
            &&& at2(j, "spec"@, "minReadySeconds"@) == Some(
                match rsd.spec.min_ready_seconds {
                    Some(n) => Json::Int(n as int),
                    None => Json::Null,
                },
            )
            &&& holds_texts(at3(j, "spec"@, "selector"@, "matchLabels"@), match_labels)
            &&& asked is None ==> requirements is None
            &&& asked matches Some(rs) ==> items(requirements).len() == rs.len() && forall|i: int|
                0 <= i < rs.len() ==> #[trigger] items(requirements)[i] == requirement_json(rs[i])
            &&& at3(j, "spec"@, "template"@, "spec"@) == Some(
                match pod_spec {
                    Some(s) => s,
                    None => Json::Null,
                },
            )
            &&& holds_texts(
                at4(j, "spec"@, "template"@, "metadata"@, "labels"@),
                pod_labels(rsd, hash),
            )
            &&& holds_opt_texts(
                at4(j, "spec"@, "template"@, "metadata"@, "annotations"@),
                template_annotations(rsd.spec.template),
            )
        }),
{
    reveal_strlit("apiVersion");
    reveal_strlit("kind");
    reveal_strlit("metadata");
    reveal_strlit("spec");
    reveal_strlit("replicas");
    reveal_strlit("selector");
    reveal_strlit("template");
    reveal_strlit("minReadySeconds");
    reveal_strlit("labels");
    reveal_strlit("annotations");
    assert("apiVersion"@.len() == 10);
    assert("kind"@.len() == 4);
    assert("metadata"@.len() == 8);
    assert("spec"@.len() == 4);
    assert("replicas"@.len() == 8);
    assert("selector"@.len() == 8);
    assert("template"@.len() == 8);
    assert("minReadySeconds"@.len() == 15);
    assert("labels"@.len() == 6);
    assert("annotations"@.len() == 11);
    assert("kind"@[0] == 'k');
    assert("spec"@[0] == 's');
    assert("metadata"@[0] == 'm');
    assert("replicas"@[0] == 'r');
    assert("selector"@[0] == 's');
    assert("template"@[0] == 't');
    let metadata = MetaView {
        name: Some(name),
        namespace: Some(namespace),
        uid: None,
        labels: Some(replica_set_labels(rsd, hash)),
        annotations: Some(annotations),
        owner_references: Some(seq![owner_of(rsd)]),
    };
    let j = replica_set_json(rsd, namespace, name, match_labels, annotations, hash, pod_spec);
    let asked = match rsd.spec.selector {
        Some(s) => opt_requirements(s.match_expressions),
        None => None,
    };
    what_metadata_says(metadata);
    what_a_selector_says(Some(match_labels), asked);
    values_are_written_as_they_are(
        None,
        None,
        template_annotations(rsd.spec.template),
        Seq::empty(),
    );
    values_are_written_as_they_are(None, None, Some(pod_labels(rsd, hash)), Seq::empty());
    assert(field(j, "metadata"@) == Some(meta_json(metadata)));
}

/// The pods of a version carry the labels of the template, the hash of the version, and, where it
/// registers with a cluster, the label that lets the cluster reach them. Its ReplicaSet carries these
/// and says who owns and who manages it, and its selector asks for the hash beside what the user
/// asks for.
pub proof fn what_a_version_is_labelled_with(rsd: RestateDeployment, hash: Seq<char>,
    key: Seq<char>)
    ensures
        ({
            let pod = pod_labels(rsd, hash);
            let set = replica_set_labels(rsd, hash);
            let template = match rsd.spec.template.metadata {
                Some(m) => match m.labels {
                    Some(l) => l@,
                    None => Map::empty(),
                },
                None => Map::empty(),
            };
            let cluster = rsd.spec.restate.register.cluster;
            let allows = cluster matches Some(c) && key == "allow.restate.dev/"@ + c@;
            &&& pod.contains_key("pod-template-hash"@) && pod["pod-template-hash"@] == hash
            &&& allows ==> pod.contains_key(key) && pod[key] == "true"@
            &&& !allows && key != "pod-template-hash"@ ==> (pod.contains_key(key)
                <==> template.contains_key(key))
            &&& !allows && key != "pod-template-hash"@ && template.contains_key(key) ==> pod[key]
                == template[key]
            &&& set.contains_key("restate.dev/owned-by"@) && set["restate.dev/owned-by"@]
                == rsd.metadata.any_name()
            &&& set.contains_key("app.kubernetes.io/managed-by"@)
                && set["app.kubernetes.io/managed-by"@] == "restate-operator"@
            &&& key != "restate.dev/owned-by"@ && key != "app.kubernetes.io/managed-by"@ ==> (
            set.contains_key(key) <==> pod.contains_key(key)) && (pod.contains_key(key)
                ==> set[key] == pod[key])
        }),
{
    reveal_strlit("pod-template-hash");
    reveal_strlit("allow.restate.dev/");
    reveal_strlit("restate.dev/owned-by");
    reveal_strlit("app.kubernetes.io/managed-by");
    assert("pod-template-hash"@.len() == 17);
    assert("allow.restate.dev/"@.len() == 18);
    assert("restate.dev/owned-by"@.len() == 20);
    assert("app.kubernetes.io/managed-by"@.len() == 28);
    if let Some(c) = rsd.spec.restate.register.cluster {
        let label = "allow.restate.dev/"@ + c@;
        assert(label[1] == 'l');
        assert("pod-template-hash"@[1] == 'o');
    }
}

/// A version is selected by its hash beside what the user selects by.
pub proof fn what_a_version_is_selected_by(
    selector: Option<LabelSelector>,
    hash: Seq<char>,
    key: Seq<char>,
)
    ensures
        ({
            let all = version_selector(selector, hash);
            let asked = match selector {
                Some(s) => match s.match_labels {
                    Some(l) => l@,
                    None => Map::empty(),
                },
                None => Map::empty(),
            };
            &&& all.contains_key("pod-template-hash"@) && all["pod-template-hash"@] == hash
            &&& key != "pod-template-hash"@ ==> (all.contains_key(key) <==> asked.contains_key(key))
                && (asked.contains_key(key) ==> all[key] == asked[key])
        }),
{
}

/// What is copied from a deployment to the objects of its versions: of the labels all but those of
/// an ApplySet, of the annotations all but what kubectl applied last, the name of a tunnel and the
/// time of a removal.
pub proof fn what_is_copied_to_a_version(m: Map<Seq<char>, Seq<char>>, key: Seq<char>)
    ensures
        without_applyset(m).contains_key(key) <==> m.contains_key(key) && !begins_with(
            key,
            "applyset.kubernetes.io/"@,
        ),
        without_applyset(m).contains_key(key) ==> without_applyset(m)[key] == m[key],
        copied_annotations(m).contains_key(key) <==> m.contains_key(key) && key
            != "kubectl.kubernetes.io/last-applied-configuration"@ && key
            != "restate.dev/tunnel-name"@ && key != "restate.dev/remove-version-at"@,
        copied_annotations(m).contains_key(key) ==> copied_annotations(m)[key] == m[key],
{
}

/// The annotations of a new ReplicaSet record the pod template that it is made from and the name of
/// its tunnel, beside what is copied.
pub proof fn what_a_replica_set_records(
    copied: Map<Seq<char>, Seq<char>>,
    pod_template: Seq<char>,
    tunnel_name: Option<Seq<char>>,
    key: Seq<char>,
)
    ensures
        ({
            let a = replica_set_annotations(copied, pod_template, tunnel_name);
            &&& a.contains_key("restate.dev/pod-template"@) && a["restate.dev/pod-template"@]
                == pod_template
            &&& tunnel_name is Some ==> a.contains_key("restate.dev/tunnel-name"@)
                && a["restate.dev/tunnel-name"@] == tunnel_name->0
            &&& key != "restate.dev/pod-template"@ && (key != "restate.dev/tunnel-name"@
                || tunnel_name is None) ==> (a.contains_key(key) <==> copied.contains_key(key)) && (
            copied.contains_key(key) ==> a[key] == copied[key])
        }),
{
    reveal_strlit("restate.dev/pod-template");
    reveal_strlit("restate.dev/tunnel-name");
    assert("restate.dev/pod-template"@.len() == 24);
    assert("restate.dev/tunnel-name"@.len() == 23);
}

/// The clients of an in-process tunnel are told the name of the tunnel, the environment, its region
/// and its signing key.
pub proof fn what_a_tunnel_tells_its_clients(tunnel_name: Seq<char>, p: InProcessTunnelParams)
    ensures
        ({
            let vars = tunnel_vars(tunnel_name, p);
            &&& vars.len() == 4
            &&& vars.contains(("RESTATE_INPROC_TUNNEL_NAME"@, tunnel_name))
            &&& vars.contains(("RESTATE_INPROC_ENVIRONMENT_ID"@, p.environment_id@))
            &&& vars.contains(("RESTATE_INPROC_CLOUD_REGION"@, p.region@))
            &&& vars.contains(("RESTATE_INPROC_SIGNING_PUBLIC_KEY"@, p.signing_public_key@))
        }),
{
    let vars = tunnel_vars(tunnel_name, p);
    assert(vars[0] == ("RESTATE_INPROC_TUNNEL_NAME"@, tunnel_name));
    assert(vars[1] == ("RESTATE_INPROC_ENVIRONMENT_ID"@, p.environment_id@));
    assert(vars[2] == ("RESTATE_INPROC_CLOUD_REGION"@, p.region@));
    assert(vars[3] == ("RESTATE_INPROC_SIGNING_PUBLIC_KEY"@, p.signing_public_key@));
}

/// The variables that a container declares itself.
pub open spec fn own_env(c: Json) -> Seq<Json> {
    items(field(c, "env"@))
}

/// Whether a container has variables of a tunnel after its own, and is otherwise as it was.
pub open spec fn has_tunnel_vars(
    before: Json,
    after: Json,
    vars: Seq<(Seq<char>, Seq<char>)>,
) -> bool {
    let own = own_env(before);
    let env = own_env(after);
    &&& env.len() == own.len() + vars.len()
    &&& forall|k: int| 0 <= k < own.len() ==> env[k] == #[trigger] own[k]
    &&& forall|k: int|
        #![trigger vars[k]]
        0 <= k < vars.len() ==> field(env[own.len() + k], "name"@) == Some(Json::Text(vars[k].0))
            && field(env[own.len() + k], "value"@) == Some(Json::Text(vars[k].1))
    &&& forall|name: Seq<char>|
        name != "env"@ ==> #[trigger] field(after, name) == field(before, name)
}

/// A container that can take the variables of a tunnel gets each, with its value, after its own; one
/// that declares a variable itself, or whose environment is no list, cannot.
pub proof fn what_a_container_gets(c: Json, vars: Seq<(Seq<char>, Seq<char>)>)
    requires
        c is Object,
    ensures
        injected_container(c, vars) matches Ok(done) ==> has_tunnel_vars(c, done, vars),
        injected_container(c, vars) is Ok <==> (field(c, "env"@) is None || field(c, "env"@)->0
            is Array) && forall|k: int|
            0 <= k < vars.len() ==> !declares(own_env(c), (#[trigger] vars[k]).0),
{
    reveal_strlit("name");
    reveal_strlit("value");
    reveal_strlit("env");
    assert("name"@.len() == 4);
    assert("value"@.len() == 5);
    assert("env"@.len() == 3);
    let own = own_env(c);
    lemma_first_declared(own, vars, 0);
    if let Ok(done) = injected_container(c, vars) {
        assert(field(done, "env"@) == Some(
            Json::Array(own + crate::restatedeployment::replicaset::var_jsons(vars)),
        ));
    }
}

proof fn lemma_first_declared(env: Seq<Json>, vars: Seq<(Seq<char>, Seq<char>)>, from: int)
    requires
        0 <= from <= vars.len(),
    ensures
        first_declared(env, vars, from) is None <==> forall|k: int|
            from <= k < vars.len() ==> !declares(env, (#[trigger] vars[k]).0),
    decreases vars.len() - from,
{
    if from < vars.len() {
        lemma_first_declared(env, vars, from + 1);
        assert(vars[from] == vars[from]);
    }
}

/// Every container of a pod gets the variables of a tunnel, init containers included, and the rest of
/// the pod is as it was.
pub proof fn every_container_gets_the_tunnel(
    spec: Json,
    vars: Seq<(Seq<char>, Seq<char>)>,
    name: Seq<char>,
)
    requires
        injected(spec, vars) is Ok,
    ensures
        ({
            let done = injected(spec, vars)->Ok_0;
            if name == "containers"@ || name == "initContainers"@ {
                match field(spec, name) {
                    Some(Json::Array(before)) => {
                        let after = items(field(done, name));
                        &&& after.len() == before.len()
                        &&& forall|i: int|
                            0 <= i < before.len() && (#[trigger] before[i]) is Object
                                ==> has_tunnel_vars(before[i], after[i], vars)
                    },
                    other => field(done, name) == other,
                }
            } else {
                field(done, name) == field(spec, name)
            }
        }),
{
    reveal_strlit("containers");
    reveal_strlit("initContainers");
    assert("containers"@.len() == 10);
    assert("initContainers"@.len() == 14);
    let mid = injected_field(spec, "containers"@, vars)->Ok_0;
    let done = injected(spec, vars)->Ok_0;
    if let Some(Json::Array(before)) = field(spec, "containers"@) {
        lemma_injected_list(before, vars, before.len());
    }
    assert(field(mid, "initContainers"@) == field(spec, "initContainers"@));
    if let Some(Json::Array(before)) = field(spec, "initContainers"@) {
        lemma_injected_list(before, vars, before.len());
    }
}

proof fn lemma_injected_list(list: Seq<Json>, vars: Seq<(Seq<char>, Seq<char>)>, n: nat)
    requires
        n <= list.len(),
        injected_list(list, vars, n) is Ok,
    ensures
        ({
            let done = injected_list(list, vars, n)->Ok_0;
            &&& done.len() == n
            &&& forall|i: int|
                0 <= i < n && (#[trigger] list[i]) is Object ==> has_tunnel_vars(
                    list[i],
                    done[i],
                    vars,
                )
        }),
    decreases n,
{
    if n > 0 {
        lemma_injected_list(list, vars, (n - 1) as nat);
        if list[n - 1] is Object {
            what_a_container_gets(list[n - 1], vars);
        }
    }
}

/// A version without an in-process tunnel runs the pod specification of its template as it is, and
/// one with a tunnel runs it with the variables of the tunnel of its name.
pub proof fn what_a_version_runs(
    rsd: RestateDeployment,
    name: Seq<char>,
    tunnel: Option<InProcessTunnelParams>,
)
    ensures
        tunnel is None ==> version_pod_spec(rsd, name, tunnel) == Ok::<Option<Json>, Seq<char>>(
            crate::json::opt_json(rsd.spec.template.spec),
        ),
        tunnel is Some && rsd.spec.template.spec is Some ==> match injected(
            rsd.spec.template.spec->0@,
            tunnel_vars(name, tunnel->0),
        ) {
            Ok(j) => version_pod_spec(rsd, name, tunnel) == Ok::<Option<Json>, Seq<char>>(Some(j)),
            Err(e) => version_pod_spec(rsd, name, tunnel) == Err::<Option<Json>, Seq<char>>(e),
        },
{
}

/// A Service says its selector, its type and its ports, and each port its name, its number, its
/// protocol and where it leads.
pub proof fn what_a_service_says(spec: ServiceSpec, p: ServicePortView)
    ensures
        ({
            let j = service_spec_json(spec);
            &&& holds_opt_texts(field(j, "selector"@), opt_map(spec.selector))
            &&& field(j, "type"@) == text_or_none(opt_text(spec.type_))
            &&& spec.ports is None ==> field(j, "ports"@) is None
            &&& spec.ports matches Some(ports) ==> items(field(j, "ports"@)).len() == ports@.len()
                && forall|i: int|
                0 <= i < ports@.len() ==> items(field(j, "ports"@))[i] == service_port_json(
                    (#[trigger] ports@[i])@,
                )
        }),
        ({
            let j = service_port_json(p);
            &&& field(j, "name"@) == text_or_none(p.name)
            &&& field(j, "port"@) == Some(Json::Int(p.port))
            &&& field(j, "protocol"@) == text_or_none(p.protocol)
            &&& field(j, "targetPort"@) == match p.target_port {
                Some(PortView::Int(n)) => Some(Json::Int(n)),
                Some(PortView::Name(n)) => Some(Json::Text(n)),
                None => None,
            }
        }),
{
    reveal_strlit("selector");
    reveal_strlit("type");
    reveal_strlit("ports");
    reveal_strlit("name");
    reveal_strlit("port");
    reveal_strlit("protocol");
    reveal_strlit("targetPort");
    assert("selector"@.len() == 8);
    assert("type"@.len() == 4);
    assert("ports"@.len() == 5);
    assert("name"@.len() == 4);
    assert("port"@.len() == 4);
    assert("protocol"@.len() == 8);
    assert("targetPort"@.len() == 10);
    assert("selector"@[0] == 's');
    assert("protocol"@[0] == 'p');
    assert("type"@[0] == 't');
    assert("name"@[0] == 'n');
    assert("port"@[0] == 'p');
    values_are_written_as_they_are(None, None, opt_map(spec.selector), Seq::empty());
    values_are_written_as_they_are(opt_text(spec.type_), None, None, Seq::empty());
}

/// The port of a service is that of the first container port named `restate`; where none is, the
/// first of all; and where there are no ports, 9080.
pub proof fn which_port_a_service_listens_on(ports: Seq<ContainerPort>, port: i32, i: int)
    requires
        is_service_port(ports, port),
    ensures
        ports.len() == 0 ==> port == 9080,
        ports.len() > 0 && (forall|j: int|
            0 <= j < ports.len() ==> opt_text((#[trigger] ports[j]).name) != Some("restate"@))
            ==> port == ports[0].container_port,
        0 <= i < ports.len() && opt_text(ports[i].name) == Some("restate"@) && (forall|j: int|
            0 <= j < i ==> opt_text((#[trigger] ports[j]).name) != Some("restate"@)) ==> port
            == ports[i].container_port,
{
}

/// The HorizontalPodAutoscaler of a version has the name of its ReplicaSet, which it scales, and is
/// owned by the deployment.
pub proof fn what_an_autoscaler_says(
    rsd: RestateDeployment,
    namespace: Seq<char>,
    name: Seq<char>,
    template: Json,
    key: Seq<char>,
)
    ensures
        ({
            let j = hpa_json(rsd, namespace, name, template);
            let owners = items(at2(j, "metadata"@, "ownerReferences"@));
            &&& field(j, "apiVersion"@) == Some(Json::Text("autoscaling/v2"@))
            &&& field(j, "kind"@) == Some(Json::Text("HorizontalPodAutoscaler"@))
            &&& at2(j, "metadata"@, "name"@) == Some(Json::Text(name))
            &&& at2(j, "metadata"@, "namespace"@) == Some(Json::Text(namespace))
            &&& at3(j, "metadata"@, "labels"@, "app.kubernetes.io/managed-by"@) == Some(
                Json::Text("restate-operator"@),
            )
            &&& at3(j, "metadata"@, "labels"@, "restate.dev/owned-by"@) == Some(
                Json::Text(rsd.metadata.any_name()),
            )
            &&& owners.len() == 1 && says_owner(owners[0], owner_of(rsd))
            &&& at3(j, "spec"@, "scaleTargetRef"@, "apiVersion"@) == Some(Json::Text("apps/v1"@))
            &&& at3(j, "spec"@, "scaleTargetRef"@, "kind"@) == Some(Json::Text("ReplicaSet"@))
            &&& at3(j, "spec"@, "scaleTargetRef"@, "name"@) == Some(Json::Text(name))
            &&& key != "scaleTargetRef"@ && key != "minReplicas"@ ==> at2(j, "spec"@, key) == field(
                template,
                key,
            )
            &&& at2(j, "spec"@, "minReplicas"@) == match field(template, "minReplicas"@) {
                Some(Json::Int(n)) => if n < 1 {
                    Some(Json::Int(1))
                } else {
                    Some(Json::Int(n))
                },
                other => other,
            }
        }),
{
    reveal_strlit("apiVersion");
    reveal_strlit("kind");
    reveal_strlit("metadata");
    reveal_strlit("spec");
    reveal_strlit("name");
    reveal_strlit("namespace");
    reveal_strlit("labels");
    reveal_strlit("ownerReferences");
    reveal_strlit("scaleTargetRef");
    reveal_strlit("minReplicas");
    reveal_strlit("app.kubernetes.io/managed-by");
    reveal_strlit("restate.dev/owned-by");
    assert("apiVersion"@.len() == 10);
    assert("kind"@.len() == 4);
    assert("metadata"@.len() == 8);
    assert("spec"@.len() == 4);
    assert("name"@.len() == 4);
    assert("namespace"@.len() == 9);
    assert("labels"@.len() == 6);
    assert("ownerReferences"@.len() == 15);
    assert("scaleTargetRef"@.len() == 14);
    assert("minReplicas"@.len() == 11);
    assert("app.kubernetes.io/managed-by"@.len() == 28);
    assert("restate.dev/owned-by"@.len() == 20);
    assert("kind"@[0] == 'k');
    assert("spec"@[0] == 's');
    assert("name"@[0] == 'n');
    what_an_owner_reference_says(owner_of(rsd));
}

/// A version that Restate still needs has an autoscaler in a rollout exactly where one is
/// configured; a deletion leaves it as it is.
pub proof fn when_a_version_is_autoscaled(configured: bool, deleting: bool)
    ensures
        deleting ==> hpa_plan(configured, deleting) == HpaPlan::Skip,
        !deleting && configured ==> hpa_plan(configured, deleting) == HpaPlan::Ensure,
        !deleting && !configured ==> hpa_plan(configured, deleting) == HpaPlan::RemoveAndRestore,
{
}

/// A ReplicaSet is an old version of a deployment where it stands in its namespace, is owned by it
/// and is not the current one; a Configuration where its tag is not the active one and it is not on
/// its way out. Where there is no current version, every one is old.
pub proof fn which_versions_are_old(
    meta: ObjectMeta,
    namespace: Seq<char>,
    uid: Seq<char>,
    current: Option<Seq<char>>,
)
    ensures
        ({
            let here = match meta.namespace {
                Some(n) => if n@.len() > 0 {
                    n@
                } else {
                    "default"@
                },
                None => "default"@,
            } == namespace;
            let ours = meta.owner_references matches Some(owners) && exists|i: int|
                0 <= i < owners@.len() && (#[trigger] owners@[i]).uid@ == uid && owners@[i].kind@
                    == "RestateDeployment"@;
            let tag = meta.annotation("restate.dev/tag"@);
            &&& is_old_replica_set(meta, namespace, uid, current) <==> here && ours && !(
            current matches Some(c) && c == meta.any_name())
            &&& is_old_configuration(meta, namespace, uid, current) <==> here && ours && tag is Some
                && !(current is Some && current == tag) && meta.deletion_timestamp is None
        }),
{
}

/// Of two objects the one that was created later is newer, and one without a time is newer than
/// none.
pub proof fn which_version_is_newer(a: Option<int>, b: Option<int>)
    ensures
        newer(a, b) <==> (a is Some && (b is None || a->0 > b->0)),
{
}

/// A list declares a variable wherever it stands in it.
pub proof fn what_a_list_declares(env: Seq<Json>, name: Seq<char>, i: int)
    ensures
        0 <= i < env.len() && field(env[i], "name"@) == Some(Json::Text(name)) ==> declares(
            env,
            name,
        ),
        (forall|k: int|
            0 <= k < env.len() ==> #[trigger] field(env[k], "name"@) != Some(Json::Text(name)))
            ==> !declares(env, name),
{
}

/// Versions are listed newest first, those of one age in their order, each of those chosen and no
/// others.
pub proof fn in_which_order_versions_are_listed(
    objects: Seq<ObjectMeta>,
    chosen: spec_fn(ObjectMeta) -> bool,
    order: Seq<usize>,
    a: int,
    b: int,
    i: int,
)
    requires
        lists_newest_first(objects, chosen, order),
    ensures
        0 <= a < order.len() ==> 0 <= order[a] < objects.len() && chosen(objects[order[a] as int]),
        0 <= a < b < order.len() ==> {
            let x = opt_time(objects[order[a] as int].creation_timestamp);
            let y = opt_time(objects[order[b] as int].creation_timestamp);
            &&& x is Some && y is Some ==> x->0 >= y->0
            &&& x is None ==> y is None
            &&& x == y ==> order[a] < order[b]
        },
        0 <= i < objects.len() && chosen(objects[i]) ==> exists|k: int|
            0 <= k < order.len() && #[trigger] order[k] == i,
{
    if 0 <= a < b < order.len() {
        assert(comes_before(objects, order[a] as int, order[b] as int));
    }
    if 0 <= i < objects.len() && chosen(objects[i]) {
        assert(chosen(objects[i]));
    }
}

/// The ports of a pod are those of its containers, one container after the other.
pub proof fn which_ports_a_pod_has(containers: Seq<PortedContainer>, n: nat)
    ensures
        all_ports(containers, 0) == Seq::<ContainerPort>::empty(),
        n < containers.len() && containers[n as int].ports is None ==> all_ports(
            containers,
            n + 1,
        ) =~= all_ports(containers, n),
        n < containers.len() && containers[n as int].ports is Some ==> all_ports(
            containers,
            n + 1,
        ) == all_ports(containers, n) + containers[n as int].ports->0@,
{
}

/// A complaint about a container names it, and what is wrong.
pub proof fn what_is_said_of_a_container(
    c: Map<Seq<char>, Json>,
    var: Seq<char>,
    container: Seq<char>,
)
    ensures
        field(Json::Object(c), "name"@) matches Some(Json::Text(n)) ==> container_name(c) == n,
        !(field(Json::Object(c), "name"@) matches Some(Json::Text(_))) ==> container_name(c)
            == "<unnamed>"@,
        non_array_text(container) == "container '"@ + container + "' has a non-array `env` field"@,
        declared_text(var, container)
            == "tunnelMode: in-process injects the environment variable `"@ + var
            + "`, but container '"@ + container
            + "' already declares it; remove it from the pod template"@,
{
}

} // verus!
