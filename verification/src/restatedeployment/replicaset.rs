//! The ReplicaSet of a version.

use vstd::prelude::*;
use vstd::string::*;

use crate::error::Error;
use crate::json::{
    array_view, field, jsons, no_fields, opt_json, with_field, Json, Object, Value,
};
use crate::meta::{
    duplicate_requirements, entries, map_or_empty, meta_json, opt_map, opt_map_json,
    opt_map_value, opt_requirements, selector_json, LabelSelector, LabelSelectorRequirement,
    MetaView, ObjectMeta, OwnerReference, OwnerView,
};
use crate::restatedeployment::cleanup::RESTATE_REMOVE_VERSION_AT_ANNOTATION;
use crate::restatedeployment::resource::{InProcessTunnelParams, PodTemplate, RestateDeployment};
use crate::restatedeployment::versions::RESTATE_DEPLOYMENT_KIND;
use crate::string_map::StringMap;
use crate::text::{begins_with, cat, cat3, opt_str, opt_text, starts_with_str, str_eq};

verus! {

pub const POD_TEMPLATE_HASH_LABEL: &'static str = "pod-template-hash";

/// The pod template that a version was made from, by which a hash collision is told apart.
pub const RESTATE_POD_TEMPLATE_ANNOTATION: &'static str = "restate.dev/pod-template";

/// The tunnel name that the pods of a version with an in-process tunnel were made with.
pub const RESTATE_TUNNEL_NAME_ANNOTATION: &'static str = "restate.dev/tunnel-name";

pub const OWNED_BY_LABEL: &'static str = "restate.dev/owned-by";

pub const APP_MANAGED_BY_LABEL: &'static str = "app.kubernetes.io/managed-by";

pub const MANAGER_NAME: &'static str = "restate-operator";

pub const LAST_APPLIED_ANNOTATION: &'static str = "kubectl.kubernetes.io/last-applied-configuration";

pub const APPLYSET_LABEL_PREFIX: &'static str = "applyset.kubernetes.io/";

pub const RESTATE_DEPLOYMENT_API_VERSION: &'static str = "restate.dev/v1beta1";

pub const INPROC_TUNNEL_NAME_ENV: &'static str = "RESTATE_INPROC_TUNNEL_NAME";

pub const INPROC_ENVIRONMENT_ID_ENV: &'static str = "RESTATE_INPROC_ENVIRONMENT_ID";

pub const INPROC_CLOUD_REGION_ENV: &'static str = "RESTATE_INPROC_CLOUD_REGION";

pub const INPROC_SIGNING_PUBLIC_KEY_ENV: &'static str = "RESTATE_INPROC_SIGNING_PUBLIC_KEY";

/// The reference by which a deployment owns its versions.
pub open spec fn owner_of(rsd: RestateDeployment) -> OwnerView {
    OwnerView {
        api_version: RESTATE_DEPLOYMENT_API_VERSION@,
        kind: RESTATE_DEPLOYMENT_KIND@,
        name: rsd.metadata.name->0@,
        uid: rsd.metadata.uid->0@,
        controller: Some(true),
        block_owner_deletion: None,
    }
}

/// The reference by which a deployment owns its versions.
pub fn owner_reference(rsd: &RestateDeployment) -> (r: OwnerReference)
    requires
        rsd.metadata.name is Some,
        rsd.metadata.uid is Some,
    ensures
        r@ == owner_of(*rsd),
{
    let name: Option<String> = rsd.metadata.name.clone();
    let uid: Option<String> = rsd.metadata.uid.clone();
    OwnerReference {
        api_version: RESTATE_DEPLOYMENT_API_VERSION.to_owned(),
        kind: RESTATE_DEPLOYMENT_KIND.to_owned(),
        name: name.unwrap(),
        uid: uid.unwrap(),
        controller: Some(true),
        block_owner_deletion: None,
    }
}

/// The labels that are copied to an owned object: all but those by which kubectl keeps account of
/// an ApplySet, whose member the object would become and with which it could be pruned.
pub open spec fn without_applyset(labels: Map<Seq<char>, Seq<char>>) -> Map<Seq<char>, Seq<char>> {
    Map::new(
        |k: Seq<char>| labels.contains_key(k) && !begins_with(k, APPLYSET_LABEL_PREFIX@),
        |k: Seq<char>| labels[k],
    )
}

/// Copies labels to an owned object without the account of an ApplySet.
pub fn propagated_labels(labels: &StringMap) -> (r: StringMap)
    ensures
        r@ == without_applyset(labels@),
{
    let mut out = StringMap::new();
    let n: usize = labels.len();
    let mut i: usize = 0;
    while i < n
        invariant
            i <= n,
            n == labels.pairs().len(),
            crate::string_map::lists(labels.pairs(), labels@),
            forall|k: Seq<char>| #[trigger]
                out@.contains_key(k) <==> exists|j: int|
                    0 <= j < i && (#[trigger] labels.pairs()[j]).0 == k && !begins_with(
                        k,
                        APPLYSET_LABEL_PREFIX@,
                    ),
            forall|k: Seq<char>| #[trigger]
                out@.contains_key(k) ==> labels@.contains_key(k) && out@[k] == labels@[k],
        decreases n - i,
    {
        let (k, v) = labels.entry(i);
        if !starts_with_str(k.as_str(), APPLYSET_LABEL_PREFIX) {
            out.insert(k.clone(), v.clone());
        }
        i = i + 1;
    }
    proof {
        assert forall|k: Seq<char>|
            labels@.contains_key(k) && !begins_with(
                k,
                APPLYSET_LABEL_PREFIX@,
            ) implies #[trigger] out@.contains_key(k) by {
            let j = choose|j: int|
                0 <= j < labels.pairs().len() && #[trigger] labels.pairs()[j] == (k, labels@[k]);
            assert(labels.pairs()[j].0 == k);
        }
        assert(out@ =~= without_applyset(labels@));
    }
    out
}

/// The annotations that are copied from a deployment to its ReplicaSets and Services: all but those
/// that belong to the deployment alone or that the operator writes itself.
pub open spec fn copied_annotations(annotations: Map<Seq<char>, Seq<char>>) -> Map<
    Seq<char>,
    Seq<char>,
> {
    annotations.remove(LAST_APPLIED_ANNOTATION@).remove(RESTATE_TUNNEL_NAME_ANNOTATION@).remove(
        RESTATE_REMOVE_VERSION_AT_ANNOTATION@,
    )
}

/// The annotations that are copied from a deployment to its ReplicaSets and Services.
pub fn propagated_annotations(rsd: &RestateDeployment) -> (r: StringMap)
    ensures
        r@ == copied_annotations(entries(opt_map(rsd.metadata.annotations))),
{
    let mut a = map_or_empty(&rsd.metadata.annotations);
    a.remove(LAST_APPLIED_ANNOTATION);
    a.remove(RESTATE_TUNNEL_NAME_ANNOTATION);
    a.remove(RESTATE_REMOVE_VERSION_AT_ANNOTATION);
    a
}

/// The labels of the Service of a version: those of the deployment that are copied, and those by
/// which the objects of the operator are found.
pub fn service_labels(rsd: &RestateDeployment) -> (r: StringMap)
    ensures
        r@ == without_applyset(entries(opt_map(rsd.metadata.labels))).insert(
            APP_MANAGED_BY_LABEL@,
            MANAGER_NAME@,
        ).insert(OWNED_BY_LABEL@, rsd.metadata.any_name()),
{
    let mut labels = propagated_labels(&map_or_empty(&rsd.metadata.labels));
    labels.insert(APP_MANAGED_BY_LABEL.to_owned(), MANAGER_NAME.to_owned());
    labels.insert(OWNED_BY_LABEL.to_owned(), rsd.metadata.name_any());
    labels
}

/// The annotations of a new ReplicaSet: those that are copied, the pod template, and the tunnel name
/// that its pods are made with.
pub open spec fn replica_set_annotations(
    copied: Map<Seq<char>, Seq<char>>,
    pod_template: Seq<char>,
    tunnel_name: Option<Seq<char>>,
) -> Map<Seq<char>, Seq<char>> {
    let a = copied.insert(RESTATE_POD_TEMPLATE_ANNOTATION@, pod_template);
    match tunnel_name {
        Some(n) => a.insert(RESTATE_TUNNEL_NAME_ANNOTATION@, n),
        None => a,
    }
}

/// The annotations of a new ReplicaSet.
pub fn new_replica_set_annotations(
    copied: &StringMap,
    pod_template: &str,
    tunnel_name: Option<&str>,
) -> (r: StringMap)
    ensures
        r@ == replica_set_annotations(copied@, pod_template@, opt_str(tunnel_name)),
{
    let mut a = copied.duplicate();
    a.insert(RESTATE_POD_TEMPLATE_ANNOTATION.to_owned(), pod_template.to_owned());
    match tunnel_name {
        Some(n) => {
            a.insert(RESTATE_TUNNEL_NAME_ANNOTATION.to_owned(), n.to_owned());
        },
        None => {},
    }
    a
}

/// The name of a version.
pub fn versioned_name(deployment_name: &str, hash: &str) -> (r: String)
    ensures
        r@ == deployment_name@ + "-"@ + hash@,
{
    cat3(deployment_name, "-", hash)
}

/// The labels that select the pods of a version: those of the user, and the hash.
pub open spec fn version_selector(
    selector: Option<LabelSelector>,
    hash: Seq<char>,
) -> Map<Seq<char>, Seq<char>> {
    entries(
        match selector {
            Some(s) => opt_map(s.match_labels),
            None => None,
        },
    ).insert(POD_TEMPLATE_HASH_LABEL@, hash)
}

/// The labels that select the pods of a version.
pub fn replicaset_selector(rsd: &RestateDeployment, hash: &str) -> (r: StringMap)
    ensures
        r@ == version_selector(rsd.spec.selector, hash@),
{
    let mut labels = match &rsd.spec.selector {
        Some(s) => map_or_empty(&s.match_labels),
        None => StringMap::new(),
    };
    labels.insert(POD_TEMPLATE_HASH_LABEL.to_owned(), hash.to_owned());
    labels
}

/// The label that lets a cluster reach pods through its network policies.
pub open spec fn allow_label(cluster: Seq<char>) -> Seq<char> {
    "allow.restate.dev/"@ + cluster
}

/// The labels with the one that lets the cluster reach the pods, where there is a cluster.
pub open spec fn with_allow_label(
    labels: Map<Seq<char>, Seq<char>>,
    cluster: Option<Seq<char>>,
) -> Map<Seq<char>, Seq<char>> {
    match cluster {
        Some(c) => labels.insert(allow_label(c), "true"@),
        None => labels,
    }
}

/// Adds the label that lets the cluster reach the pods.
pub fn add_allow_label(labels: &mut StringMap, cluster: &Option<String>)
    ensures
        final(labels)@ == with_allow_label(old(labels)@, opt_text(*cluster)),
{
    match cluster {
        Some(c) => {
            labels.insert(cat("allow.restate.dev/", c.as_str()), "true".to_owned());
        },
        None => {},
    }
}

/// The labels of the pods of a version.
pub open spec fn pod_labels(rsd: RestateDeployment, hash: Seq<char>) -> Map<Seq<char>, Seq<char>> {
    with_allow_label(
        template_labels(rsd.spec.template).insert(POD_TEMPLATE_HASH_LABEL@, hash),
        opt_text(rsd.spec.restate.register.cluster),
    )
}

/// The labels of a pod template.
pub open spec fn template_labels(t: PodTemplate) -> Map<Seq<char>, Seq<char>> {
    match t.metadata {
        Some(m) => entries(opt_map(m.labels)),
        None => Map::empty(),
    }
}

/// The annotations of a pod template, where there are any.
pub open spec fn template_annotations(t: PodTemplate) -> Option<Map<Seq<char>, Seq<char>>> {
    match t.metadata {
        Some(m) => opt_map(m.annotations),
        None => None,
    }
}

/// The labels of a ReplicaSet: those of its pods, its owner and its manager.
pub open spec fn replica_set_labels(
    rsd: RestateDeployment,
    hash: Seq<char>,
) -> Map<Seq<char>, Seq<char>> {
    pod_labels(rsd, hash).insert(OWNED_BY_LABEL@, rsd.metadata.any_name()).insert(
        APP_MANAGED_BY_LABEL@,
        MANAGER_NAME@,
    )
}

/// A number as JSON, `null` where there is none.
pub open spec fn int_or_null(n: Option<i32>) -> Json {
    match n {
        Some(n) => Json::Int(n as int),
        None => Json::Null,
    }
}

/// A document, `null` where there is none.
pub open spec fn json_or_null(v: Option<Json>) -> Json {
    match v {
        Some(v) => v,
        None => Json::Null,
    }
}

/// The ReplicaSet of a version, with the pod specification passed through.
pub open spec fn replica_set_json(
    rsd: RestateDeployment,
    namespace: Seq<char>,
    name: Seq<char>,
    match_labels: Map<Seq<char>, Seq<char>>,
    annotations: Map<Seq<char>, Seq<char>>,
    hash: Seq<char>,
    pod_spec: Option<Json>,
) -> Json {
    let metadata = MetaView {
        name: Some(name),
        namespace: Some(namespace),
        uid: None,
        labels: Some(replica_set_labels(rsd, hash)),
        annotations: Some(annotations),
        owner_references: Some(seq![owner_of(rsd)]),
    };
    let template_metadata = Json::Object(
        with_field(
            no_fields().insert("labels"@, crate::json::text_object(pod_labels(rsd, hash))),
            "annotations"@,
            opt_map_json(template_annotations(rsd.spec.template)),
        ),
    );
    let template = Json::Object(
        no_fields().insert("metadata"@, template_metadata).insert("spec"@, json_or_null(pod_spec)),
    );
    let spec = Json::Object(
        no_fields().insert("replicas"@, Json::Int(rsd.spec.replicas as int)).insert(
            "selector"@,
            selector_json(
                Some(match_labels),
                match rsd.spec.selector {
                    Some(s) => opt_requirements(s.match_expressions),
                    None => None,
                },
            ),
        ).insert("template"@, template).insert(
            "minReadySeconds"@,
            int_or_null(rsd.spec.min_ready_seconds),
        ),
    );
    Json::Object(
        no_fields().insert("apiVersion"@, Json::Text("apps/v1"@)).insert(
            "kind"@,
            Json::Text("ReplicaSet"@),
        ).insert("metadata"@, meta_json(metadata)).insert("spec"@, spec),
    )
}

/// The environment variable that carries a value.
pub open spec fn env_var(name: Seq<char>, value: Seq<char>) -> Json {
    Json::Object(
        no_fields().insert("name"@, Json::Text(name)).insert("value"@, Json::Text(value)),
    )
}

/// The environment variables that clients of an in-process tunnel take their configuration from.
pub open spec fn tunnel_vars(
    tunnel_name: Seq<char>,
    p: InProcessTunnelParams,
) -> Seq<(Seq<char>, Seq<char>)> {
    seq![
        (INPROC_TUNNEL_NAME_ENV@, tunnel_name),
        (INPROC_ENVIRONMENT_ID_ENV@, p.environment_id@),
        (INPROC_CLOUD_REGION_ENV@, p.region@),
        (INPROC_SIGNING_PUBLIC_KEY_ENV@, p.signing_public_key@),
    ]
}

/// The variables as JSON.
pub open spec fn var_jsons(vars: Seq<(Seq<char>, Seq<char>)>) -> Seq<Json> {
    Seq::new(vars.len(), |i: int| env_var(vars[i].0, vars[i].1))
}

/// Whether a list of environment variables declares a name.
pub open spec fn declares(env: Seq<Json>, name: Seq<char>) -> bool {
    exists|i: int|
        0 <= i < env.len() && #[trigger] field(env[i], "name"@) == Some(Json::Text(name))
}

/// The first of the variables from `from` on that a list declares already.
pub open spec fn first_declared(
    env: Seq<Json>,
    vars: Seq<(Seq<char>, Seq<char>)>,
    from: int,
) -> Option<Seq<char>>
    decreases vars.len() - from,
{
    if from < 0 || from >= vars.len() {
        None
    } else if declares(env, vars[from].0) {
        Some(vars[from].0)
    } else {
        first_declared(env, vars, from + 1)
    }
}

/// The name of a container.
pub open spec fn container_name(c: Map<Seq<char>, Json>) -> Seq<char> {
    if c.contains_key("name"@) {
        match c["name"@] {
            Json::Text(n) => n,
            _ => "<unnamed>"@,
        }
    } else {
        "<unnamed>"@
    }
}

/// The complaint about a container whose environment is no list.
pub open spec fn non_array_text(container: Seq<char>) -> Seq<char> {
    "container '"@ + container + "' has a non-array `env` field"@
}

/// The complaint about a container that declares a variable itself.
pub open spec fn declared_text(var: Seq<char>, container: Seq<char>) -> Seq<char> {
    "tunnelMode: in-process injects the environment variable `"@ + var + "`, but container '"@
        + container + "' already declares it; remove it from the pod template"@
}

/// A container with the variables appended to its environment, or the complaint about it.
pub open spec fn injected_container(
    c: Json,
    vars: Seq<(Seq<char>, Seq<char>)>,
) -> Result<Json, Seq<char>> {
    match c {
        Json::Object(m) => {
            let env = if m.contains_key("env"@) {
                m["env"@]
            } else {
                Json::Array(Seq::empty())
            };
            match env {
                Json::Array(e) => match first_declared(e, vars, 0) {
                    Some(var) => Err(declared_text(var, container_name(m))),
                    None => Ok(Json::Object(m.insert("env"@, Json::Array(e + var_jsons(vars))))),
                },
                _ => Err(non_array_text(container_name(m))),
            }
        },
        _ => Ok(c),
    }
}

/// The first `n` containers with the variables appended, or the first complaint.
pub open spec fn injected_list(
    items: Seq<Json>,
    vars: Seq<(Seq<char>, Seq<char>)>,
    n: nat,
) -> Result<Seq<Json>, Seq<char>>
    decreases n,
{
    if n == 0 || n > items.len() {
        Ok(Seq::empty())
    } else {
        match injected_list(items, vars, (n - 1) as nat) {
            Err(e) => Err(e),
            Ok(done) => match injected_container(items[n - 1], vars) {
                Err(e) => Err(e),
                Ok(c) => Ok(done.push(c)),
            },
        }
    }
}

/// A pod specification with the variables in the containers of one field.
pub open spec fn injected_field(
    spec: Json,
    name: Seq<char>,
    vars: Seq<(Seq<char>, Seq<char>)>,
) -> Result<Json, Seq<char>> {
    match field(spec, name) {
        Some(Json::Array(items)) => match injected_list(items, vars, items.len()) {
            Err(e) => Err(e),
            Ok(done) => Ok(Json::Object(spec->Object_0.insert(name, Json::Array(done)))),
        },
        _ => Ok(spec),
    }
}

/// A pod specification with the variables in all containers, init containers included, or the first
/// complaint.
pub open spec fn injected(spec: Json, vars: Seq<(Seq<char>, Seq<char>)>) -> Result<Json, Seq<char>> {
    match injected_field(spec, "containers"@, vars) {
        Err(e) => Err(e),
        Ok(s) => injected_field(s, "initContainers"@, vars),
    }
}

struct TunnelVar {
    name: String,
    value: String,
}

spec fn var_views(vars: Seq<TunnelVar>) -> Seq<(Seq<char>, Seq<char>)> {
    Seq::new(vars.len(), |i: int| (vars[i].name@, vars[i].value@))
}

fn make_vars(tunnel_name: &str, p: &InProcessTunnelParams) -> (r: Vec<TunnelVar>)
    ensures
        var_views(r@) == tunnel_vars(tunnel_name@, *p),
{
    let mut vars: Vec<TunnelVar> = Vec::new();
    vars.push(
        TunnelVar { name: INPROC_TUNNEL_NAME_ENV.to_owned(), value: tunnel_name.to_owned() },
    );
    vars.push(
        TunnelVar { name: INPROC_ENVIRONMENT_ID_ENV.to_owned(), value: p.environment_id.clone() },
    );
    vars.push(TunnelVar { name: INPROC_CLOUD_REGION_ENV.to_owned(), value: p.region.clone() });
    vars.push(
        TunnelVar {
            name: INPROC_SIGNING_PUBLIC_KEY_ENV.to_owned(),
            value: p.signing_public_key.clone(),
        },
    );
    proof {
        assert(var_views(vars@) =~= tunnel_vars(tunnel_name@, *p));
    }
    vars
}

fn env_declares(env: &Vec<Value>, name: &str) -> (r: bool)
    ensures
        r == declares(jsons(env@), name@),
{
    let ghost e = jsons(env@);
    let mut i: usize = 0;
    while i < env.len()
        invariant
            i <= env.len(),
            e == jsons(env@),
            forall|j: int|
                0 <= j < i ==> #[trigger] field(e[j], "name"@) != Some(Json::Text(name@)),
        decreases env.len() - i,
    {
        match env[i].get("name") {
            Some(Value::Text(n)) => {
                if str_eq(n.as_str(), name) {
                    proof {
                        assert(field(e[i as int], "name"@) == Some(Json::Text(name@)));
                    }
                    return true;
                }
            },
            _ => {},
        }
        i = i + 1;
    }
    false
}

fn find_declared(env: &Vec<Value>, vars: &Vec<TunnelVar>) -> (r: Option<usize>)
    ensures
        match r {
            Some(i) => i < vars.len() && first_declared(jsons(env@), var_views(vars@), 0) == Some(
                vars@[i as int].name@,
            ),
            None => first_declared(jsons(env@), var_views(vars@), 0) is None,
        },
{
    let ghost e = jsons(env@);
    let ghost vs = var_views(vars@);
    let mut i: usize = 0;
    while i < vars.len()
        invariant
            i <= vars.len(),
            vs == var_views(vars@),
            e == jsons(env@),
            first_declared(e, vs, 0) == first_declared(e, vs, i as int),
        decreases vars.len() - i,
    {
        if env_declares(env, vars[i].name.as_str()) {
            return Some(i);
        }
        i = i + 1;
    }
    None
}

fn inject_container(c: Value, vars: &Vec<TunnelVar>) -> (r: Result<Value, String>)
    ensures
        match r {
            Ok(v) => injected_container(c@, var_views(vars@)) == Ok::<Json, Seq<char>>(v@),
            Err(e) => injected_container(c@, var_views(vars@)) == Err::<Json, Seq<char>>(e@),
        },
{
    let mut fields = match c {
        Value::Object(o) => o,
        other => {
            return Ok(other);
        },
    };
    let ghost m = fields@;
    let ghost vs = var_views(vars@);
    let name: String = match fields.get("name") {
        Some(Value::Text(n)) => n.clone(),
        _ => "<unnamed>".to_owned(),
    };
    let mut env: Vec<Value> = match fields.remove("env") {
        None => Vec::new(),
        Some(Value::Array(items)) => items,
        Some(_) => {
            return Err(cat3("container '", name.as_str(), "' has a non-array `env` field"));
        },
    };
    let ghost e = jsons(env@);
    proof {
        if m.contains_key("env"@) {
            assert(m["env"@] == Json::Array(e)) by {
                array_view(env);
            }
        } else {
            assert(e =~= Seq::empty());
        }
    }
    match find_declared(&env, vars) {
        Some(at) => {
            let mut s: String = cat3(
                "tunnelMode: in-process injects the environment variable `",
                vars[at].name.as_str(),
                "`, but container '",
            );
            s.append(name.as_str());
            s.append("' already declares it; remove it from the pod template");
            return Err(s);
        },
        None => {},
    }
    let mut i: usize = 0;
    proof {
        assert(jsons(env@) =~= e + var_jsons(vs).take(0));
    }
    while i < vars.len()
        invariant
            i <= vars.len(),
            vs == var_views(vars@),
            jsons(env@) == e + var_jsons(vs).take(i as int),
        decreases vars.len() - i,
    {
        let ghost before = jsons(env@);
        let mut var = Object::new();
        var.put_text("name", vars[i].name.as_str());
        var.put_text("value", vars[i].value.as_str());
        env.push(Value::Object(var));
        proof {
            assert(jsons(env@) =~= before.push(env_var(vs[i as int].0, vs[i as int].1)));
            assert(jsons(env@) =~= e + var_jsons(vs).take(i + 1));
        }
        i = i + 1;
    }
    proof {
        assert(var_jsons(vs).take(vs.len() as int) =~= var_jsons(vs));
    }
    fields.put("env", Value::array(env));
    proof {
        assert(fields@ =~= m.insert("env"@, Json::Array(e + var_jsons(vs))));
    }
    Ok(Value::Object(fields))
}

fn inject_field(spec: Value, name: &str, vars: &Vec<TunnelVar>) -> (r: Result<Value, String>)
    ensures
        match r {
            Ok(v) => injected_field(spec@, name@, var_views(vars@)) == Ok::<Json, Seq<char>>(v@),
            Err(e) => injected_field(spec@, name@, var_views(vars@)) == Err::<Json, Seq<char>>(e@),
        },
{
    let mut fields = match spec {
        Value::Object(o) => o,
        other => {
            return Ok(other);
        },
    };
    let ghost m = fields@;
    let ghost vs = var_views(vars@);
    match fields.remove(name) {
        None => {
            proof {
                assert(fields@ =~= m);
            }
            Ok(Value::Object(fields))
        },
        Some(Value::Array(items)) => {
            let ghost all = jsons(items@);
            proof {
                array_view(items);
            }
            let mut items = items;
            let mut done: Vec<Value> = Vec::new();
            let ghost mut i: nat = 0;
            proof {
                assert(jsons(done@) =~= Seq::empty());
                assert(all.skip(0) =~= all);
            }
            while items.len() > 0
                invariant
                    i + items.len() == all.len(),
                    vs == var_views(vars@),
                    m.contains_key(name@),
                    m[name@] == Json::Array(all),
                    spec@ == Json::Object(m),
                    jsons(items@) == all.skip(i as int),
                    injected_list(all, vs, i) == Ok::<Seq<Json>, Seq<char>>(jsons(done@)),
                decreases items.len(),
            {
                let ghost rest = jsons(items@);
                let ghost so_far = jsons(done@);
                let item = items.remove(0);
                proof {
                    assert(item@ == rest[0]);
                    assert(all.skip(i as int)[0] == all[i as int]);
                    assert(jsons(items@) =~= rest.skip(1));
                    assert(all.skip(i as int).skip(1) =~= all.skip(i as int + 1));
                }
                match inject_container(item, vars) {
                    Ok(c) => {
                        done.push(c);
                        proof {
                            assert(jsons(done@) =~= so_far.push(c@));
                        }
                    },
                    Err(e) => {
                        proof {
                            lemma_injected_list_fails(all, vs, i + 1, all.len());
                        }
                        return Err(e);
                    },
                }
                proof {
                    i = i + 1;
                }
            }
            fields.put(name, Value::array(done));
            proof {
                assert(fields@ =~= m.insert(name@, Json::Array(jsons(done@))));
            }
            Ok(Value::Object(fields))
        },
        Some(other) => {
            fields.put(name, other);
            proof {
                assert(fields@ =~= m);
            }
            Ok(Value::Object(fields))
        },
    }
}

proof fn lemma_injected_list_fails(
    items: Seq<Json>,
    vars: Seq<(Seq<char>, Seq<char>)>,
    m: nat,
    n: nat,
)
    requires
        m <= n <= items.len(),
        injected_list(items, vars, m) is Err,
    ensures
        injected_list(items, vars, n) == injected_list(items, vars, m),
    decreases n - m,
{
    if m < n {
        lemma_injected_list_fails(items, vars, m, (n - 1) as nat);
    }
}

/// Puts the environment variables of an in-process tunnel into every container of a pod
/// specification. A container that declares one of them itself is an error: keeping its value would
/// make the pods disagree with the address that is registered.
pub fn inject_in_process_tunnel_env(
    spec: Value,
    tunnel_name: &str,
    params: &InProcessTunnelParams,
) -> (r: Result<Value, Error>)
    ensures
        match injected(spec@, tunnel_vars(tunnel_name@, *params)) {
            Ok(j) => r matches Ok(v) && v@ == j,
            Err(t) => r matches Err(Error::InvalidRestateConfig(e)) && e@ == t,
        },
{
    let vars = make_vars(tunnel_name, params);
    let spec = match inject_field(spec, "containers", &vars) {
        Ok(s) => s,
        Err(e) => {
            return Err(Error::InvalidRestateConfig(e));
        },
    };
    match inject_field(spec, "initContainers", &vars) {
        Ok(s) => Ok(s),
        Err(e) => Err(Error::InvalidRestateConfig(e)),
    }
}

/// A container that was given the variables of a tunnel has each of them once, with the value of
/// the operator, after everything that it declared itself.
pub proof fn injected_containers_agree_with_the_registration(
    c: Map<Seq<char>, Json>,
    tunnel_name: Seq<char>,
    p: InProcessTunnelParams,
    i: int,
)
    requires
        injected_container(Json::Object(c), tunnel_vars(tunnel_name, p)) is Ok,
        0 <= i < 4,
    ensures
        ({
            let vars = tunnel_vars(tunnel_name, p);
            let done = injected_container(Json::Object(c), vars)->Ok_0;
            let own = if c.contains_key("env"@) {
                c["env"@]->Array_0
            } else {
                Seq::empty()
            };
            let env = field(done, "env"@);
            &&& env == Some(Json::Array(own + var_jsons(vars)))
            &&& !declares(own, vars[i].0)
            &&& env->0->Array_0[own.len() + i] == env_var(vars[i].0, vars[i].1)
        }),
{
    let vars = tunnel_vars(tunnel_name, p);
    let own = if c.contains_key("env"@) {
        c["env"@]->Array_0
    } else {
        Seq::empty()
    };
    lemma_none_declared(own, vars, 0, i);
}

proof fn lemma_none_declared(env: Seq<Json>, vars: Seq<(Seq<char>, Seq<char>)>, from: int, i: int)
    requires
        0 <= from <= i < vars.len(),
        first_declared(env, vars, from) is None,
    ensures
        !declares(env, vars[i].0),
    decreases i - from,
{
    if from < i {
        lemma_none_declared(env, vars, from + 1, i);
    }
}

/// The pod specification of a version: that of the template, with the variables of its tunnel.
pub open spec fn version_pod_spec(
    rsd: RestateDeployment,
    name: Seq<char>,
    tunnel: Option<InProcessTunnelParams>,
) -> Result<Option<Json>, Seq<char>> {
    match (rsd.spec.template.spec, tunnel) {
        (Some(s), Some(p)) => match injected(s@, tunnel_vars(name, p)) {
            Ok(j) => Ok(Some(j)),
            Err(e) => Err(e),
        },
        (s, _) => Ok(opt_json(s)),
    }
}

/// Builds the ReplicaSet of a version.
pub fn build_replica_set(
    rsd: &RestateDeployment,
    namespace: &str,
    versioned_name: &str,
    match_labels: &StringMap,
    annotations: &StringMap,
    hash: &str,
    in_process_tunnel: Option<&InProcessTunnelParams>,
) -> (r: Result<Value, Error>)
    requires
        rsd.metadata.name is Some,
        rsd.metadata.uid is Some,
    ensures
        match version_pod_spec(
            *rsd,
            versioned_name@,
            match in_process_tunnel {
                Some(p) => Some(*p),
                None => None,
            },
        ) {
            Ok(pod_spec) => r matches Ok(v) && v@ == replica_set_json(
                *rsd,
                namespace@,
                versioned_name@,
                match_labels@,
                annotations@,
                hash@,
                pod_spec,
            ),
            Err(t) => r matches Err(Error::InvalidRestateConfig(e)) && e@ == t,
        },
{
    let pod_spec: Option<Value> = match (&rsd.spec.template.spec, in_process_tunnel) {
        (Some(spec), Some(params)) => {
            match inject_in_process_tunnel_env(spec.duplicate(), versioned_name, params) {
                Ok(s) => Some(s),
                Err(e) => {
                    return Err(e);
                },
            }
        },
        (Some(spec), None) => Some(spec.duplicate()),
        (None, _) => None,
    };

    let mut labels = match &rsd.spec.template.metadata {
        Some(m) => map_or_empty(&m.labels),
        None => StringMap::new(),
    };
    labels.insert(POD_TEMPLATE_HASH_LABEL.to_owned(), hash.to_owned());
    add_allow_label(&mut labels, &rsd.spec.restate.register.cluster);

    let mut own_labels = labels.duplicate();
    own_labels.insert(OWNED_BY_LABEL.to_owned(), rsd.metadata.name_any());
    own_labels.insert(APP_MANAGED_BY_LABEL.to_owned(), MANAGER_NAME.to_owned());

    let mut owners: Vec<OwnerReference> = Vec::new();
    owners.push(owner_reference(rsd));
    let mut metadata = ObjectMeta::empty();
    metadata.name = Some(versioned_name.to_owned());
    metadata.namespace = Some(namespace.to_owned());
    metadata.labels = Some(own_labels);
    metadata.annotations = Some(annotations.duplicate());
    metadata.owner_references = Some(owners);
    proof {
        assert(metadata@.owner_references->0 =~= seq![owner_of(*rsd)]);
    }

    let mut template_metadata = Object::new();
    template_metadata.put("labels", Value::labels(&labels));
    match &rsd.spec.template.metadata {
        Some(m) => {
            template_metadata.put_opt("annotations", opt_map_value(&m.annotations));
        },
        None => {},
    }
    let mut template = Object::new();
    template.put("metadata", Value::Object(template_metadata));
    template.put(
        "spec",
        match pod_spec {
            Some(s) => s,
            None => Value::Null,
        },
    );

    let expressions: Option<Vec<LabelSelectorRequirement>> = match &rsd.spec.selector {
        Some(s) => duplicate_requirements(&s.match_expressions),
        None => None,
    };
    let selector = LabelSelector {
        match_labels: Some(match_labels.duplicate()),
        match_expressions: expressions,
    };

    let mut spec = Object::new();
    spec.put("replicas", Value::Int(rsd.spec.replicas as i64));
    spec.put("selector", selector.value());
    spec.put("template", Value::Object(template));
    spec.put(
        "minReadySeconds",
        match rsd.spec.min_ready_seconds {
            Some(n) => Value::Int(n as i64),
            None => Value::Null,
        },
    );

    let mut object = Object::new();
    object.put_text("apiVersion", "apps/v1");
    object.put_text("kind", "ReplicaSet");
    object.put("metadata", metadata.value());
    object.put("spec", Value::Object(spec));
    Ok(Value::Object(object))
}

/// The pods of a version are selected by the labels of its ReplicaSet, wherever the user's own
/// labels agree with the user's selector and with the hash.
pub proof fn selector_finds_the_pods(rsd: RestateDeployment, hash: Seq<char>, key: Seq<char>)
    requires
        version_selector(rsd.spec.selector, hash).contains_key(key),
        key == POD_TEMPLATE_HASH_LABEL@ || (template_labels(rsd.spec.template).contains_key(key)
            && template_labels(rsd.spec.template)[key] == version_selector(
            rsd.spec.selector,
            hash,
        )[key]),
        rsd.spec.restate.register.cluster matches Some(c) && allow_label(c@) == key ==> version_selector(
            rsd.spec.selector,
            hash,
        )[key] == "true"@,
    ensures
        pod_labels(rsd, hash).contains_key(key),
        pod_labels(rsd, hash)[key] == version_selector(rsd.spec.selector, hash)[key],
{
}

/// What became of the creation of a ReplicaSet that exists already.
#[derive(Debug, Clone, Copy, PartialEq, Eq, Structural)]
pub enum ExistingVersion {
    /// It is this version: bring it up to date.
    Adopt,
    /// It is another version of the same hash.
    Collision,
}

/// The first owner of an object.
pub open spec fn first_owner_uid(meta: ObjectMeta) -> Option<Seq<char>> {
    match meta.owner_references {
        Some(o) => if o@.len() > 0 {
            Some(o@[0].uid@)
        } else {
            None
        },
        None => None,
    }
}

/// Tells whether a ReplicaSet of the same name is this version: it is if this deployment owns it and
/// it was made from the same pod template.
pub fn recognise_existing(existing: &ObjectMeta, my_uid: &str, pod_template: &str) -> (r:
    ExistingVersion)
    ensures
        r == if first_owner_uid(*existing) == Some(my_uid@) && existing.annotation(
            RESTATE_POD_TEMPLATE_ANNOTATION@,
        ) == Some(pod_template@) {
            ExistingVersion::Adopt
        } else {
            ExistingVersion::Collision
        },
{
    let ours: bool = match &existing.owner_references {
        Some(o) => o.len() > 0 && str_eq(o[0].uid.as_str(), my_uid),
        None => false,
    };
    let same: bool = match existing.get_annotation(RESTATE_POD_TEMPLATE_ANNOTATION) {
        Some(t) => str_eq(t.as_str(), pod_template),
        None => false,
    };
    if ours && same {
        ExistingVersion::Adopt
    } else {
        ExistingVersion::Collision
    }
}

} // verus!
