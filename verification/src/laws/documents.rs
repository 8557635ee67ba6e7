//! The parts that objects are made of: what each says, field by field.

use vstd::prelude::*;

use crate::json::{
    at2, field, inner, items, opt_json, text_array, text_object, with_field, Json, Value,
};
use crate::manifest::{
    config_map_json, config_map_source_json, container_port_json, container_security_json,
    custom_env, env_json, envs_json, key_to_path_json, manifest_json, mount_json, pod_security_json,
    secret_source_json, template_meta_json, volume_json, with_annotations, with_default, EnvVar,
    EnvView,
};
use crate::meta::{
    entries, meta_json, namespace_or_default, opt_flag_json, opt_map, opt_map_json,
    opt_requirements, opt_text_json, owner_json, requirement_json, selector_json,
    LabelSelectorRequirement, MetaView, OwnerView, RequirementView,
};
use crate::string_map::StringMap;
use crate::text::{opt_text, texts};

verus! {

/// A text as a document, where there is one.
pub open spec fn text_or_none(s: Option<Seq<char>>) -> Option<Json> {
    if s is Some {
        Some(Json::Text(s->0))
    } else {
        None
    }
}

/// Whether a document is an object with just these texts.
pub open spec fn holds_texts(v: Option<Json>, m: Map<Seq<char>, Seq<char>>) -> bool {
    &&& v is Some && v->0 is Object
    &&& forall|k: Seq<char>| #[trigger]
        inner(v, k) == if m.contains_key(k) {
            Some(Json::Text(m[k]))
        } else {
            None
        }
}

/// Whether a document holds the texts of a map where there is a map, and is missing where there is
/// none.
pub open spec fn holds_opt_texts(v: Option<Json>, m: Option<Map<Seq<char>, Seq<char>>>) -> bool {
    match m {
        Some(m) => holds_texts(v, m),
        None => v is None,
    }
}

/// Whether a document is the list of these texts.
pub open spec fn lists_texts(v: Json, s: Seq<Seq<char>>) -> bool {
    &&& v is Array
    &&& v->Array_0.len() == s.len()
    &&& forall|i: int| 0 <= i < s.len() ==> v->Array_0[i] == Json::Text(#[trigger] s[i])
}

/// Texts, flags, lists and maps are written as they are, and what is not set is not written.
pub proof fn values_are_written_as_they_are(
    s: Option<Seq<char>>,
    b: Option<bool>,
    m: Option<Map<Seq<char>, Seq<char>>>,
    list: Seq<Seq<char>>,
)
    ensures
        opt_text_json(s) == text_or_none(s),
        opt_flag_json(b) == (if b is Some {
            Some(Json::Bool(b->0))
        } else {
            None
        }),
        holds_opt_texts(opt_map_json(m), m),
        lists_texts(text_array(list), list),
        m is Some ==> holds_texts(Some(text_object(m->0)), m->0),
        entries(m) == (if m is Some {
            m->0
        } else {
            Map::empty()
        }),
{
}

/// Metadata says what it is given.
pub proof fn what_metadata_says(m: MetaView)
    ensures
        ({
            let j = meta_json(m);
            &&& field(j, "name"@) == text_or_none(m.name)
            &&& field(j, "namespace"@) == text_or_none(m.namespace)
            &&& field(j, "uid"@) == text_or_none(m.uid)
            &&& holds_opt_texts(field(j, "labels"@), m.labels)
            &&& holds_opt_texts(field(j, "annotations"@), m.annotations)
            &&& m.owner_references is None ==> field(j, "ownerReferences"@) is None
            &&& m.owner_references matches Some(owners) ==> {
                let listed = items(field(j, "ownerReferences"@));
                &&& listed.len() == owners.len()
                &&& forall|i: int|
                    0 <= i < owners.len() ==> says_owner(#[trigger] listed[i], owners[i])
            }
        }),
{
    reveal_strlit("name");
    reveal_strlit("namespace");
    reveal_strlit("uid");
    reveal_strlit("labels");
    reveal_strlit("annotations");
    reveal_strlit("ownerReferences");
    assert("name"@.len() == 4);
    assert("namespace"@.len() == 9);
    assert("uid"@.len() == 3);
    assert("labels"@.len() == 6);
    assert("annotations"@.len() == 11);
    assert("ownerReferences"@.len() == 15);
    if let Some(owners) = m.owner_references {
        assert forall|i: int| 0 <= i < owners.len() implies says_owner(
            #[trigger] items(field(meta_json(m), "ownerReferences"@))[i],
            owners[i],
        ) by {
            what_an_owner_reference_says(owners[i]);
        }
    }
}

/// Whether a document refers to an owner.
pub open spec fn says_owner(j: Json, o: OwnerView) -> bool {
    &&& field(j, "apiVersion"@) == Some(Json::Text(o.api_version))
    &&& field(j, "kind"@) == Some(Json::Text(o.kind))
    &&& field(j, "name"@) == Some(Json::Text(o.name))
    &&& field(j, "uid"@) == Some(Json::Text(o.uid))
    &&& field(j, "controller"@) == (if o.controller is Some {
        Some(Json::Bool(o.controller->0))
    } else {
        None
    })
    &&& field(j, "blockOwnerDeletion"@) == (if o.block_owner_deletion is Some {
        Some(Json::Bool(o.block_owner_deletion->0))
    } else {
        None
    })
}

/// A reference to an owner says which it is.
pub proof fn what_an_owner_reference_says(o: OwnerView)
    ensures
        says_owner(owner_json(o), o),
{
    reveal_strlit("apiVersion");
    reveal_strlit("kind");
    reveal_strlit("name");
    reveal_strlit("uid");
    reveal_strlit("controller");
    reveal_strlit("blockOwnerDeletion");
    assert("apiVersion"@.len() == 10);
    assert("kind"@.len() == 4);
    assert("name"@.len() == 4);
    assert("uid"@.len() == 3);
    assert("controller"@.len() == 10);
    assert("blockOwnerDeletion"@.len() == 18);
    assert("apiVersion"@[0] == 'a');
    assert("controller"@[0] == 'c');
    assert("kind"@[0] == 'k');
    assert("name"@[0] == 'n');
}

/// A requirement of a selector says its key, its operator and its values.
pub proof fn what_a_requirement_says(r: RequirementView)
    ensures
        ({
            let j = requirement_json(r);
            &&& field(j, "key"@) == Some(Json::Text(r.0))
            &&& field(j, "operator"@) == Some(Json::Text(r.1))
            &&& r.2 is None ==> field(j, "values"@) is None
            &&& r.2 is Some ==> field(j, "values"@) is Some && lists_texts(
                field(j, "values"@)->0,
                r.2->0,
            )
        }),
{
    reveal_strlit("key");
    reveal_strlit("operator");
    reveal_strlit("values");
    assert("key"@.len() == 3);
    assert("operator"@.len() == 8);
    assert("values"@.len() == 6);
}

/// A selector says which labels it asks for, and its further requirements.
pub proof fn what_a_selector_says(
    labels: Option<Map<Seq<char>, Seq<char>>>,
    requirements: Option<Seq<RequirementView>>,
)
    ensures
        ({
            let j = selector_json(labels, requirements);
            let listed = items(field(j, "matchExpressions"@));
            &&& holds_opt_texts(field(j, "matchLabels"@), labels)
            &&& requirements is None ==> field(j, "matchExpressions"@) is None
            &&& requirements matches Some(rs) ==> listed.len() == rs.len() && forall|i: int|
                0 <= i < rs.len() ==> #[trigger] listed[i] == requirement_json(rs[i])
        }),
{
    reveal_strlit("matchLabels");
    reveal_strlit("matchExpressions");
    assert("matchLabels"@.len() == 11);
    assert("matchExpressions"@.len() == 16);
}

/// An object without a namespace stands in the default one.
pub proof fn objects_stand_in_a_namespace(ns: Option<Seq<char>>)
    ensures
        ns matches Some(n) && n.len() > 0 ==> namespace_or_default(ns) == ns->0,
        ns is None || ns->0.len() == 0 ==> namespace_or_default(ns) == "default"@,
{
}

/// An object says its kind, its metadata and, where it has one, its specification.
pub proof fn what_a_manifest_says(
    api_version: Seq<char>,
    kind: Seq<char>,
    meta: MetaView,
    spec: Option<Json>,
)
    ensures
        ({
            let j = manifest_json(api_version, kind, meta, spec);
            &&& field(j, "apiVersion"@) == Some(Json::Text(api_version))
            &&& field(j, "kind"@) == Some(Json::Text(kind))
            &&& field(j, "metadata"@) == Some(meta_json(meta))
            &&& field(j, "spec"@) == spec
        }),
{
    reveal_strlit("apiVersion");
    reveal_strlit("kind");
    reveal_strlit("metadata");
    reveal_strlit("spec");
    assert("apiVersion"@.len() == 10);
    assert("kind"@.len() == 4);
    assert("metadata"@.len() == 8);
    assert("spec"@.len() == 4);
    assert("kind"@[0] == 'k');
    assert("spec"@[0] == 's');
}

/// A ConfigMap says its data.
pub proof fn what_a_config_map_says(meta: MetaView, data: Option<Map<Seq<char>, Seq<char>>>)
    ensures
        ({
            let j = config_map_json(meta, data);
            &&& field(j, "apiVersion"@) == Some(Json::Text("v1"@))
            &&& field(j, "kind"@) == Some(Json::Text("ConfigMap"@))
            &&& field(j, "metadata"@) == Some(meta_json(meta))
            &&& holds_opt_texts(field(j, "data"@), data)
        }),
{
    reveal_strlit("apiVersion");
    reveal_strlit("kind");
    reveal_strlit("metadata");
    reveal_strlit("data");
    assert("apiVersion"@.len() == 10);
    assert("kind"@.len() == 4);
    assert("metadata"@.len() == 8);
    assert("data"@.len() == 4);
    assert("kind"@[0] == 'k');
    assert("data"@[0] == 'd');
}

/// Whether a document is an environment variable.
pub open spec fn says_env(j: Json, e: EnvView) -> bool {
    &&& field(j, "name"@) == Some(Json::Text(e.name))
    &&& field(j, "value"@) == text_or_none(e.value)
    &&& field(j, "valueFrom"@) == e.value_from
}

/// The variables of a container are written in their order, each with its value or where it comes
/// from.
pub proof fn what_an_environment_says(vars: Seq<EnvView>)
    ensures
        envs_json(vars) is Array,
        items(Some(envs_json(vars))).len() == vars.len(),
        forall|i: int|
            0 <= i < vars.len() ==> says_env(#[trigger] items(Some(envs_json(vars)))[i], vars[i]),
{
    reveal_strlit("name");
    reveal_strlit("value");
    reveal_strlit("valueFrom");
    assert("name"@.len() == 4);
    assert("value"@.len() == 5);
    assert("valueFrom"@.len() == 9);
    assert forall|i: int| 0 <= i < vars.len() implies says_env(
        #[trigger] items(Some(envs_json(vars)))[i],
        vars[i],
    ) by {
        assert(items(Some(envs_json(vars)))[i] == env_json(vars[i]));
    }
}

/// How many of the variables have a name.
pub open spec fn times_named(vars: Seq<EnvView>, name: Seq<char>) -> nat {
    vars.filter(|e: EnvView| e.name == name).len()
}

/// Whether a variable is set, once and to this value.
pub open spec fn sets_once(vars: Seq<EnvView>, name: Seq<char>, value: Seq<char>) -> bool {
    &&& times_named(vars, name) == 1
    &&& vars.contains(EnvView { name, value: Some(value), value_from: None })
}

/// A default is added at the end, and only where the user does not set the variable.
pub proof fn defaults_give_way(
    vars: Seq<EnvView>,
    custom: Seq<EnvView>,
    name: Seq<char>,
    value: Seq<char>,
)
    ensures
        times_named(custom, name) > 0 ==> with_default(vars, custom, name, value) == vars,
        times_named(custom, name) == 0 ==> with_default(vars, custom, name, value) == vars.push(
            EnvView { name, value: Some(value), value_from: None },
        ),
{
    lemma_times_named(custom, name);
}

pub proof fn lemma_times_named(vars: Seq<EnvView>, name: Seq<char>)
    ensures
        times_named(vars, name) == 0 <==> forall|i: int|
            0 <= i < vars.len() ==> (#[trigger] vars[i]).name != name,
    decreases vars.len(),
{
    reveal(Seq::filter);
    if vars.len() > 0 {
        let before = vars.drop_last();
        lemma_times_named(before, name);
        assert forall|i: int| 0 <= i < before.len() implies #[trigger] before[i] == vars[i] by {}
        assert(vars[vars.len() - 1] == vars.last());
        if times_named(vars, name) == 0 {
            assert forall|i: int| 0 <= i < vars.len() implies (#[trigger] vars[i]).name != name by {
                if i < before.len() {
                    assert(before[i].name != name);
                }
            }
        } else if times_named(before, name) > 0 {
            let i = choose|i: int| 0 <= i < before.len() && (#[trigger] before[i]).name == name;
            assert(vars[i].name == name);
        }
    }
}

pub proof fn lemma_times_named_push(vars: Seq<EnvView>, e: EnvView, name: Seq<char>)
    ensures
        times_named(vars.push(e), name) == times_named(vars, name) + if e.name == name {
            1nat
        } else {
            0
        },
{
    reveal(Seq::filter);
    assert(vars.push(e).drop_last() =~= vars);
}

pub proof fn lemma_times_named_add(a: Seq<EnvView>, b: Seq<EnvView>, name: Seq<char>)
    ensures
        times_named(a + b, name) == times_named(a, name) + times_named(b, name),
    decreases b.len(),
{
    reveal(Seq::filter);
    if b.len() == 0 {
        assert(a + b =~= a);
        assert(times_named(b, name) == 0);
    } else {
        assert((a + b).drop_last() =~= a + b.drop_last());
        lemma_times_named_add(a, b.drop_last(), name);
    }
}

/// A default counts once where the user does not set it, and what was there stays.
pub proof fn lemma_default_counts(
    vars: Seq<EnvView>,
    custom: Seq<EnvView>,
    name: Seq<char>,
    value: Seq<char>,
    other: Seq<char>,
)
    ensures
        ({
            let after = with_default(vars, custom, name, value);
            &&& times_named(after, other) == times_named(vars, other) + if name == other
                && times_named(custom, name) == 0 {
                1nat
            } else {
                0
            }
            &&& forall|e: EnvView| #[trigger] vars.contains(e) ==> after.contains(e)
            &&& times_named(custom, name) == 0 ==> after.contains(
                EnvView { name, value: Some(value), value_from: None },
            )
        }),
{
    let e = EnvView { name, value: Some(value), value_from: None };
    defaults_give_way(vars, custom, name, value);
    lemma_times_named_push(vars, e, other);
    lemma_contains_push(vars, e);
}

pub proof fn lemma_contains_push(vars: Seq<EnvView>, e: EnvView)
    ensures
        vars.push(e).contains(e),
        forall|x: EnvView| #[trigger] vars.contains(x) ==> vars.push(e).contains(x),
{
    assert(vars.push(e)[vars.len() as int] == e);
    assert forall|x: EnvView| #[trigger] vars.contains(x) implies vars.push(e).contains(x) by {
        let i = choose|i: int| 0 <= i < vars.len() && vars[i] == x;
        assert(vars.push(e)[i] == x);
    }
}

pub proof fn lemma_contains_add(a: Seq<EnvView>, b: Seq<EnvView>)
    ensures
        forall|x: EnvView| #[trigger] a.contains(x) ==> (a + b).contains(x),
        forall|x: EnvView| #[trigger] b.contains(x) ==> (a + b).contains(x),
{
    assert forall|x: EnvView| #[trigger] a.contains(x) implies (a + b).contains(x) by {
        let i = choose|i: int| 0 <= i < a.len() && a[i] == x;
        assert((a + b)[i] == x);
    }
    assert forall|x: EnvView| #[trigger] b.contains(x) implies (a + b).contains(x) by {
        let i = choose|i: int| 0 <= i < b.len() && b[i] == x;
        assert((a + b)[a.len() + i] == x);
    }
}

/// A mount says which volume is mounted where, and that it is read only where it is.
pub proof fn what_a_mount_says(
    name: Seq<char>,
    path: Seq<char>,
    sub_path: Option<Seq<char>>,
    read_only: bool,
)
    ensures
        ({
            let j = mount_json(name, path, sub_path, read_only);
            &&& field(j, "name"@) == Some(Json::Text(name))
            &&& field(j, "mountPath"@) == Some(Json::Text(path))
            &&& field(j, "subPath"@) == text_or_none(sub_path)
            &&& field(j, "readOnly"@) == if read_only {
                Some(Json::Bool(true))
            } else {
                None
            }
        }),
{
    reveal_strlit("name");
    reveal_strlit("mountPath");
    reveal_strlit("subPath");
    reveal_strlit("readOnly");
    assert("name"@.len() == 4);
    assert("mountPath"@.len() == 9);
    assert("subPath"@.len() == 7);
    assert("readOnly"@.len() == 8);
}

/// A volume says its name and what it is made of, and what it projects.
pub proof fn what_a_volume_says(
    name: Seq<char>,
    source: Seq<char>,
    content: Json,
    key: Seq<char>,
    mode: Option<int>,
    path: Seq<char>,
    item: Option<Json>,
)
    ensures
        source != "name"@ ==> field(volume_json(name, source, content), "name"@) == Some(
            Json::Text(name),
        ),
        field(volume_json(name, source, content), source) == Some(content),
        ({
            let k = key_to_path_json(key, mode, path);
            &&& field(k, "key"@) == Some(Json::Text(key))
            &&& field(k, "path"@) == Some(Json::Text(path))
            &&& field(k, "mode"@) == (if mode is Some {
                Some(Json::Int(mode->0))
            } else {
                None
            })
        }),
        field(secret_source_json(name, content), "secretName"@) == Some(Json::Text(name)),
        field(secret_source_json(name, content), "items"@) == Some(Json::Array(seq![content])),
        field(config_map_source_json(name, item), "name"@) == Some(Json::Text(name)),
        field(config_map_source_json(name, item), "items"@) == (if item is Some {
            Some(Json::Array(seq![item->0]))
        } else {
            None
        }),
{
    reveal_strlit("name");
    reveal_strlit("key");
    reveal_strlit("path");
    reveal_strlit("mode");
    reveal_strlit("secretName");
    reveal_strlit("items");
    assert("name"@.len() == 4);
    assert("key"@.len() == 3);
    assert("path"@.len() == 4);
    assert("mode"@.len() == 4);
    assert("secretName"@.len() == 10);
    assert("items"@.len() == 5);
    assert("name"@[0] == 'n');
    assert("path"@[0] == 'p');
    assert("mode"@[0] == 'm');
}

/// A port of a container says its name and its number, and a container cannot gain privileges.
pub proof fn what_a_container_may_do(name: Seq<char>, port: int, read_only_root: bool)
    ensures
        field(container_port_json(name, port), "name"@) == Some(Json::Text(name)),
        field(container_port_json(name, port), "containerPort"@) == Some(Json::Int(port)),
        field(container_security_json(read_only_root), "allowPrivilegeEscalation"@) == Some(
            Json::Bool(false),
        ),
        field(container_security_json(read_only_root), "readOnlyRootFilesystem"@) == (
        if read_only_root {
            Some(Json::Bool(true))
        } else {
            None
        }),
{
    reveal_strlit("name");
    reveal_strlit("containerPort");
    reveal_strlit("allowPrivilegeEscalation");
    reveal_strlit("readOnlyRootFilesystem");
    assert("name"@.len() == 4);
    assert("containerPort"@.len() == 13);
    assert("allowPrivilegeEscalation"@.len() == 24);
    assert("readOnlyRootFilesystem"@.len() == 22);
}

/// A pod runs as the user 1000 of the group 3000, its volumes belong to the group 2000, and it is
/// confined by the seccomp profile of the runtime.
pub proof fn what_a_pod_runs_as(non_root: bool)
    ensures
        ({
            let j = pod_security_json(non_root);
            &&& field(j, "runAsUser"@) == Some(Json::Int(1000))
            &&& field(j, "runAsGroup"@) == Some(Json::Int(3000))
            &&& field(j, "fsGroup"@) == Some(Json::Int(2000))
            &&& field(j, "fsGroupChangePolicy"@) == Some(Json::Text("OnRootMismatch"@))
            &&& at2(j, "seccompProfile"@, "type"@) == Some(Json::Text("RuntimeDefault"@))
            &&& field(j, "runAsNonRoot"@) == if non_root {
                Some(Json::Bool(true))
            } else {
                None
            }
        }),
{
    reveal_strlit("runAsUser");
    reveal_strlit("runAsGroup");
    reveal_strlit("fsGroup");
    reveal_strlit("fsGroupChangePolicy");
    reveal_strlit("seccompProfile");
    reveal_strlit("type");
    reveal_strlit("runAsNonRoot");
    assert("runAsUser"@.len() == 9);
    assert("runAsGroup"@.len() == 10);
    assert("fsGroup"@.len() == 7);
    assert("fsGroupChangePolicy"@.len() == 19);
    assert("seccompProfile"@.len() == 14);
    assert("type"@.len() == 4);
    assert("runAsNonRoot"@.len() == 12);
}

/// The metadata of a pod template says its labels, and its annotations where there are any.
pub proof fn what_template_metadata_says(
    labels: Map<Seq<char>, Seq<char>>,
    annotations: Option<Map<Seq<char>, Seq<char>>>,
)
    ensures
        holds_texts(field(template_meta_json(labels, annotations), "labels"@), labels),
        holds_opt_texts(field(template_meta_json(labels, annotations), "annotations"@),
            annotations),
{
    reveal_strlit("labels");
    reveal_strlit("annotations");
    assert("labels"@.len() == 6);
    assert("annotations"@.len() == 11);
}

/// Added annotations win over those of the same name, and nothing else changes.
pub proof fn added_annotations_win(
    meta: MetaView,
    extra: Option<Map<Seq<char>, Seq<char>>>,
    key: Seq<char>,
)
    ensures
        ({
            let r = with_annotations(meta, extra);
            &&& r.name == meta.name && r.namespace == meta.namespace && r.uid == meta.uid
            &&& r.labels == meta.labels && r.owner_references == meta.owner_references
            &&& extra is None ==> r.annotations == meta.annotations
            &&& extra matches Some(e) ==> r.annotations is Some && {
                let old = if meta.annotations is Some {
                    meta.annotations->0
                } else {
                    Map::empty()
                };
                &&& r.annotations->0.contains_key(key) <==> e.contains_key(key)
                    || old.contains_key(key)
                &&& e.contains_key(key) ==> r.annotations->0[key] == e[key]
                &&& !e.contains_key(key) && old.contains_key(key) ==> r.annotations->0[key]
                    == old[key]
            }
        }),
{
}

/// What a user gives is taken over as it is given: texts, labels, variables and requirements.
pub proof fn what_is_given_is_taken_over(
    text: Option<String>,
    map: Option<StringMap>,
    list: Vec<String>,
    vars: Option<Vec<EnvVar>>,
    requirements: Option<Vec<LabelSelectorRequirement>>,
    document: Option<Value>,
    i: int,
)
    ensures
        opt_text(text) == (if text is Some {
            Some(text->0@)
        } else {
            None
        }),
        opt_map(map) == (if map is Some {
            Some(map->0@)
        } else {
            None
        }),
        opt_json(document) == (if document is Some {
            Some(document->0@)
        } else {
            None
        }),
        texts(list@).len() == list@.len(),
        0 <= i < list@.len() ==> texts(list@)[i] == list@[i]@,
        vars is None ==> custom_env(vars).len() == 0,
        vars matches Some(v) ==> {
            let all = custom_env(vars);
            &&& all.len() == v@.len()
            &&& 0 <= i < v@.len() ==> all[i].name == v@[i].name@ && all[i].value == opt_text(
                v@[i].value,
            ) && all[i].value_from == opt_json(v@[i].value_from)
        },
        opt_requirements(requirements) is Some <==> requirements is Some,
        requirements matches Some(rs) ==> {
            let all = opt_requirements(requirements)->0;
            &&& all.len() == rs@.len()
            &&& 0 <= i < rs@.len() ==> all[i].0 == rs@[i].key@ && all[i].1 == rs@[i].operator@ && (
            all[i].2 is Some <==> rs@[i].values is Some) && (rs@[i].values matches Some(v)
                ==> all[i].2 == Some(texts(v@)))
        },
{
}

/// A field that is given is there, and one that is not given is left as it was.
pub proof fn given_fields_are_there(
    fields: Map<Seq<char>, Json>,
    name: Seq<char>,
    value: Option<Json>,
    other: Seq<char>,
)
    ensures
        value is Some ==> field(Json::Object(with_field(fields, name, value)), name) == value,
        value is None ==> with_field(fields, name, value) == fields,
        other != name ==> field(Json::Object(with_field(fields, name, value)), other) == field(
            Json::Object(fields),
            other,
        ),
{
}

} // verus!
