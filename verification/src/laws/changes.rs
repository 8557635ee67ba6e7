//! What counts as a change, what is laid over what, and who is still waited for.

use vstd::prelude::*;

use crate::json::{at2, at3, field, items, Json};
use crate::meta::{entries, opt_map, ObjectMeta};
use crate::predicates::watched;
use crate::readiness::{note_text, unready, waited_for, GateStateView, ReadinessGate};
use crate::restatecluster::schema::{
    atomic_list_json, metadata_json, network_port_json, rule_json, type_json,
};
use crate::restatedeployment::knative::{checked_containers, containers_complaint, defines_ports};
use crate::restatedeployment::resource::RestateDeployment;
use crate::restatedeployment::service::{
    owners_of, port_views, service_would_change, PortedContainer, Service,
};
use crate::restatekafkaintegration::merge::{
    first_match, matching_entry, merge_key_of, merged, merged_fields, merged_list,
};
use crate::ssa::{entry_owns, owns, would_change};
use crate::text::{decimal, join, opt_text};

verus! {

/// An apply changes entries where one that is wanted is missing or says something else, or where the
/// manager owns one that is not wanted any more.
pub proof fn when_an_apply_changes_something(
    meta: ObjectMeta,
    manager: Seq<char>,
    fields_key: Seq<char>,
    existing: Map<Seq<char>, Seq<char>>,
    desired: Map<Seq<char>, Seq<char>>,
    key: Seq<char>,
)
    ensures
        desired.contains_key(key) && (!existing.contains_key(key) || existing[key] != desired[key])
            ==> would_change(meta, manager, fields_key, existing, desired),
        owns(meta, manager, fields_key, key) && !desired.contains_key(key) ==> would_change(
            meta,
            manager,
            fields_key,
            existing,
            desired,
        ),
        !would_change(meta, manager, fields_key, existing, desired) && desired.contains_key(key)
            ==> existing.contains_key(key) && existing[key] == desired[key],
        (forall|k: Seq<char>| #[trigger]
            desired.contains_key(k) ==> existing.contains_key(k) && existing[k] == desired[k]) && (
        forall|k: Seq<char>| #[trigger]
            owns(meta, manager, fields_key, k) ==> desired.contains_key(k)) ==> !would_change(
            meta,
            manager,
            fields_key,
            existing,
            desired,
        ),
{
}

/// A manager owns an entry where one of its own records lists it, and not as part of a subresource.
pub proof fn what_a_manager_owns(
    meta: ObjectMeta,
    manager: Seq<char>,
    fields_key: Seq<char>,
    key: Seq<char>,
    i: int,
)
    ensures
        meta.managed_fields is None ==> !owns(meta, manager, fields_key, key),
        meta.managed_fields matches Some(list) ==> (forall|k: int|
            0 <= k < list@.len() ==> !entry_owns(#[trigger] list@[k], manager, fields_key, key))
            ==> !owns(meta, manager, fields_key, key),
        meta.managed_fields matches Some(list) ==> 0 <= i < list@.len() ==> {
            let e = list@[i];
            &&& opt_text(e.manager) != Some(manager) ==> !entry_owns(e, manager, fields_key, key)
            &&& e.subresource is Some ==> !entry_owns(e, manager, fields_key, key)
            &&& e.fields_v1 is None ==> !entry_owns(e, manager, fields_key, key)
            &&& entry_owns(e, manager, fields_key, key) ==> owns(meta, manager, fields_key, key)
            &&& opt_text(e.manager) == Some(manager) && e.subresource is None && e.fields_v1 is Some
                ==> (entry_owns(e, manager, fields_key, key) <==> at3(
                e.fields_v1->0@,
                "f:metadata"@,
                fields_key,
                "f:"@ + key,
            ) is Some)
        },
{
}

/// A Service is applied again where it is missing, where its labels, annotations or owners want a
/// change, or where it selects other pods, is of another type or lacks a port.
pub proof fn when_a_service_is_applied_again(existing: Option<Service>, desired: Service, i: int)
    ensures
        existing is None ==> service_would_change(existing, desired),
        existing matches Some(e) ==> {
            let changes = service_would_change(existing, desired);
            &&& e.spec is None || desired.spec is None ==> changes
            &&& e.spec is Some && desired.spec is Some ==> {
                let a = e.spec->0;
                let b = desired.spec->0;
                &&& opt_map(a.selector) != opt_map(b.selector) ==> changes
                &&& opt_text(a.type_) != opt_text(b.type_) ==> changes
                &&& 0 <= i < port_views(b.ports).len() && !port_views(a.ports).contains(
                    port_views(b.ports)[i],
                ) ==> changes
            }
            &&& 0 <= i < owners_of(desired.metadata).len() && !owners_of(e.metadata).contains(
                owners_of(desired.metadata)[i],
            ) ==> changes
            &&& would_change(
                e.metadata,
                "restate-operator"@,
                "f:labels"@,
                entries(opt_map(e.metadata.labels)),
                entries(opt_map(desired.metadata.labels)),
            ) ==> changes
            &&& would_change(
                e.metadata,
                "restate-operator"@,
                "f:annotations"@,
                entries(opt_map(e.metadata.annotations)),
                entries(opt_map(desired.metadata.annotations)),
            ) ==> changes
            &&& changes && e.spec is Some && desired.spec is Some ==> would_change(
                e.metadata,
                "restate-operator"@,
                "f:labels"@,
                entries(opt_map(e.metadata.labels)),
                entries(opt_map(desired.metadata.labels)),
            ) || would_change(
                e.metadata,
                "restate-operator"@,
                "f:annotations"@,
                entries(opt_map(e.metadata.annotations)),
                entries(opt_map(desired.metadata.annotations)),
            ) || opt_map(e.spec->0.selector) != opt_map(desired.spec->0.selector) || opt_text(
                e.spec->0.type_,
            ) != opt_text(desired.spec->0.type_) || (exists|k: int|
                0 <= k < port_views(desired.spec->0.ports).len() && !port_views(
                    e.spec->0.ports,
                ).contains(#[trigger] port_views(desired.spec->0.ports)[k])) || (exists|k: int|
                0 <= k < owners_of(desired.metadata).len() && !owners_of(e.metadata).contains(
                    #[trigger] owners_of(desired.metadata)[k],
                ))
        },
{
}

/// Of an object its generation, its labels and its annotations are watched.
pub proof fn what_is_watched(meta: ObjectMeta)
    ensures
        watched(meta).generation == meta.generation,
        meta.labels matches Some(l) ==> watched(meta).labels == l@,
        meta.labels is None ==> watched(meta).labels == Map::<Seq<char>, Seq<char>>::empty(),
        meta.annotations matches Some(a) ==> watched(meta).annotations == a@,
        meta.annotations is None ==> watched(meta).annotations == Map::<
            Seq<char>,
            Seq<char>,
        >::empty(),
{
}

/// A controller is pending until it is ready, and is waited for while its definition is missing.
pub proof fn who_is_pending(gate: ReadinessGate, s: GateStateView)
    ensures
        s is Ready ==> unready(gate, s).len() == 0,
        !(s is Ready) ==> unready(gate, s) == seq![gate.text()],
        s matches GateStateView::WaitingForCrd(name) ==> waited_for(s) == seq![name],
        !(s is WaitingForCrd) ==> waited_for(s).len() == 0,
        ReadinessGate::RestateCluster.text() == "RestateCluster"@,
        ReadinessGate::RestateCloudEnvironment.text() == "RestateCloudEnvironment"@,
        ReadinessGate::RestateDeployment.text() == "RestateDeployment"@,
{
}

/// What is waited for is named, one or all of them, and nothing is said where there is nothing.
pub proof fn what_is_said_of_the_waiting(pending: Seq<Seq<char>>)
    ensures
        pending.len() == 0 ==> note_text(pending) is None,
        pending.len() == 1 ==> note_text(pending) == Some(
            "Waiting for CRD "@ + pending[0] + " to be installed before reconciling it."@,
        ),
        pending.len() > 1 ==> note_text(pending) == Some(
            "Waiting for "@ + decimal(pending.len())
                + " CRDs to be installed before reconciling them: "@ + join(pending, ", "@) + "."@,
        ),
{
}

/// Lists of named things are merged by what names them, and all others are replaced.
pub proof fn which_lists_are_merged(name: Seq<char>)
    ensures
        name == "containers"@ || name == "initContainers"@ || name == "ephemeralContainers"@ || name
            == "volumes"@ || name == "imagePullSecrets"@ || name == "env"@ ==> merge_key_of(name)
            == Some("name"@),
        name == "volumeMounts"@ ==> merge_key_of(name) == Some("mountPath"@),
        name == "ports"@ ==> merge_key_of(name) == Some("containerPort"@),
        name == "hostAliases"@ ==> merge_key_of(name) == Some("ip"@),
        name != "containers"@ && name != "initContainers"@ && name != "ephemeralContainers"@ && name
            != "volumes"@ && name != "imagePullSecrets"@ && name != "env"@ && name
            != "volumeMounts"@ && name != "ports"@ && name != "hostAliases"@ ==> merge_key_of(name)
            is None,
{
    reveal_strlit("containers");
    reveal_strlit("initContainers");
    reveal_strlit("ephemeralContainers");
    reveal_strlit("volumes");
    reveal_strlit("imagePullSecrets");
    reveal_strlit("env");
    reveal_strlit("volumeMounts");
    reveal_strlit("ports");
    reveal_strlit("hostAliases");
    assert("containers"@.len() == 10);
    assert("initContainers"@.len() == 14);
    assert("ephemeralContainers"@.len() == 19);
    assert("volumes"@.len() == 7);
    assert("imagePullSecrets"@.len() == 16);
    assert("env"@.len() == 3);
    assert("volumeMounts"@.len() == 12);
    assert("ports"@.len() == 5);
    assert("hostAliases"@.len() == 11);
}

/// Objects are merged field by field: what the overlay says wins, what it says nothing of stays, and
/// what it says is null goes. Whatever is no object on both sides is replaced.
pub proof fn how_objects_are_merged(base: Json, overlay: Json, key: Seq<char>)
    ensures
        !(base is Object) || !(overlay is Object) ==> merged(base, overlay) == overlay,
        base is Object && overlay is Object ==> {
            let r = field(merged(base, overlay), key);
            &&& merged(base, overlay) is Object
            &&& field(overlay, key) is None ==> r == field(base, key)
            &&& field(overlay, key) is Some && field(overlay, key)->0 is Null ==> r is None
            &&& field(overlay, key) is Some && !(field(overlay, key)->0 is Null) ==> r is Some
            &&& field(overlay, key) is Some && field(base, key) is None && !(field(overlay, key)->0
                is Null) ==> r == field(overlay, key)
            &&& field(overlay, key) is Some && field(base, key) is Some && field(overlay, key)->0
                is Object && field(base, key)->0 is Object ==> r == Some(
                merged(field(base, key)->0, field(overlay, key)->0),
            )
            &&& field(overlay, key) is Some && field(overlay, key)->0 is Array && merge_key_of(key)
                is None ==> r == field(overlay, key)
            &&& field(overlay, key) is Some && (field(overlay, key)->0 is Text || field(
                overlay,
                key,
            )->0 is Int || field(overlay, key)->0 is Bool) ==> r == field(overlay, key)
        },
{
    if base is Object && overlay is Object {
        let b = base->Object_0;
        let o = overlay->Object_0;
        assert(merged(base, overlay) == Json::Object(merged_fields(b, overlay)));
    }
}

/// An entry of the overlay is merged into the first entry of the base with the same name, and is
/// added at the end where there is none.
pub proof fn which_entry_is_merged(base: Seq<Json>, item: Json, key: Seq<char>, i: int)
    requires
        0 <= i < base.len(),
        field(item, key) is Some,
        field(base[i], key) == field(item, key),
        forall|j: int| 0 <= j < i ==> field(#[trigger] base[j], key) != field(item, key),
    ensures
        matching_entry(base, item, key) == Some(i),
{
    lemma_first_match(base, item, key, 0, i);
}

proof fn lemma_first_match(base: Seq<Json>, item: Json, key: Seq<char>, from: int, i: int)
    requires
        0 <= from <= i < base.len(),
        field(item, key) is Some,
        field(base[i], key) == field(item, key),
        forall|j: int| from <= j < i ==> field(#[trigger] base[j], key) != field(item, key),
    ensures
        first_match(base, item, key, from) == Some(i),
    decreases i - from,
{
    if from < i {
        assert(field(base[from], key) != field(item, key));
        lemma_first_match(base, item, key, from + 1, i);
    }
}

/// An overlay list of one entry changes the entry that it names, or adds itself at the end.
pub proof fn how_one_entry_is_merged(base: Seq<Json>, item: Json, key: Seq<char>)
    ensures
        ({
            let r = merged_list(base, Json::Array(seq![item]), key, 1);
            match matching_entry(base, item, key) {
                Some(i) => r == base.update(i, merged(base[i], item)),
                None => r == base.push(item),
            }
        }),
{
    let overlay = Json::Array(seq![item]);
    assert(merged_list(base, overlay, key, 0) == base);
    assert(seq![item][0] == item);
}

/// Why Knative cannot take a pod: no container has ports, several have, or the one that has them does
/// not say the protocol.
pub proof fn why_knative_refuses(containers: Seq<PortedContainer>, text: Seq<char>, i: int, j: int)
    requires
        containers_complaint(containers, text),
    ensures
        (forall|k: int|
            0 <= k < containers.len() ==> (#[trigger] containers[k]).ports is None
                || containers[k].ports->0@.len() == 0) ==> text
            == "No container defines ports. Restate requires an explicit traffic port definition with a valid Knative protocol hint prefix ('h2c...' or 'http1...')."@,
        0 <= i < j < containers.len() && containers[i].ports is Some
            && containers[i].ports->0@.len()
            > 0 && containers[j].ports is Some && containers[j].ports->0@.len() > 0 ==> text
            == "Only one container is allowed to define ports when using Knative."@,
        0 <= i < containers.len() && containers[i].ports is Some
            && containers[i].ports->0@.len() > 0
            && (forall|k: int|
            0 <= k < containers.len() && k != i ==> (#[trigger] containers[k]).ports is None
                || containers[k].ports->0@.len() == 0) ==> text == "Container '"@ + (
        match containers[i].name {
            Some(n) => n@,
            None => "unknown"@,
        })
            + "' defines ports but none have a valid Knative protocol hint prefix ('h2c...' or 'http1...'). Restate requires an explicit traffic port definition."@,
{
    if 0 <= i < containers.len() && containers[i].ports is Some && containers[i].ports->0@.len() > 0
        && (forall|k: int|
        0 <= k < containers.len() && k != i ==> (#[trigger] containers[k]).ports is None
            || containers[k].ports->0@.len() == 0) {
        assert(defines_ports(containers[i]));
        assert(crate::restatedeployment::knative::sole_ported(containers, i));
        assert forall|k: int|
            #[trigger] crate::restatedeployment::knative::sole_ported(
                containers,
                k,
            ) implies k == i by {
            if k != i {
                assert(!defines_ports(containers[k]));
            }
        }
    }
    if forall|k: int|
        0 <= k < containers.len() ==> (#[trigger] containers[k]).ports is None
            || containers[k].ports->0@.len() == 0 {
        assert forall|k: int| 0 <= k < containers.len() implies !defines_ports(
            #[trigger] containers[k],
        ) by {}
    }
    if 0 <= i < j < containers.len() && containers[i].ports is Some && containers[i].ports->0@.len()
        > 0 && containers[j].ports is Some && containers[j].ports->0@.len() > 0 {
        assert(defines_ports(containers[i]) && defines_ports(containers[j]));
        assert forall|k: int|
            !#[trigger] crate::restatedeployment::knative::sole_ported(containers, k) by {
            if k != i {
                assert(defines_ports(containers[i]));
            } else {
                assert(defines_ports(containers[j]));
            }
        }
    }
}

/// A template without a specification has no containers, and one that cannot be read is refused.
pub proof fn which_containers_are_checked(
    rsd: RestateDeployment,
    parsed: Result<Vec<PortedContainer>, String>,
)
    ensures
        rsd.spec.template.spec is None ==> checked_containers(rsd, parsed) is Ok
            && checked_containers(rsd, parsed)->Ok_0.len() == 0,
        rsd.spec.template.spec is Some ==> match parsed {
            Ok(c) => checked_containers(rsd, parsed) == Ok::<Seq<PortedContainer>, Seq<char>>(c@),
            Err(e) => checked_containers(rsd, parsed) == Err::<Seq<PortedContainer>, Seq<char>>(e@),
        },
{
}

/// A rule of a schema says what it checks and what it says where it fails; a list that is replaced as
/// a whole says so.
pub proof fn what_a_schema_says(rule: Seq<char>, message: Seq<char>, item: Json, name: Seq<char>)
    ensures
        items(Some(rule_json(rule, message))).len() == 1,
        field(items(Some(rule_json(rule, message)))[0], "rule"@) == Some(Json::Text(rule)),
        field(items(Some(rule_json(rule, message)))[0], "message"@) == Some(Json::Text(message)),
        field(atomic_list_json(item), "items"@) == Some(item),
        field(atomic_list_json(item), "nullable"@) == Some(Json::Bool(true)),
        field(atomic_list_json(item), "type"@) == Some(Json::Text("array"@)),
        field(atomic_list_json(item), "x-kubernetes-list-type"@) == Some(Json::Text("atomic"@)),
        field(type_json(name), "type"@) == Some(Json::Text(name)),
{
    reveal_strlit("rule");
    reveal_strlit("message");
    reveal_strlit("items");
    reveal_strlit("nullable");
    reveal_strlit("type");
    reveal_strlit("x-kubernetes-list-type");
    assert("rule"@.len() == 4);
    assert("message"@.len() == 7);
    assert("items"@.len() == 5);
    assert("nullable"@.len() == 8);
    assert("type"@.len() == 4);
    assert("x-kubernetes-list-type"@.len() == 22);
    assert("rule"@[0] == 'r');
    assert("type"@[0] == 't');
}

/// The name of a cluster is the name of a namespace, so that it has at most 63 letters.
pub proof fn what_a_name_may_be()
    ensures
        ({
            let name = at2(metadata_json(), "properties"@, "name"@);
            &&& field(metadata_json(), "type"@) == Some(Json::Text("object"@))
            &&& name is Some
            &&& field(name->0, "maxLength"@) == Some(Json::Int(63))
            &&& field(name->0, "minLength"@) == Some(Json::Int(1))
            &&& field(name->0, "type"@) == Some(Json::Text("string"@))
            &&& field(name->0, "pattern"@) == Some(
                Json::Text(
                    "^[a-z0-9]([-a-z0-9]*[a-z0-9])?(\\.[a-z0-9]([-a-z0-9]*[a-z0-9])?)*$"@,
                ),
            )
        }),
{
    reveal_strlit("properties");
    reveal_strlit("type");
    reveal_strlit("name");
    reveal_strlit("maxLength");
    reveal_strlit("minLength");
    reveal_strlit("pattern");
    assert("properties"@.len() == 10);
    assert("type"@.len() == 4);
    assert("name"@.len() == 4);
    assert("maxLength"@.len() == 9);
    assert("minLength"@.len() == 9);
    assert("pattern"@.len() == 7);
    assert("type"@[0] == 't');
    assert("name"@[0] == 'n');
    assert("maxLength"@[1] == 'a');
    assert("minLength"@[1] == 'i');
}

/// A port of a network policy is a number or a name, with a protocol and, for a range, an end.
pub proof fn what_a_network_port_may_be()
    ensures
        ({
            let j = network_port_json();
            let port = at2(j, "properties"@, "port"@);
            let any = items(at3(j, "properties"@, "port"@, "anyOf"@));
            &&& field(j, "type"@) == Some(Json::Text("object"@))
            &&& port is Some
            &&& field(port->0, "x-kubernetes-int-or-string"@) == Some(Json::Bool(true))
            &&& any.len() == 2
            &&& field(any[0], "type"@) == Some(Json::Text("integer"@))
            &&& field(any[1], "type"@) == Some(Json::Text("string"@))
            &&& at3(j, "properties"@, "endPort"@, "type"@) == Some(Json::Text("integer"@))
            &&& at3(j, "properties"@, "endPort"@, "format"@) == Some(Json::Text("int32"@))
            &&& field(j, "description"@) is Some
            &&& at3(j, "properties"@, "port"@, "description"@) is Some
            &&& at3(j, "properties"@, "endPort"@, "description"@) is Some
            &&& at3(j, "properties"@, "protocol"@, "description"@) is Some
            &&& at3(j, "properties"@, "protocol"@, "type"@) == Some(Json::Text("string"@))
        }),
{
    reveal_strlit("properties");
    reveal_strlit("type");
    reveal_strlit("description");
    reveal_strlit("endPort");
    reveal_strlit("port");
    reveal_strlit("protocol");
    reveal_strlit("anyOf");
    reveal_strlit("x-kubernetes-int-or-string");
    reveal_strlit("format");
    assert("properties"@.len() == 10);
    assert("type"@.len() == 4);
    assert("description"@.len() == 11);
    assert("endPort"@.len() == 7);
    assert("port"@.len() == 4);
    assert("protocol"@.len() == 8);
    assert("anyOf"@.len() == 5);
    assert("x-kubernetes-int-or-string"@.len() == 26);
    assert("format"@.len() == 6);
    assert("type"@[0] == 't');
    assert("port"@[0] == 'p');
}

} // verus!
