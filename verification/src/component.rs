//! The labels and the metadata of what a component of the operator owns.

use vstd::prelude::*;

use crate::json::Json;
use crate::meta::{
    entries, map_or_empty, opt_map, selector_json, LabelSelector, MetaView, ObjectMeta,
};
use crate::string_map::StringMap;

verus! {

pub const NAME_LABEL: &'static str = "app.kubernetes.io/name";

pub const INSTANCE_LABEL: &'static str = "app.kubernetes.io/instance";

pub const MANAGED_BY_LABEL: &'static str = "app.kubernetes.io/managed-by";

/// The labels that identify the pods of an instance of a component. They end up in the selector of
/// its Deployment, which cannot be changed.
pub open spec fn selecting(component: Seq<char>, instance: Seq<char>) -> Map<Seq<char>, Seq<char>> {
    Map::<Seq<char>, Seq<char>>::empty().insert(NAME_LABEL@, component).insert(
        INSTANCE_LABEL@,
        instance,
    )
}

/// The labels of everything that an instance owns. The watches of the operator go by the last one.
pub open spec fn owning(component: Seq<char>, instance: Seq<char>) -> Map<Seq<char>, Seq<char>> {
    selecting(component, instance).insert(MANAGED_BY_LABEL@, "restate-operator"@)
}

/// The labels that identify the pods of an instance.
pub fn selector_labels(component: &str, base_metadata: &ObjectMeta) -> (r: StringMap)
    requires
        base_metadata.name is Some,
    ensures
        r@ == selecting(component@, base_metadata@.name->0),
{
    let name: Option<String> = base_metadata.name.clone();
    let mut labels = StringMap::new();
    labels.insert(NAME_LABEL.to_owned(), component.to_owned());
    labels.insert(INSTANCE_LABEL.to_owned(), name.unwrap());
    labels
}

/// The labels of everything that an instance owns.
pub fn mandatory_labels(component: &str, base_metadata: &ObjectMeta) -> (r: StringMap)
    requires
        base_metadata.name is Some,
    ensures
        r@ == owning(component@, base_metadata@.name->0),
{
    let mut labels = selector_labels(component, base_metadata);
    labels.insert(MANAGED_BY_LABEL.to_owned(), "restate-operator".to_owned());
    labels
}

/// The selector of the pods of an instance, as JSON.
pub open spec fn instance_selector(component: Seq<char>, instance: Seq<char>) -> Json {
    selector_json(Some(selecting(component, instance)), None)
}

/// The selector of the pods of an instance.
pub fn label_selector(component: &str, base_metadata: &ObjectMeta) -> (r: LabelSelector)
    requires
        base_metadata.name is Some,
    ensures
        r@ == instance_selector(component@, base_metadata@.name->0),
        opt_map(r.match_labels) == Some(selecting(component@, base_metadata@.name->0)),
{
    LabelSelector {
        match_labels: Some(selector_labels(component, base_metadata)),
        match_expressions: None,
    }
}

/// The metadata of what an instance owns: its own, with the labels on top.
pub open spec fn owned_view(component: Seq<char>, base: MetaView) -> MetaView {
    MetaView {
        labels: Some(entries(base.labels).union_prefer_right(owning(component, base.name->0))),
        ..base
    }
}

/// The metadata of what an instance owns.
pub fn object_meta(component: &str, base_metadata: &ObjectMeta) -> (r: ObjectMeta)
    requires
        base_metadata.name is Some,
    ensures
        r@ == owned_view(component@, base_metadata@),
        r.unwritten_as(base_metadata),
{
    let mut labels = map_or_empty(&base_metadata.labels);
    labels.extend(&mandatory_labels(component, base_metadata));
    let mut meta = base_metadata.duplicate();
    meta.labels = Some(labels);
    meta
}

/// Whatever a user labels an instance with, its selector finds its pods.
pub proof fn selector_finds_owned_pods(component: Seq<char>, base: MetaView, key: Seq<char>)
    requires
        base.name is Some,
        selecting(component, base.name->0).contains_key(key),
    ensures
        owned_view(component, base).labels->0.contains_key(key),
        owned_view(component, base).labels->0[key] == selecting(component, base.name->0)[key],
{
    reveal_strlit("app.kubernetes.io/name");
    reveal_strlit("app.kubernetes.io/instance");
    reveal_strlit("app.kubernetes.io/managed-by");
    assert(MANAGED_BY_LABEL@.len() != NAME_LABEL@.len());
    assert(MANAGED_BY_LABEL@.len() != INSTANCE_LABEL@.len());
}

} // verus!
