//! The labels and the metadata of what a cluster owns.

use vstd::prelude::*;

use crate::json::Json;
use crate::meta::{
    entries, map_or_empty, opt_map, selector_json, LabelSelector, MetaView, ObjectMeta,
};
use crate::string_map::StringMap;

verus! {

pub const NAME_LABEL: &'static str = "app.kubernetes.io/name";

pub const INSTANCE_LABEL: &'static str = "app.kubernetes.io/instance";

/// The labels of everything that a cluster of this name owns. They cannot be changed: those of a
/// volume template are immutable.
pub open spec fn mandatory(name: Seq<char>) -> Map<Seq<char>, Seq<char>> {
    Map::<Seq<char>, Seq<char>>::empty().insert(NAME_LABEL@, "restate"@).insert(
        INSTANCE_LABEL@,
        name,
    )
}

/// The labels of everything that a cluster owns.
pub fn mandatory_labels(base_metadata: &ObjectMeta) -> (r: StringMap)
    requires
        base_metadata.name is Some,
    ensures
        r@ == mandatory(base_metadata@.name->0),
{
    let name: Option<String> = base_metadata.name.clone();
    let mut labels = StringMap::new();
    labels.insert(NAME_LABEL.to_owned(), "restate".to_owned());
    labels.insert(INSTANCE_LABEL.to_owned(), name.unwrap());
    labels
}

/// The selector of what a cluster owns, as JSON.
pub open spec fn cluster_selector(name: Seq<char>) -> Json {
    selector_json(Some(mandatory(name)), None)
}

/// The selector of what a cluster owns.
pub fn label_selector(base_metadata: &ObjectMeta) -> (r: LabelSelector)
    requires
        base_metadata.name is Some,
    ensures
        r@ == cluster_selector(base_metadata@.name->0),
        opt_map(r.match_labels) == Some(mandatory(base_metadata@.name->0)),
{
    LabelSelector { match_labels: Some(mandatory_labels(base_metadata)), match_expressions: None }
}

/// The metadata of an object of this name: that of the cluster, with the labels on top of its own.
pub open spec fn object_view(base: MetaView, name: Seq<char>) -> MetaView {
    MetaView {
        name: Some(name),
        labels: Some(entries(base.labels).union_prefer_right(mandatory(base.name->0))),
        ..base
    }
}

/// The metadata of an object of this name.
pub fn object_meta(base_metadata: &ObjectMeta, name: &str) -> (r: ObjectMeta)
    requires
        base_metadata.name is Some,
    ensures
        r@ == object_view(base_metadata@, name@),
        r.name is Some,
        r.unwritten_as(base_metadata),
{
    let mut labels = map_or_empty(&base_metadata.labels);
    labels.extend(&mandatory_labels(base_metadata));
    let mut meta = base_metadata.duplicate();
    meta.name = Some(name.to_owned());
    meta.labels = Some(labels);
    meta
}

/// Whatever a user labels a cluster with, its selector finds what it owns.
pub proof fn selector_finds_owned_objects(base: MetaView, name: Seq<char>, key: Seq<char>)
    requires
        base.name is Some,
        mandatory(base.name->0).contains_key(key),
    ensures
        object_view(base, name).labels->0.contains_key(key),
        object_view(base, name).labels->0[key] == mandatory(base.name->0)[key],
{
}

} // verus!
