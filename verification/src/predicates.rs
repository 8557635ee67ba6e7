//! What of an object has to change for its owner to be looked at again.
//!
//! Without such a choice every event of a watch would do, and so would the bare version bumps that
//! the writes of the operator itself cause.

use vstd::prelude::*;

use crate::manifest::ConfigMap;
use crate::meta::{entries, map_or_empty, opt_map, ObjectMeta};
use crate::restatedeployment::service::{Service, ServiceSpec};
use crate::string_map::StringMap;

verus! {

/// What of the metadata of an object is watched: its generation, which goes with its specification,
/// its labels and its annotations.
#[derive(Debug)]
pub struct WatchedMetadata {
    pub generation: Option<i64>,
    pub labels: StringMap,
    pub annotations: StringMap,
}

/// What of the metadata of an object is watched.
pub struct WatchedView {
    pub generation: Option<i64>,
    pub labels: Map<Seq<char>, Seq<char>>,
    pub annotations: Map<Seq<char>, Seq<char>>,
}

/// What of the metadata of an object is watched.
pub open spec fn watched(meta: ObjectMeta) -> WatchedView {
    WatchedView {
        generation: meta.generation,
        labels: entries(opt_map(meta.labels)),
        annotations: entries(opt_map(meta.annotations)),
    }
}

impl WatchedMetadata {
    /// What is watched.
    pub open spec fn view(&self) -> WatchedView {
        WatchedView {
            generation: self.generation,
            labels: self.labels@,
            annotations: self.annotations@,
        }
    }

    /// Whether nothing that is watched differs.
    pub fn same(&self, other: &WatchedMetadata) -> (r: bool)
        ensures
            r == (self@ == other@),
    {
        let same_generation: bool = match (self.generation, other.generation) {
            (Some(a), Some(b)) => a == b,
            (None, None) => true,
            _ => false,
        };
        same_generation && self.labels.same(&other.labels) && self.annotations.same(
            &other.annotations,
        )
    }
}

/// Picks what is watched of the metadata of an object.
pub fn changed_predicate(meta: &ObjectMeta) -> (r: WatchedMetadata)
    ensures
        r@ == watched(*meta),
{
    WatchedMetadata {
        generation: meta.generation,
        labels: map_or_empty(&meta.labels),
        annotations: map_or_empty(&meta.annotations),
    }
}

/// The metadata of a deleted object counts as changed, though nothing but its generation differs
/// from the last that was seen.
pub proof fn deletions_are_changes(before: ObjectMeta, after: ObjectMeta)
    requires
        before.generation matches Some(g) ==> g < i64::MAX,
        after.generation == match before.generation {
            Some(g) => Some((g + 1) as i64),
            None => Some(0i64),
        },
    ensures
        watched(before) != watched(after),
{
}

/// An object whose specification, or what stands for it, can be read.
pub trait MyHasSpec {
    type Spec;

    /// What is read.
    spec fn content(&self) -> Self::Spec;

    /// The specification.
    fn spec(&self) -> (r: &Self::Spec)
        ensures
            *r == self.content(),
    ;
}

impl MyHasSpec for Service {
    type Spec = Option<ServiceSpec>;

    open spec fn content(&self) -> Option<ServiceSpec> {
        self.spec
    }

    fn spec(&self) -> (r: &Option<ServiceSpec>) {
        &self.spec
    }
}

impl MyHasSpec for ConfigMap {
    type Spec = Option<StringMap>;

    open spec fn content(&self) -> Option<StringMap> {
        self.data
    }

    fn spec(&self) -> (r: &Option<StringMap>) {
        &self.data
    }
}

} // verus!
