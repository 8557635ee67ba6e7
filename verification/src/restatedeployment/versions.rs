//! The versions that a deployment owns, and which of them are old.

use vstd::prelude::*;
use vstd::string::*;

use crate::meta::{effective_namespace, namespace_or_default, ObjectMeta};
use crate::text::{opt_str, opt_text, str_eq};
use crate::time::{opt_time, Timestamp};

verus! {

/// The annotation that records the Restate deployment of a version.
pub const RESTATE_DEPLOYMENT_ID_ANNOTATION: &'static str = "restate.dev/deployment-id";

/// The annotation that records the tag of a Knative Configuration.
pub const RESTATE_TAG_ANNOTATION: &'static str = "restate.dev/tag";

/// The kind of the owner of a version.
pub const RESTATE_DEPLOYMENT_KIND: &'static str = "RestateDeployment";

/// Whether an object is owned by the RestateDeployment with this uid.
pub open spec fn owned_by(meta: ObjectMeta, uid: Seq<char>) -> bool {
    match meta.owner_references {
        Some(owners) => exists|i: int|
            0 <= i < owners@.len() && (#[trigger] owners@[i]).uid@ == uid && owners@[i].kind@
                == RESTATE_DEPLOYMENT_KIND@,
        None => false,
    }
}

/// Whether an object stands in a namespace.
pub open spec fn stands_in(meta: ObjectMeta, namespace: Seq<char>) -> bool {
    namespace_or_default(opt_text(meta.namespace)) == namespace
}

/// Whether an object is owned by the RestateDeployment with this uid.
pub fn is_owned_by(meta: &ObjectMeta, uid: &str) -> (r: bool)
    ensures
        r == owned_by(*meta, uid@),
{
    match &meta.owner_references {
        None => false,
        Some(owners) => {
            let mut i: usize = 0;
            while i < owners.len()
                invariant
                    i <= owners.len(),
                    meta.owner_references == Some(*owners),
                    forall|j: int|
                        0 <= j < i ==> !((#[trigger] owners@[j]).uid@ == uid@ && owners@[j].kind@
                            == RESTATE_DEPLOYMENT_KIND@),
                decreases owners.len() - i,
            {
                if str_eq(owners[i].uid.as_str(), uid) && str_eq(
                    owners[i].kind.as_str(),
                    RESTATE_DEPLOYMENT_KIND,
                ) {
                    return true;
                }
                i = i + 1;
            }
            false
        },
    }
}

/// Whether an object stands in a namespace.
pub fn is_in_namespace(meta: &ObjectMeta, namespace: &str) -> (r: bool)
    ensures
        r == stands_in(*meta, namespace@),
{
    let own = match &meta.namespace {
        Some(n) => effective_namespace(Some(n.as_str())),
        None => effective_namespace(None),
    };
    str_eq(own, namespace)
}

/// Whether a ReplicaSet is an old version: owned by the deployment, and not the excepted one.
pub open spec fn is_old_replica_set(
    meta: ObjectMeta,
    namespace: Seq<char>,
    uid: Seq<char>,
    except: Option<Seq<char>>,
) -> bool {
    stands_in(meta, namespace) && except != Some(meta.any_name()) && owned_by(meta, uid)
}

/// Whether a Configuration is an old version: owned by the deployment, tagged otherwise than the
/// active one, and not being deleted.
pub open spec fn is_old_configuration(
    meta: ObjectMeta,
    namespace: Seq<char>,
    uid: Seq<char>,
    active_tag: Option<Seq<char>>,
) -> bool {
    &&& stands_in(meta, namespace)
    &&& meta.annotation(RESTATE_TAG_ANNOTATION@) is Some
    &&& meta.annotation(RESTATE_TAG_ANNOTATION@) != active_tag
    &&& meta.deletion_timestamp is None
    &&& owned_by(meta, uid)
}

/// Whether one creation time is later than another. An object without one is older than all.
pub open spec fn newer(a: Option<int>, b: Option<int>) -> bool {
    match (a, b) {
        (Some(x), Some(y)) => x > y,
        (Some(_), None) => true,
        _ => false,
    }
}

/// Whether one object comes before another: the newer first, of two of one age the first of the
/// list.
pub open spec fn comes_before(objects: Seq<ObjectMeta>, i: int, j: int) -> bool {
    let a = opt_time(objects[i].creation_timestamp);
    let b = opt_time(objects[j].creation_timestamp);
    newer(a, b) || (a == b && i < j)
}

/// Whether the indices list the chosen objects, each once, newest first.
pub open spec fn lists_newest_first(
    objects: Seq<ObjectMeta>,
    chosen: spec_fn(ObjectMeta) -> bool,
    order: Seq<usize>,
) -> bool {
    &&& forall|a: int, b: int|
        0 <= a < b < order.len() ==> comes_before(
            objects,
            #[trigger] order[a] as int,
            #[trigger] order[b] as int,
        )
    &&& forall|a: int|
        0 <= a < order.len() ==> 0 <= (#[trigger] order[a]) < objects.len() && chosen(
            objects[order[a] as int],
        )
    &&& forall|i: int|
        0 <= i < objects.len() && chosen(#[trigger] objects[i]) ==> exists|a: int|
            0 <= a < order.len() && #[trigger] order[a] == i
}

fn is_newer(a: &Option<Timestamp>, b: &Option<Timestamp>) -> (r: bool)
    ensures
        r == newer(opt_time(*a), opt_time(*b)),
{
    match (a, b) {
        (Some(x), Some(y)) => y.is_before(x),
        (Some(_), None) => true,
        _ => false,
    }
}

/// Lists the objects that are flagged, newest first.
fn newest_first(
    objects: &Vec<ObjectMeta>,
    flags: &Vec<bool>,
    chosen: Ghost<spec_fn(ObjectMeta) -> bool>,
) -> (r: Vec<usize>)
    requires
        flags@.len() == objects@.len(),
        forall|i: int| 0 <= i < objects@.len() ==> flags@[i] == chosen@(#[trigger] objects@[i]),
    ensures
        lists_newest_first(objects@, chosen@, r@),
{
    let mut order: Vec<usize> = Vec::new();
    let mut i: usize = 0;
    while i < objects.len()
        invariant
            i <= objects.len(),
            flags@.len() == objects@.len(),
            forall|k: int| 0 <= k < objects@.len() ==> flags@[k] == chosen@(#[trigger] objects@[k]),
            forall|a: int, b: int|
                0 <= a < b < order@.len() ==> comes_before(
                    objects@,
                    #[trigger] order@[a] as int,
                    #[trigger] order@[b] as int,
                ),
            forall|a: int|
                0 <= a < order@.len() ==> 0 <= (#[trigger] order@[a]) < i && chosen@(
                    objects@[order@[a] as int],
                ),
            forall|k: int|
                0 <= k < i && chosen@(#[trigger] objects@[k]) ==> exists|a: int|
                    0 <= a < order@.len() && #[trigger] order@[a] == k,
        decreases objects.len() - i,
    {
        if flags[i] {
            let mut at: usize = 0;
            while at < order.len() && !is_newer(
                &objects[i].creation_timestamp,
                &objects[order[at]].creation_timestamp,
            )
                invariant
                    at <= order.len(),
                    i < objects.len(),
                    forall|a: int|
                        0 <= a < order@.len() ==> 0 <= (#[trigger] order@[a]) < i,
                    forall|a: int|
                        0 <= a < at ==> comes_before(objects@, #[trigger] order@[a] as int, i as int),
                decreases order.len() - at,
            {
                at = at + 1;
            }
            let ghost before = order@;
            order.insert(at, i);
            proof {
                assert forall|a: int, b: int| 0 <= a < b < order@.len() implies comes_before(
                    objects@,
                    #[trigger] order@[a] as int,
                    #[trigger] order@[b] as int,
                ) by {
                    let pa = if a < at { a } else { a - 1 };
                    let pb = if b < at { b } else { b - 1 };
                    if a == at {
                        assert(order@[b] == before[pb]);
                        if pb > at {
                            assert(comes_before(objects@, before[at as int] as int, before[pb] as int));
                        }
                    } else if b == at {
                        assert(order@[a] == before[pa]);
                    } else {
                        assert(order@[a] == before[pa] && order@[b] == before[pb]);
                    }
                }
                assert forall|a: int| 0 <= a < order@.len() implies 0 <= (#[trigger] order@[a]) < i
                    + 1 && chosen@(objects@[order@[a] as int]) by {
                    let pa = if a < at { a } else { a - 1 };
                    if a != at {
                        assert(order@[a] == before[pa]);
                    }
                }
                assert forall|k: int| 0 <= k < i + 1 && chosen@(#[trigger] objects@[k]) implies exists|
                    a: int,
                |
                    0 <= a < order@.len() && #[trigger] order@[a] == k by {
                    if k == i {
                        assert(order@[at as int] == i);
                    } else {
                        let p = choose|a: int| 0 <= a < before.len() && #[trigger] before[a] == k;
                        let a = if p < at { p } else { p + 1 };
                        assert(order@[a] == before[p]);
                    }
                }
            }
        }
        i = i + 1;
    }
    order
}

/// The old ReplicaSets of a deployment, newest first, by their places in the list.
pub fn old_replica_sets(
    objects: &Vec<ObjectMeta>,
    namespace: &str,
    uid: &str,
    except: Option<&str>,
) -> (r: Vec<usize>)
    ensures
        lists_newest_first(
            objects@,
            |m: ObjectMeta| is_old_replica_set(m, namespace@, uid@, opt_str(except)),
            r@,
        ),
{
    let ghost chosen = |m: ObjectMeta| is_old_replica_set(m, namespace@, uid@, opt_str(except));
    let mut flags: Vec<bool> = Vec::new();
    let mut i: usize = 0;
    while i < objects.len()
        invariant
            i <= objects.len(),
            flags@.len() == i,
            forall|k: int|
                0 <= k < i ==> flags@[k] == is_old_replica_set(
                    #[trigger] objects@[k],
                    namespace@,
                    uid@,
                    opt_str(except),
                ),
        decreases objects.len() - i,
    {
        let meta = &objects[i];
        let excepted: bool = match except {
            Some(name) => str_eq(name, meta.name_any().as_str()),
            None => false,
        };
        flags.push(is_in_namespace(meta, namespace) && !excepted && is_owned_by(meta, uid));
        i = i + 1;
    }
    newest_first(objects, &flags, Ghost(chosen))
}

/// The tag of a Configuration.
pub fn get_configuration_tag(meta: &ObjectMeta) -> (r: Option<String>)
    ensures
        opt_text(r) == meta.annotation(RESTATE_TAG_ANNOTATION@),
{
    match meta.get_annotation(RESTATE_TAG_ANNOTATION) {
        Some(tag) => Some(tag.clone()),
        None => None,
    }
}

/// The old Configurations of a deployment, newest first, by their places in the list.
pub fn old_configurations(
    objects: &Vec<ObjectMeta>,
    namespace: &str,
    uid: &str,
    active_tag: Option<&str>,
) -> (r: Vec<usize>)
    ensures
        lists_newest_first(
            objects@,
            |m: ObjectMeta| is_old_configuration(m, namespace@, uid@, opt_str(active_tag)),
            r@,
        ),
{
    let ghost chosen = |m: ObjectMeta|
        is_old_configuration(m, namespace@, uid@, opt_str(active_tag));
    let mut flags: Vec<bool> = Vec::new();
    let mut i: usize = 0;
    while i < objects.len()
        invariant
            i <= objects.len(),
            flags@.len() == i,
            forall|k: int|
                0 <= k < i ==> flags@[k] == is_old_configuration(
                    #[trigger] objects@[k],
                    namespace@,
                    uid@,
                    opt_str(active_tag),
                ),
        decreases objects.len() - i,
    {
        let meta = &objects[i];
        let superseded: bool = match get_configuration_tag(meta) {
            Some(tag) => match active_tag {
                Some(active) => !str_eq(tag.as_str(), active),
                None => true,
            },
            None => false,
        };
        flags.push(
            is_in_namespace(meta, namespace) && superseded && meta.deletion_timestamp.is_none()
                && is_owned_by(meta, uid),
        );
        i = i + 1;
    }
    newest_first(objects, &flags, Ghost(chosen))
}

} // verus!
