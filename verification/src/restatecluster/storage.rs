//! The storage of a cluster, and whether its nodes are up.

use vstd::prelude::*;
use vstd::string::*;

use crate::error::Error;
use crate::meta::ObjectMeta;
use crate::restatecluster::canary::is_not_ready;
use crate::restatecluster::labels::{INSTANCE_LABEL, NAME_LABEL};
use crate::restatecluster::quantity::{bytes_are_read_back, bytes_of, quantity_bytes};
use crate::restatecluster::resource::RestateClusterStorage;
use crate::text::{cat3, i64_text, int_text, opt_str, opt_text, str_eq, texts};

verus! {

/// Whether a claim belongs to a cluster.
pub open spec fn is_claim_of(claim: ObjectMeta, cluster: Seq<char>) -> bool {
    claim.label(NAME_LABEL@) == Some("restate"@) && claim.label(INSTANCE_LABEL@) == Some(cluster)
}

/// The names of the claims of a cluster.
pub open spec fn claim_names(claims: Seq<ObjectMeta>, cluster: Seq<char>) -> Seq<Seq<char>>
    decreases claims.len(),
{
    if claims.len() == 0 {
        Seq::empty()
    } else {
        let before = claim_names(claims.drop_last(), cluster);
        if is_claim_of(claims.last(), cluster) {
            before.push(claims.last().any_name())
        } else {
            before
        }
    }
}

fn has_label(meta: &ObjectMeta, key: &str, value: &str) -> (r: bool)
    ensures
        r == (meta.label(key@) == Some(value@)),
{
    match meta.get_label(key) {
        Some(v) => str_eq(v.as_str(), value),
        None => false,
    }
}

/// Finds the claims of a cluster, by name.
pub fn claims_of_cluster(claims: &Vec<ObjectMeta>, cluster: &str) -> (r: Vec<String>)
    ensures
        texts(r@) == claim_names(claims@, cluster@),
{
    let mut out: Vec<String> = Vec::new();
    let mut i: usize = 0;
    proof {
        assert(claims@.take(0) =~= Seq::empty());
        assert(texts(out@) =~= Seq::empty());
    }
    while i < claims.len()
        invariant
            i <= claims.len(),
            texts(out@) == claim_names(claims@.take(i as int), cluster@),
        decreases claims.len() - i,
    {
        let claim = &claims[i];
        let ghost before = texts(out@);
        proof {
            let next = claims@.take(i as int + 1);
            assert(next.drop_last() =~= claims@.take(i as int));
            assert(next.last() == *claim);
        }
        if has_label(claim, NAME_LABEL, "restate") && has_label(claim, INSTANCE_LABEL, cluster) {
            out.push(claim.name_any());
            proof {
                assert(texts(out@) =~= before.push(claim.any_name()));
            }
        }
        i = i + 1;
    }
    proof {
        assert(claims@.take(i as int) =~= claims@);
    }
    out
}

/// The cluster that a claim belongs to.
pub fn cluster_of_claim(claim: &ObjectMeta) -> (r: Option<String>)
    ensures
        opt_text(r) == if claim.label(NAME_LABEL@) == Some("restate"@) {
            claim.label(INSTANCE_LABEL@)
        } else {
            None
        },
{
    if !has_label(claim, NAME_LABEL, "restate") {
        return None;
    }
    match claim.get_label(INSTANCE_LABEL) {
        Some(n) => Some(n.clone()),
        None => None,
    }
}

/// Checks that a claim is bound to a volume.
pub fn check_claim_bound(name: &str, phase: Option<&str>) -> (r: Result<(), Error>)
    ensures
        r is Ok <==> opt_str(phase) == Some("Bound"@),
        r matches Err(e) ==> is_not_ready(
            e,
            "PersistentVolumeClaimNotBound"@,
            "PersistentVolumeClaim "@ + name@ + " is not yet bound to a volume"@,
        ),
{
    let bound: bool = match phase {
        Some(p) => str_eq(p, "Bound"),
        None => false,
    };
    if bound {
        Ok(())
    } else {
        Err(
            Error::NotReady {
                reason: "PersistentVolumeClaimNotBound".to_owned(),
                message: cat3("PersistentVolumeClaim ", name, " is not yet bound to a volume"),
                requeue_after: None,
            },
        )
    }
}

/// The storage of a StatefulSet as it stands, by its first volume claim template.
#[derive(Debug)]
pub struct ExistingStorage {
    /// The storage request, as a quantity.
    pub request: Option<String>,
    pub volume_attributes_class_name: Option<String>,
}

/// Whether the storage of a StatefulSet is what is asked for.
pub open spec fn has_storage(existing: ExistingStorage, storage: RestateClusterStorage) -> bool {
    existing.request is Some && bytes_of(existing.request->0@) == Some(
        storage.storage_request_bytes as int,
    ) && opt_text(existing.volume_attributes_class_name) == opt_text(
        storage.volume_attributes_class_name,
    )
}

/// Whether a StatefulSet has to be made anew, since its volume claim template cannot be changed.
/// Where none is seen there is nothing to delete. The pods are left running.
pub fn change_statefulset_storage(
    existing: &Option<ExistingStorage>,
    storage: &RestateClusterStorage,
) -> (r: bool)
    ensures
        r == (existing is Some && !has_storage(existing->0, *storage)),
{
    match existing {
        None => false,
        Some(e) => {
            let same_size: bool = match &e.request {
                Some(q) => match quantity_bytes(q.as_str()) {
                    Some(n) => n == storage.storage_request_bytes,
                    None => false,
                },
                None => false,
            };
            let same_class: bool = match (
                &e.volume_attributes_class_name,
                &storage.volume_attributes_class_name,
            ) {
                (Some(a), Some(b)) => str_eq(a.as_str(), b.as_str()),
                (None, None) => true,
                _ => false,
            };
            !(same_size && same_class)
        },
    }
}

/// A StatefulSet that stands as it was applied is left alone.
pub proof fn unchanged_storage_is_left_alone(
    existing: ExistingStorage,
    storage: RestateClusterStorage,
)
    requires
        storage.storage_request_bytes >= 0,
        existing.request is Some,
        existing.request->0@ == int_text(storage.storage_request_bytes as int),
        opt_text(existing.volume_attributes_class_name) == opt_text(
            storage.volume_attributes_class_name,
        ),
    ensures
        has_storage(existing, storage),
{
    bytes_are_read_back(storage.storage_request_bytes as int);
}

/// The replica counts that a StatefulSet reports.
#[derive(Debug, Clone, Copy, PartialEq, Eq, Structural)]
pub struct StatefulSetStatus {
    pub replicas: i32,
    pub ready_replicas: Option<i32>,
}

/// What is wrong with a StatefulSet, as a reason and a message.
pub open spec fn stateful_set_complaint(status: Option<StatefulSetStatus>, expected: int) -> Option<
    (Seq<char>, Seq<char>),
> {
    match status {
        None => Some(
            (
                "StatefulSet has no status set; it may have just been created"@,
                "StatefulSetNoStatus"@,
            ),
        ),
        Some(s) => {
            let ready = match s.ready_replicas {
                Some(n) => n as int,
                None => 0,
            };
            if s.replicas != expected {
                Some(
                    (
                        "StatefulSetScaling"@,
                        "StatefulSet has "@ + int_text(s.replicas as int)
                            + " replicas instead of the expected "@ + int_text(expected)
                            + "; it may be scaling up or down"@,
                    ),
                )
            } else if ready != expected {
                Some(
                    (
                        "StatefulSetPodNotReady"@,
                        "StatefulSet has "@ + int_text(ready)
                            + " ready replicas instead of the expected "@ + int_text(expected)
                            + "; a pod may not be ready"@,
                    ),
                )
            } else {
                None
            }
        },
    }
}

fn count_text(count: i32, what: &str, expected: i32, hint: &str) -> (r: String)
    ensures
        r@ == "StatefulSet has "@ + int_text(count as int) + what@ + int_text(expected as int)
            + hint@,
{
    let mut s: String = "StatefulSet has ".to_owned();
    s.append(i64_text(count as i64).as_str());
    s.append(what);
    s.append(i64_text(expected as i64).as_str());
    s.append(hint);
    s
}

/// Checks that a StatefulSet has as many ready replicas as are wanted.
pub fn validate_stateful_set_status(status: Option<StatefulSetStatus>, expected_replicas: i32) -> (r:
    Result<(), Error>)
    ensures
        match stateful_set_complaint(status, expected_replicas as int) {
            None => r is Ok,
            Some((reason, message)) => r matches Err(e) && is_not_ready(e, reason, message),
        },
{
    let s = match status {
        None => {
            return Err(
                Error::NotReady {
                    message: "StatefulSetNoStatus".to_owned(),
                    reason: "StatefulSet has no status set; it may have just been created".to_owned(),
                    requeue_after: None,
                },
            );
        },
        Some(s) => s,
    };
    if s.replicas != expected_replicas {
        return Err(
            Error::NotReady {
                reason: "StatefulSetScaling".to_owned(),
                message: count_text(
                    s.replicas,
                    " replicas instead of the expected ",
                    expected_replicas,
                    "; it may be scaling up or down",
                ),
                requeue_after: None,
            },
        );
    }
    let ready: i32 = match s.ready_replicas {
        Some(n) => n,
        None => 0,
    };
    if ready != expected_replicas {
        return Err(
            Error::NotReady {
                reason: "StatefulSetPodNotReady".to_owned(),
                message: count_text(
                    ready,
                    " ready replicas instead of the expected ",
                    expected_replicas,
                    "; a pod may not be ready",
                ),
                requeue_after: None,
            },
        );
    }
    Ok(())
}

} // verus!
