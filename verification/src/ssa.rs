//! Deciding whether a server-side apply would change anything.
//!
//! The operator applies the objects that it owns on every reconcile. An apply that changes nothing
//! still comes back as an event, and so as another reconcile; hence applies are conditional. An
//! apply also drops the fields that the manager owns and no longer lists, so that a skipped apply
//! must not leave any of these behind.

use vstd::prelude::*;
use vstd::string::*;

use crate::json::{field, Json, Object, Value};
use crate::meta::{entries, opt_map, ManagedFieldsEntry, ObjectMeta};
use crate::string_map::{lists, StringMap};
use crate::text::{chars_of, opt_text, starts_with_str, str_eq};

verus! {

/// The field of the managed fields that lists annotations.
pub const ANNOTATION_FIELDS: &'static str = "f:annotations";

/// The field of the managed fields that lists labels.
pub const LABEL_FIELDS: &'static str = "f:labels";

/// Whether an entry of the managed fields lists a key. Entries of a subresource do not count: who
/// owns the replica count through the scale says nothing about who owns metadata.
pub open spec fn entry_owns(
    e: ManagedFieldsEntry,
    manager: Seq<char>,
    fields_key: Seq<char>,
    key: Seq<char>,
) -> bool {
    &&& opt_text(e.manager) == Some(manager)
    &&& e.subresource is None
    &&& e.fields_v1 matches Some(v) && (field(v@, "f:metadata"@) matches Some(m) && (field(
        m,
        fields_key,
    ) matches Some(Json::Object(o)) && o.contains_key("f:"@ + key)))
}

/// Whether a manager owns a key of the labels or annotations.
pub open spec fn owns(
    meta: ObjectMeta,
    manager: Seq<char>,
    fields_key: Seq<char>,
    key: Seq<char>,
) -> bool {
    match meta.managed_fields {
        Some(list) => exists|i: int|
            0 <= i < list@.len() && entry_owns(#[trigger] list@[i], manager, fields_key, key),
        None => false,
    }
}

/// Whether an apply would change the entries: one is missing or stale, or the manager owns a key
/// that is no longer wanted.
///
/// Other managers add entries of their own, so that more than is wanted may be there.
pub open spec fn would_change(
    meta: ObjectMeta,
    manager: Seq<char>,
    fields_key: Seq<char>,
    existing: Map<Seq<char>, Seq<char>>,
    desired: Map<Seq<char>, Seq<char>>,
) -> bool {
    ||| exists|k: Seq<char>| #[trigger]
        desired.contains_key(k) && !(existing.contains_key(k) && existing[k] == desired[k])
    ||| exists|k: Seq<char>| #[trigger]
        owns(meta, manager, fields_key, k) && !desired.contains_key(k)
}

/// Whether an apply of annotations would change them.
pub fn annotations_need_apply(meta: &ObjectMeta, manager: &str, desired: &StringMap) -> (r: bool)
    ensures
        r == would_change(
            *meta,
            manager@,
            ANNOTATION_FIELDS@,
            entries(opt_map(meta.annotations)),
            desired@,
        ),
{
    fields_need_apply(meta, manager, ANNOTATION_FIELDS, &meta.annotations, desired)
}

/// Whether an apply of labels would change them.
pub fn labels_need_apply(meta: &ObjectMeta, manager: &str, desired: &StringMap) -> (r: bool)
    ensures
        r == would_change(
            *meta,
            manager@,
            LABEL_FIELDS@,
            entries(opt_map(meta.labels)),
            desired@,
        ),
{
    fields_need_apply(meta, manager, LABEL_FIELDS, &meta.labels, desired)
}

fn fields_need_apply(
    meta: &ObjectMeta,
    manager: &str,
    fields_key: &str,
    existing: &Option<StringMap>,
    desired: &StringMap,
) -> (r: bool)
    ensures
        r == would_change(*meta, manager@, fields_key@, entries(opt_map(*existing)), desired@),
{
    let ghost have = entries(opt_map(*existing));
    let n: usize = desired.len();
    let mut i: usize = 0;
    while i < n
        invariant
            i <= n,
            n == desired.pairs().len(),
            lists(desired.pairs(), desired@),
            have == entries(opt_map(*existing)),
            forall|j: int|
                0 <= j < i ==> have.contains_key((#[trigger] desired.pairs()[j]).0)
                    && have[desired.pairs()[j].0] == desired.pairs()[j].1,
        decreases n - i,
    {
        let (k, v) = desired.entry(i);
        let fresh: bool = match existing {
            Some(m) => match m.get(k.as_str()) {
                Some(own) => str_eq(own.as_str(), v.as_str()),
                None => false,
            },
            None => false,
        };
        if !fresh {
            proof {
                assert(desired@.contains_key(k@));
            }
            return true;
        }
        i = i + 1;
    }
    let stray: bool = owns_unwanted(meta, manager, fields_key, desired);
    proof {
        assert forall|k: Seq<char>| #[trigger] desired@.contains_key(k) implies have.contains_key(k)
            && have[k] == desired@[k] by {
            let j = choose|j: int|
                0 <= j < desired.pairs().len() && #[trigger] desired.pairs()[j] == (k, desired@[k]);
            assert(desired.pairs()[j].0 == k);
        }
    }
    stray
}

/// Whether the manager owns a key that is not wanted.
fn owns_unwanted(meta: &ObjectMeta, manager: &str, fields_key: &str, desired: &StringMap) -> (r:
    bool)
    ensures
        r == exists|k: Seq<char>| #[trigger]
            owns(*meta, manager@, fields_key@, k) && !desired@.contains_key(k),
{
    match &meta.managed_fields {
        None => false,
        Some(list) => {
            let mut i: usize = 0;
            while i < list.len()
                invariant
                    i <= list.len(),
                    meta.managed_fields == Some(*list),
                    forall|j: int, k: Seq<char>|
                        0 <= j < i && #[trigger] entry_owns(list@[j], manager@, fields_key@, k)
                            ==> desired@.contains_key(k),
                decreases list.len() - i,
            {
                if entry_owns_unwanted(&list[i], manager, fields_key, desired) {
                    proof {
                        let k = choose|k: Seq<char>| #[trigger]
                            entry_owns(list@[i as int], manager@, fields_key@, k)
                                && !desired@.contains_key(k);
                        let all = meta.managed_fields->0@;
                        assert(entry_owns(all[i as int], manager@, fields_key@, k));
                        assert(owns(*meta, manager@, fields_key@, k));
                    }
                    return true;
                }
                i = i + 1;
            }
            false
        },
    }
}

fn entry_owns_unwanted(
    e: &ManagedFieldsEntry,
    manager: &str,
    fields_key: &str,
    desired: &StringMap,
) -> (r: bool)
    ensures
        r == exists|k: Seq<char>| #[trigger]
            entry_owns(*e, manager@, fields_key@, k) && !desired@.contains_key(k),
{
    let ours: bool = match &e.manager {
        Some(m) => str_eq(m.as_str(), manager),
        None => false,
    };
    if !ours || e.subresource.is_some() {
        return false;
    }
    let fields: &Object = match &e.fields_v1 {
        Some(v) => match v.get("f:metadata") {
            Some(m) => match m.get(fields_key) {
                Some(Value::Object(o)) => o,
                _ => {
                    return false;
                },
            },
            None => {
                return false;
            },
        },
        None => {
            return false;
        },
    };
    let ghost o = fields@;
    proof {
        assert(forall|k: Seq<char>| #[trigger]
            entry_owns(*e, manager@, fields_key@, k) <==> o.contains_key("f:"@ + k));
        reveal_strlit("f:");
    }
    let n: usize = fields.len();
    let mut i: usize = 0;
    while i < n
        invariant
            i <= n,
            n == fields.size(),
            o == fields@,
            forall|k: Seq<char>| #[trigger]
                entry_owns(*e, manager@, fields_key@, k) <==> o.contains_key("f:"@ + k),
            "f:"@.len() == 2,
            forall|j: int, k: Seq<char>|
                #![trigger fields.name_at(j), desired@.contains_key(k)]
                0 <= j < i && fields.name_at(j) == "f:"@ + k ==> desired@.contains_key(k),
        decreases n - i,
    {
        let (name, v) = fields.entry(i);
        if starts_with_str(name.as_str(), "f:") {
            let chars: Vec<char> = chars_of(name.as_str());
            let key: &str = name.as_str().substring_char(2, chars.len());
            proof {
                assert(name@ =~= "f:"@ + key@);
            }
            if !desired.contains_key(key) {
                proof {
                    assert(entry_owns(*e, manager@, fields_key@, key@));
                }
                return true;
            }
            proof {
                assert forall|k: Seq<char>| name@ == "f:"@ + k implies k == key@ by {
                    assert(k =~= name@.skip(2));
                    assert(key@ =~= name@.skip(2));
                }
            }
        } else {
            proof {
                assert forall|k: Seq<char>| name@ != "f:"@ + k by {
                    assert(("f:"@ + k).take(2) =~= "f:"@);
                }
            }
        }
        i = i + 1;
    }
    proof {
        assert forall|k: Seq<char>| #[trigger]
            entry_owns(*e, manager@, fields_key@, k) implies desired@.contains_key(k) by {
            let name = "f:"@ + k;
            assert(o.contains_key(name));
            let j = choose|j: int| 0 <= j < n && #[trigger] fields.name_at(j) == name;
            assert(fields.name_at(j) == "f:"@ + k);
        }
    }
    false
}

/// Entries that are exactly those wanted, and owned keys that are all wanted, need no apply.
pub proof fn no_apply_after_an_apply(
    meta: ObjectMeta,
    manager: Seq<char>,
    fields_key: Seq<char>,
    existing: Map<Seq<char>, Seq<char>>,
    desired: Map<Seq<char>, Seq<char>>,
)
    requires
        desired.submap_of(existing),
        forall|k: Seq<char>| #[trigger]
            owns(meta, manager, fields_key, k) ==> desired.contains_key(k),
    ensures
        !would_change(meta, manager, fields_key, existing, desired),
{
    assert forall|k: Seq<char>| #[trigger] desired.contains_key(k) implies existing.contains_key(k)
        && existing[k] == desired[k] by {
        assert(desired.dom().contains(k));
    }
}

} // verus!
