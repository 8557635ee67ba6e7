//! A small strategic merge for the pod template overlay.
//!
//! The operator generates a pod template and lets the user lay `spec.template` over it. A plain
//! deep merge would be wrong for the lists that Kubernetes treats as maps: overriding the image of
//! one container would drop every other container. Lists whose merge key is known are therefore
//! merged entry by entry. `$patch` directives are not supported.

use vstd::prelude::*;

use crate::json::{array_view, field, jsons, opt_json, Json, Object, Value};
use crate::text::str_eq;

verus! {

/// The merge key of the lists that are merged entry by entry, by the name of the field.
///
/// Every other list is replaced as a whole.
pub open spec fn merge_key_of(name: Seq<char>) -> Option<Seq<char>> {
    if name == "containers"@ || name == "initContainers"@ || name == "ephemeralContainers"@ || name
        == "volumes"@ || name == "imagePullSecrets"@ || name == "env"@ {
        Some("name"@)
    } else if name == "volumeMounts"@ {
        Some("mountPath"@)
    } else if name == "ports"@ {
        Some("containerPort"@)
    } else if name == "hostAliases"@ {
        Some("ip"@)
    } else {
        None
    }
}

/// The merge key of a list field.
pub fn merge_key(name: &str) -> (r: Option<&'static str>)
    ensures
        crate::text::opt_str(r) == merge_key_of(name@),
{
    if str_eq(name, "containers") || str_eq(name, "initContainers") || str_eq(
        name,
        "ephemeralContainers",
    ) || str_eq(name, "volumes") || str_eq(name, "imagePullSecrets") || str_eq(name, "env") {
        Some("name")
    } else if str_eq(name, "volumeMounts") {
        Some("mountPath")
    } else if str_eq(name, "ports") {
        Some("containerPort")
    } else if str_eq(name, "hostAliases") {
        Some("ip")
    } else {
        None
    }
}

/// The base with the overlay laid over it: two objects merge field by field, anything else is
/// replaced by the overlay.
pub open spec fn merged(base: Json, overlay: Json) -> Json
    decreases overlay, 1nat, 0nat,
{
    match (base, overlay) {
        (Json::Object(b), Json::Object(_)) => Json::Object(merged_fields(b, overlay)),
        _ => overlay,
    }
}

/// The fields of two merged objects: a field that the overlay does not have stays, one that it has
/// as `null` goes, any other is merged.
pub open spec fn merged_fields(base: Map<Seq<char>, Json>, overlay: Json) -> Map<Seq<char>, Json>
    decreases overlay, 0nat, 0nat,
{
    match overlay {
        Json::Object(o) => Map::new(
            |k: Seq<char>|
                if o.contains_key(k) {
                    o[k] !is Null
                } else {
                    base.contains_key(k)
                },
            |k: Seq<char>|
                if o.contains_key(k) {
                    merged_field(
                        k,
                        if base.contains_key(k) {
                            Some(base[k])
                        } else {
                            None
                        },
                        o[k],
                    )
                } else {
                    base[k]
                },
        ),
        _ => base,
    }
}

/// One field of two merged objects: objects merge, lists merge where their merge key is known,
/// anything else is replaced.
pub open spec fn merged_field(name: Seq<char>, base: Option<Json>, overlay: Json) -> Json
    decreases overlay, 1nat, 0nat,
{
    match (base, overlay) {
        (Some(Json::Object(b)), Json::Object(_)) => Json::Object(merged_fields(b, overlay)),
        (Some(Json::Array(b)), Json::Array(o)) => match merge_key_of(name) {
            Some(key) => Json::Array(merged_list(b, overlay, key, o.len())),
            None => overlay,
        },
        _ => overlay,
    }
}

/// A list with the first `n` entries of the overlay merged into it, one after the other.
pub open spec fn merged_list(base: Seq<Json>, overlay: Json, key: Seq<char>, n: nat) -> Seq<Json>
    decreases overlay, 0nat, n,
{
    match overlay {
        Json::Array(o) => if n == 0 || n > o.len() {
            base
        } else {
            let so_far = merged_list(base, overlay, key, (n - 1) as nat);
            let item = o[n - 1];
            match matching_entry(so_far, item, key) {
                Some(i) => so_far.update(i, merged(so_far[i], item)),
                None => so_far.push(item),
            }
        },
        _ => base,
    }
}

/// Whether the entry at `i` has the same merge key as the item.
pub open spec fn entry_matches(base: Seq<Json>, item: Json, key: Seq<char>, i: int) -> bool {
    field(item, key) is Some && field(base[i], key) == field(item, key)
}

/// The first entry with the merge key of the item. An item without the merge key matches none.
pub open spec fn matching_entry(base: Seq<Json>, item: Json, key: Seq<char>) -> Option<int> {
    first_match(base, item, key, 0)
}

/// The first entry from `from` on with the merge key of the item.
pub open spec fn first_match(base: Seq<Json>, item: Json, key: Seq<char>, from: int) -> Option<int>
    decreases base.len() - from,
{
    if from < 0 || from >= base.len() {
        None
    } else if entry_matches(base, item, key, from) {
        Some(from)
    } else {
        first_match(base, item, key, from + 1)
    }
}

/// Lays `overlay` over `base`.
pub fn strategic_merge(base: Value, overlay: &Value) -> (r: Value)
    ensures
        r@ == merged(base@, overlay@),
    decreases *overlay, 1nat,
{
    match (base, overlay) {
        (Value::Object(b), Value::Object(o)) => Value::Object(merge_objects(b, o)),
        (_, overlay) => overlay.duplicate(),
    }
}

fn merge_objects(base: Object, overlay: &Object) -> (r: Object)
    ensures
        r@ == merged_fields(base@, Json::Object(overlay@)),
    decreases *overlay, 0nat,
{
    let ghost b = base@;
    let ghost o = overlay@;
    let n: usize = overlay.len();
    let mut base = base;
    let mut i: usize = 0;
    while i < n
        invariant
            i <= n,
            n == overlay.size(),
            o == overlay@,
            forall|j: int, k: int|
                0 <= j < k < n ==> #[trigger] overlay.name_at(j) != #[trigger] overlay.name_at(k),
            forall|k: Seq<char>| #[trigger]
                base@.contains_key(k) <==> if exists|j: int|
                    0 <= j < i && #[trigger] overlay.name_at(j) == k {
                    o[k] !is Null
                } else {
                    b.contains_key(k)
                },
            forall|k: Seq<char>| #[trigger]
                base@.contains_key(k) ==> base@[k] == if exists|j: int|
                    0 <= j < i && #[trigger] overlay.name_at(j) == k {
                    merged_field(
                        k,
                        if b.contains_key(k) {
                            Some(b[k])
                        } else {
                            None
                        },
                        o[k],
                    )
                } else {
                    b[k]
                },
        decreases n - i,
    {
        let (key, overlay_value) = overlay.entry(i);
        proof {
            assert forall|j: int| 0 <= j < i implies #[trigger] overlay.name_at(j) != key@ by {
                assert(overlay.name_at(i as int) == key@);
            }
            assert(base@.contains_key(key@) == b.contains_key(key@));
        }
        let old_value = base.remove(key.as_str());
        let merged_value = match overlay_value {
            Value::Null => None,
            _ => Some(merge_field(key.as_str(), old_value, overlay_value)),
        };
        match merged_value {
            None => {},
            Some(v) => {
                base.insert(key.clone(), v);
            },
        }
        i = i + 1;
    }
    proof {
        assert(base@ =~= merged_fields(b, Json::Object(o)));
    }
    base
}

fn merge_field(name: &str, base: Option<Value>, overlay: &Value) -> (r: Value)
    requires
        overlay@ !is Null,
    ensures
        r@ == merged_field(name@, opt_json(base), overlay@),
    decreases *overlay, 1nat,
{
    match (base, overlay) {
        (Some(Value::Object(b)), Value::Object(o)) => Value::Object(merge_objects(b, o)),
        (Some(Value::Array(b)), Value::Array(o)) => {
            match merge_key(name) {
                Some(key) => {
                    proof {
                        array_view(b);
                        array_view(*o);
                    }
                    let merged_items = merge_lists(b, o, key);
                    Value::array(merged_items)
                },
                None => overlay.duplicate(),
            }
        },
        (_, overlay) => overlay.duplicate(),
    }
}

fn merge_lists(base: Vec<Value>, overlay: &Vec<Value>, key: &str) -> (r: Vec<Value>)
    ensures
        jsons(r@) == merged_list(
            jsons(base@),
            Json::Array(jsons(overlay@)),
            key@,
            overlay@.len(),
        ),
    decreases *overlay, 0nat,
{
    let ghost b = jsons(base@);
    let ghost o = Json::Array(jsons(overlay@));
    let mut base = base;
    let mut i: usize = 0;
    while i < overlay.len()
        invariant
            i <= overlay.len(),
            o == Json::Array(jsons(overlay@)),
            jsons(base@) == merged_list(b, o, key@, i as nat),
        decreases overlay.len() - i,
    {
        let ghost so_far = jsons(base@);
        let item = &overlay[i];
        let found = find_entry(&base, item, key);
        match found {
            Some(at) => {
                let entry = base.remove(at);
                proof {
                    assert(decreases_to!(*overlay => overlay@));
                    assert(decreases_to!(overlay@ => overlay@[i as int]));
                }
                let merged_entry = strategic_merge(entry, item);
                base.insert(at, merged_entry);
                proof {
                    assert(jsons(base@) =~= so_far.update(
                        at as int,
                        merged(so_far[at as int], item@),
                    ));
                }
            },
            None => {
                base.push(item.duplicate());
                proof {
                    assert(jsons(base@) =~= so_far.push(item@));
                }
            },
        }
        i = i + 1;
    }
    base
}

fn find_entry(base: &Vec<Value>, item: &Value, key: &str) -> (r: Option<usize>)
    ensures
        match r {
            Some(i) => i < base.len() && matching_entry(jsons(base@), item@, key@)
                == Some(i as int),
            None => matching_entry(jsons(base@), item@, key@) is None,
        },
{
    let ghost b = jsons(base@);
    match item.get(key) {
        None => {
            proof {
                lemma_no_match(b, item@, key@, 0);
            }
            None
        },
        Some(value) => {
            let mut i: usize = 0;
            while i < base.len()
                invariant
                    i <= base.len(),
                    b == jsons(base@),
                    field(item@, key@) == Some(value@),
                    matching_entry(b, item@, key@) == first_match(b, item@, key@, i as int),
                decreases base.len() - i,
            {
                match base[i].get(key) {
                    Some(own) => {
                        if own.same(value) {
                            return Some(i);
                        }
                    },
                    None => {},
                }
                i = i + 1;
            }
            None
        },
    }
}

proof fn lemma_no_match(base: Seq<Json>, item: Json, key: Seq<char>, from: int)
    requires
        field(item, key) is None,
    ensures
        first_match(base, item, key, from) is None,
    decreases base.len() - from,
{
    if 0 <= from < base.len() {
        lemma_no_match(base, item, key, from + 1);
    }
}

/// An overlay without fields changes nothing.
pub proof fn empty_overlay_changes_nothing(base: Map<Seq<char>, Json>)
    ensures
        merged(Json::Object(base), Json::Object(Map::empty())) == Json::Object(base),
{
    assert(merged_fields(base, Json::Object(Map::empty())) =~= base);
}

/// A `null` in the overlay removes the field, and a field that the overlay does not name stays as
/// it was.
pub proof fn null_removes_and_silence_keeps(
    base: Map<Seq<char>, Json>,
    overlay: Map<Seq<char>, Json>,
    name: Seq<char>,
)
    ensures
        overlay.contains_key(name) && overlay[name] is Null ==> field(
            merged(Json::Object(base), Json::Object(overlay)),
            name,
        ) is None,
        !overlay.contains_key(name) ==> field(
            merged(Json::Object(base), Json::Object(overlay)),
            name,
        ) == field(Json::Object(base), name),
{
}

/// Whether every entry that has the merge key has a text or an integer under it.
pub open spec fn plain_keys(items: Seq<Json>, key: Seq<char>) -> bool {
    forall|i: int|
        0 <= i < items.len() && field(#[trigger] items[i], key) is Some ==> field(items[i], key)->0
            is Text || field(items[i], key)->0 is Int
}

/// Merging a list keeps every entry of the base at its place under its merge key, and only
/// appends to them.
pub proof fn base_entries_keep_their_places(
    base: Seq<Json>,
    overlay: Seq<Json>,
    key: Seq<char>,
    n: nat,
)
    requires
        n <= overlay.len(),
        plain_keys(overlay, key),
    ensures
        base.len() <= merged_list(base, Json::Array(overlay), key, n).len() <= base.len() + n,
        forall|i: int|
            0 <= i < base.len() ==> field(
                #[trigger] merged_list(base, Json::Array(overlay), key, n)[i],
                key,
            ) == field(base[i], key),
    decreases n,
{
    if n > 0 {
        base_entries_keep_their_places(base, overlay, key, (n - 1) as nat);
        let so_far = merged_list(base, Json::Array(overlay), key, (n - 1) as nat);
        let item = overlay[n - 1];
        lemma_first_match(so_far, item, key, 0);
        match matching_entry(so_far, item, key) {
            Some(at) => {
                let kept = merged(so_far[at], item);
                assert(field(kept, key) == field(item, key));
            },
            None => {},
        }
    }
}

/// An entry that carries the merge key is found in the merged list under that key.
pub proof fn overlay_entries_arrive(
    base: Seq<Json>,
    overlay: Seq<Json>,
    key: Seq<char>,
    n: nat,
    i: int,
)
    requires
        n <= overlay.len(),
        plain_keys(overlay, key),
        0 <= i < n,
        field(overlay[i], key) is Some,
    ensures
        exists|j: int|
            0 <= j < merged_list(base, Json::Array(overlay), key, n).len() && field(
                #[trigger] merged_list(base, Json::Array(overlay), key, n)[j],
                key,
            ) == field(overlay[i], key),
    decreases n,
{
    let so_far = merged_list(base, Json::Array(overlay), key, (n - 1) as nat);
    let now = merged_list(base, Json::Array(overlay), key, n);
    let item = overlay[n - 1];
    lemma_first_match(so_far, item, key, 0);
    if i == n - 1 {
        match matching_entry(so_far, item, key) {
            Some(at) => {
                assert(field(merged(so_far[at], item), key) == field(item, key));
                assert(now[at] == merged(so_far[at], item));
            },
            None => {
                assert(now[so_far.len() as int] == item);
            },
        }
    } else {
        overlay_entries_arrive(base, overlay, key, (n - 1) as nat, i);
        let j = choose|j: int|
            0 <= j < so_far.len() && field(#[trigger] so_far[j], key) == field(overlay[i], key);
        match matching_entry(so_far, item, key) {
            Some(at) => {
                assert(field(merged(so_far[at], item), key) == field(item, key));
                assert(field(now[j], key) == field(overlay[i], key));
            },
            None => {
                assert(now[j] == so_far[j]);
            },
        }
    }
}

proof fn lemma_first_match(base: Seq<Json>, item: Json, key: Seq<char>, from: int)
    requires
        0 <= from,
    ensures
        match first_match(base, item, key, from) {
            Some(i) => from <= i < base.len() && entry_matches(base, item, key, i),
            None => true,
        },
    decreases base.len() - from,
{
    if from < base.len() && !entry_matches(base, item, key, from) {
        lemma_first_match(base, item, key, from + 1);
    }
}

} // verus!
