//! Whether a server-side apply would change anything.

use restate_operator::json::{Object, Value};
use restate_operator::meta::{ManagedFieldsEntry, ObjectMeta};
use restate_operator::ssa::{annotations_need_apply, labels_need_apply};
use restate_operator::string_map::StringMap;

const MANAGER: &str = "restate-operator/propagate-annotations";

fn desired(entries: &[(&str, &str)]) -> StringMap {
    let mut map = StringMap::new();
    for (k, v) in entries {
        map.insert(k.to_string(), v.to_string());
    }
    map
}

fn fields(section: &str, owned: &[&str]) -> Option<Value> {
    let mut keys = Object::new();
    for key in owned {
        keys.insert(format!("f:{key}"), Value::Object(Object::new()));
    }
    let mut metadata = Object::new();
    metadata.put(section, Value::Object(keys));
    let mut all = Object::new();
    all.put("f:metadata", Value::Object(metadata));
    Some(Value::Object(all))
}

fn entry(manager: &str, subresource: Option<&str>, fields_v1: Option<Value>) -> ManagedFieldsEntry {
    ManagedFieldsEntry {
        manager: Some(manager.to_owned()),
        subresource: subresource.map(|s| s.to_owned()),
        fields_v1,
    }
}

fn meta(annotations: &[(&str, &str)], owned: &[&str]) -> ObjectMeta {
    let mut meta = ObjectMeta::empty();
    meta.annotations = Some(desired(annotations));
    meta.managed_fields = Some(vec![
        entry(MANAGER, None, fields("f:annotations", owned)),
        // another manager owning the same shape must not be read as ours
        entry(
            "restate-operator/deployment-id",
            None,
            fields("f:annotations", &["restate.dev/deployment-id"]),
        ),
    ]);
    meta
}

#[test]
fn no_apply_when_every_desired_annotation_is_already_set() {
    let meta = meta(&[("a", "1"), ("restate.dev/deployment-id", "dp_1")], &["a"]);
    assert!(!annotations_need_apply(&meta, MANAGER, &desired(&[("a", "1")])));
}

#[test]
fn apply_when_an_annotation_is_missing_or_stale() {
    let meta = meta(&[("a", "1")], &["a"]);
    assert!(annotations_need_apply(&meta, MANAGER, &desired(&[("a", "1"), ("b", "2")])));
    assert!(annotations_need_apply(&meta, MANAGER, &desired(&[("a", "2")])));
}

#[test]
fn apply_when_an_owned_annotation_is_no_longer_desired() {
    let meta = meta(&[("a", "1"), ("b", "2")], &["a", "b"]);
    assert!(annotations_need_apply(&meta, MANAGER, &desired(&[("a", "1")])));
}

#[test]
fn no_apply_for_annotations_owned_by_another_manager() {
    let meta = meta(&[("restate.dev/deployment-id", "dp_1")], &[]);
    assert!(!annotations_need_apply(&meta, MANAGER, &desired(&[])));
}

#[test]
fn subresource_entries_are_ignored() {
    let mut meta = meta(&[], &[]);
    meta.managed_fields
        .as_mut()
        .unwrap()
        .push(entry(MANAGER, Some("scale"), fields("f:annotations", &["ghost"])));

    assert!(!annotations_need_apply(&meta, MANAGER, &desired(&[])));
}

#[test]
fn labels_follow_the_same_rules() {
    let mut meta = ObjectMeta::empty();
    meta.labels = Some(desired(&[("app", "greeter"), ("extra", "kept")]));
    meta.managed_fields = Some(vec![entry(MANAGER, None, fields("f:labels", &["app"]))]);

    assert!(!labels_need_apply(&meta, MANAGER, &desired(&[("app", "greeter")])));

    meta.labels = Some(desired(&[("app", "other")]));
    assert!(labels_need_apply(&meta, MANAGER, &desired(&[("app", "greeter")])));
}

#[test]
fn annotations_and_labels_are_kept_apart() {
    // owning a label says nothing of the annotation of the same name
    let mut meta = ObjectMeta::empty();
    meta.managed_fields = Some(vec![entry(MANAGER, None, fields("f:labels", &["app"]))]);
    assert!(!annotations_need_apply(&meta, MANAGER, &desired(&[])));
    assert!(labels_need_apply(&meta, MANAGER, &desired(&[])));
    // an object without managed fields needs an apply only for what it lacks
    meta.managed_fields = None;
    assert!(!labels_need_apply(&meta, MANAGER, &desired(&[])));
    assert!(labels_need_apply(&meta, MANAGER, &desired(&[("app", "greeter")])));
}
