//! What of an object has to change for its owner to be looked at again.

use restate_operator::control::generation_after_deletion;
use restate_operator::manifest::ConfigMap;
use restate_operator::meta::{ManagedFieldsEntry, ObjectMeta};
use restate_operator::predicates::{changed_predicate, MyHasSpec};
use restate_operator::restatedeployment::service::{Service, ServiceSpec};
use restate_operator::string_map::StringMap;

fn replicaset(manager: &str) -> ObjectMeta {
    let mut meta = ObjectMeta::empty();
    meta.name = Some("greeter-abc123".to_owned());
    meta.namespace = Some("default".to_owned());
    meta.generation = Some(1);
    meta.managed_fields = Some(vec![ManagedFieldsEntry {
        manager: Some(manager.to_owned()),
        subresource: None,
        fields_v1: None,
    }]);
    meta
}

#[test]
fn replicaset_resource_version_bump_alone_is_not_a_change() {
    let before = changed_predicate(&replicaset("restate-operator/propagate-replicas"));
    let after = changed_predicate(&replicaset("restate-operator/propagate-annotations"));
    assert!(before.same(&after));
}

#[test]
fn replicaset_annotation_change_is_a_change() {
    let mut annotated = replicaset("restate-operator/propagate-replicas");
    let before = changed_predicate(&annotated);

    let mut annotations = StringMap::new();
    annotations.insert("restate.dev/deployment-id".to_owned(), "dp_1".to_owned());
    annotated.annotations = Some(annotations);

    assert!(!before.same(&changed_predicate(&annotated)));
}

#[test]
fn deletion_is_forced_to_look_like_a_change() {
    let mut rs = replicaset("restate-operator/propagate-replicas");
    let before = changed_predicate(&rs);
    rs.generation = generation_after_deletion(rs.generation);
    assert!(!before.same(&changed_predicate(&rs)));

    let mut rs = replicaset("restate-operator/propagate-replicas");
    rs.generation = None;
    let before = changed_predicate(&rs);
    rs.generation = generation_after_deletion(rs.generation);
    assert!(!before.same(&changed_predicate(&rs)));
}

#[test]
fn a_label_change_is_a_change() {
    let mut labelled = replicaset("m");
    let before = changed_predicate(&labelled);
    let mut labels = StringMap::new();
    labels.insert("team".to_owned(), "platform".to_owned());
    labelled.labels = Some(labels);
    assert!(!before.same(&changed_predicate(&labelled)));
    // no labels and an empty list of labels are the same
    labelled.labels = Some(StringMap::new());
    assert!(before.same(&changed_predicate(&labelled)));
}

#[test]
fn services_and_config_maps_are_known_by_their_content() {
    let service = Service {
        metadata: ObjectMeta::empty(),
        spec: Some(ServiceSpec {
            selector: None,
            ports: None,
            type_: Some("ClusterIP".to_owned()),
        }),
    };
    let spec = MyHasSpec::spec(&service).as_ref().unwrap();
    assert_eq!(spec.type_.as_deref(), Some("ClusterIP"));
    let mut data = StringMap::new();
    data.insert("k".to_owned(), "v".to_owned());
    let config = ConfigMap { metadata: ObjectMeta::empty(), data: Some(data) };
    assert_eq!(config.spec().as_ref().unwrap().get("k").unwrap(), "v");
}
