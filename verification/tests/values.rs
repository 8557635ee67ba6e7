//! Times, texts, digests and values.

use restate_operator::component::{label_selector, mandatory_labels, object_meta, selector_labels};
use restate_operator::digest::{digest_of, digest_u32, digest_u64, hex_bytes_text, hex_padded_text, hex_text};
use restate_operator::json::{Object, Value};
use restate_operator::meta::{effective_namespace, ManagedFieldsEntry, ObjectMeta};
use restate_operator::restatecluster::labels::object_meta as cluster_object_meta;
use restate_operator::string_map::StringMap;
use restate_operator::text::{
    eq_ignoring_case, i64_text, join_strings, parse_i32, str_lt, strip_suffix_str, u64_text,
};
use restate_operator::time::{Duration, Timestamp};

#[test]
fn moments_are_written_and_read() {
    let moment = Timestamp::parse_rfc3339("2026-01-01T02:00:00+02:00").unwrap();
    assert_eq!(moment.nanos(), 1_767_225_600_000_000_000);
    assert_eq!(moment.to_rfc3339(), "2026-01-01T00:00:00+00:00");
    let fine = Timestamp::from_nanos(1_500_000_000).unwrap();
    assert_eq!(fine.to_rfc3339(), "1970-01-01T00:00:01.500+00:00");
    assert_eq!(Timestamp::parse_rfc3339(&fine.to_rfc3339()).unwrap(), fine);
    assert_eq!(Timestamp::parse_rfc3339("yesterday"), None);
    assert_eq!(Timestamp::from_nanos(i128::MAX), None);
}

#[test]
fn leap_seconds_come_before_the_next_second() {
    let read = |text: &str| Timestamp::parse_rfc3339(text).unwrap();
    let last = read("2016-12-31T23:59:59.999999998Z");
    let next = read("2017-01-01T00:00:00Z");
    for text in ["2016-12-31T23:59:60Z", "2016-12-31T23:59:60.999Z", "2017-01-01T01:59:60+02:00"] {
        let leap = read(text);
        assert!(last.is_before(&leap), "{text}");
        assert!(leap.is_before(&next), "{text}");
    }
    assert_eq!(Timestamp::from_parts(7, 5).unwrap().nanos(), 7_000_000_005);
    assert_eq!(Timestamp::from_parts(7, 1_500_000_000).unwrap().nanos(), 7_999_999_999);
    assert_eq!(Timestamp::from_parts(i64::MAX, 0), None);
}

#[test]
fn metadata_is_copied_whole() {
    let mut base = ObjectMeta::empty();
    base.name = Some("a".to_owned());
    base.generate_name = Some("a-".to_owned());
    base.generation = Some(3);
    base.creation_timestamp = Timestamp::from_nanos(1);
    base.deletion_timestamp = Timestamp::from_nanos(2);
    base.managed_fields = Some(vec![ManagedFieldsEntry {
        manager: Some("m".to_owned()),
        subresource: Some("status".to_owned()),
        fields_v1: Some(Value::Int(1)),
    }]);
    let copy = object_meta("kafka", &base);
    let named = cluster_object_meta(&base, "b");
    assert_eq!(named.name.as_deref(), Some("b"));
    for meta in [base.duplicate(), copy, named] {
        assert_eq!(meta.generate_name.as_deref(), Some("a-"));
        assert_eq!(meta.generation, Some(3));
        assert_eq!(meta.creation_timestamp, Timestamp::from_nanos(1));
        assert_eq!(meta.deletion_timestamp, Timestamp::from_nanos(2));
        let managed = meta.managed_fields.unwrap();
        assert_eq!(managed.len(), 1);
        assert_eq!(managed[0].manager.as_deref(), Some("m"));
        assert_eq!(managed[0].subresource.as_deref(), Some("status"));
        assert!(managed[0].fields_v1.as_ref().unwrap().same(&Value::Int(1)));
    }
}

#[test]
fn spans_are_added_and_measured() {
    let start = Timestamp::from_nanos(0).unwrap();
    let end = start.plus_seconds(90).unwrap();
    assert!(start.is_before(&end));
    assert_eq!(end.since(&start), Duration::from_secs(90));
    assert_eq!(start.since(&end), Duration::from_secs(0));
    assert_eq!(start.plus(Duration::from_secs(90)).unwrap(), end);
    assert_eq!(
        Duration::from_secs(3).shorter(Duration::from_secs(2)),
        Duration::from_secs(2)
    );
    assert_eq!(
        Duration::from_secs(3).longer(Duration::from_secs(2)),
        Duration::from_secs(3)
    );
    assert_eq!(Duration::from_nanos(5).nanos, 5);
}

#[test]
fn numbers_are_written_and_read() {
    assert_eq!(u64_text(0), "0");
    assert_eq!(u64_text(u64::MAX), "18446744073709551615");
    assert_eq!(i64_text(i64::MIN), "-9223372036854775808");
    assert_eq!(parse_i32("2147483647"), Some(i32::MAX));
    assert_eq!(parse_i32("-2147483648"), Some(i32::MIN));
    assert_eq!(parse_i32("+7"), Some(7));
    for text in ["", "-", "+", "2147483648", "1.5", " 1", "1x"] {
        assert_eq!(parse_i32(text), None, "{text}");
    }
}

#[test]
fn texts_are_compared_and_joined() {
    assert!(str_lt("a", "ab"));
    assert!(!str_lt("b", "ab"));
    assert!(eq_ignoring_case("FaLsE", "false"));
    assert!(!eq_ignoring_case("falsé", "falsÉ"));
    assert_eq!(strip_suffix_str("name.suffix", ".suffix"), Some("name"));
    assert_eq!(strip_suffix_str("name", ".suffix"), None);
    assert_eq!(join_strings(&vec!["a".to_owned(), "b".to_owned()], ", "), "a, b");
    assert_eq!(join_strings(&vec![], ", "), "");
}

#[test]
fn digests_are_those_of_sha256() {
    let empty = "e3b0c44298fc1c149afbf4c8996fb92427ae41e4649b934ca495991b7852b855";
    assert_eq!(hex_bytes_text(&digest_of("")), empty);
    assert_eq!(digest_u32(""), 0x42c4b0e3);
    assert_eq!(digest_u64(""), 0x141cfc9842c4b0e3);
    assert_eq!(hex_text(255), "ff");
    assert_eq!(hex_text(0), "0");
    assert_eq!(hex_padded_text(255, 4), "00ff");
    assert_eq!(hex_padded_text(u64::MAX, 16), "ffffffffffffffff");
}

#[test]
fn maps_keep_one_value_per_key() {
    let mut map = StringMap::new();
    map.insert("b".to_owned(), "1".to_owned());
    map.insert("a".to_owned(), "2".to_owned());
    map.insert("b".to_owned(), "3".to_owned());
    assert_eq!(map.len(), 2);
    assert_eq!(map.entry(0).0, "a");
    assert_eq!(map.get("b").unwrap(), "3");
    let mut other = map.duplicate();
    assert!(map.same(&other));
    other.remove("a");
    assert!(!other.contains_key("a"));
    assert!(!map.same(&other));
    other.extend(&map);
    assert!(map.same(&other));
}

#[test]
fn objects_are_equal_whatever_the_order() {
    let mut one = Object::new();
    one.put_text("x", "1");
    one.put("y", Value::Bool(true));
    let mut two = Object::new();
    two.put("y", Value::Bool(true));
    two.put_text("x", "1");
    assert!(Value::Object(one.duplicate()).same(&Value::Object(two.duplicate())));
    two.put_opt("z", None);
    assert!(one.same(&two));
    two.put_opt("z", Some(Value::Null));
    assert!(!one.same(&two));
    assert!(two.remove("z").is_some());
    assert!(one.same(&two));
    assert!(!Value::Int(1).same(&Value::text("1")));
}

#[test]
fn owned_objects_carry_the_labels_that_select_them() {
    let mut base = ObjectMeta::empty();
    base.name = Some("orders".to_owned());
    let mut labels = StringMap::new();
    labels.insert("team".to_owned(), "payments".to_owned());
    base.labels = Some(labels);
    let selected = selector_labels("component", &base);
    assert_eq!(selected.get("app.kubernetes.io/name").unwrap(), "component");
    assert_eq!(selected.get("app.kubernetes.io/instance").unwrap(), "orders");
    let meta = object_meta("component", &base);
    let carried = meta.labels.unwrap();
    for (key, value) in label_selector("component", &base).match_labels.unwrap().to_pairs() {
        assert_eq!(carried.get(&key), Some(&value));
    }
    for (key, value) in mandatory_labels("component", &base).to_pairs() {
        assert_eq!(carried.get(&key), Some(&value));
    }
    assert_eq!(carried.get("team").unwrap(), "payments");
    assert_eq!(effective_namespace(None), "default");
    assert_eq!(effective_namespace(Some("apps")), "apps");
}
