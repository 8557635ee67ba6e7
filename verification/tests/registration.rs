//! Registration, and the pacing of expensive calls.

use restate_operator::control::Action;
use restate_operator::error::{Error, FinalizerFailure};
use restate_operator::json::Value;
use restate_operator::meta::{ObjectMeta, OwnerReference};
use restate_operator::restatedeployment::cleanup::{
    CleanupMode, DeploymentUsage, DeploymentUsageMap,
};
use restate_operator::restatedeployment::controller::{
    requeues_after_expensive_admin_work, restate_deployment_error_policy,
};
use restate_operator::restatedeployment::registration::{
    check_admin_response, check_deregistration, confirm_latest, has_other_owned,
    is_latest_for_some_service, latest_deployment_by_service, owned_deployment_ids,
    plan_registration, registration_payload, AdminAnswer, Overwrite, RegisteredDeployment,
    RegistrationAction,
};
use restate_operator::restatedeployment::retry::{
    backoff_with_draw, backoff_with_positive_jitter, ExpensiveOperationRetries, RetryKey,
    CEILING_SECONDS, FLOOR_SECONDS, MAX_JITTER_SECONDS,
};
use restate_operator::restatedeployment::usage_cache::{UsageCache, TTL_SECONDS};
use restate_operator::string_map::StringMap;
use restate_operator::time::{Duration, Timestamp};

fn at(seconds: i64) -> Timestamp {
    Timestamp::from_nanos(seconds as i128 * 1_000_000_000).unwrap()
}

const NOW: i64 = 1_800_000_000;

fn usage(latest: bool, pinned: u64) -> DeploymentUsage {
    DeploymentUsage {
        latest_for_service: latest,
        pinned_invocations: pinned,
        unpinned_invocations: 0,
    }
}

fn known(entries: &[(&str, DeploymentUsage)]) -> DeploymentUsageMap {
    let mut map = DeploymentUsageMap::new();
    for (id, usage) in entries {
        map.insert(id.to_string(), *usage);
    }
    map
}

fn owned(ids: &[&str]) -> Vec<String> {
    ids.iter().map(|id| id.to_string()).collect()
}

fn is_promotion(action: RegistrationAction, by: &str) -> bool {
    matches!(action, RegistrationAction::Promote { superseded_by } if superseded_by == by)
}

fn is_already_latest(action: RegistrationAction, id: &str) -> bool {
    matches!(action, RegistrationAction::AlreadyLatest { deployment_id } if deployment_id == id)
}

#[test]
fn nothing_recorded_registers() {
    assert!(matches!(
        plan_registration(None, &DeploymentUsageMap::new(), || owned(&[])),
        RegistrationAction::Register
    ));
}

#[test]
fn recorded_but_unknown_to_restate_registers() {
    // deregistered out of band; a plain registration re-creates it
    let deployments = known(&[("dp_other", usage(true, 0))]);
    assert!(matches!(
        plan_registration(Some("dp_gone"), &deployments, || owned(&["dp_gone"])),
        RegistrationAction::Register
    ));
}

#[test]
fn latest_deployment_is_left_alone() {
    let deployments = known(&[("dp_v1", usage(true, 0))]);
    assert!(is_already_latest(
        plan_registration(Some("dp_v1"), &deployments, || owned(&["dp_v1"])),
        "dp_v1"
    ));
}

#[test]
fn already_latest_carries_the_recorded_id() {
    let deployments = known(&[("dp_v1", usage(true, 3))]);
    let RegistrationAction::AlreadyLatest { deployment_id } =
        plan_registration(Some("dp_v1"), &deployments, || owned(&["dp_v1"]))
    else {
        panic!("expected AlreadyLatest");
    };
    assert_eq!(deployment_id, "dp_v1");
}

#[test]
fn the_untouched_path_never_collects_the_owned_ids() {
    let deployments = known(&[("dp_v1", usage(true, 0))]);
    plan_registration(Some("dp_v1"), &deployments, || {
        panic!("owned ids collected on the AlreadyLatest path")
    });
    plan_registration(None, &deployments, || {
        panic!("owned ids collected on the Register path")
    });
}

#[test]
fn rollback_onto_a_drained_version_promotes() {
    let deployments = known(&[("dp_v1", usage(false, 0)), ("dp_v2", usage(true, 0))]);
    assert!(is_promotion(
        plan_registration(Some("dp_v1"), &deployments, || owned(&["dp_v1", "dp_v2"])),
        "dp_v2"
    ));
}

#[test]
fn rollback_promotes_even_while_pinned_invocations_remain() {
    let deployments = known(&[("dp_v1", usage(false, 7)), ("dp_v2", usage(true, 0))]);
    assert!(is_promotion(
        plan_registration(Some("dp_v1"), &deployments, || owned(&["dp_v1", "dp_v2"])),
        "dp_v2"
    ));
}

#[test]
fn promotion_is_unaffected_by_the_superseding_versions_workload() {
    let deployments = known(&[("dp_v1", usage(false, 0)), ("dp_v2", usage(true, 12))]);
    assert!(is_promotion(
        plan_registration(Some("dp_v1"), &deployments, || owned(&["dp_v1", "dp_v2"])),
        "dp_v2"
    ));
}

#[test]
fn a_foreign_owner_is_a_conflict_not_a_promotion() {
    let deployments = known(&[("dp_mine", usage(false, 0)), ("dp_theirs", usage(true, 0))]);
    assert!(matches!(
        plan_registration(Some("dp_mine"), &deployments, || owned(&["dp_mine"])),
        RegistrationAction::Conflict
    ));
}

#[test]
fn promotion_looks_past_intermediate_superseded_versions() {
    let deployments = known(&[
        ("dp_v1", usage(false, 0)),
        ("dp_v2", usage(false, 0)),
        ("dp_v3", usage(true, 0)),
    ]);
    assert!(is_promotion(
        plan_registration(Some("dp_v1"), &deployments, || owned(&["dp_v1", "dp_v2", "dp_v3"])),
        "dp_v3"
    ));
}

#[test]
fn all_of_our_versions_superseded_by_nobody_is_a_conflict() {
    let deployments = known(&[("dp_v1", usage(false, 0)), ("dp_v2", usage(false, 0))]);
    assert!(matches!(
        plan_registration(Some("dp_v1"), &deployments, || owned(&["dp_v1", "dp_v2"])),
        RegistrationAction::Conflict
    ));
}

#[test]
fn only_promotion_overwrites() {
    let promote = RegistrationAction::Promote { superseded_by: "dp_v2".to_owned() };
    let already_latest = RegistrationAction::AlreadyLatest { deployment_id: "dp_v1".to_owned() };
    assert_eq!(RegistrationAction::Register.overwrite(), Overwrite::No);
    assert_eq!(promote.overwrite(), Overwrite::Yes);
    assert_eq!(already_latest.overwrite(), Overwrite::No);
    assert_eq!(RegistrationAction::Conflict.overwrite(), Overwrite::No);
    assert!(!Overwrite::No.force());
    assert!(Overwrite::Yes.force());
}

const UID: &str = "rd-uid";
const NS: &str = "app";

fn replica_set(name: &str, namespace: &str, owner_uid: Option<&str>) -> ObjectMeta {
    let mut meta = ObjectMeta::empty();
    meta.name = Some(name.to_owned());
    meta.namespace = Some(namespace.to_owned());
    meta.owner_references = owner_uid.map(|uid| {
        vec![OwnerReference {
            kind: "RestateDeployment".to_owned(),
            name: "rd".to_owned(),
            uid: uid.to_owned(),
            api_version: "restate.dev/v1beta1".to_owned(),
            controller: None,
            block_owner_deletion: None,
        }]
    });
    meta
}

#[test]
fn a_lone_version_has_no_others() {
    let store = vec![replica_set("rd-current", NS, Some(UID))];
    assert!(!has_other_owned(&store, NS, UID, "rd-current"));
}

#[test]
fn an_older_owned_version_counts() {
    let store = vec![
        replica_set("rd-current", NS, Some(UID)),
        replica_set("rd-old", NS, Some(UID)),
    ];
    assert!(has_other_owned(&store, NS, UID, "rd-current"));
}

#[test]
fn foreign_other_namespace_and_orphaned_replicasets_do_not_count() {
    let store = vec![
        replica_set("rd-current", NS, Some(UID)),
        // ours, but in another namespace
        replica_set("rd-old", "other-ns", Some(UID)),
        // same namespace, owned by a different RestateDeployment
        replica_set("foreign", NS, Some("other-uid")),
        // same namespace, no controller at all
        replica_set("orphan", NS, None),
    ];
    assert!(!has_other_owned(&store, NS, UID, "rd-current"));
}

#[test]
fn owned_ids_are_read_from_owned_objects() {
    let with_id = |name: &str, uid: &str, id: &str| {
        let mut meta = replica_set(name, NS, Some(uid));
        let mut annotations = StringMap::new();
        annotations.insert("restate.dev/deployment-id".to_owned(), id.to_owned());
        meta.annotations = Some(annotations);
        meta
    };
    let store = vec![
        with_id("a", UID, "dp_1"),
        with_id("b", "other", "dp_2"),
        replica_set("c", NS, Some(UID)),
        with_id("d", UID, "dp_3"),
    ];
    let ids = owned_deployment_ids(&store, NS, UID);
    assert_eq!(ids.len(), 2);
    assert!(ids.contains(&"dp_1".to_owned()));
    assert!(ids.contains(&"dp_3".to_owned()));
}

#[test]
fn a_registration_is_confirmed_by_its_services() {
    let services = vec![
        ("Greeter".to_owned(), "dp_1".to_owned()),
        ("Counter".to_owned(), "dp_2".to_owned()),
    ];
    let latest = latest_deployment_by_service(&services);
    assert_eq!(latest.get("Greeter").unwrap(), "dp_1");
    assert!(is_latest_for_some_service(&latest, "dp_2"));
    assert!(!is_latest_for_some_service(&latest, "dp_3"));
    let registered = |services: &[&str]| RegisteredDeployment {
        id: "dp_1".to_owned(),
        services: services.iter().map(|s| s.to_string()).collect(),
    };
    assert!(confirm_latest(&latest, &registered(&["Greeter"])).is_ok());
    match confirm_latest(&latest, &registered(&["Greeter", "Counter"])) {
        Err(Error::DeploymentNotLatest { message, .. }) => {
            assert!(message.contains("Counter"), "{message}");
            assert!(!message.contains("Greeter"), "{message}");
        }
        other => panic!("{other:?}"),
    }
}

#[test]
fn only_a_promotion_is_forced() {
    let field = |payload: &Value, name: &str| match payload.get(name) {
        Some(Value::Bool(b)) => Some(*b),
        _ => None,
    };
    let payload = registration_payload("http://e/", None, Overwrite::No);
    assert_eq!(field(&payload, "force"), Some(false));
    assert_eq!(field(&payload, "use_http_11"), None);
    assert!(matches!(payload.get("uri"), Some(Value::Text(u)) if u == "http://e/"));
    let payload = registration_payload("http://e/", Some(true), Overwrite::Yes);
    assert_eq!(field(&payload, "force"), Some(true));
    assert_eq!(field(&payload, "use_http_11"), Some(true));
}

#[test]
fn refusals_of_the_admin_api_are_errors() {
    let answer = |code: u16, body: &str| AdminAnswer {
        code,
        status: format!("{code} Status"),
        url: "http://restate:9070/deployments".to_owned(),
        body: body.to_owned(),
    };
    assert_eq!(check_admin_response(answer(201, "{}")).unwrap(), "{}");
    match check_admin_response(answer(409, "taken")) {
        Err(Error::AdminCallRejected { status, url, body }) => {
            assert_eq!(status, "409 Status");
            assert_eq!(url, "http://restate:9070/deployments");
            assert_eq!(body, "taken");
        }
        other => panic!("{other:?}"),
    }
    assert!(check_deregistration(answer(202, "")).is_ok());
    // it is gone either way
    assert!(check_deregistration(answer(404, "")).is_ok());
    assert!(check_deregistration(answer(500, "")).is_err());
}

// pacing

#[test]
fn backoff_grows_and_keeps_jitter_at_the_cap() {
    let key = RetryKey {
        endpoint: "https://admin.example.test".to_owned(),
        resource: "uid-a".to_owned(),
    };
    for (failures, floor) in [(1, 30), (2, 60), (3, 120), (4, 240), (5, 300), (6, 300)] {
        let delay = backoff_with_positive_jitter(&key, failures);
        assert!(delay >= Duration::from_secs(floor));
        assert!(delay <= Duration::from_secs(CEILING_SECONDS + MAX_JITTER_SECONDS));
    }
}

#[test]
fn endpoint_permit_remains_held_until_the_query_finishes() {
    let mut retries = ExpensiveOperationRetries::new();
    let endpoint = "https://admin.example.test";
    let now = at(NOW);
    assert!(retries.acquire(endpoint, "uid-a", &now).is_ok());
    // This is still deferred even after the normal spacing period would have elapsed,
    // because the only release path is `finish`.
    assert!(retries.acquire(endpoint, "uid-b", &now).is_err());
    assert!(retries.acquire(endpoint, "uid-b", &at(NOW + 31)).is_err());
    retries.finish(endpoint);
    // Spacing is now the only remaining limiter.
    assert!(retries.acquire(endpoint, "uid-b", &now).is_err());
    assert!(retries.acquire(endpoint, "uid-b", &at(NOW + 30)).is_ok());
}

#[test]
fn failure_history_is_keyed_by_the_expensive_operation_not_the_reason() {
    let mut retries = ExpensiveOperationRetries::new();
    let endpoint = "https://admin.example.test";
    let now = at(NOW);
    let first = retries.failure(endpoint, "uid-a", &now);
    retries.reset_resource(endpoint, "uid-a");
    let reset = retries.failure(endpoint, "uid-a", &now);
    assert!(first >= Duration::from_secs(FLOOR_SECONDS));
    assert!(reset >= Duration::from_secs(FLOOR_SECONDS));
}

#[test]
fn a_failed_operation_is_not_repeated_before_its_time() {
    let mut retries = ExpensiveOperationRetries::new();
    let endpoint = "https://admin.example.test";
    assert_eq!(retries.failure_with_draw(endpoint, "uid-a", &at(NOW), 0), backoff_with_draw(1, 0));
    assert_eq!(backoff_with_draw(1, 0), Duration::from_secs(30));
    assert_eq!(retries.failure_with_draw(endpoint, "uid-a", &at(NOW), 0), Duration::from_secs(60));
    match retries.acquire(endpoint, "uid-a", &at(NOW + 20)) {
        Err(wait) => assert_eq!(wait, Duration::from_secs(40)),
        Ok(()) => panic!("admitted too early"),
    }
    // another resource does not wait for it
    assert!(retries.acquire(endpoint, "uid-b", &at(NOW + 20)).is_ok());
    retries.finish(endpoint);
    assert!(retries.acquire(endpoint, "uid-a", &at(NOW + 60)).is_ok());
}

#[test]
fn queries_of_an_endpoint_are_spaced() {
    let mut retries = ExpensiveOperationRetries::new();
    let endpoint = "https://admin.example.test";
    let wait = |seconds: u64| Err(Duration::from_secs(seconds));
    assert_eq!(retries.acquire(endpoint, "uid-a", &at(NOW)), Ok(()));
    // in flight, however late the other comes, and whatever happens elsewhere
    retries.finish("https://other.example.test");
    assert_eq!(retries.acquire(endpoint, "uid-b", &at(NOW + 500)), wait(30));
    assert_eq!(retries.acquire("https://other.example.test", "uid-b", &at(NOW)), Ok(()));
    retries.finish(endpoint);
    // a deferred query moves nothing
    for _ in 0..3 {
        assert_eq!(retries.acquire(endpoint, "uid-b", &at(NOW + 10)), wait(20));
    }
    assert_eq!(retries.acquire(endpoint, "uid-a", &at(NOW + 30)), Ok(()));
}

#[test]
fn failures_are_counted_until_a_reset() {
    let mut retries = ExpensiveOperationRetries::new();
    for (n, base) in [(1, 30), (2, 60), (3, 120), (4, 240), (5, 300), (6, 300)] {
        let delay = retries.failure_with_draw("e", "uid-a", &at(NOW), 0);
        assert_eq!(delay, Duration::from_secs(base), "failure {n}");
        // queries, and the failures of others, do not count
        retries.failure("e", "uid-b", &at(NOW));
        assert_eq!(retries.acquire("e", "uid-a", &at(NOW + 1)), Err(Duration::from_secs(base - 1)));
        retries.finish("e");
    }
    retries.reset_resource("e", "uid-a");
    assert_eq!(retries.failure_with_draw("e", "uid-a", &at(NOW), 0), Duration::from_secs(30));
}

#[test]
fn pacing_holds_to_the_end_of_time() {
    let last = Timestamp::from_parts(8_210_266_876_799, 0).unwrap();
    let mut retries = ExpensiveOperationRetries::new();
    assert_eq!(retries.acquire("e", "uid-a", &last), Ok(()));
    retries.finish("e");
    assert_eq!(retries.acquire("e", "uid-b", &last), Err(Duration::from_secs(30)));
    assert_eq!(retries.failure_with_draw("e", "uid-b", &last, 0), Duration::from_secs(30));
    assert_eq!(retries.acquire("e", "uid-b", &last), Err(Duration::from_secs(30)));
}

#[test]
fn failed_admin_calls_are_backed_off() {
    let mut retries = ExpensiveOperationRetries::new();
    let now = at(NOW);
    let failed = Error::FinalizerError(Box::new(FinalizerFailure::CleanupFailed(
        Error::AdminCallFailed("timeout".to_owned()),
    )));
    for floor in [30, 60, 120] {
        match restate_deployment_error_policy(&failed, &mut retries, "http://e/", "uid-a", &now) {
            Action::Requeue(after) => assert!(after >= Duration::from_secs(floor)),
            other => panic!("{other:?}"),
        }
    }
    let other = restate_deployment_error_policy(
        &Error::HashCollision,
        &mut retries,
        "http://e/",
        "uid-a",
        &now,
    );
    assert_eq!(other, Action::Requeue(Duration::from_secs(30)));
    // a deletion that is held keeps its own interval where that is longer
    for held in [
        Error::DeploymentInUse {
            blocked_by: "v".to_owned(),
            requeue_after: Some(Duration::from_secs(900)),
        },
        Error::DeletionDrainOverdue {
            blocked_by: "v".to_owned(),
            timeout_seconds: 60,
            requeue_after: Some(Duration::from_secs(900)),
        },
    ] {
        let action =
            restate_deployment_error_policy(&held, &mut retries, "http://e/", "uid-a", &now);
        assert_eq!(action, Action::Requeue(Duration::from_secs(900)));
    }
    let deferred = restate_deployment_error_policy(
        &Error::ExpensiveOperationDeferred { requeue_after: Duration::from_secs(9) },
        &mut retries,
        "http://e/",
        "uid-a",
        &now,
    );
    assert_eq!(deferred, Action::Requeue(Duration::from_secs(9)));
    assert!(!requeues_after_expensive_admin_work("HashCollision"));
}

// the cache of usage answers

fn answer(pinned: u64, unpinned: u64) -> DeploymentUsageMap {
    known(&[(
        "dp_1",
        DeploymentUsage {
            latest_for_service: false,
            pinned_invocations: pinned,
            unpinned_invocations: unpinned,
        },
    )])
}

fn counts(found: Option<DeploymentUsageMap>) -> Option<(u64, u64)> {
    let usage = found?.get("dp_1").unwrap();
    Some((usage.pinned_invocations, usage.unpinned_invocations))
}

#[test]
fn a_fresh_answer_is_reused() {
    let mut cache = UsageCache::new();
    let now = at(NOW);
    cache.insert_at("http://restate/".to_owned(), CleanupMode::Rollout, &answer(3, 0), now);

    assert_eq!(
        counts(cache.get_at("http://restate/", CleanupMode::Rollout, &now)),
        Some((3, 0))
    );
}

#[test]
fn an_answer_older_than_the_ttl_is_not() {
    let mut cache = UsageCache::new();
    cache.insert_at("http://restate/".to_owned(), CleanupMode::Rollout, &answer(3, 0), at(NOW));

    let late = at(NOW).plus(Duration::from_secs(TTL_SECONDS)).unwrap();
    assert!(cache.get_at("http://restate/", CleanupMode::Rollout, &late).is_none());
}

#[test]
fn a_deleting_answer_serves_a_rollout_caller() {
    let mut cache = UsageCache::new();
    let now = at(NOW);
    cache.insert_at("http://restate/".to_owned(), CleanupMode::Deleting, &answer(1, 7), now);

    assert_eq!(
        counts(cache.get_at("http://restate/", CleanupMode::Rollout, &now)),
        Some((1, 7))
    );
}

#[test]
fn a_rollout_answer_never_serves_a_deletion() {
    // Reused for a deletion, a rollout's constant-zero unpinned count reads as "nothing
    // queued here" and deletes the deployment out from under work not yet pinned.
    let mut cache = UsageCache::new();
    let now = at(NOW);
    cache.insert_at("http://restate/".to_owned(), CleanupMode::Rollout, &answer(0, 0), now);

    assert!(cache.get_at("http://restate/", CleanupMode::Deleting, &now).is_none());
}

#[test]
fn invalidating_drops_the_answer() {
    let mut cache = UsageCache::new();
    let now = at(NOW);
    cache.insert_at("http://restate/".to_owned(), CleanupMode::Deleting, &answer(0, 0), now);
    cache.invalidate("http://restate/");

    assert!(cache.get_at("http://restate/", CleanupMode::Deleting, &now).is_none());
}

#[test]
fn endpoints_do_not_share_answers() {
    let mut cache = UsageCache::new();
    let now = at(NOW);
    cache.insert_at("http://one/".to_owned(), CleanupMode::Deleting, &answer(4, 0), now);

    assert!(cache.get_at("http://two/", CleanupMode::Deleting, &now).is_none());
    assert_eq!(
        counts(cache.get_at("http://one/", CleanupMode::Deleting, &now)),
        Some((4, 0))
    );
}
