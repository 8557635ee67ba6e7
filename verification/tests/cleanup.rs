//! When a version may go, and what is said of those that hold a deletion.

use restate_operator::control::{
    reconciliation_suspended, suspended_message, Action, Condition, ReconciliationState,
    RECONCILE_ANNOTATION, RECONCILE_DISABLED, RECONCILING_CONDITION,
};
use restate_operator::error::{root_cause, Error, FinalizerFailure, KubeFailure, KubeFailureKind};
use restate_operator::json::{Object, Value};
use restate_operator::meta::ObjectMeta;
use restate_operator::restatedeployment::cleanup::{
    blocked_deletion_requeue, clear_patch, deployment_usage_query, describe_abandoned_versions,
    describe_blocking_versions, drain_deadline, retain_for_rollback, stamp_patch,
    BlockingVersion, CleanupMode, DeploymentUsage, DeploymentUsageMap, DeploymentUsageRow,
    DeploymentUsageRows,
};
use restate_operator::restatedeployment::controller::error_policy;
use restate_operator::restatedeployment::deletion::{
    begin_cleanup, conclude_deletion, resume_cleanup, CleanupStart, ClusterPresence,
    DRAINED_MESSAGE, FORCING_MESSAGE,
};
use restate_operator::restatedeployment::resource::{
    DeletePolicy, DeletionPhase, DrainSpec, OnTimeout, PodTemplate, RestateAdminEndpoint,
    RestateDeployment, RestateDeploymentSpec, RestateDeploymentStatus, RestateSpec,
};
use restate_operator::restatedeployment::retirement::{
    after_failure, deregister_path, replica_set_cleanup_policy, CleanupOutcome, CleanupPass,
    CleanupPolicy, FailedOperation, Operation, Retirement, VersionPlan,
};
use restate_operator::string_map::StringMap;
use restate_operator::time::{Duration, Timestamp};

fn plain(value: &Value) -> serde_json::Value {
    match value {
        Value::Null => serde_json::Value::Null,
        Value::Bool(b) => serde_json::Value::Bool(*b),
        Value::Int(i) => serde_json::Value::from(*i),
        Value::Decimal(text) => serde_json::from_str(text).unwrap(),
        Value::Text(text) => serde_json::Value::from(text.as_str()),
        Value::Array(items) => serde_json::Value::Array(items.iter().map(plain).collect()),
        Value::Object(object) => {
            let mut out = serde_json::Map::new();
            for i in 0..object.len() {
                let (name, item) = object.entry(i);
                out.insert(name.clone(), plain(item));
            }
            serde_json::Value::Object(out)
        }
    }
}

fn json(text: &str) -> serde_json::Value {
    serde_json::from_str(text).unwrap()
}

const NOW: i64 = 1_800_000_000;

fn at(seconds: i64) -> Timestamp {
    Timestamp::from_nanos(seconds as i128 * 1_000_000_000).unwrap()
}

#[test]
fn the_deadline_is_stamped_and_cleared_under_one_field_manager() {
    let remove_at =
        Timestamp::parse_rfc3339("2026-01-01T00:00:00+00:00").expect("test deadline parses");

    let patch = stamp_patch("apps/v1", "ReplicaSet", &remove_at);
    assert_eq!(patch.field_manager, "restate-operator/remove-version-at");
    assert_eq!(
        plain(&patch.body),
        json(
            r#"{
                "apiVersion": "apps/v1",
                "kind": "ReplicaSet",
                "metadata": { "annotations": {
                    "restate.dev/remove-version-at": "2026-01-01T00:00:00+00:00"
                } }
            }"#
        )
    );

    assert_eq!(
        plain(&stamp_patch("serving.knative.dev/v1", "Configuration", &remove_at).body),
        json(
            r#"{
                "apiVersion": "serving.knative.dev/v1",
                "kind": "Configuration",
                "metadata": { "annotations": {
                    "restate.dev/remove-version-at": "2026-01-01T00:00:00+00:00"
                } }
            }"#
        )
    );

    let patch = clear_patch("apps/v1", "ReplicaSet");
    assert_eq!(patch.field_manager, "restate-operator/remove-version-at");
    assert_eq!(
        plain(&patch.body),
        json(
            r#"{
                "apiVersion": "apps/v1",
                "kind": "ReplicaSet",
                "metadata": { "annotations": {} }
            }"#
        )
    );

    assert_eq!(
        plain(&clear_patch("serving.knative.dev/v1", "Configuration").body),
        json(
            r#"{
                "apiVersion": "serving.knative.dev/v1",
                "kind": "Configuration",
                "metadata": { "annotations": {} }
            }"#
        )
    );
}

fn blocking(name: &str, usage: DeploymentUsage) -> BlockingVersion {
    BlockingVersion { name: name.to_owned(), deployment_id: None, usage }
}

fn usage(latest: bool, pinned: u64, unpinned: u64) -> DeploymentUsage {
    DeploymentUsage {
        latest_for_service: latest,
        pinned_invocations: pinned,
        unpinned_invocations: unpinned,
    }
}

fn rsd(policy: DeletePolicy, drain: Option<DrainSpec>) -> RestateDeployment {
    let mut metadata = ObjectMeta::empty();
    metadata.name = Some("greeter".to_owned());
    metadata.namespace = Some("apps".to_owned());
    RestateDeployment {
        metadata,
        spec: RestateDeploymentSpec {
            replicas: 1,
            revision_history_limit: 10,
            min_ready_seconds: None,
            selector: None,
            template: PodTemplate { metadata: None, spec: Some(Value::Object(Object::new())) },
            restate: RestateSpec {
                register: RestateAdminEndpoint {
                    cluster: None,
                    cloud: None,
                    url: Some("http://restate:9070/".to_owned()),
                },
                service_path: None,
                use_http11: None,
                drain_delay_seconds: 300,
                delete_policy: Some(policy),
                drain,
                in_process_tunnel: false,
            },
            deployment_mode: None,
            knative: None,
            autoscaling: None,
        },
        status: None,
    }
}

/// `on_timeout` of `None` leaves the drain block off entirely, so the defaults apply.
fn deleting_rsd(
    policy: DeletePolicy,
    on_timeout: Option<OnTimeout>,
    timeout_seconds: i64,
    deleted_secs_ago: i64,
) -> RestateDeployment {
    let drain = on_timeout.map(|on_timeout| DrainSpec {
        timeout_seconds: Some(timeout_seconds),
        on_timeout: Some(on_timeout),
    });
    let mut rsd = rsd(policy, drain);
    rsd.metadata.deletion_timestamp = Some(at(NOW - deleted_secs_ago));
    rsd
}

#[test]
fn force_deletion_waits_for_nothing() {
    for u in [usage(true, 0, 0), usage(true, 3, 9), usage(false, 1, 0)] {
        assert!(!u.is_active(CleanupMode::ForceDeleting));
    }
}

#[test]
fn mode_follows_the_delete_policy() {
    let now = at(NOW);
    let mut not_deleting = deleting_rsd(DeletePolicy::Force, None, 3600, 0);
    not_deleting.metadata.deletion_timestamp = None;
    assert_eq!(CleanupMode::for_rsd(&not_deleting, &now), CleanupMode::Rollout);

    assert_eq!(
        CleanupMode::for_rsd(&deleting_rsd(DeletePolicy::Force, None, 3600, 0), &now),
        CleanupMode::ForceDeleting
    );

    // a drain waits past its deadline; only the status changes there
    assert_eq!(
        CleanupMode::for_rsd(
            &deleting_rsd(DeletePolicy::Drain, Some(OnTimeout::Hold), 3600, 0),
            &now
        ),
        CleanupMode::Deleting
    );
    assert_eq!(
        CleanupMode::for_rsd(
            &deleting_rsd(DeletePolicy::Drain, Some(OnTimeout::Hold), 3600, 7200),
            &now
        ),
        CleanupMode::Deleting
    );

    assert_eq!(
        CleanupMode::for_rsd(
            &deleting_rsd(DeletePolicy::Drain, Some(OnTimeout::Force), 3600, 60),
            &now
        ),
        CleanupMode::Deleting
    );
    assert_eq!(
        CleanupMode::for_rsd(
            &deleting_rsd(DeletePolicy::Drain, Some(OnTimeout::Force), 3600, 3601),
            &now
        ),
        CleanupMode::ForceDeleting
    );

    // no drain block at all is a `hold`, so it holds however far past the deadline
    // it is -- the one case that must not start forcing by omission
    assert_eq!(
        CleanupMode::for_rsd(&deleting_rsd(DeletePolicy::Drain, None, 3600, 7200), &now),
        CleanupMode::Deleting
    );
}

#[test]
fn default_delete_policy_is_a_one_hour_drain_that_holds() {
    let mut rsd = deleting_rsd(DeletePolicy::Drain, Some(OnTimeout::Force), 3600, 0);
    rsd.spec.restate.delete_policy = None;
    rsd.spec.restate.drain = None;

    assert_eq!(CleanupMode::for_rsd(&rsd, &at(NOW)), CleanupMode::Deleting);
    assert_eq!(rsd.spec.restate.drain_timeout_seconds(), 3600);
    assert_eq!(rsd.spec.restate.drain_on_timeout(), OnTimeout::Hold);
    assert_eq!(drain_deadline(&rsd), Some(at(NOW + 3600)));
}

#[test]
fn latest_endpoint_is_active_during_rollout_but_not_during_deletion() {
    let u = usage(true, 0, 0);
    assert!(u.is_active(CleanupMode::Rollout));
    assert!(!u.is_active(CleanupMode::Deleting));
}

#[test]
fn pinned_invocations_block_deletion() {
    let u = usage(true, 3, 0);
    assert!(u.is_active(CleanupMode::Rollout));
    assert!(u.is_active(CleanupMode::Deleting));
}

#[test]
fn unpinned_invocations_block_deletion() {
    // a pinned-only count reads paused/queued work as zero and deletes out from under it
    let u = usage(true, 0, 80);
    assert!(u.is_active(CleanupMode::Rollout));
    assert!(u.is_active(CleanupMode::Deleting));
}

#[test]
fn fully_drained_version_is_inactive_either_way() {
    let u = usage(false, 0, 0);
    assert!(!u.is_active(CleanupMode::Rollout));
    assert!(!u.is_active(CleanupMode::Deleting));
}

#[test]
fn superseded_version_with_in_flight_work_stays_active() {
    let u = usage(false, 1, 0);
    assert!(u.is_active(CleanupMode::Rollout));
    assert!(u.is_active(CleanupMode::Deleting));
}

#[test]
fn merge_takes_the_conservative_view() {
    let mut u = usage(false, 1, 0);
    u.merge(usage(true, 0, 5));
    assert_eq!(u, usage(true, 1, 5));
    assert_eq!(u.in_flight_invocations(), 6);
}

#[test]
fn rollback_retention_applies_during_normal_reconcile() {
    assert!(retain_for_rollback(CleanupMode::Rollout, 0, 10));
    assert!(retain_for_rollback(CleanupMode::Rollout, 9, 10));
    assert!(!retain_for_rollback(CleanupMode::Rollout, 10, 10));
}

#[test]
fn rollback_retention_is_disabled_while_deleting() {
    // retaining here would skip the deregistration below it and leak the registration
    assert!(!retain_for_rollback(CleanupMode::Deleting, 0, 10));
    assert!(!retain_for_rollback(CleanupMode::Deleting, 9, 10));
}

#[test]
fn rollout_query_does_not_pay_for_the_unpinned_count() {
    let query = deployment_usage_query(CleanupMode::Rollout);

    // no second scan of sys_invocation_status, and no decode of the nested
    // target_service_name to join it against sys_service
    assert_eq!(query.matches("sys_invocation_status").count(), 1);
    assert!(!query.contains("target_service_name"));
    assert!(!query.contains("unpinned AS"));

    // ...but the column is still projected, so one row struct parses both modes
    assert!(query.contains("AS unpinned_invocations"));
    assert!(query.contains("AS pinned_invocations"));
    assert!(query.contains("AS latest_for_service"));
}

#[test]
fn force_deletion_does_not_pay_for_the_unpinned_count_either() {
    // nothing blocks a force deletion, so there is nothing to attribute
    let query = deployment_usage_query(CleanupMode::ForceDeleting);
    assert_eq!(query.matches("sys_invocation_status").count(), 1);
    assert!(!query.contains("unpinned AS"));
}

#[test]
fn only_a_drain_counts_unpinned_work() {
    let rollout = deployment_usage_query(CleanupMode::Rollout);
    let drain = deployment_usage_query(CleanupMode::Deleting);
    assert_eq!(deployment_usage_query(CleanupMode::ForceDeleting), rollout);
    for (query, scans) in [(&rollout, 1), (&drain, 2)] {
        assert_eq!(query.matches("sys_invocation_status").count(), scans);
        assert_eq!(query.matches("status != 'completed'").count(), scans);
    }
    assert!(drain.contains("target_service_name"));
    assert!(drain.contains("unpinned AS"));
    for column in ["AS unpinned_invocations", "AS pinned_invocations", "AS latest_for_service"] {
        assert!(drain.contains(column));
    }
}

#[test]
fn force_deletion_still_removes_drained_versions_immediately() {
    assert!(CleanupMode::ForceDeleting.skips_drain_delay());
    assert!(!CleanupMode::Deleting.skips_drain_delay());
    assert!(!CleanupMode::Rollout.skips_drain_delay());

    // the revision history limit must not hold a version back from either deletion
    assert!(!retain_for_rollback(CleanupMode::ForceDeleting, 0, 10));
}

#[test]
fn abandoned_versions_report_what_was_walked_over() {
    // the force query doesn't attribute unpinned work, so the count says "pinned"
    // rather than claiming to be every unfinished invocation
    assert_eq!(
        describe_abandoned_versions(&vec![blocking("greeter-abc123", usage(false, 4, 0))]),
        "greeter-abc123 (4 pinned invocations)"
    );

    // ...but an `onTimeout: force` drain that crossed its deadline after the query ran
    // does have the unpinned count, and must not drop it
    assert_eq!(
        describe_abandoned_versions(&vec![blocking("greeter-abc123", usage(false, 4, 7))]),
        "greeter-abc123 (4 pinned, 7 unpinned invocations)"
    );
}

#[test]
fn blocked_deletion_does_not_sleep_through_the_deadline() {
    let requeue = |secs, until| {
        blocked_deletion_requeue(Duration::from_secs(secs), Some(Duration::from_secs(until)))
    };

    // an `onTimeout: force` drain waiting an hour is on the 300s ceiling, but
    // its deadline is 45s away
    assert_eq!(requeue(3600, 45), Duration::from_secs(45));
    assert_eq!(requeue(3600, 600), Duration::from_secs(300));

    // never zero, or the reconciler spins on the deadline
    assert_eq!(requeue(3600, 0), Duration::from_secs(1));
}

#[test]
fn deleting_query_counts_unpinned_work_through_the_service() {
    let query = deployment_usage_query(CleanupMode::Deleting);

    assert_eq!(query.matches("sys_invocation_status").count(), 2);
    assert!(query.contains("JOIN sys_service s ON s.name = i.target_service_name"));
    assert!(query.contains("COALESCE(u.n, 0) AS unpinned_invocations"));
    assert!(query.contains("LEFT JOIN unpinned u ON d.id = u.id"));
}

#[test]
fn both_query_flavours_exclude_completed_invocations() {
    // completed invocations linger in sys_invocation_status for the retention window;
    // counting them would hold a deletion open for a full day of drained history
    for mode in [CleanupMode::Rollout, CleanupMode::Deleting] {
        let query = deployment_usage_query(mode);
        assert_eq!(
            query.matches("status != 'completed'").count(),
            query.matches("sys_invocation_status").count(),
            "{mode:?}"
        );
    }
}

#[test]
fn blocked_deletion_polls_hard_early_and_backs_off_later() {
    let requeue = |secs| blocked_deletion_requeue(Duration::from_secs(secs), None);

    // the common case -- a drain that finishes in the first minutes -- keeps the
    // 30s cadence it had before the backoff
    assert_eq!(requeue(0), Duration::from_secs(30));
    assert_eq!(requeue(120), Duration::from_secs(30));

    assert_eq!(requeue(240), Duration::from_secs(60));

    // a deletion held by a scheduled invocation days out settles on the cap
    assert_eq!(requeue(1200), Duration::from_secs(300));
    assert_eq!(requeue(86_400), Duration::from_secs(300));
}

#[test]
fn blocking_versions_name_the_work_holding_the_deletion() {
    let described = describe_blocking_versions(&vec![
        blocking("greeter-abc123", usage(true, 2, 0)),
        blocking("greeter-def456", usage(false, 0, 7)),
    ]);

    assert_eq!(
        described,
        "greeter-abc123 (2 pinned, 0 unpinned invocations), \
         greeter-def456 (0 pinned, 7 unpinned invocations)"
    );
}

#[test]
fn rows_of_one_deployment_are_merged() {
    let row = |id: &str, latest, pinned, unpinned| DeploymentUsageRow {
        deployment_id: id.to_owned(),
        latest_for_service: latest,
        pinned_invocations: pinned,
        unpinned_invocations: unpinned,
    };
    let map = DeploymentUsageRows {
        rows: vec![row("dp_1", false, 1, 0), row("dp_2", false, -4, 2), row("dp_1", true, 0, 5)],
    }
    .into_map();
    assert_eq!(map.get("dp_1"), Some(usage(true, 1, 5)));
    // a negative count is none
    assert_eq!(map.get("dp_2"), Some(usage(false, 0, 2)));
    assert_eq!(map.get("dp_3"), None);
}

// the error policy

fn cleanup_failed(error: Error) -> Error {
    Error::FinalizerError(Box::new(FinalizerFailure::CleanupFailed(error)))
}

#[test]
fn drain_requeue_survives_the_finalizer_wrapper() {
    let draining = || Error::DeploymentDraining { requeue_after: Some(Duration::from_secs(7)) };

    let wrapped = cleanup_failed(draining());

    assert_eq!(error_policy(&wrapped), Action::Requeue(Duration::from_secs(7)));
    assert_eq!(error_policy(&draining()), Action::Requeue(Duration::from_secs(7)));
}

#[test]
fn blocked_deletion_backoff_survives_the_finalizer_wrapper() {
    let wrapped = cleanup_failed(Error::DeploymentInUse {
        blocked_by: "greeter-abc123 (1 pinned, 0 unpinned invocations)".to_owned(),
        requeue_after: Some(Duration::from_secs(120)),
    });

    assert_eq!(error_policy(&wrapped), Action::Requeue(Duration::from_secs(120)));
}

#[test]
fn timed_out_drain_backoff_survives_the_finalizer_wrapper() {
    let wrapped = cleanup_failed(Error::DeletionDrainOverdue {
        blocked_by: "greeter-abc123 (1 pinned, 0 unpinned invocations)".to_owned(),
        timeout_seconds: 3600,
        requeue_after: Some(Duration::from_secs(300)),
    });

    assert_eq!(error_policy(&wrapped), Action::Requeue(Duration::from_secs(300)));
}

#[test]
fn unrelated_errors_keep_the_blanket_interval() {
    let wrapped = cleanup_failed(Error::HashCollision);

    assert_eq!(error_policy(&wrapped), Action::Requeue(Duration::from_secs(30)));
    assert_eq!(error_policy(&Error::HashCollision), Action::Requeue(Duration::from_secs(30)));
}

#[test]
fn metrics_label_the_error_the_reconciler_raised() {
    let wrapped = cleanup_failed(Error::DeletionDrainOverdue {
        blocked_by: "greeter-abc123 (1 pinned, 0 unpinned invocations)".to_owned(),
        timeout_seconds: 3600,
        requeue_after: Some(Duration::from_secs(300)),
    });

    assert_eq!(wrapped.metric_label(), "FinalizerError");
    assert_eq!(root_cause(&wrapped).metric_label(), "DeletionDrainOverdue");
}

// deletion

fn force_on_timeout(timeout_seconds: i64) -> Option<DrainSpec> {
    Some(DrainSpec {
        timeout_seconds: Some(timeout_seconds),
        on_timeout: Some(OnTimeout::Force),
    })
}

#[test]
fn deletion_status_reports_the_versions_holding_the_deletion() {
    let mut rsd = rsd(DeletePolicy::Drain, force_on_timeout(60));
    let now = at(NOW);

    let deleted_at = at(NOW - 600);
    rsd.metadata.deletion_timestamp = Some(deleted_at);

    // an `onTimeout: force` drain past its deadline is about to force, not stuck: it never
    // reports itself timed out, however far past the deadline it is
    assert!(!rsd.drain_overdue(&now));

    let status = rsd.deletion_status(
        DeletionPhase::Overdue,
        "held up".to_owned(),
        &vec![
            BlockingVersion {
                name: "greeter-abc123".to_owned(),
                deployment_id: Some("dp_abc123".to_owned()),
                usage: usage(true, 2, 3),
            },
            BlockingVersion {
                name: "greeter-def456".to_owned(),
                deployment_id: Some("dp_def456".to_owned()),
                usage: usage(false, 1, 0),
            },
        ],
    );

    assert_eq!(status.total_pending_invocations, 6);
    assert_eq!(status.started_at, Some(deleted_at));
    assert_eq!(status.deadline, Some(at(NOW - 600 + 60)));
    assert_eq!(
        status
            .pending_invocations
            .iter()
            .map(|pending| (
                pending.version.as_str(),
                pending.deployment_id.as_deref(),
                pending.pinned,
                pending.unpinned
            ))
            .collect::<Vec<_>>(),
        vec![
            ("greeter-abc123", Some("dp_abc123"), 2, 3),
            ("greeter-def456", Some("dp_def456"), 1, 0),
        ],
    );

    // ...whereas a holding drain has nothing else to do at the deadline, so it does
    rsd.spec.restate.drain.as_mut().expect("drain block").on_timeout = Some(OnTimeout::Hold);
    assert!(rsd.drain_overdue(&now));

    // ...and `force` never waits in the first place, so it neither times out nor
    // carries a deadline
    rsd.spec.restate.delete_policy = Some(DeletePolicy::Force);
    assert!(!rsd.drain_overdue(&now));
    let force_status = rsd.deletion_status(DeletionPhase::Forcing, "forcing".to_owned(), &vec![]);
    assert_eq!(force_status.policy, DeletePolicy::Force);
    assert_eq!(force_status.deadline, None);
}

fn paused_rsd(policy: DeletePolicy, on_timeout: OnTimeout) -> RestateDeployment {
    let mut rsd = rsd(
        policy,
        Some(DrainSpec { timeout_seconds: Some(60), on_timeout: Some(on_timeout) }),
    );
    let mut annotations = StringMap::new();
    annotations.insert(RECONCILE_ANNOTATION.to_owned(), RECONCILE_DISABLED.to_owned());
    rsd.metadata.annotations = Some(annotations);
    rsd
}

#[test]
fn deleting_a_paused_restatedeployment_is_not_suspended() {
    let mut rsd = paused_rsd(DeletePolicy::Drain, OnTimeout::Hold);

    // while it is alive the annotation does what it says
    assert!(reconciliation_suspended(&rsd.metadata));

    rsd.metadata.deletion_timestamp = Some(at(NOW));
    assert!(
        !reconciliation_suspended(&rsd.metadata),
        "a deleted RestateDeployment must reconcile even while paused",
    );
}

fn no_status() -> RestateDeploymentStatus {
    RestateDeploymentStatus {
        replicas: 0,
        desired_replicas: None,
        ready_replicas: None,
        available_replicas: None,
        unavailable_replicas: None,
        label_selector: None,
        deployment_id: None,
        collision_count: None,
        observed_generation: None,
        conditions: None,
        reconciliation: None,
        knative: None,
    }
}

#[test]
fn a_deleting_rsd_no_longer_claims_to_be_suspended() {
    let mut rsd = paused_rsd(DeletePolicy::Drain, OnTimeout::Hold);
    rsd.metadata.deletion_timestamp = Some(at(NOW));

    let ready = || Condition {
        last_transition_time: None,
        message: Some("was healthy".to_owned()),
        reason: Some("Available".to_owned()),
        status: "True".to_owned(),
        type_: "Ready".to_owned(),
    };
    let suspended = Condition {
        last_transition_time: None,
        message: Some(suspended_message()),
        reason: Some(ReconciliationState::Disabled.as_str().to_owned()),
        status: "False".to_owned(),
        type_: RECONCILING_CONDITION.to_owned(),
    };

    // nothing to hand over: no suspension marks, so no write at all
    let mut status = no_status();
    status.conditions = Some(vec![ready()]);
    status.reconciliation = Some(ReconciliationState::Reconciling);
    rsd.status = Some(status);
    assert!(rsd.suspension_to_clear().is_none());

    // ...whereas a paused one hands over the state and drops only its own condition
    let mut status = no_status();
    status.conditions = Some(vec![ready(), suspended]);
    status.reconciliation = Some(ReconciliationState::Disabled);
    rsd.status = Some(status);

    let kept = rsd.suspension_to_clear().expect("a suspended deleting RSD has marks to clear");
    assert_eq!(
        kept.iter().map(|cond| cond.type_.as_str()).collect::<Vec<_>>(),
        vec!["Ready"],
        "clearing the suspension must not take the other conditions with it",
    );

    // a resume that never finished is just as wrong once the object is deleting
    let mut status = no_status();
    status.reconciliation = Some(ReconciliationState::ResumingReconciliation);
    status.conditions = Some(vec![ready()]);
    rsd.status = Some(status);
    assert!(rsd.suspension_to_clear().is_some());
}

#[test]
fn an_expired_force_on_timeout_deadline_requeues_immediately() {
    let mut rsd = rsd(DeletePolicy::Drain, force_on_timeout(60));
    let now = at(NOW);
    rsd.metadata.deletion_timestamp = Some(at(NOW - 61));

    assert_eq!(rsd.until_drain_deadline(&now), Some(Duration::from_secs(0)));

    // A holding drain uses the same deadline for status only; once it has passed,
    // normal backoff applies because there is no cleanup-mode transition to wake.
    rsd.spec.restate.drain.as_mut().expect("drain block").on_timeout = Some(OnTimeout::Hold);
    assert_eq!(rsd.until_drain_deadline(&now), None);

    // ...and neither does a `force`, which never had a drain to wait out
    rsd.spec.restate.delete_policy = Some(DeletePolicy::Force);
    rsd.spec.restate.drain.as_mut().expect("drain block").on_timeout = Some(OnTimeout::Force);
    assert_eq!(rsd.until_drain_deadline(&now), None);
}

#[test]
fn a_deletion_without_a_cluster_is_done() {
    let mut rsd = deleting_rsd(DeletePolicy::Drain, Some(OnTimeout::Hold), 3600, 10);
    // without a cluster to refer to there is none to miss
    assert!(matches!(
        begin_cleanup(&rsd, &ClusterPresence::Absent, &at(NOW)),
        Ok(CleanupStart::Query { mode: CleanupMode::Deleting, .. })
    ));
    rsd.spec.restate.register.cluster = Some("c1".to_owned());
    assert!(matches!(
        begin_cleanup(&rsd, &ClusterPresence::Absent, &at(NOW)),
        Ok(CleanupStart::Done(Action::AwaitChange))
    ));
    let unknown = ClusterPresence::Unknown(KubeFailure {
        kind: KubeFailureKind::Transport,
        reason: String::new(),
        message: "down".to_owned(),
    });
    match begin_cleanup(&rsd, &unknown, &at(NOW)) {
        Err(Error::InvalidRestateConfig(text)) => {
            assert_eq!(text, "Referenced Restate cluster 'c1' not found: down")
        }
        other => panic!("{other:?}"),
    }
    match begin_cleanup(&rsd, &ClusterPresence::Present, &at(NOW)) {
        Ok(CleanupStart::Query { mode, .. }) => assert_eq!(mode, CleanupMode::Deleting),
        other => panic!("{other:?}"),
    }
    let force = deleting_rsd(DeletePolicy::Force, None, 3600, 10);
    match begin_cleanup(&force, &ClusterPresence::Present, &at(NOW)) {
        Ok(CleanupStart::Query { mode, report }) => {
            assert_eq!(mode, CleanupMode::ForceDeleting);
            let report = report.unwrap();
            assert_eq!(report.phase, DeletionPhase::Forcing);
            assert_eq!(report.message.as_deref(), Some(FORCING_MESSAGE));
        }
        other => panic!("{other:?}"),
    }
}

#[test]
fn a_deadline_that_passes_during_the_query_forces_the_deletion() {
    let rsd = deleting_rsd(DeletePolicy::Drain, Some(OnTimeout::Force), 60, 59);
    let (mode, report) = resume_cleanup(&rsd, CleanupMode::Deleting, &at(NOW));
    assert_eq!(mode, CleanupMode::Deleting);
    assert!(report.is_none());
    let (mode, report) = resume_cleanup(&rsd, CleanupMode::Deleting, &at(NOW + 2));
    assert_eq!(mode, CleanupMode::ForceDeleting);
    assert_eq!(report.unwrap().phase, DeletionPhase::Forcing);
}

fn outcome(blocking: Vec<BlockingVersion>, next_removal: Option<Timestamp>) -> CleanupOutcome {
    CleanupOutcome { blocking, next_removal, abandoned: vec![] }
}

#[test]
fn a_deletion_is_concluded_by_what_is_left() {
    let now = at(NOW);
    let rsd = deleting_rsd(DeletePolicy::Drain, Some(OnTimeout::Hold), 3600, 240);

    let verdict = conclude_deletion(&rsd, &outcome(vec![], None), &now);
    assert!(matches!(verdict.result, Ok(Action::AwaitChange)));

    let verdict = conclude_deletion(&rsd, &outcome(vec![], Some(at(NOW + 20))), &now);
    match verdict.result {
        Err(Error::DeploymentDraining { requeue_after }) => {
            assert_eq!(requeue_after, Some(Duration::from_secs(20)))
        }
        other => panic!("{other:?}"),
    }
    assert_eq!(verdict.report.unwrap().message.as_deref(), Some(DRAINED_MESSAGE));

    let held = outcome(vec![blocking("greeter-abc123", usage(true, 1, 0))], None);
    let verdict = conclude_deletion(&rsd, &held, &now);
    match verdict.result {
        Err(Error::DeploymentInUse { blocked_by, requeue_after }) => {
            assert_eq!(blocked_by, "greeter-abc123 (1 pinned, 0 unpinned invocations)");
            assert_eq!(requeue_after, Some(Duration::from_secs(60)));
        }
        other => panic!("{other:?}"),
    }
    assert_eq!(verdict.report.unwrap().phase, DeletionPhase::Draining);

    let late = deleting_rsd(DeletePolicy::Drain, Some(OnTimeout::Hold), 60, 240);
    let verdict = conclude_deletion(&late, &held, &now);
    assert!(matches!(
        verdict.result,
        Err(Error::DeletionDrainOverdue { timeout_seconds: 60, .. })
    ));
    assert_eq!(verdict.report.unwrap().phase, DeletionPhase::Overdue);
}

#[test]
fn forced_deletions_name_what_they_abandon() {
    let rsd = deleting_rsd(DeletePolicy::Force, None, 3600, 10);
    let done = CleanupOutcome {
        blocking: vec![],
        next_removal: None,
        abandoned: vec![blocking("greeter-abc123", usage(false, 4, 0))],
    };
    let verdict = conclude_deletion(&rsd, &done, &at(NOW));
    assert!(matches!(verdict.result, Ok(Action::AwaitChange)));
    assert!(verdict.abandoned.unwrap().contains("greeter-abc123 (4 pinned invocations)"));
}

// one version at a time

fn version(name: &str, deployment_id: Option<&str>, remove_at: Option<&Timestamp>) -> ObjectMeta {
    let mut annotations = StringMap::new();
    if let Some(id) = deployment_id {
        annotations.insert("restate.dev/deployment-id".to_owned(), id.to_owned());
    }
    if let Some(at) = remove_at {
        annotations.insert("restate.dev/remove-version-at".to_owned(), at.to_rfc3339());
    }
    let mut meta = ObjectMeta::empty();
    meta.name = Some(name.to_owned());
    meta.annotations = Some(annotations);
    meta
}

fn pass(mode: CleanupMode, revision_history_limit: i32) -> CleanupPass {
    CleanupPass::new(CleanupPolicy {
        mode,
        autoscaling: false,
        revision_history_limit,
        drain_delay_seconds: 300,
        poll_while_draining: true,
        now: at(NOW),
    })
}

fn known(entries: &[(&str, DeploymentUsage)]) -> DeploymentUsageMap {
    let mut map = DeploymentUsageMap::new();
    for (id, usage) in entries {
        map.insert(id.to_string(), *usage);
    }
    map
}

#[test]
fn a_drained_version_waits_out_the_delay_before_it_goes() {
    let usage_map = known(&[("dp_1", usage(false, 0, 0))]);
    let mut pass = pass(CleanupMode::Rollout, 0);

    let fresh = version("greeter-1", Some("dp_1"), None);
    let plan = pass.decide(&fresh, Some(1), false, &usage_map);
    assert!(matches!(plan, VersionPlan::Schedule { remove_at } if remove_at == at(NOW + 300)));
    assert!(matches!(plan.operations()[0], Operation::Schedule(t) if t == at(NOW + 300)));

    let waiting = version("greeter-1", Some("dp_1"), Some(&at(NOW + 5)));
    let plan = pass.decide(&waiting, Some(1), false, &usage_map);
    assert!(matches!(plan, VersionPlan::Wait));
    assert!(plan.operations().is_empty());

    let due = version("greeter-1", Some("dp_1"), Some(&at(NOW - 5)));
    let plan = pass.decide(&due, Some(1), false, &usage_map);
    match &plan {
        VersionPlan::Retire { scale_down, end: Retirement::Remove { deregister }, .. } => {
            assert!(*scale_down);
            assert_eq!(deregister.as_deref(), Some("dp_1"));
        }
        other => panic!("{other:?}"),
    }
    let operations = plan.operations();
    assert!(matches!(operations[operations.len() - 1], Operation::DeleteVersion));
    assert!(operations.iter().any(|o| matches!(o, Operation::Deregister(id) if id == "dp_1")));

    let outcome = pass.finish();
    assert!(outcome.blocking.is_empty());
    assert_eq!(outcome.next_removal, Some(at(NOW + 5)));
}

#[test]
fn recent_versions_are_kept_for_a_rollback() {
    let usage_map = known(&[("dp_1", usage(false, 0, 0)), ("dp_2", usage(false, 0, 0))]);
    let mut pass = pass(CleanupMode::Rollout, 1);
    let due = at(NOW - 5);
    let plan = pass.decide(&version("a", Some("dp_1"), Some(&due)), Some(0), false, &usage_map);
    assert!(matches!(plan, VersionPlan::Retire { end: Retirement::Retain, .. }));
    let plan = pass.decide(&version("b", Some("dp_2"), Some(&due)), Some(0), false, &usage_map);
    assert!(matches!(plan, VersionPlan::Retire { end: Retirement::Remove { .. }, .. }));
}

#[test]
fn a_version_in_use_stays_and_holds_the_deletion() {
    let usage_map = known(&[("dp_1", usage(false, 2, 0))]);
    let mut pass = pass(CleanupMode::Deleting, 10);
    let stamped = version("greeter-1", Some("dp_1"), Some(&at(NOW - 5)));
    match pass.decide(&stamped, Some(1), false, &usage_map) {
        VersionPlan::Keep { unschedule, .. } => assert!(unschedule),
        other => panic!("{other:?}"),
    }
    let outcome = pass.finish();
    assert_eq!(outcome.blocking.len(), 1);
    assert_eq!(outcome.blocking[0].name, "greeter-1");
    assert_eq!(outcome.next_removal, Some(at(NOW + 10)));
}

#[test]
fn a_forced_deletion_walks_over_work() {
    let usage_map = known(&[("dp_1", usage(true, 2, 0))]);
    let mut pass = pass(CleanupMode::ForceDeleting, 10);
    let plan = pass.decide(&version("greeter-1", Some("dp_1"), None), Some(1), false, &usage_map);
    assert!(matches!(plan, VersionPlan::Retire { end: Retirement::Remove { .. }, .. }));
    let outcome = pass.finish();
    assert!(outcome.blocking.is_empty());
    assert_eq!(outcome.abandoned.len(), 1);
}

#[test]
fn a_missing_autoscaler_does_not_stop_the_pass() {
    match after_failure(&Operation::ApplyHpa, "greeter-1", Error::HashCollision) {
        FailedOperation::CarryOn { note } => assert_eq!(
            note,
            "Failed to apply per-version HorizontalPodAutoscaler for greeter-1: Encountered a \
             ReplicaSet hash collision, will retry with a new template hash"
        ),
        other => panic!("{other:?}"),
    }
    assert!(matches!(
        after_failure(&Operation::ScaleToZero, "greeter-1", Error::HashCollision),
        FailedOperation::Abort(Error::HashCollision)
    ));
}

#[test]
fn the_policy_comes_from_the_resource() {
    let mut rsd = rsd(DeletePolicy::Drain, None);
    rsd.spec.revision_history_limit = 4;
    rsd.spec.restate.drain_delay_seconds = 17;
    let policy = replica_set_cleanup_policy(&rsd, CleanupMode::Rollout, at(NOW));
    assert_eq!(policy.revision_history_limit, 4);
    assert_eq!(policy.drain_delay_seconds, 17);
    assert!(policy.poll_while_draining);
    assert!(!policy.autoscaling);
    assert_eq!(deregister_path("dp_1"), "/deployments/dp_1?force=true");
}
