//! Suspension, conditions, readiness, errors and addresses.

use restate_operator::control::{
    condition_of_type, deletion_outcome, generation_after_deletion, is_retryable_discovery_error,
    log_suspended, ready_condition, reconciliation_suspended, request_url, service_url, state_after_reconcile,
    suspended_conditions, suspended_message, Condition, LogLevel, ReconciliationState,
    RECONCILE_ANNOTATION, RECONCILING_CONDITION,
};
use restate_operator::error::{
    root_cause, Error, FinalizerFailure, KubeFailure, KubeFailureKind,
};
use restate_operator::meta::ObjectMeta;
use restate_operator::readiness::{
    crd_name, judge_crd_poll, next_crd_report, pending_crds_note, CrdPoll, CrdReport,
    DiscoveryAnswer, Readiness, ReadinessGate,
};
use restate_operator::string_map::StringMap;
use restate_operator::time::{Duration, Timestamp};

fn annotated(annotations: &[(&str, &str)]) -> ObjectMeta {
    let mut map = StringMap::new();
    for (k, v) in annotations {
        map.insert(k.to_string(), v.to_string());
    }
    let mut meta = ObjectMeta::empty();
    meta.name = Some("cluster".to_owned());
    meta.annotations = Some(map);
    meta
}

fn at(seconds: i128) -> Timestamp {
    Timestamp::from_nanos(seconds * 1_000_000_000).unwrap()
}

fn failure(kind: KubeFailureKind, message: &str) -> KubeFailure {
    KubeFailure { kind, reason: String::new(), message: message.to_owned() }
}

#[test]
fn only_disabled_suspends_reconciliation() {
    assert!(!reconciliation_suspended(&annotated(&[])));
    assert!(reconciliation_suspended(&annotated(&[(RECONCILE_ANNOTATION, "disabled")])));

    for value in ["enabled", "", "Disabled", "true", "suspended"] {
        assert!(
            !reconciliation_suspended(&annotated(&[(RECONCILE_ANNOTATION, value)])),
            "{RECONCILE_ANNOTATION}={value} must not suspend reconciliation"
        );
    }
}

#[test]
fn the_suspension_message_names_the_annotation() {
    let message = suspended_message();
    assert!(message.contains(RECONCILE_ANNOTATION), "{message}");
    assert_eq!(
        message,
        "Reconciliation is suspended by the restate.dev/reconcile=disabled annotation."
    );
}

#[test]
fn deletion_is_not_suspended() {
    let mut rc = annotated(&[(RECONCILE_ANNOTATION, "disabled")]);
    assert!(reconciliation_suspended(&rc));

    rc.deletion_timestamp = Some(at(1_700_000_000));
    assert!(!reconciliation_suspended(&rc));
}

#[test]
fn resuming_lasts_until_the_resource_is_ready_again() {
    let disabled = ReconciliationState::Disabled;
    let resuming = ReconciliationState::ResumingReconciliation;
    let reconciling = ReconciliationState::Reconciling;

    // still converging after the annotation was removed
    assert_eq!(state_after_reconcile(Some(disabled), "False"), resuming);
    assert_eq!(state_after_reconcile(Some(resuming), "Unknown"), resuming);

    // ready again, so the resume is over
    assert_eq!(state_after_reconcile(Some(resuming), "True"), reconciling);
    assert_eq!(state_after_reconcile(Some(disabled), "True"), reconciling);

    // never suspended, so never resuming, however unready it is
    assert_eq!(state_after_reconcile(None, "False"), reconciling);
    assert_eq!(state_after_reconcile(Some(reconciling), "False"), reconciling);
}

#[test]
fn suspension_is_logged_loudly_once() {
    let (level, text) = log_suspended("RestateCluster", "c", None);
    assert_eq!(level, LogLevel::Info);
    assert_eq!(text, format!("Skipping RestateCluster c: {}", suspended_message()));
    let (level, _) = log_suspended("RestateCluster", "c", Some(ReconciliationState::Disabled));
    assert_eq!(level, LogLevel::Debug);
    let (level, _) = log_suspended("RestateCluster", "c", Some(ReconciliationState::Reconciling));
    assert_eq!(level, LogLevel::Info);
}

#[test]
fn pending_crds_note_names_every_waited_for_crd() {
    assert_eq!(pending_crds_note(&vec![]), None);

    assert_eq!(
        pending_crds_note(&vec!["restateclusters.restate.dev".to_owned()]).unwrap(),
        "Waiting for CRD restateclusters.restate.dev to be installed before reconciling it."
    );

    assert_eq!(
        pending_crds_note(&vec![
            "restateclusters.restate.dev".to_owned(),
            "restatedeployments.restate.dev".to_owned(),
        ])
        .unwrap(),
        "Waiting for 2 CRDs to be installed before reconciling them: \
         restateclusters.restate.dev, restatedeployments.restate.dev."
    );
}

#[test]
fn readiness_gate_indices_match_declaration_order() {
    for (index, gate) in ReadinessGate::ALL.into_iter().enumerate() {
        assert_eq!(index, gate as usize, "{gate:?} is not at its own index in ALL");
    }
}

#[test]
fn readiness_reports_pending_controllers_until_all_gates_are_marked() {
    let mut readiness = Readiness::new();

    let report = readiness.report();
    assert!(!report.ready);
    assert_eq!(
        report.pending_controllers,
        vec!["RestateCluster", "RestateCloudEnvironment", "RestateDeployment"]
    );

    readiness.mark_ready(ReadinessGate::RestateCluster);
    // marking twice must not affect the other gates
    readiness.mark_ready(ReadinessGate::RestateCluster);
    readiness.mark_ready(ReadinessGate::RestateDeployment);

    let report = readiness.report();
    assert!(!report.ready);
    assert_eq!(report.pending_controllers, vec!["RestateCloudEnvironment"]);

    readiness.mark_ready(ReadinessGate::RestateCloudEnvironment);

    let report = readiness.report();
    assert!(report.ready);
    assert!(report.pending_controllers.is_empty());
}

#[test]
fn pending_crds_lists_only_the_crds_still_being_waited_for() {
    let mut readiness = Readiness::new();

    // nothing is waiting until a controller says so, even though nothing is ready either
    assert!(readiness.pending_crds().is_empty());
    assert!(!readiness.report().ready);

    readiness.mark_waiting_for_crd(
        ReadinessGate::RestateDeployment,
        "restatedeployments.restate.dev",
    );
    readiness.mark_waiting_for_crd(ReadinessGate::RestateCluster, "restateclusters.restate.dev");

    // in gate order, not the order they were reported
    assert_eq!(
        readiness.pending_crds(),
        vec!["restateclusters.restate.dev", "restatedeployments.restate.dev"]
    );

    // re-reporting the same wait must not duplicate it
    readiness.mark_waiting_for_crd(ReadinessGate::RestateCluster, "restateclusters.restate.dev");
    assert_eq!(readiness.pending_crds().len(), 2);

    // becoming ready clears the wait
    readiness.mark_ready(ReadinessGate::RestateCluster);
    assert_eq!(readiness.pending_crds(), vec!["restatedeployments.restate.dev"]);

    readiness.mark_ready(ReadinessGate::RestateDeployment);
    assert!(readiness.pending_crds().is_empty());
}

#[test]
fn a_missing_crd_is_waited_for_and_a_refusal_is_not() {
    let crd = crd_name("restateclusters", "restate.dev");
    assert_eq!(crd, "restateclusters.restate.dev");
    let served = DiscoveryAnswer::Resources(vec!["restateclusters".to_owned()]);
    assert!(matches!(
        judge_crd_poll(served, "restateclusters", &crd, "restate.dev/v1"),
        CrdPoll::Available
    ));
    let other = DiscoveryAnswer::Resources(vec!["restatedeployments".to_owned()]);
    match judge_crd_poll(other, "restateclusters", &crd, "restate.dev/v1") {
        CrdPoll::Wait(note) => assert_eq!(
            note,
            "CRD restateclusters.restate.dev is not yet available. Is it installed?"
        ),
        other => panic!("{other:?}"),
    }
    let missing = DiscoveryAnswer::Failed(failure(KubeFailureKind::Api(404), "not found"));
    match judge_crd_poll(missing, "restateclusters", &crd, "restate.dev/v1") {
        CrdPoll::Wait(note) => assert_eq!(
            note,
            "API version restate.dev/v1 is not yet available, so neither is CRD \
             restateclusters.restate.dev. Is it installed?"
        ),
        other => panic!("{other:?}"),
    }
    let forbidden = DiscoveryAnswer::Failed(failure(KubeFailureKind::Api(403), "no"));
    assert!(matches!(
        judge_crd_poll(forbidden, "restateclusters", &crd, "restate.dev/v1"),
        CrdPoll::Fail(_)
    ));
}

#[test]
fn the_crd_report_ends_once_every_controller_has_started() {
    let mut readiness = Readiness::new();
    assert!(matches!(next_crd_report(&readiness, false), CrdReport::Continue));
    readiness.mark_waiting_for_crd(ReadinessGate::RestateCluster, "restateclusters.restate.dev");
    assert!(matches!(next_crd_report(&readiness, false), CrdReport::Warn(_)));
    for gate in ReadinessGate::ALL {
        readiness.mark_ready(gate);
    }
    assert!(matches!(next_crd_report(&readiness, true), CrdReport::AllAvailable));
    assert!(matches!(next_crd_report(&readiness, false), CrdReport::Stop));
}

#[test]
fn transient_discovery_errors_are_retried() {
    for kind in [
        KubeFailureKind::Api(404),
        KubeFailureKind::Api(429),
        KubeFailureKind::Api(500),
        KubeFailureKind::Api(503),
        KubeFailureKind::Transport,
    ] {
        assert!(is_retryable_discovery_error(&failure(kind, "")), "{kind:?}");
    }
    for kind in [
        KubeFailureKind::Api(401),
        KubeFailureKind::Api(403),
        KubeFailureKind::Api(499),
        KubeFailureKind::Other,
    ] {
        assert!(!is_retryable_discovery_error(&failure(kind, "")), "{kind:?}");
    }
}

#[test]
fn a_missing_object_counts_as_deleted() {
    assert!(matches!(deletion_outcome(Ok(())), Ok(true)));
    assert!(matches!(
        deletion_outcome(Err(failure(KubeFailureKind::Api(404), ""))),
        Ok(false)
    ));
    assert!(matches!(
        deletion_outcome(Err(failure(KubeFailureKind::Api(409), ""))),
        Err(Error::KubeError(_))
    ));
}

#[test]
fn a_deleted_object_has_another_generation() {
    assert_eq!(generation_after_deletion(Some(4)), Some(5));
    assert_eq!(generation_after_deletion(None), Some(0));
}

#[test]
fn services_are_addressed_through_the_cluster_dns() {
    assert_eq!(
        service_url("restate", "apps", 9070, None, "cluster.local").unwrap(),
        "http://restate.apps.svc.cluster.local:9070/"
    );
    assert_eq!(
        service_url("restate", "apps", 9080, Some("/a b"), "cluster.local").unwrap(),
        "http://restate.apps.svc.cluster.local:9080/a%20b"
    );
    // the default port of the scheme is not written
    assert_eq!(
        service_url("restate", "apps", 80, None, "cluster.local").unwrap(),
        "http://restate.apps.svc.cluster.local/"
    );
    assert_eq!(
        request_url("http://restate.apps:9070/base?x=1", "/deployments/dp_1?force=true").unwrap(),
        "http://restate.apps:9070/deployments/dp_1?force=true"
    );
    assert_eq!(request_url("https://alice.com/a", "//eve.com/b").unwrap(), "https://eve.com/b");
    match request_url("nowhere", "/query") {
        Err(Error::InvalidUrl(text)) => assert_eq!(text, "relative URL without a base"),
        other => panic!("{other:?}"),
    }
    match service_url("restate", "apps", -1, None, "cluster.local") {
        Err(Error::InvalidUrl(text)) => assert_eq!(text, "invalid port number"),
        other => panic!("{other:?}"),
    }
}

fn condition(type_: &str, status: &str, seconds: i128) -> Condition {
    Condition {
        last_transition_time: Some(at(seconds)),
        message: Some("m".to_owned()),
        reason: Some("r".to_owned()),
        status: status.to_owned(),
        type_: type_.to_owned(),
    }
}

#[test]
fn a_condition_keeps_its_time_until_its_status_changes() {
    let existing = Some(vec![condition("Other", "True", 5), condition("Ready", "True", 10)]);
    let same = ready_condition(
        &existing,
        "new message".to_owned(),
        "Why".to_owned(),
        "True".to_owned(),
        at(99),
    );
    assert_eq!(same.last_transition_time.unwrap().nanos(), at(10).nanos());
    assert_eq!(same.message.as_deref(), Some("new message"));
    assert_eq!(same.reason.as_deref(), Some("Why"));
    assert_eq!(same.type_, "Ready");
    let changed = ready_condition(
        &existing,
        "m".to_owned(),
        "r".to_owned(),
        "False".to_owned(),
        at(99),
    );
    assert_eq!(changed.last_transition_time.unwrap().nanos(), at(99).nanos());
}

#[test]
fn a_suspension_keeps_the_other_conditions() {
    let existing = Some(vec![
        condition("Ready", "True", 10),
        condition(RECONCILING_CONDITION, "False", 20),
    ]);
    let after = suspended_conditions(&existing, at(99));
    assert_eq!(after.len(), 2);
    assert_eq!(after[0].type_, "Ready");
    assert_eq!(after[1].type_, RECONCILING_CONDITION);
    assert_eq!(after[1].status, "False");
    assert_eq!(after[1].reason.as_deref(), Some("Disabled"));
    // only the start of the suspension is a transition
    assert_eq!(after[1].last_transition_time.unwrap().nanos(), at(20).nanos());
    assert!(condition_of_type(&Some(after), "Ready").is_some());
}

#[test]
fn errors_say_what_went_wrong() {
    let cases: Vec<(Error, &str, &str)> = vec![
        (
            Error::SerializationError("bad".to_owned()),
            "SerializationError: bad",
            "SerializationError",
        ),
        (
            Error::KubeError(failure(KubeFailureKind::Other, "oops")),
            "Kube Error: oops",
            "KubeError",
        ),
        (
            Error::NotReady {
                message: "m".to_owned(),
                reason: "r".to_owned(),
                requeue_after: None,
            },
            "Cluster is not yet Ready: m",
            "NotReady",
        ),
        (
            Error::DeploymentNotReady {
                message: "m".to_owned(),
                reason: "r".to_owned(),
                requeue_after: None,
                replica_set_status: None,
            },
            "RestateDeployment is not yet Ready: m",
            "ServiceNotReady",
        ),
        (
            Error::InvalidRestateConfig("c".to_owned()),
            "Invalid Restate configuration: c",
            "InvalidRestateConfig",
        ),
        (
            Error::RestateCloudEnvironmentNotFound("e".to_owned()),
            "The RestateCloudEnvironment e does not exist",
            "RestateCloudEnvironmentNotFound",
        ),
        (Error::SecretNotFound("s".to_owned()), "The Secret s does not exist", "SecretNotFound"),
        (
            Error::SecretKeyNotFound("k".to_owned(), "s".to_owned()),
            "The Secret key k in s does not exist",
            "SecretKeyNotFound",
        ),
        (Error::InvalidBearerToken, "The bearer token is invalid", "InvalidBearerToken"),
        (
            Error::AdminCallFailed("t".to_owned()),
            "Failed to make Restate admin API call: t",
            "AdminCallFailed",
        ),
        (
            Error::AdminCallRejected {
                status: "500 Internal Server Error".to_owned(),
                url: "u".to_owned(),
                body: "b".to_owned(),
            },
            "Restate admin API call failed (500 Internal Server Error): b",
            "AdminCallRejected",
        ),
        (
            Error::HashCollision,
            "Encountered a ReplicaSet hash collision, will retry with a new template hash",
            "HashCollision",
        ),
        (
            Error::DeploymentDraining { requeue_after: None },
            "This RestateDeployment is backing recently-active versions in Restate. It will be \
             removed after the drain delay period.",
            "DeploymentDraining",
        ),
        (
            Error::DeletionDrainOverdue {
                blocked_by: "v".to_owned(),
                timeout_seconds: 60,
                requeue_after: None,
            },
            "Still waiting on v after the 60s drain timeout",
            "DeletionDrainOverdue",
        ),
        (Error::InvalidUrl("u".to_owned()), "u", "InvalidUrl"),
    ];
    for (error, text, label) in cases {
        assert_eq!(error.message(), text);
        assert_eq!(error.metric_label(), label);
    }
}

#[test]
fn a_deletion_in_use_names_what_holds_it() {
    let error = Error::DeploymentInUse {
        blocked_by: "greeter-abc123 (1 pinned, 0 unpinned invocations)".to_owned(),
        requeue_after: Some(Duration::from_secs(1)),
    };
    assert!(error.message().contains("greeter-abc123 (1 pinned, 0 unpinned invocations)"));
}

#[test]
fn the_cause_lies_under_all_wrappers() {
    let wrapped = Error::FinalizerError(Box::new(FinalizerFailure::ApplyFailed(
        Error::FinalizerError(Box::new(FinalizerFailure::CleanupFailed(Error::HashCollision))),
    )));
    assert!(matches!(root_cause(&wrapped), Error::HashCollision));
    assert!(matches!(root_cause(root_cause(&wrapped)), Error::HashCollision));
    let own = Error::FinalizerError(Box::new(FinalizerFailure::Other("o".to_owned())));
    assert!(matches!(root_cause(&own), Error::FinalizerError(_)));
    assert_eq!(own.message(), "Finalizer Error: o");
}
