//! The steps of a reconcile of an integration, and its status.

use vstd::prelude::*;
use vstd::string::*;

use crate::component::owned_view;
use crate::control::{
    condition_of_type, condition_views, find_condition, opt_conditions, Action, Condition,
    ConditionView,
};
use crate::error::{error_text, Error};
use crate::json::{Json, Value};
use crate::manifest::config_map_json;
use crate::meta::{
    entries, map_or_empty, opt_map, MetaView, ObjectMeta, OwnerReference, OwnerView,
};
use crate::restatedeployment::replicaset::LAST_APPLIED_ANNOTATION;
use crate::restatekafkaintegration::config::{config_map, COMPONENT};
use crate::restatekafkaintegration::deployment::{
    apply_template_overlay, base_deployment, config_volume_of, deployment_json,
    label_selector_string, overlaid, overlay_cannot_break_the_selector, relabelled, template_json,
};
use crate::restatekafkaintegration::resource::{
    RestateKafkaIntegration, RestateKafkaIntegrationSpec, RestateKafkaIntegrationStatus,
    CONFIG_FILE_KEY,
};
use crate::text::{i64_text, int_text, opt_text, str_eq};
use crate::time::{secs, Duration, Timestamp};

verus! {

/// Seconds after which a healthy integration is looked at again.
pub const REQUEUE_SECONDS: u64 = 300;

/// Seconds after which an integration that is not available yet is looked at again.
pub const NOT_READY_REQUEUE_SECONDS: u64 = 10;

pub const KAFKA_API_VERSION: &'static str = "restate.dev/v1alpha1";

pub const KAFKA_KIND: &'static str = "RestateKafkaIntegration";

pub const TOKEN_REQUIRED: &'static str = "spec.restate.ingress.cloud requires spec.restate.authToken, a Secret key in this namespace holding a Restate Cloud API token";

/// When a failed reconcile is tried again.
pub fn error_policy(_error: &Error) -> (r: Action)
    ensures
        r matches Action::Requeue(d) && d@ == secs(30),
{
    Action::Requeue(Duration::from_secs(30))
}

/// The replica counts that a Deployment reports.
#[derive(Debug, Clone, Copy, PartialEq, Eq, Structural)]
pub struct DeploymentStatus {
    pub replicas: Option<i32>,
    pub ready_replicas: Option<i32>,
    pub available_replicas: Option<i32>,
    pub unavailable_replicas: Option<i32>,
}

/// What is said of whether an integration is ready.
#[derive(Debug)]
pub struct ReadyCondition {
    pub status: &'static str,
    pub reason: &'static str,
    pub message: String,
}

/// What is said of whether an integration is ready.
pub struct ReadyView {
    pub status: Seq<char>,
    pub reason: Seq<char>,
    pub message: Seq<char>,
}

impl ReadyCondition {
    /// What is said.
    pub open spec fn view(&self) -> ReadyView {
        ReadyView { status: self.status@, reason: self.reason@, message: self.message@ }
    }
}

/// How many replicas are available.
pub open spec fn available_count(status: Option<DeploymentStatus>) -> int {
    match status {
        Some(s) => match s.available_replicas {
            Some(n) => n as int,
            None => 0,
        },
        None => 0,
    }
}

/// Whether an integration runs: one available replica does. One that is scaled to zero is paused,
/// and nothing is wrong with it.
pub open spec fn readiness(desired: int, status: Option<DeploymentStatus>) -> ReadyView {
    let available = available_count(status);
    if desired == 0 {
        ReadyView {
            status: "True"@,
            reason: "ScaledToZero"@,
            message: "Scaled to zero replicas"@,
        }
    } else {
        let message = int_text(available) + "/"@ + int_text(desired) + " replicas available"@;
        if available >= 1 {
            ReadyView { status: "True"@, reason: "Available"@, message }
        } else {
            ReadyView { status: "False"@, reason: "DeploymentNotAvailable"@, message }
        }
    }
}

/// Tells whether an integration runs.
pub fn ready_condition(desired_replicas: i32, status: Option<DeploymentStatus>) -> (r: ReadyCondition)
    ensures
        r@ == readiness(desired_replicas as int, status),
{
    let available: i32 = match status {
        Some(s) => match s.available_replicas {
            Some(n) => n,
            None => 0,
        },
        None => 0,
    };
    if desired_replicas == 0 {
        return ReadyCondition {
            status: "True",
            reason: "ScaledToZero",
            message: "Scaled to zero replicas".to_owned(),
        };
    }
    let mut message: String = i64_text(available as i64);
    message.append("/");
    message.append(i64_text(desired_replicas as i64).as_str());
    message.append(" replicas available");
    if available >= 1 {
        ReadyCondition { status: "True", reason: "Available", message }
    } else {
        ReadyCondition { status: "False", reason: "DeploymentNotAvailable", message }
    }
}

/// The reason that is given for a failed reconcile.
pub open spec fn failure_reason(e: Error) -> Seq<char> {
    match e {
        Error::InvalidRestateConfig(_) => "InvalidConfiguration"@,
        Error::RestateCloudEnvironmentNotFound(_) => "RestateCloudEnvironmentNotFound"@,
        Error::KubeError(_) => "ApiCallFailed"@,
        _ => "FailedReconcile"@,
    }
}

/// The reason that is given for a failed reconcile.
pub fn error_reason(err: &Error) -> (r: &'static str)
    ensures
        r@ == failure_reason(*err),
{
    match err {
        Error::InvalidRestateConfig(_) => "InvalidConfiguration",
        Error::RestateCloudEnvironmentNotFound(_) => "RestateCloudEnvironmentNotFound",
        Error::KubeError(_) => "ApiCallFailed",
        _ => "FailedReconcile",
    }
}

/// Whether a token is missing: Restate Cloud always wants one, and the operator has none to give.
pub open spec fn lacks_token(spec: RestateKafkaIntegrationSpec) -> bool {
    spec.restate.ingress.cloud is Some && spec.restate.auth_token is None
}

/// Refuses a reference to Restate Cloud without a token to go with it.
pub fn validate_auth_token(spec: &RestateKafkaIntegrationSpec) -> (r: Result<(), Error>)
    ensures
        r is Ok <==> !lacks_token(*spec),
        r matches Err(e) ==> (e matches Error::InvalidRestateConfig(t) && t@ == TOKEN_REQUIRED@),
{
    if spec.restate.ingress.cloud.is_some() && spec.restate.auth_token.is_none() {
        Err(Error::InvalidRestateConfig(TOKEN_REQUIRED.to_owned()))
    } else {
        Ok(())
    }
}

/// The reference by which an integration owns what belongs to it.
pub open spec fn integration_owner(rki: RestateKafkaIntegration) -> OwnerView {
    OwnerView {
        api_version: KAFKA_API_VERSION@,
        kind: KAFKA_KIND@,
        name: rki.metadata.name->0@,
        uid: rki.metadata.uid->0@,
        controller: Some(true),
        block_owner_deletion: None,
    }
}

/// What the metadata of everything that an integration owns is made from.
pub open spec fn base_view(rki: RestateKafkaIntegration, namespace: Seq<char>) -> MetaView {
    MetaView {
        name: Some(rki.metadata.any_name()),
        namespace: Some(namespace),
        uid: None,
        labels: Some(entries(opt_map(rki.metadata.labels))),
        annotations: Some(
            entries(opt_map(rki.metadata.annotations)).remove(LAST_APPLIED_ANNOTATION@),
        ),
        owner_references: Some(seq![integration_owner(rki)]),
    }
}

/// What the metadata of everything that an integration owns is made from.
pub fn base_metadata(rki: &RestateKafkaIntegration, namespace: &str) -> (r: ObjectMeta)
    requires
        rki.metadata.name is Some,
        rki.metadata.uid is Some,
    ensures
        r@ == base_view(*rki, namespace@),
        r.name is Some,
{
    let name: Option<String> = rki.metadata.name.clone();
    let uid: Option<String> = rki.metadata.uid.clone();
    let mut owners: Vec<OwnerReference> = Vec::new();
    owners.push(
        OwnerReference {
            api_version: KAFKA_API_VERSION.to_owned(),
            kind: KAFKA_KIND.to_owned(),
            name: name.unwrap(),
            uid: uid.unwrap(),
            controller: Some(true),
            block_owner_deletion: None,
        },
    );
    let mut annotations = map_or_empty(&rki.metadata.annotations);
    annotations.remove(LAST_APPLIED_ANNOTATION);
    let mut meta = ObjectMeta::empty();
    meta.name = Some(rki.metadata.name_any());
    meta.namespace = Some(namespace.to_owned());
    meta.labels = Some(map_or_empty(&rki.metadata.labels));
    meta.annotations = Some(annotations);
    meta.owner_references = Some(owners);
    proof {
        assert(meta@.owner_references->0 =~= seq![integration_owner(*rki)]);
    }
    meta
}

/// A step of a reconcile. They are taken in order, and the first that fails ends the reconcile.
#[derive(Debug)]
pub enum KafkaStep {
    ApplyConfigMap(Value),
    ApplyDeployment(Value),
    /// See to it that the ConfigMap does not exist.
    DeleteConfigMap,
    /// What is asked for cannot be done.
    Refuse(String),
}

/// A step of a reconcile.
pub enum KafkaStepView {
    ApplyConfigMap(Json),
    ApplyDeployment(Json),
    DeleteConfigMap,
    Refuse(Seq<char>),
}

impl KafkaStep {
    /// The step.
    pub open spec fn view(&self) -> KafkaStepView {
        match self {
            KafkaStep::ApplyConfigMap(v) => KafkaStepView::ApplyConfigMap(v@),
            KafkaStep::ApplyDeployment(v) => KafkaStepView::ApplyDeployment(v@),
            KafkaStep::DeleteConfigMap => KafkaStepView::DeleteConfigMap,
            KafkaStep::Refuse(t) => KafkaStepView::Refuse(t@),
        }
    }
}

/// Each step.
pub open spec fn kafka_step_views(s: Seq<KafkaStep>) -> Seq<KafkaStepView> {
    Seq::new(s.len(), |i: int| s[i]@)
}

/// The step that brings the Deployment about, or refuses it.
pub open spec fn deployment_step(
    base: MetaView,
    spec: RestateKafkaIntegrationSpec,
    ingress_url: Seq<char>,
    default_image: Seq<char>,
) -> KafkaStepView {
    match config_volume_of(base.name->0, spec) {
        Err(t) => KafkaStepView::Refuse(t),
        Ok(config) => {
            let template = overlaid(
                Json::Object(template_json(base, spec, ingress_url, default_image, config)),
                spec.template,
            );
            KafkaStepView::ApplyDeployment(
                deployment_json(
                    owned_view(COMPONENT@, base),
                    spec.replicas as int,
                    base.name->0,
                    relabelled(template, base.name->0),
                ),
            )
        },
    }
}

/// The steps of a reconcile. The ConfigMap is there before the Deployment that mounts it, and goes
/// after the Deployment has stopped mounting it.
pub open spec fn kafka_steps(
    base: MetaView,
    spec: RestateKafkaIntegrationSpec,
    ingress_url: Seq<char>,
    default_image: Seq<char>,
) -> Seq<KafkaStepView> {
    let deployment = deployment_step(base, spec, ingress_url, default_image);
    match spec.config {
        Some(c) => seq![
            KafkaStepView::ApplyConfigMap(
                config_map_json(
                    owned_view(COMPONENT@, base),
                    Some(Map::<Seq<char>, Seq<char>>::empty().insert(CONFIG_FILE_KEY@, c@)),
                ),
            ),
            deployment,
        ],
        None => seq![deployment, KafkaStepView::DeleteConfigMap],
    }
}

/// A Deployment never mounts a ConfigMap of the operator that is not there: one with an inline
/// configuration is applied after its ConfigMap, which is not deleted then, and the ConfigMap is
/// deleted only after a Deployment without an inline configuration was applied or refused.
pub proof fn mounted_configuration_is_there(
    base: MetaView,
    spec: RestateKafkaIntegrationSpec,
    ingress_url: Seq<char>,
    default_image: Seq<char>,
    i: int,
)
    requires
        0 <= i < kafka_steps(base, spec, ingress_url, default_image).len(),
    ensures
        ({
            let steps = kafka_steps(base, spec, ingress_url, default_image);
            &&& spec.config is Some ==> steps[0] is ApplyConfigMap && !(steps[i] is DeleteConfigMap)
            &&& steps[i] is ApplyConfigMap ==> i == 0 && spec.config is Some
            &&& steps[i] is DeleteConfigMap ==> i == 1 && steps[0] == deployment_step(
                base,
                spec,
                ingress_url,
                default_image,
            ) && spec.config is None
        }),
{
}

fn deployment_or_refusal(
    base_metadata: &ObjectMeta,
    spec: &RestateKafkaIntegrationSpec,
    ingress_url: &str,
    default_image: &str,
) -> (r: KafkaStep)
    requires
        base_metadata.name is Some,
    ensures
        r@ == deployment_step(base_metadata@, *spec, ingress_url@, default_image@),
{
    match base_deployment(base_metadata, spec, ingress_url, default_image) {
        Err(e) => match e {
            Error::InvalidRestateConfig(t) => KafkaStep::Refuse(t),
            other => KafkaStep::Refuse(other.message()),
        },
        Ok(d) => {
            proof {
                let config = config_volume_of(base_metadata@.name->0, *spec)->Ok_0;
                overlay_cannot_break_the_selector(
                    base_metadata@,
                    *spec,
                    ingress_url@,
                    default_image@,
                    config,
                );
            }
            match apply_template_overlay(d, base_metadata, spec) {
                Ok(v) => KafkaStep::ApplyDeployment(v),
                Err(e) => KafkaStep::Refuse(e.message()),
            }
        },
    }
}

/// The steps of a reconcile. `ingress_url` is the address of the ingress, where it is known.
pub fn reconcile(
    rki: &RestateKafkaIntegration,
    namespace: &str,
    ingress_url: Result<String, Error>,
    default_image: &str,
) -> (r: Result<Vec<KafkaStep>, Error>)
    requires
        rki.metadata.name is Some,
        rki.metadata.uid is Some,
    ensures
        if lacks_token(rki.spec) {
            r matches Err(Error::InvalidRestateConfig(t)) && t@ == TOKEN_REQUIRED@
        } else {
            match ingress_url {
                Err(e) => r == Err::<Vec<KafkaStep>, Error>(e),
                Ok(url) => r is Ok && kafka_step_views(r->Ok_0@) == kafka_steps(
                    base_view(*rki, namespace@),
                    rki.spec,
                    url@,
                    default_image@,
                ),
            }
        },
{
    match validate_auth_token(&rki.spec) {
        Err(e) => {
            return Err(e);
        },
        Ok(()) => {},
    }
    let url: String = match ingress_url {
        Err(e) => {
            return Err(e);
        },
        Ok(u) => u,
    };
    let base = base_metadata(rki, namespace);
    let deployment = deployment_or_refusal(&base, &rki.spec, url.as_str(), default_image);
    let mut steps: Vec<KafkaStep> = Vec::new();
    match &rki.spec.config {
        Some(c) => {
            steps.push(KafkaStep::ApplyConfigMap(config_map(&base, c.as_str()).value()));
            steps.push(deployment);
        },
        None => {
            steps.push(deployment);
            steps.push(KafkaStep::DeleteConfigMap);
        },
    }
    proof {
        assert(kafka_step_views(steps@) =~= kafka_steps(
            base_view(*rki, namespace@),
            rki.spec,
            url@,
            default_image@,
        ));
    }
    Ok(steps)
}

/// A number that was observed, else the one that was reported before.
pub open spec fn or_before(observed: Option<i32>, before: Option<i32>) -> Option<i32> {
    match observed {
        Some(n) => Some(n),
        None => before,
    }
}

fn carry(observed: Option<i32>, before: Option<i32>) -> (r: Option<i32>)
    ensures
        r == or_before(observed, before),
{
    match observed {
        Some(n) => Some(n),
        None => before,
    }
}

/// What came of a reconcile: what the Deployment reports, and the address of the ingress.
#[derive(Debug)]
pub struct KafkaOutcome {
    pub deployment: Option<DeploymentStatus>,
    pub ingress_url: String,
}

/// When the condition changed: not as long as its status stays, so that a new message does not look
/// like a change.
pub open spec fn kafka_transition(existing: Option<ConditionView>, status: Seq<char>, now: int) -> Option<
    int,
> {
    match existing {
        Some(c) => if c.status == status {
            c.last_transition_time
        } else {
            Some(now)
        },
        None => Some(now),
    }
}

/// The number that a Deployment reports.
pub open spec fn observed_counts(outcome: Result<KafkaOutcome, Error>) -> DeploymentStatus {
    match outcome {
        Ok(o) => match o.deployment {
            Some(d) => d,
            None => unknown_counts(),
        },
        Err(_) => unknown_counts(),
    }
}

/// Nothing is known of a Deployment.
pub open spec fn unknown_counts() -> DeploymentStatus {
    DeploymentStatus {
        replicas: None,
        ready_replicas: None,
        available_replicas: None,
        unavailable_replicas: None,
    }
}

/// Writes the outcome of a reconcile into a new status, and says when it runs again.
///
/// A failed reconcile says nothing of the pods that still run, so that what was last seen of them is
/// kept.
pub fn reconcile_status(
    rki: &RestateKafkaIntegration,
    outcome: Result<KafkaOutcome, Error>,
    now: Timestamp,
) -> (r: (RestateKafkaIntegrationStatus, Result<Action, Error>))
    ensures
        ({
            let view = match outcome {
                Ok(o) => readiness(rki.spec.replicas as int, o.deployment),
                Err(e) => ReadyView {
                    status: "False"@,
                    reason: failure_reason(e),
                    message: error_text(e),
                },
            };
            let seen = observed_counts(outcome);
            let previous = match rki.status {
                Some(s) => s.conditions,
                None => None,
            };
            &&& r.0.replicas == match or_before(
                seen.replicas,
                match rki.status {
                    Some(s) => Some(s.replicas),
                    None => None,
                },
            ) {
                Some(n) => n,
                None => 0,
            }
            &&& r.0.ready_replicas == or_before(
                seen.ready_replicas,
                match rki.status {
                    Some(s) => s.ready_replicas,
                    None => None,
                },
            )
            &&& r.0.available_replicas == or_before(
                seen.available_replicas,
                match rki.status {
                    Some(s) => s.available_replicas,
                    None => None,
                },
            )
            &&& r.0.unavailable_replicas == or_before(
                seen.unavailable_replicas,
                match rki.status {
                    Some(s) => s.unavailable_replicas,
                    None => None,
                },
            )
            &&& r.0.observed_generation == rki.metadata.generation
            &&& opt_text(r.0.ingress_url) == match outcome {
                Ok(o) => Some(o.ingress_url@),
                Err(_) => match rki.status {
                    Some(s) => opt_text(s.ingress_url),
                    None => None,
                },
            }
            &&& r.0.label_selector is Some
            &&& r.0.label_selector->0@ == crate::component::INSTANCE_LABEL@ + "="@
                + rki.metadata.any_name() + ","@ + crate::component::NAME_LABEL@ + "="@
                + COMPONENT@
            &&& opt_conditions(r.0.conditions) == seq![
                ConditionView {
                    last_transition_time: kafka_transition(
                        find_condition(opt_conditions(previous), "Ready"@),
                        view.status,
                        now@,
                    ),
                    message: Some(view.message),
                    reason: Some(view.reason),
                    status: view.status,
                    type_: "Ready"@,
                },
            ]
            &&& match outcome {
                Ok(_) => r.1 is Ok && r.1->Ok_0 is Requeue && r.1->Ok_0->Requeue_0@ == secs(
                    if view.status == "True"@ {
                        REQUEUE_SECONDS as int
                    } else {
                        NOT_READY_REQUEUE_SECONDS as int
                    },
                ),
                Err(e) => r.1 == Err::<Action, Error>(e),
            }
        }),
{
    let unknown = DeploymentStatus {
        replicas: None,
        ready_replicas: None,
        available_replicas: None,
        unavailable_replicas: None,
    };
    let (condition, seen, url, result): (
        ReadyCondition,
        DeploymentStatus,
        Option<String>,
        Result<Action, Error>,
    ) = match outcome {
        Ok(o) => {
            let condition = ready_condition(rki.spec.replicas, o.deployment);
            let wait: u64 = if str_eq(condition.status, "True") {
                REQUEUE_SECONDS
            } else {
                NOT_READY_REQUEUE_SECONDS
            };
            let seen = match o.deployment {
                Some(d) => d,
                None => unknown,
            };
            (
                condition,
                seen,
                Some(o.ingress_url),
                Ok(Action::Requeue(Duration::from_secs(wait))),
            )
        },
        Err(e) => {
            let condition = ReadyCondition {
                status: "False",
                reason: error_reason(&e),
                message: e.message(),
            };
            (condition, unknown, None, Err(e))
        },
    };
    let none: Option<Vec<Condition>> = None;
    let previous: &Option<Vec<Condition>> = match &rki.status {
        Some(s) => &s.conditions,
        None => &none,
    };
    let time: Option<Timestamp> = match condition_of_type(previous, "Ready") {
        Some(c) => if str_eq(c.status.as_str(), condition.status) {
            c.last_transition_time
        } else {
            Some(now)
        },
        None => Some(now),
    };
    let ready = Condition {
        last_transition_time: time,
        message: Some(condition.message),
        reason: Some(condition.reason.to_owned()),
        status: condition.status.to_owned(),
        type_: "Ready".to_owned(),
    };
    let mut list: Vec<Condition> = Vec::new();
    list.push(ready);
    proof {
        assert(condition_views(list@) =~= seq![ready@]);
    }
    let (replicas, ready_replicas, available, unavailable): (
        Option<i32>,
        Option<i32>,
        Option<i32>,
        Option<i32>,
    ) = match &rki.status {
        Some(s) => (
            Some(s.replicas),
            s.ready_replicas,
            s.available_replicas,
            s.unavailable_replicas,
        ),
        None => (None, None, None, None),
    };
    let ingress_url: Option<String> = match url {
        Some(u) => Some(u),
        None => match &rki.status {
            Some(s) => match &s.ingress_url {
                Some(u) => Some(u.clone()),
                None => None,
            },
            None => None,
        },
    };
    let status = RestateKafkaIntegrationStatus {
        replicas: match carry(seen.replicas, replicas) {
            Some(n) => n,
            None => 0,
        },
        ready_replicas: carry(seen.ready_replicas, ready_replicas),
        available_replicas: carry(seen.available_replicas, available),
        unavailable_replicas: carry(seen.unavailable_replicas, unavailable),
        observed_generation: rki.metadata.generation,
        ingress_url,
        label_selector: Some(label_selector_string(rki.metadata.name_any().as_str())),
        conditions: Some(list),
    };
    (status, result)
}

} // verus!
