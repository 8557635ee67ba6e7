//! Jobs that tell whether the pods of a cluster get the credentials of their cloud.

use vstd::prelude::*;
use vstd::string::*;

use crate::control::{opt_conditions, Condition, ConditionView};
use crate::error::{Error, KubeFailure, KubeFailureKind};
use crate::json::{no_fields, opt_json, text_array, with_field, Json, Object, Value};
use crate::manifest::{duplicate_opt_value, manifest, manifest_json};
use crate::meta::{MetaView, ObjectMeta};
use crate::restatecluster::labels::{object_meta, object_view, NAME_LABEL};
use crate::restatecluster::objects::ConditionedStatus;
use crate::string_map::StringMap;
use crate::text::{cat, contains_str, occurs_in, str_eq, texts};

verus! {

/// What a canary looks for.
#[derive(Debug, Clone, Copy, PartialEq, Eq, Structural)]
pub enum CanaryKind {
    /// AWS Pod Identity.
    PodIdentity,
    /// GCP Workload Identity.
    WorkloadIdentity,
}

/// A job that tells whether pods get their credentials.
#[derive(Debug)]
pub struct CanaryConfig {
    /// The name of the job.
    pub name: &'static str,
    pub image: String,
    pub command: Vec<String>,
    /// What the reasons of the conditions begin with.
    pub reason_prefix: &'static str,
    pub failure_message: &'static str,
    pub pending_message: &'static str,
}

pub const PIA_CANARY: &'static str = "restate-pia-canary";

pub const WI_CANARY: &'static str = "restate-wi-canary";

pub const PIA_FAILED: &'static str = "Canary pod did not receive Pod Identity credentials; PIA webhook may need to catch up";

pub const PIA_PENDING: &'static str = "Canary Job has not yet succeeded; PIA webhook may need to catch up";

pub const WI_FAILED: &'static str = "Canary pod could not obtain a Workload Identity token from the GKE metadata server; check that Workload Identity is enabled and the IAM binding is correct";

pub const WI_PENDING: &'static str = "Canary Job has not yet succeeded; Workload Identity may need to propagate";

pub const RECREATED_MESSAGE: &'static str = "Canary Job has not yet succeeded; recreated Job after tolerations change";

pub const TOKEN_URL: &'static str = "http://metadata.google.internal/computeMetadata/v1/instance/service-accounts/default/token";

/// The volume by which a pod that gets Pod Identity credentials is known as soon as it is created.
pub const IDENTITY_VOLUME: &'static str = "eks-pod-identity-token";

/// The command of a canary.
pub open spec fn canary_command(kind: CanaryKind) -> Seq<Seq<char>> {
    match kind {
        CanaryKind::PodIdentity => seq![
            "grep"@,
            "-q"@,
            "AWS_CONTAINER_AUTHORIZATION_TOKEN_FILE"@,
            "/proc/self/environ"@,
        ],
        CanaryKind::WorkloadIdentity => seq![
            "wget"@,
            "--header"@,
            "Metadata-Flavor: Google"@,
            "-q"@,
            "-O"@,
            "/dev/null"@,
            TOKEN_URL@,
        ],
    }
}

/// The name of the job of a canary.
pub open spec fn canary_name(kind: CanaryKind) -> Seq<char> {
    match kind {
        CanaryKind::PodIdentity => PIA_CANARY@,
        CanaryKind::WorkloadIdentity => WI_CANARY@,
    }
}

/// What the reasons of the conditions of a canary begin with.
pub open spec fn canary_prefix(kind: CanaryKind) -> Seq<char> {
    match kind {
        CanaryKind::PodIdentity => "PodIdentityAssociation"@,
        CanaryKind::WorkloadIdentity => "WorkloadIdentity"@,
    }
}

/// What is said where a canary has failed.
pub open spec fn canary_failed(kind: CanaryKind) -> Seq<char> {
    match kind {
        CanaryKind::PodIdentity => PIA_FAILED@,
        CanaryKind::WorkloadIdentity => WI_FAILED@,
    }
}

/// What is said where a canary has not succeeded yet.
pub open spec fn canary_pending(kind: CanaryKind) -> Seq<char> {
    match kind {
        CanaryKind::PodIdentity => PIA_PENDING@,
        CanaryKind::WorkloadIdentity => WI_PENDING@,
    }
}

/// The canary of this kind.
pub fn canary_config(kind: CanaryKind, image: &str) -> (r: CanaryConfig)
    ensures
        r.name@ == canary_name(kind),
        r.image@ == image@,
        texts(r.command@) == canary_command(kind),
        r.reason_prefix@ == canary_prefix(kind),
        r.failure_message@ == canary_failed(kind),
        r.pending_message@ == canary_pending(kind),
{
    let mut command: Vec<String> = Vec::new();
    match kind {
        CanaryKind::PodIdentity => {
            command.push("grep".to_owned());
            command.push("-q".to_owned());
            command.push("AWS_CONTAINER_AUTHORIZATION_TOKEN_FILE".to_owned());
            command.push("/proc/self/environ".to_owned());
            proof {
                assert(texts(command@) =~= canary_command(kind));
            }
            CanaryConfig {
                name: PIA_CANARY,
                image: image.to_owned(),
                command,
                reason_prefix: "PodIdentityAssociation",
                failure_message: PIA_FAILED,
                pending_message: PIA_PENDING,
            }
        },
        CanaryKind::WorkloadIdentity => {
            command.push("wget".to_owned());
            command.push("--header".to_owned());
            command.push("Metadata-Flavor: Google".to_owned());
            command.push("-q".to_owned());
            command.push("-O".to_owned());
            command.push("/dev/null".to_owned());
            command.push(TOKEN_URL.to_owned());
            proof {
                assert(texts(command@) =~= canary_command(kind));
            }
            CanaryConfig {
                name: WI_CANARY,
                image: image.to_owned(),
                command,
                reason_prefix: "WorkloadIdentity",
                failure_message: WI_FAILED,
                pending_message: WI_PENDING,
            }
        },
    }
}

/// The job of a canary. It runs as the pods of the cluster do, and is labelled otherwise, so that
/// nothing takes it for one of them.
pub open spec fn canary_job_json(
    base: MetaView,
    tolerations: Option<Json>,
    name: Seq<char>,
    image: Seq<char>,
    command: Seq<Seq<char>>,
) -> Json {
    let meta = object_view(base, name);
    let container = Json::Object(
        no_fields().insert("command"@, text_array(command)).insert("image"@, Json::Text(image)).insert(
            "name"@,
            Json::Text("canary"@),
        ),
    );
    let pod = Json::Object(
        with_field(
            no_fields().insert("containers"@, Json::Array(seq![container])).insert(
                "restartPolicy"@,
                Json::Text("Never"@),
            ).insert("serviceAccountName"@, Json::Text("restate"@)),
            "tolerations"@,
            tolerations,
        ),
    );
    manifest_json(
        "batch/v1"@,
        "Job"@,
        MetaView { labels: Some(meta.labels->0.insert(NAME_LABEL@, name)), ..meta },
        Some(
            Json::Object(
                no_fields().insert("backoffLimit"@, Json::Int(1)).insert(
                    "template"@,
                    Json::Object(no_fields().insert("spec"@, pod)),
                ),
            ),
        ),
    )
}

/// The job of a canary.
pub fn canary_job_spec(
    base_metadata: &ObjectMeta,
    tolerations: &Option<Value>,
    config: &CanaryConfig,
) -> (r: Value)
    requires
        base_metadata.name is Some,
    ensures
        r@ == canary_job_json(
            base_metadata@,
            opt_json(*tolerations),
            config.name@,
            config.image@,
            texts(config.command@),
        ),
{
    let mut metadata = object_meta(base_metadata, config.name);
    let mut labels: StringMap = match metadata.labels {
        Some(l) => l,
        None => StringMap::new(),
    };
    labels.insert(NAME_LABEL.to_owned(), config.name.to_owned());
    metadata.labels = Some(labels);
    let mut container = Object::new();
    container.put("command", Value::texts(&config.command));
    container.put_text("image", config.image.as_str());
    container.put_text("name", "canary");
    let mut pod = Object::new();
    pod.put("containers", Value::singleton(Value::Object(container)));
    pod.put_text("restartPolicy", "Never");
    pod.put_text("serviceAccountName", "restate");
    pod.put_opt("tolerations", duplicate_opt_value(tolerations));
    let mut template = Object::new();
    template.put("spec", Value::Object(pod));
    let mut spec = Object::new();
    spec.put("backoffLimit", Value::Int(1));
    spec.put("template", Value::Object(template));
    manifest("batch/v1", "Job", &metadata, Some(Value::Object(spec)))
}

/// How a canary has come out.
#[derive(Debug, Clone, Copy, PartialEq, Eq, Structural)]
pub enum CanaryResult {
    Complete,
    Failed,
    Pending,
}

/// How a canary has come out: as the first condition says that holds and ends a job.
pub open spec fn canary_state(conditions: Seq<ConditionView>) -> CanaryResult
    decreases conditions.len(),
{
    if conditions.len() == 0 {
        CanaryResult::Pending
    } else if conditions[0].status == "True"@ && conditions[0].type_ == "Complete"@ {
        CanaryResult::Complete
    } else if conditions[0].status == "True"@ && conditions[0].type_ == "Failed"@ {
        CanaryResult::Failed
    } else {
        canary_state(conditions.skip(1))
    }
}

/// The conditions of a status.
pub open spec fn status_conditions(status: Option<ConditionedStatus>) -> Seq<ConditionView> {
    match status {
        Some(s) => opt_conditions(s.conditions),
        None => Seq::empty(),
    }
}

/// How a canary has come out, by the status of its job.
pub fn check_canary_conditions(status: &Option<ConditionedStatus>) -> (r: CanaryResult)
    ensures
        r == canary_state(status_conditions(*status)),
{
    let conditions: &Vec<Condition> = match status {
        None => {
            return CanaryResult::Pending;
        },
        Some(s) => match &s.conditions {
            None => {
                return CanaryResult::Pending;
            },
            Some(c) => c,
        },
    };
    let ghost all = status_conditions(*status);
    let mut i: usize = 0;
    proof {
        assert(all.skip(0) =~= all);
    }
    while i < conditions.len()
        invariant
            i <= conditions.len(),
            all.len() == conditions@.len(),
            forall|j: int| 0 <= j < all.len() ==> #[trigger] all[j] == conditions@[j]@,
            canary_state(all) == canary_state(all.skip(i as int)),
            all == status_conditions(*status),
        decreases conditions.len() - i,
    {
        let c = &conditions[i];
        proof {
            assert(all.skip(i as int)[0] == c@);
            assert(all.skip(i as int).skip(1) =~= all.skip(i as int + 1));
            reveal_strlit("Complete");
            reveal_strlit("Failed");
        }
        if str_eq(c.status.as_str(), "True") {
            if str_eq(c.type_.as_str(), "Complete") {
                return CanaryResult::Complete;
            }
            if str_eq(c.type_.as_str(), "Failed") {
                return CanaryResult::Failed;
            }
        }
        i = i + 1;
    }
    CanaryResult::Pending
}

/// What follows a look at a canary.
#[derive(Debug)]
pub enum CanaryVerdict {
    Passed,
    /// The pods of the job may tell more.
    LookAtPods,
    /// Delete the job, and then fail.
    Restart(Error),
    Fail(Error),
}

/// A cluster that waits, without an interval of its own.
pub open spec fn is_not_ready(e: Error, reason: Seq<char>, message: Seq<char>) -> bool {
    e matches Error::NotReady { message: m, reason: r, requeue_after } && m@ == message && r@
        == reason && requeue_after is None
}

fn not_ready(reason: String, message: &str) -> (r: Error)
    ensures
        is_not_ready(r, reason@, message@),
{
    Error::NotReady { message: message.to_owned(), reason, requeue_after: None }
}

/// Whether the apiserver refused to change a job because its template is immutable.
pub open spec fn immutable_field(f: KubeFailure) -> bool {
    f.kind == KubeFailureKind::Api(422) && f.reason@ == "Invalid"@ && occurs_in(
        f.message@,
        "field is immutable"@,
    )
}

/// What follows once the job of a canary has been applied. One that cannot be changed is made anew.
pub fn run_canary_job(
    config: &CanaryConfig,
    kind: CanaryKind,
    applied: Result<Option<ConditionedStatus>, KubeFailure>,
) -> (r: CanaryVerdict)
    ensures
        match applied {
            Err(f) => if immutable_field(f) {
                r matches CanaryVerdict::Restart(e) && is_not_ready(
                    e,
                    config.reason_prefix@ + "CanaryPending"@,
                    RECREATED_MESSAGE@,
                )
            } else {
                r == CanaryVerdict::Fail(Error::KubeError(f))
            },
            Ok(status) => match canary_state(status_conditions(status)) {
                CanaryResult::Complete => r is Passed,
                CanaryResult::Failed => r matches CanaryVerdict::Restart(e) && is_not_ready(
                    e,
                    config.reason_prefix@ + "CanaryFailed"@,
                    config.failure_message@,
                ),
                CanaryResult::Pending => match kind {
                    CanaryKind::PodIdentity => r is LookAtPods,
                    CanaryKind::WorkloadIdentity => r matches CanaryVerdict::Fail(e)
                        && is_not_ready(
                        e,
                        config.reason_prefix@ + "CanaryPending"@,
                        config.pending_message@,
                    ),
                },
            },
        },
{
    match applied {
        Err(f) => {
            let unprocessable: bool = match f.kind {
                KubeFailureKind::Api(code) => code == 422,
                _ => false,
            };
            if unprocessable && str_eq(f.reason.as_str(), "Invalid") && contains_str(
                f.message.as_str(),
                "field is immutable",
            ) {
                CanaryVerdict::Restart(
                    not_ready(cat(config.reason_prefix, "CanaryPending"), RECREATED_MESSAGE),
                )
            } else {
                CanaryVerdict::Fail(Error::KubeError(f))
            }
        },
        Ok(status) => match check_canary_conditions(&status) {
            CanaryResult::Complete => CanaryVerdict::Passed,
            CanaryResult::Failed => CanaryVerdict::Restart(
                not_ready(cat(config.reason_prefix, "CanaryFailed"), config.failure_message),
            ),
            CanaryResult::Pending => match kind {
                CanaryKind::PodIdentity => CanaryVerdict::LookAtPods,
                CanaryKind::WorkloadIdentity => CanaryVerdict::Fail(
                    not_ready(cat(config.reason_prefix, "CanaryPending"), config.pending_message),
                ),
            },
        },
    }
}

/// Whether a volume is the one by which Pod Identity is known.
pub open spec fn has_identity_volume(volumes: Seq<Seq<char>>) -> bool {
    volumes.contains(IDENTITY_VOLUME@)
}

fn finds_identity_volume(volumes: &Vec<String>) -> (r: bool)
    ensures
        r == has_identity_volume(texts(volumes@)),
{
    let ghost all = texts(volumes@);
    let mut i: usize = 0;
    while i < volumes.len()
        invariant
            i <= volumes.len(),
            all == texts(volumes@),
            forall|j: int| 0 <= j < i ==> #[trigger] all[j] != IDENTITY_VOLUME@,
        decreases volumes.len() - i,
    {
        proof {
            assert(all[i as int] == volumes@[i as int]@);
        }
        if str_eq(volumes[i].as_str(), IDENTITY_VOLUME) {
            return true;
        }
        i = i + 1;
    }
    false
}

/// What the pods of a Pod Identity canary tell before it is done: a pod that was created with the
/// volume gets its credentials, one without it never will. `first_pod` holds the names of the
/// volumes of the first pod of the job, where there is one to be seen.
pub fn check_pia(config: &CanaryConfig, first_pod: &Option<Vec<String>>) -> (r: CanaryVerdict)
    ensures
        match first_pod {
            Some(volumes) => if has_identity_volume(texts(volumes@)) {
                r is Passed
            } else {
                r matches CanaryVerdict::Restart(e) && is_not_ready(
                    e,
                    "PodIdentityAssociationCanaryFailed"@,
                    config.failure_message@,
                )
            },
            None => r matches CanaryVerdict::Fail(e) && is_not_ready(
                e,
                "PodIdentityAssociationCanaryPending"@,
                config.pending_message@,
            ),
        },
{
    match first_pod {
        Some(volumes) => if finds_identity_volume(volumes) {
            CanaryVerdict::Passed
        } else {
            CanaryVerdict::Restart(
                not_ready(
                    "PodIdentityAssociationCanaryFailed".to_owned(),
                    config.failure_message,
                ),
            )
        },
        None => CanaryVerdict::Fail(
            not_ready("PodIdentityAssociationCanaryPending".to_owned(), config.pending_message),
        ),
    }
}

} // verus!
