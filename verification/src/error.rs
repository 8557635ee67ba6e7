//! What can go wrong while reconciling.

use vstd::prelude::*;
use vstd::string::*;

use crate::text::{cat, cat3, i64_text, int_text};
use crate::time::Duration;

verus! {

/// The replica counts that a ReplicaSet reports.
#[derive(Debug, Clone, Copy, PartialEq, Eq, Structural)]
pub struct ReplicaSetStatus {
    pub replicas: i32,
    pub ready_replicas: Option<i32>,
    pub available_replicas: Option<i32>,
}

/// How a call of the Kubernetes apiserver failed.
#[derive(Debug, Clone, Copy, PartialEq, Eq, Structural)]
pub enum KubeFailureKind {
    /// The apiserver answered with this HTTP status.
    Api(u16),
    /// The apiserver was not reached.
    Transport,
    /// Anything else, such as an answer that cannot be read.
    Other,
}

/// A failed call of the Kubernetes apiserver.
#[derive(Debug)]
pub struct KubeFailure {
    pub kind: KubeFailureKind,
    pub reason: String,
    pub message: String,
}

/// A failure of the finalizer protocol around a reconcile.
#[derive(Debug)]
pub enum FinalizerFailure {
    ApplyFailed(Error),
    CleanupFailed(Error),
    /// The finalizer itself could not be added or removed.
    Other(String),
}

/// What can go wrong while reconciling. Failures of outside services are carried as their text.
#[derive(Debug)]
#[allow(inconsistent_fields)]
pub enum Error {
    SerializationError(String),
    KubeError(KubeFailure),
    FinalizerError(Box<FinalizerFailure>),
    NotReady { message: String, reason: String, requeue_after: Option<Duration> },
    DeploymentNotReady {
        message: String,
        reason: String,
        requeue_after: Option<Duration>,
        replica_set_status: Option<ReplicaSetStatus>,
    },
    ServiceNotReady { message: String, reason: String, requeue_after: Option<Duration> },
    RouteNotReady { message: String, reason: String, requeue_after: Option<Duration> },
    ConfigurationNotReady { message: String, reason: String, requeue_after: Option<Duration> },
    InvalidRestateConfig(String),
    RestateCloudEnvironmentNotFound(String),
    SecretNotFound(String),
    SecretKeyNotFound(String, String),
    InvalidBearerToken,
    InvalidSigningKeyError(String),
    AdminCallFailed(String),
    AdminCallRejected { status: String, url: String, body: String },
    HashCollision,
    /// Restate routes new invocations to another deployment.
    DeploymentNotLatest { message: String, reason: String, requeue_after: Option<Duration> },
    DeploymentInUse { blocked_by: String, requeue_after: Option<Duration> },
    DeletionDrainOverdue {
        blocked_by: String,
        timeout_seconds: i64,
        requeue_after: Option<Duration>,
    },
    DeploymentDraining { requeue_after: Option<Duration> },
    /// The admin endpoint is busy with another expensive query.
    ExpensiveOperationDeferred { requeue_after: Duration },
    /// A namespace of this name exists and is not ours.
    NameConflict,
    /// The cluster has just been provisioned.
    Provisioned,
    ProvisioningFailed(String),
    InvalidUrl(String),
}

pub const IN_USE_HEAD: &'static str = "This RestateDeployment is backing active versions in Restate: ";

pub const IN_USE_TAIL: &'static str = ". If you want to delete the RestateDeployment, either register new endpoints for the relevant services or delete the Restate versions.";

pub const DRAINING_TEXT: &'static str = "This RestateDeployment is backing recently-active versions in Restate. It will be removed after the drain delay period.";

pub const COLLISION_TEXT: &'static str = "Encountered a ReplicaSet hash collision, will retry with a new template hash";

/// The text of an error.
pub open spec fn error_text(e: Error) -> Seq<char>
    decreases e,
{
    match e {
        Error::SerializationError(t) => "SerializationError: "@ + t@,
        Error::KubeError(f) => "Kube Error: "@ + f.message@,
        Error::FinalizerError(f) => "Finalizer Error: "@ + match *f {
            FinalizerFailure::ApplyFailed(inner) => "failed to apply object: "@ + error_text(inner),
            FinalizerFailure::CleanupFailed(inner) => "failed to clean up object: "@ + error_text(
                inner,
            ),
            FinalizerFailure::Other(t) => t@,
        },
        Error::NotReady { message, .. } => "Cluster is not yet Ready: "@ + message@,
        Error::DeploymentNotReady { message, .. } => "RestateDeployment is not yet Ready: "@
            + message@,
        Error::ServiceNotReady { message, .. } => "RestateService is not yet Ready: "@ + message@,
        Error::RouteNotReady { message, .. } => "Route is not yet Ready: "@ + message@,
        Error::ConfigurationNotReady { message, .. } => "Configuration is not yet Ready: "@
            + message@,
        Error::InvalidRestateConfig(t) => "Invalid Restate configuration: "@ + t@,
        Error::RestateCloudEnvironmentNotFound(t) => "The RestateCloudEnvironment "@ + t@
            + " does not exist"@,
        Error::SecretNotFound(t) => "The Secret "@ + t@ + " does not exist"@,
        Error::SecretKeyNotFound(k, s) => "The Secret key "@ + k@ + " in "@ + s@
            + " does not exist"@,
        Error::InvalidBearerToken => "The bearer token is invalid"@,
        Error::InvalidSigningKeyError(t) => t@,
        Error::AdminCallFailed(t) => "Failed to make Restate admin API call: "@ + t@,
        Error::AdminCallRejected { status, body, .. } => "Restate admin API call failed ("@
            + status@ + "): "@ + body@,
        Error::HashCollision => COLLISION_TEXT@,
        Error::DeploymentNotLatest { message, .. } => message@,
        Error::DeploymentInUse { blocked_by, .. } => IN_USE_HEAD@ + blocked_by@ + IN_USE_TAIL@,
        Error::DeletionDrainOverdue { blocked_by, timeout_seconds, .. } => "Still waiting on "@
            + blocked_by@ + " after the "@ + int_text(timeout_seconds as int) + "s drain timeout"@,
        Error::DeploymentDraining { .. } => DRAINING_TEXT@,
        Error::ExpensiveOperationDeferred { .. } => "The Restate admin endpoint is busy"@,
        Error::NameConflict => "A namespace of this name exists and is managed by something else"@,
        Error::Provisioned => "The cluster has been provisioned"@,
        Error::ProvisioningFailed(t) => "Provisioning failed: "@ + t@,
        Error::InvalidUrl(t) => t@,
    }
}

/// The label of an error in the metrics.
pub open spec fn label_text(e: Error) -> Seq<char> {
    match e {
        Error::SerializationError(_) => "SerializationError"@,
        Error::KubeError(_) => "KubeError"@,
        Error::FinalizerError(_) => "FinalizerError"@,
        Error::NotReady { .. } => "NotReady"@,
        Error::DeploymentNotReady { .. } => "ServiceNotReady"@,
        Error::ServiceNotReady { .. } => "ServiceNotReady"@,
        Error::RouteNotReady { .. } => "RouteNotReady"@,
        Error::ConfigurationNotReady { .. } => "ConfigurationNotReady"@,
        Error::InvalidRestateConfig(_) => "InvalidRestateConfig"@,
        Error::RestateCloudEnvironmentNotFound(_) => "RestateCloudEnvironmentNotFound"@,
        Error::SecretNotFound(_) => "SecretNotFound"@,
        Error::SecretKeyNotFound(_, _) => "SecretKeyNotFound"@,
        Error::InvalidBearerToken => "InvalidBearerToken"@,
        Error::InvalidSigningKeyError(_) => "InvalidSigningKeyError"@,
        Error::AdminCallFailed(_) => "AdminCallFailed"@,
        Error::AdminCallRejected { .. } => "AdminCallRejected"@,
        Error::HashCollision => "HashCollision"@,
        Error::DeploymentNotLatest { .. } => "DeploymentNotLatest"@,
        Error::DeploymentInUse { .. } => "DeploymentInUse"@,
        Error::DeletionDrainOverdue { .. } => "DeletionDrainOverdue"@,
        Error::DeploymentDraining { .. } => "DeploymentDraining"@,
        Error::ExpensiveOperationDeferred { .. } => "ExpensiveOperationDeferred"@,
        Error::NameConflict => "NameConflict"@,
        Error::Provisioned => "Provisioned"@,
        Error::ProvisioningFailed(_) => "ProvisioningFailed"@,
        Error::InvalidUrl(_) => "InvalidUrl"@,
    }
}

/// The error that a reconciler raised, under the wrappers that the finalizer protocol puts round
/// it.
pub open spec fn cause_of(e: Error) -> Error
    decreases e,
{
    match e {
        Error::FinalizerError(f) => match *f {
            FinalizerFailure::ApplyFailed(inner) => cause_of(inner),
            FinalizerFailure::CleanupFailed(inner) => cause_of(inner),
            FinalizerFailure::Other(_) => e,
        },
        _ => e,
    }
}

/// Looks through the wrappers that the finalizer protocol puts round every error.
pub fn root_cause(err: &Error) -> (r: &Error)
    ensures
        *r == cause_of(*err),
    decreases *err,
{
    match err {
        Error::FinalizerError(inner) => match &**inner {
            FinalizerFailure::ApplyFailed(e) => root_cause(e),
            FinalizerFailure::CleanupFailed(e) => root_cause(e),
            FinalizerFailure::Other(_) => err,
        },
        _ => err,
    }
}

/// What lies under the wrappers is itself no wrapped reconciler error, so looking through twice
/// finds the same.
pub proof fn cause_is_not_wrapped(e: Error)
    ensures
        cause_of(cause_of(e)) == cause_of(e),
    decreases e,
{
    match e {
        Error::FinalizerError(f) => match *f {
            FinalizerFailure::ApplyFailed(inner) => cause_is_not_wrapped(inner),
            FinalizerFailure::CleanupFailed(inner) => cause_is_not_wrapped(inner),
            FinalizerFailure::Other(_) => {},
        },
        _ => {},
    }
}

impl Error {
    /// The label of the error in the metrics.
    pub fn metric_label(&self) -> (r: &'static str)
        ensures
            r@ == label_text(*self),
    {
        match self {
            Error::SerializationError(_) => "SerializationError",
            Error::KubeError(_) => "KubeError",
            Error::FinalizerError(_) => "FinalizerError",
            Error::NotReady { .. } => "NotReady",
            Error::DeploymentNotReady { .. } => "ServiceNotReady",
            Error::ServiceNotReady { .. } => "ServiceNotReady",
            Error::RouteNotReady { .. } => "RouteNotReady",
            Error::ConfigurationNotReady { .. } => "ConfigurationNotReady",
            Error::InvalidRestateConfig(_) => "InvalidRestateConfig",
            Error::RestateCloudEnvironmentNotFound(_) => "RestateCloudEnvironmentNotFound",
            Error::SecretNotFound(_) => "SecretNotFound",
            Error::SecretKeyNotFound(_, _) => "SecretKeyNotFound",
            Error::InvalidBearerToken => "InvalidBearerToken",
            Error::InvalidSigningKeyError(_) => "InvalidSigningKeyError",
            Error::AdminCallFailed(_) => "AdminCallFailed",
            Error::AdminCallRejected { .. } => "AdminCallRejected",
            Error::HashCollision => "HashCollision",
            Error::DeploymentNotLatest { .. } => "DeploymentNotLatest",
            Error::DeploymentInUse { .. } => "DeploymentInUse",
            Error::DeletionDrainOverdue { .. } => "DeletionDrainOverdue",
            Error::DeploymentDraining { .. } => "DeploymentDraining",
            Error::ExpensiveOperationDeferred { .. } => "ExpensiveOperationDeferred",
            Error::NameConflict => "NameConflict",
            Error::Provisioned => "Provisioned",
            Error::ProvisioningFailed(_) => "ProvisioningFailed",
            Error::InvalidUrl(_) => "InvalidUrl",
        }
    }

    /// The text of the error.
    pub fn message(&self) -> (r: String)
        ensures
            r@ == error_text(*self),
        decreases *self,
    {
        match self {
            Error::SerializationError(t) => cat("SerializationError: ", t.as_str()),
            Error::KubeError(f) => cat("Kube Error: ", f.message.as_str()),
            Error::FinalizerError(f) => {
                let inner = match &**f {
                    FinalizerFailure::ApplyFailed(inner) => cat(
                        "failed to apply object: ",
                        inner.message().as_str(),
                    ),
                    FinalizerFailure::CleanupFailed(inner) => cat(
                        "failed to clean up object: ",
                        inner.message().as_str(),
                    ),
                    FinalizerFailure::Other(t) => t.clone(),
                };
                cat("Finalizer Error: ", inner.as_str())
            },
            Error::NotReady { message, .. } => cat("Cluster is not yet Ready: ", message.as_str()),
            Error::DeploymentNotReady { message, .. } => cat(
                "RestateDeployment is not yet Ready: ",
                message.as_str(),
            ),
            Error::ServiceNotReady { message, .. } => cat(
                "RestateService is not yet Ready: ",
                message.as_str(),
            ),
            Error::RouteNotReady { message, .. } => cat(
                "Route is not yet Ready: ",
                message.as_str(),
            ),
            Error::ConfigurationNotReady { message, .. } => cat(
                "Configuration is not yet Ready: ",
                message.as_str(),
            ),
            Error::InvalidRestateConfig(t) => cat("Invalid Restate configuration: ", t.as_str()),
            Error::RestateCloudEnvironmentNotFound(t) => cat3(
                "The RestateCloudEnvironment ",
                t.as_str(),
                " does not exist",
            ),
            Error::SecretNotFound(t) => cat3("The Secret ", t.as_str(), " does not exist"),
            Error::SecretKeyNotFound(k, s) => {
                let mut t: String = cat3("The Secret key ", k.as_str(), " in ");
                t.append(s.as_str());
                t.append(" does not exist");
                t
            },
            Error::InvalidBearerToken => "The bearer token is invalid".to_owned(),
            Error::InvalidSigningKeyError(t) => t.clone(),
            Error::AdminCallFailed(t) => cat(
                "Failed to make Restate admin API call: ",
                t.as_str(),
            ),
            Error::AdminCallRejected { status, body, .. } => {
                let mut t: String = cat3("Restate admin API call failed (", status.as_str(), "): ");
                t.append(body.as_str());
                t
            },
            Error::HashCollision => COLLISION_TEXT.to_owned(),
            Error::DeploymentNotLatest { message, .. } => message.clone(),
            Error::DeploymentInUse { blocked_by, .. } => cat3(
                IN_USE_HEAD,
                blocked_by.as_str(),
                IN_USE_TAIL,
            ),
            Error::DeletionDrainOverdue { blocked_by, timeout_seconds, .. } => {
                let mut t: String = cat3("Still waiting on ", blocked_by.as_str(), " after the ");
                t.append(i64_text(*timeout_seconds).as_str());
                t.append("s drain timeout");
                t
            },
            Error::DeploymentDraining { .. } => DRAINING_TEXT.to_owned(),
            Error::ExpensiveOperationDeferred { .. } => "The Restate admin endpoint is busy".to_owned(),
            Error::NameConflict => "A namespace of this name exists and is managed by something else".to_owned(),
            Error::Provisioned => "The cluster has been provisioned".to_owned(),
            Error::ProvisioningFailed(t) => cat("Provisioning failed: ", t.as_str()),
            Error::InvalidUrl(t) => t.clone(),
        }
    }
}

} // verus!
