//! The RestateDeployment resource.

use vstd::prelude::*;

use crate::control::{Condition, ReconciliationState};
use crate::json::Value;
use crate::meta::{LabelSelector, ObjectMeta};
use crate::string_map::StringMap;
use crate::time::Timestamp;

verus! {

/// What to do with in-flight invocations when the deployment is deleted.
#[derive(Debug, Clone, Copy, PartialEq, Eq, Structural)]
pub enum DeletePolicy {
    /// Wait for them.
    Drain,
    /// Remove the deployment from under them.
    Force,
}

/// What a drain does once it has run into its timeout.
#[derive(Debug, Clone, Copy, PartialEq, Eq, Structural)]
pub enum OnTimeout {
    /// Go on waiting, and say so.
    Hold,
    /// Stop waiting.
    Force,
}

/// How the pods are run.
#[derive(Debug, Clone, Copy, PartialEq, Eq, Structural)]
pub enum DeploymentMode {
    ReplicaSet,
    Knative,
}

/// How far a deletion has got.
#[derive(Debug, Clone, Copy, PartialEq, Eq, Structural)]
pub enum DeletionPhase {
    Draining,
    Overdue,
    Forcing,
}

/// Seconds that a drain waits unless told otherwise.
pub const DEFAULT_DRAIN_TIMEOUT_SECONDS: i64 = 3600;

/// How a deletion drains.
#[derive(Debug, Clone, Copy, PartialEq, Eq, Structural)]
pub struct DrainSpec {
    pub timeout_seconds: Option<i64>,
    pub on_timeout: Option<OnTimeout>,
}

/// The Restate environment that versions are registered with.
#[derive(Debug)]
pub struct RestateAdminEndpoint {
    /// A RestateCluster, by name.
    pub cluster: Option<String>,
    /// A RestateCloudEnvironment, by name.
    pub cloud: Option<String>,
    /// An admin endpoint, by address.
    pub url: Option<String>,
}

/// What the pods of an in-process tunnel derive their identity from.
#[derive(Debug)]
pub struct InProcessTunnelParams {
    pub environment_id: String,
    pub region: String,
    pub signing_public_key: String,
}

/// The part of the specification that concerns Restate.
#[derive(Debug)]
pub struct RestateSpec {
    pub register: RestateAdminEndpoint,
    pub service_path: Option<String>,
    pub use_http11: Option<bool>,
    /// How long a superseded version is kept after it has drained.
    pub drain_delay_seconds: i64,
    pub delete_policy: Option<DeletePolicy>,
    pub drain: Option<DrainSpec>,
    /// Whether the pods hold their own tunnel connections.
    pub in_process_tunnel: bool,
}

/// The labels and annotations of a pod template.
#[derive(Debug)]
pub struct TemplateMeta {
    pub labels: Option<StringMap>,
    pub annotations: Option<StringMap>,
}

/// A pod template, whose specification is passed through.
#[derive(Debug)]
pub struct PodTemplate {
    pub metadata: Option<TemplateMeta>,
    pub spec: Option<Value>,
}

/// The part of the specification that concerns Knative.
#[derive(Debug)]
pub struct KnativeSpec {
    pub tag: Option<String>,
    pub min_scale: Option<i32>,
    pub max_scale: Option<i32>,
    pub target: Option<i32>,
}

/// What a user asks for.
#[derive(Debug)]
pub struct RestateDeploymentSpec {
    pub replicas: i32,
    pub revision_history_limit: i32,
    pub min_ready_seconds: Option<i32>,
    pub selector: Option<LabelSelector>,
    pub template: PodTemplate,
    pub restate: RestateSpec,
    pub deployment_mode: Option<DeploymentMode>,
    pub knative: Option<KnativeSpec>,
    /// The specification of the HorizontalPodAutoscaler of each version, passed through.
    pub autoscaling: Option<Value>,
}

/// What the status says of Knative.
#[derive(Debug)]
pub struct KnativeDeploymentStatus {
    pub configuration_name: Option<String>,
    pub route_name: Option<String>,
    pub latest_revision: Option<String>,
    pub url: Option<String>,
}

/// What the operator reports.
#[derive(Debug)]
pub struct RestateDeploymentStatus {
    pub replicas: i32,
    pub desired_replicas: Option<i32>,
    pub ready_replicas: Option<i32>,
    pub available_replicas: Option<i32>,
    pub unavailable_replicas: Option<i32>,
    pub label_selector: Option<String>,
    pub deployment_id: Option<String>,
    pub collision_count: Option<i32>,
    pub observed_generation: Option<i64>,
    pub conditions: Option<Vec<Condition>>,
    pub reconciliation: Option<ReconciliationState>,
    pub knative: Option<KnativeDeploymentStatus>,
}

/// A version with invocations that a deletion waits for.
#[derive(Debug)]
pub struct PendingInvocations {
    pub version: String,
    pub deployment_id: Option<String>,
    pub pinned: i64,
    pub unpinned: i64,
}

/// How a deletion is getting on.
#[derive(Debug)]
pub struct DeletionStatus {
    pub policy: DeletePolicy,
    pub phase: DeletionPhase,
    pub started_at: Option<Timestamp>,
    pub deadline: Option<Timestamp>,
    pub on_timeout: Option<OnTimeout>,
    pub message: Option<String>,
    pub total_pending_invocations: i64,
    pub pending_invocations: Vec<PendingInvocations>,
}

/// A versioned service.
#[derive(Debug)]
pub struct RestateDeployment {
    pub metadata: ObjectMeta,
    pub spec: RestateDeploymentSpec,
    pub status: Option<RestateDeploymentStatus>,
}

impl RestateSpec {
    /// The delete policy, a drain unless told otherwise.
    pub open spec fn policy(&self) -> DeletePolicy {
        match self.delete_policy {
            Some(p) => p,
            None => DeletePolicy::Drain,
        }
    }

    /// What a drain does once it has run into its timeout: it holds unless told otherwise.
    pub open spec fn timeout_action(&self) -> OnTimeout {
        match self.drain {
            Some(d) => match d.on_timeout {
                Some(t) => t,
                None => OnTimeout::Hold,
            },
            None => OnTimeout::Hold,
        }
    }

    /// Seconds that a drain waits.
    pub open spec fn timeout(&self) -> int {
        match self.drain {
            Some(d) => match d.timeout_seconds {
                Some(t) => t as int,
                None => DEFAULT_DRAIN_TIMEOUT_SECONDS as int,
            },
            None => DEFAULT_DRAIN_TIMEOUT_SECONDS as int,
        }
    }

    /// The delete policy.
    pub fn delete_policy(&self) -> (r: DeletePolicy)
        ensures
            r == self.policy(),
    {
        match self.delete_policy {
            Some(p) => p,
            None => DeletePolicy::Drain,
        }
    }

    /// What a drain does once it has run into its timeout.
    pub fn drain_on_timeout(&self) -> (r: OnTimeout)
        ensures
            r == self.timeout_action(),
    {
        match self.drain {
            Some(d) => match d.on_timeout {
                Some(t) => t,
                None => OnTimeout::Hold,
            },
            None => OnTimeout::Hold,
        }
    }

    /// Seconds that a drain waits.
    pub fn drain_timeout_seconds(&self) -> (r: i64)
        ensures
            r == self.timeout(),
    {
        match self.drain {
            Some(d) => match d.timeout_seconds {
                Some(t) => t,
                None => DEFAULT_DRAIN_TIMEOUT_SECONDS,
            },
            None => DEFAULT_DRAIN_TIMEOUT_SECONDS,
        }
    }
}

} // verus!
