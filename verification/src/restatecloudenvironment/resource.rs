//! The RestateCloudEnvironment resource.

use vstd::prelude::*;

use crate::control::{Condition, ReconciliationState};
use crate::json::Value;
use crate::manifest::EnvVar;
use crate::meta::ObjectMeta;
use crate::string_map::StringMap;

verus! {

/// The key of a Secret.
#[derive(Debug)]
pub struct SecretKeyRef {
    pub name: String,
    pub key: String,
}

/// A secret that a driver mounts.
#[derive(Debug)]
pub struct SecretProvider {
    pub secret_provider_class: String,
    pub path: String,
}

/// Where the bearer token of an environment comes from.
#[derive(Debug)]
pub struct Authentication {
    pub secret: SecretKeyRef,
    pub secret_provider: Option<SecretProvider>,
}

/// How the tunnel client runs. Documents are passed through to its pods.
#[derive(Debug)]
pub struct TunnelSpec {
    pub replicas: Option<i32>,
    pub image: Option<String>,
    pub image_pull_policy: Option<String>,
    /// Environment variables, which may override the defaults.
    pub env: Option<Vec<EnvVar>>,
    pub resources: Option<Value>,
    pub dns_config: Option<Value>,
    pub dns_policy: Option<String>,
    pub affinity: Option<Value>,
    pub tolerations: Option<Value>,
    pub node_selector: Option<StringMap>,
    /// Whether the environment can be reached through the tunnel.
    pub remote_proxy: Option<bool>,
}

/// What a user asks for.
#[derive(Debug)]
pub struct RestateCloudEnvironmentSpec {
    pub environment_id: String,
    pub region: String,
    pub signing_public_key: String,
    pub authentication: Authentication,
    pub tunnel: Option<TunnelSpec>,
}

/// What the operator reports.
#[derive(Debug)]
pub struct RestateCloudEnvironmentStatus {
    pub conditions: Option<Vec<Condition>>,
    pub reconciliation: Option<ReconciliationState>,
}

/// An environment of Restate Cloud.
#[derive(Debug)]
pub struct RestateCloudEnvironment {
    pub metadata: ObjectMeta,
    pub spec: RestateCloudEnvironmentSpec,
    pub status: Option<RestateCloudEnvironmentStatus>,
}

} // verus!
