//! The RestateCluster resource.

use vstd::prelude::*;

use crate::control::{Condition, ReconciliationState};
use crate::json::{Object, Value};
use crate::manifest::EnvVar;
use crate::meta::ObjectMeta;
use crate::string_map::StringMap;

verus! {

/// Storage configuration.
#[derive(Debug)]
pub struct RestateClusterStorage {
    /// The StorageClass of the claims. It cannot be changed.
    pub storage_class_name: Option<String>,
    /// The VolumeAttributesClass of the claims.
    pub volume_attributes_class_name: Option<String>,
    /// The storage to request in each claim. It may grow, and not shrink.
    pub storage_request_bytes: i64,
}

/// Compute configuration. Documents are passed through to the pods.
#[derive(Debug)]
pub struct RestateClusterCompute {
    /// How many Restate nodes to run, one unless told otherwise.
    pub replicas: Option<i32>,
    pub image: String,
    pub image_pull_policy: Option<String>,
    pub image_pull_secrets: Option<Value>,
    pub command: Option<Vec<String>>,
    pub args: Option<Vec<String>>,
    /// Environment variables, which may override the defaults.
    pub env: Option<Vec<EnvVar>>,
    pub resources: Option<Value>,
    pub dns_config: Option<Value>,
    pub dns_policy: Option<String>,
    pub affinity: Option<Value>,
    pub tolerations: Option<Value>,
    pub node_selector: Option<StringMap>,
    pub topology_spread_constraints: Option<Value>,
    pub priority_class_name: Option<String>,
    pub labels: Option<StringMap>,
    pub annotations: Option<StringMap>,
}

/// A CA certificate to trust, by the Secret that holds it.
#[derive(Debug)]
pub struct TrustedCACert {
    pub secret_name: String,
    pub key: String,
}

/// Peers that may reach the ports of a cluster. An empty list lets everyone in.
#[derive(Debug)]
pub struct RestateClusterNetworkPeers {
    pub ingress: Option<Vec<Value>>,
    pub admin: Option<Vec<Value>>,
    pub metrics: Option<Vec<Value>>,
}

/// Traffic that is let out. Documents are passed through.
#[derive(Debug)]
pub struct NetworkPolicyEgressRule {
    pub ports: Option<Vec<Value>>,
    pub to: Option<Vec<Value>>,
}

/// Security configuration.
#[derive(Debug)]
pub struct RestateClusterSecurity {
    pub service_annotations: Option<StringMap>,
    pub service_account_annotations: Option<StringMap>,
    /// The AWS role that the pods get through a PodIdentityAssociation.
    pub aws_pod_identity_association_role_arn: Option<String>,
    /// The AWS security groups that the pods are put into.
    pub aws_pod_security_groups: Option<Vec<String>>,
    pub network_peers: Option<RestateClusterNetworkPeers>,
    pub network_egress_rules: Option<Vec<NetworkPolicyEgressRule>>,
    /// Whether the operator may reach the admin port. It may unless told otherwise.
    pub allow_operator_access_to_admin: Option<bool>,
    pub trusted_ca_certs: Option<Vec<TrustedCACert>>,
}

/// Whether the operator provisions the cluster.
#[derive(Debug, Clone, Copy, PartialEq, Eq, Structural)]
pub struct ClusterProvisioning {
    pub auto_provision: bool,
}

/// What a user asks for.
#[derive(Debug)]
pub struct RestateClusterSpec {
    /// The name that the nodes go by, that of the resource unless told otherwise.
    pub cluster_name: Option<String>,
    pub storage: RestateClusterStorage,
    pub compute: RestateClusterCompute,
    pub security: Option<RestateClusterSecurity>,
    /// The configuration file of the nodes.
    pub config: Option<String>,
    pub cluster: Option<ClusterProvisioning>,
}

/// What the operator reports.
#[derive(Debug)]
pub struct RestateClusterStatus {
    pub conditions: Option<Vec<Condition>>,
    pub provisioned: Option<bool>,
    pub reconciliation: Option<ReconciliationState>,
}

/// A Restate cluster.
#[derive(Debug)]
pub struct RestateCluster {
    pub metadata: ObjectMeta,
    pub spec: RestateClusterSpec,
    pub status: Option<RestateClusterStatus>,
}

/// The key of a cluster that signs its requests: the volume that holds it, and where in the volume.
#[derive(Debug)]
pub struct SigningKey {
    pub volume_name: String,
    /// What the volume is made of, beside its name. Passed through.
    pub volume: Object,
    pub relative_path: String,
}

/// What the operator was started with, as far as it concerns clusters.
#[derive(Debug)]
pub struct OperatorSettings {
    /// The EKS cluster to create PodIdentityAssociations against.
    pub aws_pod_identity_association_cluster: Option<String>,
    /// Where the operator runs, and a label by which it is found there.
    pub operator_namespace: Option<String>,
    pub operator_label_name: Option<String>,
    pub operator_label_value: Option<String>,
    /// Whether SecurityGroupPolicies can be created.
    pub security_group_policy_installed: bool,
    /// Whether IAMPolicyMembers are to be created.
    pub gcp_workload_identity: bool,
    pub canary_image: String,
}

} // verus!
