//! The RestateKafkaIntegration resource.

use vstd::prelude::*;

use crate::control::Condition;
use crate::json::Value;
use crate::meta::ObjectMeta;
use crate::restatecloudenvironment::resource::SecretKeyRef;
use crate::restatedeployment::resource::TemplateMeta;

verus! {

/// The key under which a configuration is held unless told otherwise.
pub const CONFIG_FILE_KEY: &'static str = "config.properties";

/// Where the configuration is in the container.
pub const CONFIG_FILE_PATH: &'static str = "/etc/restate-kafka/config.properties";

/// The Restate environment that records are sent to.
#[derive(Debug)]
pub struct IngressRef {
    /// A RestateCluster, by name.
    pub cluster: Option<String>,
    /// A RestateCloudEnvironment, by name.
    pub cloud: Option<String>,
    /// An ingress, by address.
    pub url: Option<String>,
}

/// The part of the specification that concerns Restate.
#[derive(Debug)]
pub struct KafkaRestateSpec {
    pub ingress: IngressRef,
    pub auth_token: Option<SecretKeyRef>,
}

/// An object that holds a configuration, and the key where it is not the usual one.
#[derive(Debug)]
pub struct ConfigRef {
    pub name: String,
    pub key: Option<String>,
}

/// An object of the user that holds a configuration.
#[derive(Debug)]
pub struct ConfigSource {
    pub secret_ref: Option<ConfigRef>,
    pub config_map_ref: Option<ConfigRef>,
}

/// What a user lays over the pod template, passed through.
#[derive(Debug)]
pub struct TemplateOverlay {
    pub metadata: Option<TemplateMeta>,
    pub spec: Option<Value>,
}

/// What a user asks for.
#[derive(Debug)]
pub struct RestateKafkaIntegrationSpec {
    pub replicas: i32,
    pub image: Option<String>,
    pub image_pull_policy: Option<String>,
    pub restate: KafkaRestateSpec,
    /// The configuration itself.
    pub config: Option<String>,
    /// Where the configuration is.
    pub config_from: Option<ConfigSource>,
    pub template: Option<TemplateOverlay>,
}

/// What the operator reports.
#[derive(Debug)]
pub struct RestateKafkaIntegrationStatus {
    pub replicas: i32,
    pub ready_replicas: Option<i32>,
    pub available_replicas: Option<i32>,
    pub unavailable_replicas: Option<i32>,
    pub observed_generation: Option<i64>,
    pub ingress_url: Option<String>,
    pub label_selector: Option<String>,
    pub conditions: Option<Vec<Condition>>,
}

/// A connector of Kafka to Restate.
#[derive(Debug)]
pub struct RestateKafkaIntegration {
    pub metadata: ObjectMeta,
    pub spec: RestateKafkaIntegrationSpec,
    pub status: Option<RestateKafkaIntegrationStatus>,
}

} // verus!
