//! The RestateDeployment controller: versioned services, their registration with Restate and the
//! retirement of the versions that are no longer needed.

pub mod autoscaling;
pub mod cleanup;
pub mod controller;
pub mod deletion;
pub mod hash;
pub mod knative;
pub mod knative_reconcile;
pub mod pacing;
pub mod reconcile;
pub mod registration;
pub mod replicaset;
pub mod resource;
pub mod retirement;
pub mod retry;
pub mod service;
pub mod status;
pub mod usage_cache;
pub mod usage_query;
pub mod versions;
