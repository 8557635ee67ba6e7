//! RestateClusters.

pub mod canary;
pub mod compute;
pub mod labels;
pub mod network_policies;
pub mod objects;
pub mod provisioning;
pub mod quantity;
pub mod reconcile;
pub mod resource;
pub mod schema;
pub mod statefulset;
pub mod status;
pub mod steps;
pub mod storage;
