//! RestateKafkaIntegrations.

pub mod config;
pub mod controller;
pub mod deployment;
pub mod merge;
pub mod resource;
