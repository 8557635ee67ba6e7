//! RestateCloudEnvironments.

pub mod controller;
pub mod resource;
pub mod tunnel;
