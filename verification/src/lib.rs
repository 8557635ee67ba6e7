//! Decision logic of a Kubernetes operator for Restate: what to apply, what to retire and when to
//! look again, as verified functions over plain values.

pub mod assoc;
pub mod component;
pub mod control;
pub mod digest;
pub mod error;
pub mod json;
pub mod laws;
pub mod manifest;
pub mod meta;
pub mod predicates;
pub mod readiness;
pub mod restatecloudenvironment;
pub mod restatecluster;
pub mod restatedeployment;
pub mod restatekafkaintegration;
pub mod restateservice;
pub mod ssa;
pub mod string_map;
pub mod text;
pub mod time;
