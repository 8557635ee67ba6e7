//! What the library promises, stated of what its results say.

pub mod calls;
pub mod changes;
pub mod cleanup;
pub mod cluster;
pub mod documents;
pub mod entries;
pub mod kafka;
pub mod knative;
pub mod network;
pub mod nodes;
pub mod pace;
pub mod reports;
pub mod results;
pub mod rollout;
pub mod texts;
pub mod tunnel;
pub mod versions;
