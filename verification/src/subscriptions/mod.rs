//! Subscriptions and the monitored items that feed them.

pub mod laws;
pub mod monitored_item;
pub mod subscription;
pub mod subscriptions;
