//! What administrators ask for.
pub mod channels;
pub mod config;
pub mod dashboard;
pub mod env_defaults;
pub mod orders;
pub mod provider_instances;
pub mod refund;
pub mod subscription_plans;
pub mod subscriptions;
