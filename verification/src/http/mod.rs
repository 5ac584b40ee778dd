//! What the requests of users and administrators come to.
pub mod admin;
pub mod browse;
pub mod common;
pub mod create_order;
pub mod fields;
pub mod gate;
pub mod listings;
pub mod orders;
pub mod user;
pub mod webhooks;
