use vstd::prelude::*;

pub mod admin_auth;
pub mod channel;
pub mod clock;
pub mod config;
pub mod crypto;
pub mod db;
pub mod error;
pub mod hash;
pub mod http;
pub mod ids;
pub mod json;
pub mod lists;
pub mod maps;
pub mod masking;
pub mod money;
pub mod order;
pub mod payment;
pub mod payment_provider;
pub mod provider_instances;
pub mod response;
pub mod signing;
pub mod sub2api;
pub mod subscription_plan;
pub mod system_config;
pub mod text;
pub mod urlencoded;

verus! {

}
