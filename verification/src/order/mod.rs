//! Orders: what they hold, the states they pass through, and the work that
//! moves them from one state to the next.
pub mod audit;
pub mod cancel;
pub mod codegen;
pub mod confirm;
pub mod create;
pub mod expire;
pub mod flow;
pub mod fulfil;
pub mod notify;
pub mod refund;
pub mod repository;
pub mod request;
pub mod retry;
pub mod status;
