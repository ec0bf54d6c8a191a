//! Readiness-gated request services: a service grants readiness, then spends
//! it on one call; a factory makes one service per connection, all sharing one
//! counter; a dispatch loop decides when to query readiness and when to call.

pub mod app_fn;
pub mod counter;
pub mod decimal;
pub mod dispatch;
pub mod echo;
pub mod factory;
pub mod message;
pub mod run;
pub mod service;
