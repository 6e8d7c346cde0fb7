//! Administrative control-plane request gateway for a distributed storage
//! cluster: endpoint parsing, token-based authorization, virtual-host
//! resolution, health reporting and metrics gating.

pub mod auth;
pub mod endpoint;
pub mod gateway;
pub mod health;
pub mod metrics;
pub mod query;
pub mod response;
pub mod strutil;
pub mod vhost;
