//! Flux: the gateway between the control plane and the agents on the hosts.

pub mod auth;
pub mod revocation;
pub mod registry;
pub mod resource_status;
pub mod config;
pub mod envelope;
pub mod routing;
pub mod gateway;
pub mod bridge;
pub mod pending;
pub mod stream_laws;
