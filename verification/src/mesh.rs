//! Mesh planning: addresses, subnets, and what has to be done on which host.

pub mod subnet;
pub mod subnet_laws;
pub mod action;
pub mod intent;
pub mod state;
pub mod apply;
pub mod report;
pub mod run_laws;
pub mod address_laws;
pub mod namespace_laws;
