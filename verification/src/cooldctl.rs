//! The provisioning tool for meshes with a central host.

pub mod builder;
pub mod coold;
pub mod coolify;
pub mod flux;
pub mod scheduler;
pub mod ssh;
pub mod config;
pub mod apply;
pub mod apply_laws;
pub mod jwt;
pub mod output;
pub mod init;
pub mod firewall;
pub mod cli;
pub mod script_laws;
pub mod request_laws;
