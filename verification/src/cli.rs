//! The cluster command line: what it plans, renders and runs on the nodes.

pub mod checksum;
pub mod coold;
pub mod corrosion;
pub mod firewall;
pub mod meshnet;
pub mod plan;
pub mod reconstruct;
pub mod ssh;
pub mod config;
pub mod config_laws;
pub mod apply;
pub mod tls;
pub mod init;
pub mod plan_laws;
pub mod need_laws;
pub mod apply_laws;
pub mod probe_laws;
pub mod firewall_laws;
pub mod script_laws;
pub mod init_laws;
pub mod agent_laws;
