#![allow(unused_imports)]
//! Coolify control plane: the decisions behind the mesh provisioner, the flux
//! agent gateway, the scheduler registry and the web API, as verified functions.

use vstd::prelude::*;

pub mod text;
pub mod text_laws;
pub mod split;
pub mod number;
pub mod keyed;
pub mod net;
pub mod mesh;
pub mod cli;
pub mod digest;
pub mod json;
pub mod cooldctl;
pub mod ssh;
pub mod ssh_laws;
pub mod token;
pub mod flux;
pub mod model;
pub mod storage;
pub mod scheduler;
pub mod web;
pub mod web_laws;
pub mod e2e;
pub mod report_laws;
