//! The command line of `cooldctl`.

use vstd::prelude::*;
use crate::cooldctl::firewall::FirewallCommand;
use crate::cooldctl::init::InitCommand;
use crate::cooldctl::output::OutputFormat;

verus! {

/// What was asked for.
#[derive(Clone, Debug)]
pub struct Cli {
    pub format: OutputFormat,
    pub debug: bool,
    pub command: Commands,
}

/// The commands.
#[derive(Clone, Debug)]
pub enum Commands {
    Init(InitCommand),
    Firewall(FirewallCommand),
}

/// What is logged where nothing else is said.
pub fn log_level(debug: bool) -> (r: &'static str)
    ensures
        r@ == (if debug {
            "debug"@
        } else {
            "info"@
        }),
{
    if debug {
        "debug"
    } else {
        "info"
    }
}

} // verus!
