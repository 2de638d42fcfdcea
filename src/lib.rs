//! Supervisor for a single run of the configuration-management client:
//! command-line assembly, log-path rotation, splay countdown, the typed run
//! phase machine, log routing decisions and the shared status register.

pub mod api;
pub mod cli;
pub mod health;
pub mod platform;
pub mod process;
pub mod router;
pub mod state;
pub mod symlink;
pub mod text;

use vstd::prelude::*;

verus! {

/// The supervisor's version.
pub const VERSION: &'static str = "0.0.1";

} // verus!
