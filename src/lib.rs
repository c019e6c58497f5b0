//! Autorun host: discovers `.ha.sh` scripts, decodes them through an optional
//! filter, runs them in a per-run directory and records what they produced.
//!
//! The library holds the decisions; performing file system work, spawning
//! processes and watching mounts is left to the caller, which reports back
//! what happened.

use vstd::prelude::*;

pub mod debounce;
pub mod director;
pub mod error;
pub mod runner;
pub mod script;
pub mod sweep;
