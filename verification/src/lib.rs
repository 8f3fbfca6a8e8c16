//! A declarative dotfile manager: evaluates conditional link and action
//! declarations against facts about the host, resolves their paths, and
//! decides, step by step, what an install, a removal or a status report does.
//!
//! The library performs no input or output. A driver gathers facts about the
//! host, carries out the requests the library issues, and hands the outcome of
//! each back.

use vstd::prelude::*;

pub mod cli;
pub mod config;
pub mod error;
pub mod hash;
pub mod model;
pub mod protocol;
pub mod reconcile;
pub mod report;
pub mod safety;
pub mod text;
pub mod utils;

pub use crate::config::DotmanConfig;
pub use crate::reconcile::Dotman;

verus! {

/// The operating systems a configuration can name and a host can report.
#[derive(Debug, Clone, Copy, PartialEq, Eq, Structural)]
pub enum OperatingSystem {
    Linux,
    MacOS,
    Windows,
}

} // verus!
