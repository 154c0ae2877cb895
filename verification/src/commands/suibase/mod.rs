//! Requests about suibase.

pub mod doctor;
pub mod install;
pub mod uninstall;
pub mod update;

use vstd::prelude::*;

verus! {

/// A request about suibase.
#[derive(Debug)]
pub struct Command {
    pub command: Commands,
}

/// The requests about suibase.
#[derive(Debug)]
pub enum Commands {
    Install(install::Command),
    Update(update::Command),
    Uninstall(uninstall::Command),
    Doctor(doctor::Command),
}

} // verus!
