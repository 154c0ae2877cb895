//! The default version of a binary: setting it and showing it.

pub mod get;
pub mod set;

use vstd::prelude::*;

verus! {

/// A request about defaults.
#[derive(Debug)]
pub struct Command {
    pub command: Commands,
}

/// The requests about defaults.
#[derive(Debug)]
pub enum Commands {
    GetDefault(get::Command),
    SetDefault(set::Command),
}

} // verus!
