//! Checking the environment.

use vstd::prelude::*;

verus! {

/// The request to check the environment.
#[derive(Debug)]
pub struct Command {}

} // verus!
