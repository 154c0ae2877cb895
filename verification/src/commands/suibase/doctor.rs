//! Checking what suibase needs.

use vstd::prelude::*;

verus! {

/// The request to check what suibase needs.
#[derive(Debug)]
pub struct Command;

} // verus!
