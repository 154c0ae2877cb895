//! Removing suibase.

use crate::handlers::suibase::{is_uninstall_plan, uninstall, ActionOptions, Step, SuibaseError};
use crate::platform::Platform;
use vstd::prelude::*;

verus! {

/// The request to remove suibase.
#[derive(Debug)]
pub struct Command;

impl Command {
    /// The steps of the removal, as `uninstall` gives them where the user is to be
    /// asked first.
    pub fn exec(&self, suibase_dir: &str, platform: Platform) -> (r: Result<Vec<Step>, SuibaseError>)
        ensures
            r is Ok == (platform == Platform::Unix),
            r matches Ok(steps) ==> is_uninstall_plan(
                steps@,
                ActionOptions { yes: false, dry_run: false },
                suibase_dir@,
                platform,
            ),
    {
        uninstall(ActionOptions { yes: false, dry_run: false }, suibase_dir, platform)
    }
}

} // verus!
