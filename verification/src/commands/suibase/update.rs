//! Updating suibase.

use crate::handlers::suibase::{is_update_plan, update, ActionOptions, Step, SuibaseError};
use crate::platform::Platform;
use vstd::prelude::*;

verus! {

/// The request to update suibase.
#[derive(Debug)]
pub struct Command {
    /// Show what would be run, and run nothing.
    pub dry_run: bool,
    /// Do not ask.
    pub yes: bool,
}

impl Command {
    /// How the request is to be carried out.
    pub fn options(&self) -> (r: ActionOptions)
        ensures
            r == (ActionOptions { yes: self.yes, dry_run: self.dry_run }),
    {
        ActionOptions { yes: self.yes, dry_run: self.dry_run }
    }

    /// The steps of the update, as `update` gives them for the request's options.
    pub fn exec(&self, suibase_dir: &str, platform: Platform) -> (r: Result<Vec<Step>, SuibaseError>)
        ensures
            r is Ok == (platform == Platform::Unix),
            r matches Ok(steps) ==> is_update_plan(
                steps@,
                ActionOptions { yes: self.yes, dry_run: self.dry_run },
                suibase_dir@,
                platform,
            ),
    {
        update(self.options(), suibase_dir, platform)
    }
}

} // verus!
