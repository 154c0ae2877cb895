//! Installing suibase.

use crate::handlers::suibase::{is_install_plan, install, ActionOptions, Step, SuibaseError};
use crate::platform::Platform;
use vstd::prelude::*;

verus! {

/// The request to install suibase.
#[derive(Debug)]
pub struct Command {
    /// Show what would be run, and run nothing.
    pub dry_run: bool,
    /// Do not ask.
    pub yes: bool,
}

impl Command {
    /// How the request is to be carried out.
    pub fn options(&self) -> (r: ActionOptions)
        ensures
            r == (ActionOptions { yes: self.yes, dry_run: self.dry_run }),
    {
        ActionOptions { yes: self.yes, dry_run: self.dry_run }
    }

    /// The steps of the installation, as `install` gives them for the request's options.
    pub fn exec(&self, suibase_dir: &str, dir_exists: bool, platform: Platform) -> (r: Result<
        Vec<Step>,
        SuibaseError,
    >)
        ensures
            r is Ok == (platform == Platform::Unix),
            r matches Ok(steps) ==> is_install_plan(
                steps@,
                ActionOptions { yes: self.yes, dry_run: self.dry_run },
                suibase_dir@,
                dir_exists,
                platform,
            ),
    {
        install(self.options(), suibase_dir, dir_exists, platform)
    }
}

} // verus!
