//! Installing a component: which way it is to be installed, and what speaks against it.

use crate::config::BinaryConfig;
use crate::text::text_eq;
use vstd::prelude::*;

verus! {

/// Why a request to install contradicts itself.
#[derive(Debug, PartialEq, Eq, Structural, Clone, Copy)]
pub enum ConflictError {
    /// A debug build of a binary that has none.
    DebugNotSupported,
    /// A branch and a version at once.
    NightlyWithVersion,
}

impl ConflictError {
    /// What to tell the user.
    pub fn message(&self) -> (r: String)
        ensures
            r@ == match *self {
                ConflictError::DebugNotSupported => "Debug flag is only available for binaries that support it (currently only 'sui')"@,
                ConflictError::NightlyWithVersion => "Cannot install from nightly and a release at the same time. Remove the version or the nightly flag"@,
            },
    {
        match self {
            ConflictError::DebugNotSupported => String::from_str(
                "Debug flag is only available for binaries that support it (currently only 'sui')",
            ),
            ConflictError::NightlyWithVersion => String::from_str(
                "Cannot install from nightly and a release at the same time. Remove the version or the nightly flag",
            ),
        }
    }
}

/// The way in which a component is installed.
#[derive(Debug)]
pub enum InstallRoute {
    /// Built from a branch of the repository.
    Nightly { branch: String },
    /// Downloaded as a file of its own.
    Standalone,
    /// Taken out of the release archive of a network.
    Release { network: String },
}

/// The network that a binary is installed from: the one asked for, or the binary's own
/// where it is released for no network in particular.
pub open spec fn effective_network_of(config: BinaryConfig, network: Seq<char>) -> Seq<char> {
    if config.supported_networks@.len() == 0 {
        config.default_network@
    } else {
        network
    }
}

/// Decides how a component is installed, before anything is fetched or written. A debug
/// build of a release must be one that the binary has, and a branch excludes a version.
/// Then a branch means a build from source, `mvr` comes as a file of its own, and
/// everything else from the release archive of its network.
pub fn install_component(
    config: &BinaryConfig,
    name: &str,
    network: &str,
    version: &Option<String>,
    nightly: &Option<String>,
    debug: bool,
) -> (r: Result<InstallRoute, ConflictError>)
    ensures
        if !config.supports_debug && debug && nightly is None {
            r == Err::<InstallRoute, ConflictError>(ConflictError::DebugNotSupported)
        } else if nightly is Some && version is Some {
            r == Err::<InstallRoute, ConflictError>(ConflictError::NightlyWithVersion)
        } else {
            match *nightly {
                Some(b) => r matches Ok(InstallRoute::Nightly { branch }) && branch@ == b@,
                None => if name@ == "mvr"@ {
                    r matches Ok(InstallRoute::Standalone)
                } else {
                    r matches Ok(InstallRoute::Release { network: n }) && n@ == effective_network_of(
                        *config,
                        network@,
                    )
                },
            }
        },
{
    if !config.supports_debug && debug && nightly.is_none() {
        return Err(ConflictError::DebugNotSupported);
    }
    if nightly.is_some() && version.is_some() {
        return Err(ConflictError::NightlyWithVersion);
    }
    match nightly {
        Some(branch) => Ok(InstallRoute::Nightly { branch: branch.clone() }),
        None => {
            if text_eq(name, "mvr") {
                Ok(InstallRoute::Standalone)
            } else if config.supported_networks.len() == 0 {
                Ok(InstallRoute::Release { network: config.default_network.clone() })
            } else {
                Ok(InstallRoute::Release { network: String::from_str(network) })
            }
        },
    }
}

} // verus!
