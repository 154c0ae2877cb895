//! Setting the default of a binary: which installed artifact the request names.

use crate::commands::switch::{find_matching_binary, has_candidate, is_candidate, is_latest, SwitchError};
use crate::commands::{
    component_of, is_component_error, optional_text, parse_component_with_version, ComponentError,
};
use crate::promotion::PromotionTarget;
use crate::registry::{is_first_entry, BinaryConfig, BinaryRegistry, InstallationType};
use crate::text::text_eq;
use crate::types::{has_binary, has_network, records_view, BinaryVersion, BinaryVersionView, InstalledBinaries};
use crate::version::{ensure_version_prefix, with_v};
use vstd::prelude::*;

verus! {

/// The request to set a default: a binary with its version specification, the build
/// kind, and the branch where what was built from source is meant.
#[derive(Debug)]
pub struct Command {
    pub name: String,
    pub debug: bool,
    pub nightly: Option<String>,
}

/// Why a default cannot be set.
#[derive(Debug)]
pub enum DefaultSetError {
    /// Neither a binary nor a branch was given.
    MissingArguments,
    /// What was given names no binary and version.
    Parse(ComponentError),
    /// Nothing is installed from this network or branch.
    NoBinariesForNetwork(String),
    /// The binary is not installed, from whatever network.
    BinaryNotInstalled(String),
    /// The binary is not installed from this network or branch.
    NoVersionFound { binary_name: String, network_release: String },
    /// The binary is not installed from this network in this version and build kind.
    VersionNotInstalled { binary_name: String, version: String, network_release: String },
}

impl DefaultSetError {
    /// What to tell the user.
    pub fn message(&self) -> (r: String)
        ensures
            r@ == match *self {
                DefaultSetError::MissingArguments => "Invalid number of arguments. Version is required: 'sui@testnet-1.39.3', 'sui@testnet' -- this will use an installed binary that has the highest testnet version. \n For `mvr` only pass the version: `mvr@0.0.5`"@,
                DefaultSetError::Parse(e) => e.message_text(),
                DefaultSetError::NoBinariesForNetwork(network) => "No binaries installed for "@
                    + network@ + ". Use `suiup show` to see installed binaries."@,
                DefaultSetError::BinaryNotInstalled(name) => "Binary "@ + name@
                    + " not found in installed binaries. Use `suiup show` to see installed binaries."@,
                DefaultSetError::NoVersionFound { binary_name, network_release } =>
                    "No version found for "@ + binary_name@ + " in "@ + network_release@
                        + ". Use `suiup show` to see installed binaries."@,
                DefaultSetError::VersionNotInstalled { binary_name, version, network_release } =>
                    "Binary "@ + binary_name@ + "-"@ + version@ + " from "@ + network_release@
                        + " release not found. Use `suiup show` to see installed binaries."@,
            },
    {
        match self {
            DefaultSetError::MissingArguments => String::from_str(
                "Invalid number of arguments. Version is required: 'sui@testnet-1.39.3', 'sui@testnet' -- this will use an installed binary that has the highest testnet version. \n For `mvr` only pass the version: `mvr@0.0.5`",
            ),
            DefaultSetError::Parse(e) => e.message(),
            DefaultSetError::NoBinariesForNetwork(network) => {
                let mut r = crate::text::concat("No binaries installed for ", network.as_str());
                r.append(". Use `suiup show` to see installed binaries.");
                r
            },
            DefaultSetError::BinaryNotInstalled(name) => {
                let mut r = crate::text::concat("Binary ", name.as_str());
                r.append(
                    " not found in installed binaries. Use `suiup show` to see installed binaries.",
                );
                r
            },
            DefaultSetError::NoVersionFound { binary_name, network_release } => {
                let mut r = crate::text::concat("No version found for ", binary_name.as_str());
                r.append(" in ");
                r.append(network_release.as_str());
                r.append(". Use `suiup show` to see installed binaries.");
                r
            },
            DefaultSetError::VersionNotInstalled { binary_name, version, network_release } => {
                let mut r = crate::text::concat("Binary ", binary_name.as_str());
                r.append("-");
                r.append(version.as_str());
                r.append(" from ");
                r.append(network_release.as_str());
                r.append(" release not found. Use `suiup show` to see installed binaries.");
                r
            },
        }
    }
}

/// The network or branch that a request means. A branch, where one is given, comes
/// first; a binary that is not released by network lives under `standalone`.
pub open spec fn requested_network_of(
    config: BinaryConfig,
    nightly: Option<String>,
    network: Seq<char>,
) -> Seq<char> {
    match nightly {
        Some(branch) => branch@,
        None => if !config.network_based || config.installation_type == InstallationType::Standalone {
            "standalone"@
        } else {
            network
        },
    }
}

/// The network or branch that a request means.
pub fn requested_network(config: &BinaryConfig, nightly: &Option<String>, network: &str) -> (r: String)
    ensures
        r@ == requested_network_of(*config, *nightly, network@),
{
    match nightly {
        Some(branch) => branch.clone(),
        None => {
            let standalone = match config.installation_type {
                InstallationType::Standalone => true,
                InstallationType::Archive => false,
            };
            if !config.network_based || standalone {
                String::from_str("standalone")
            } else {
                String::from_str(network)
            }
        },
    }
}

/// The record is of the binary on the network, of the build kind, and in the version
/// `version`: its version is `version` as it stands, or `version` with the `v` of release
/// tags put in front. A record without the `v` is not found by a request that has it.
pub open spec fn is_requested(
    r: BinaryVersionView,
    name: Seq<char>,
    network: Seq<char>,
    version: Seq<char>,
    debug: bool,
) -> bool {
    is_candidate(r, name, network) && r.debug == debug && (r.version == version || r.version
        == with_v(version))
}

/// `i` is the first position of `s` whose record is the requested one.
pub open spec fn is_first_requested(
    s: Seq<BinaryVersionView>,
    name: Seq<char>,
    network: Seq<char>,
    version: Seq<char>,
    debug: bool,
    i: int,
) -> bool {
    &&& 0 <= i < s.len()
    &&& is_requested(s[i], name, network, version, debug)
    &&& forall|j: int| 0 <= j < i ==> !is_requested(#[trigger] s[j], name, network, version, debug)
}

/// Some record of `s` is the requested one.
pub open spec fn has_requested(
    s: Seq<BinaryVersionView>,
    name: Seq<char>,
    network: Seq<char>,
    version: Seq<char>,
    debug: bool,
) -> bool {
    exists|j: int| 0 <= j < s.len() && is_requested(#[trigger] s[j], name, network, version, debug)
}

/// The first record that is the requested one.
fn find_requested(
    installed: &InstalledBinaries,
    name: &str,
    network: &str,
    version: &str,
    debug: bool,
) -> (r: Option<BinaryVersion>)
    ensures
        match r {
            Some(b) => exists|i: int| #[trigger]
                is_first_requested(installed@, name@, network@, version@, debug, i) && b@
                    == installed@[i],
            None => !has_requested(installed@, name@, network@, version@, debug),
        },
{
    let records = installed.binaries();
    let tagged = ensure_version_prefix(version);
    let mut i: usize = 0;
    while i < records.len()
        invariant
            i <= records.len(),
            records_view(records@) == installed@,
            tagged@ == with_v(version@),
            forall|j: int|
                0 <= j < i ==> !is_requested(#[trigger] installed@[j], name@, network@, version@, debug),
        decreases records.len() - i,
    {
        let record = &records[i];
        assert(installed@[i as int] == record@);
        if text_eq(record.binary_name.as_str(), name) && text_eq(
            record.network_release.as_str(),
            network,
        ) && record.debug == debug && (text_eq(record.version.as_str(), version) || text_eq(
            record.version.as_str(),
            tagged.as_str(),
        )) {
            assert(is_first_requested(installed@, name@, network@, version@, debug, i as int));
            return Some(record.clone());
        }
        i = i + 1;
    }
    None
}

/// The version that a request means: the one it names, else the latest version of the
/// binary that is installed from the network.
pub open spec fn is_meant_version(
    s: Seq<BinaryVersionView>,
    name: Seq<char>,
    network: Seq<char>,
    version: Option<Seq<char>>,
    meant: Seq<char>,
) -> bool {
    match version {
        Some(v) => meant == v,
        None => exists|i: int| #[trigger] is_latest(s, name, network, i) && meant == s[i].version,
    }
}

/// Why the store has no record for a request for the binary `name` on the network
/// `network`, in the version `version` where one is named, of the build kind `debug`:
/// the error says which of these is so, the first that holds. Nothing is installed from
/// the network; the binary is not installed at all; no version was named and the binary
/// is not installed from the network; the version meant is not installed in this build
/// kind.
pub open spec fn is_refusal(
    installed: Seq<BinaryVersionView>,
    name: Seq<char>,
    network: Seq<char>,
    version: Option<Seq<char>>,
    debug: bool,
    e: DefaultSetError,
) -> bool {
    match e {
        DefaultSetError::NoBinariesForNetwork(n) => !has_network(installed, network) && n@
            == network,
        DefaultSetError::BinaryNotInstalled(n) => has_network(installed, network) && !has_binary(
            installed,
            name,
        ) && n@ == name,
        DefaultSetError::NoVersionFound { binary_name, network_release } => has_network(
            installed,
            network,
        ) && has_binary(installed, name) && version is None && !has_candidate(
            installed,
            name,
            network,
        ) && binary_name@ == name && network_release@ == network,
        DefaultSetError::VersionNotInstalled { binary_name, version: v, network_release } =>
            has_network(installed, network) && has_binary(installed, name) && is_meant_version(
                installed,
                name,
                network,
                version,
                v@,
            ) && !has_requested(installed, name, network, v@, debug) && binary_name@ == name
                && network_release@ == network,
        _ => false,
    }
}

/// Picks the installed record that a request means. The network must have something
/// installed, the binary must be installed from some network, and the record of the
/// binary on the network, in the version meant and of the build kind asked for, must be
/// in the store. Where the request names no version, the latest one installed from the
/// network is meant.
pub fn select_version(
    installed: &InstalledBinaries,
    name: &str,
    network: &str,
    version: Option<&str>,
    debug: bool,
) -> (r: Result<BinaryVersion, DefaultSetError>)
    ensures
        match r {
            Ok(b) => exists|meant: Seq<char>, i: int|
                is_meant_version(installed@, name@, network@, spec_text(version), meant)
                    && #[trigger] is_first_requested(installed@, name@, network@, meant, debug, i)
                    && b@ == installed@[i],
            Err(e) => is_refusal(installed@, name@, network@, spec_text(version), debug, e),
        },
{
    if !has_records_of_network(installed, network) {
        return Err(DefaultSetError::NoBinariesForNetwork(String::from_str(network)));
    }
    if !installed.contains_binary(name) {
        return Err(DefaultSetError::BinaryNotInstalled(String::from_str(name)));
    }
    let meant = match version {
        Some(v) => String::from_str(v),
        None => match find_matching_binary(installed, name, network) {
            Ok(latest) => latest.version,
            Err(_) => {
                return Err(
                    DefaultSetError::NoVersionFound {
                        binary_name: String::from_str(name),
                        network_release: String::from_str(network),
                    },
                );
            },
        },
    };
    assert(is_meant_version(installed@, name@, network@, spec_text(version), meant@));
    match find_requested(installed, name, network, meant.as_str(), debug) {
        Some(record) => Ok(record),
        None => Err(
            DefaultSetError::VersionNotInstalled {
                binary_name: String::from_str(name),
                version: meant,
                network_release: String::from_str(network),
            },
        ),
    }
}

/// The text of an optional text.
pub open spec fn spec_text(o: Option<&str>) -> Option<Seq<char>> {
    match o {
        Some(s) => Some(s@),
        None => None,
    }
}

/// Whether any record is of the network or branch `network`.
fn has_records_of_network(installed: &InstalledBinaries, network: &str) -> (r: bool)
    ensures
        r == has_network(installed@, network@),
{
    let records = installed.binaries();
    let mut i: usize = 0;
    while i < records.len()
        invariant
            i <= records.len(),
            records_view(records@) == installed@,
            forall|j: int| 0 <= j < i ==> (#[trigger] installed@[j]).network_release != network@,
        decreases records.len() - i,
    {
        assert(installed@[i as int] == records@[i as int]@);
        if text_eq(records[i].network_release.as_str(), network) {
            return true;
        }
        i = i + 1;
    }
    false
}

/// The target is what the request means, once read as the binary `name`, the network
/// `network` and the version `version`: the binary's entry stands at `c` in the catalog
/// and settles the network; `meant` is the version meant; and the record of the target
/// stands at `i` in the store.
pub open spec fn is_target_of(
    cmd: Command,
    registry: BinaryRegistry,
    installed: Seq<BinaryVersionView>,
    name: Seq<char>,
    network: Seq<char>,
    version: Option<Seq<char>>,
    target: PromotionTarget,
    c: int,
    meant: Seq<char>,
    i: int,
) -> bool {
    &&& target.binary_name@ == name
    &&& target.debug == cmd.debug
    &&& is_first_entry(registry.entries(), name, c)
    &&& target.network_release@ == requested_network_of(registry.entries()[c], cmd.nightly, network)
    &&& is_meant_version(installed, name, target.network_release@, version, meant)
    &&& is_first_requested(installed, name, target.network_release@, meant, cmd.debug, i)
    &&& target.version@ == installed[i].version
}

/// The request names the target.
pub open spec fn names_target(
    cmd: Command,
    registry: BinaryRegistry,
    installed: Seq<BinaryVersionView>,
    target: PromotionTarget,
) -> bool {
    component_of(registry, cmd.name@) matches Ok((name, network, version)) && exists|
        c: int,
        meant: Seq<char>,
        i: int,
    | #[trigger] is_target_of(cmd, registry, installed, name, network, version, target, c, meant, i)
}

/// The request is refused with the error `e`: it was read as a binary and a version
/// specification, the binary's entry in the catalog settles the network, and the store
/// has no record for it, for the reason that `e` gives.
pub open spec fn refuses(
    cmd: Command,
    registry: BinaryRegistry,
    installed: Seq<BinaryVersionView>,
    e: DefaultSetError,
) -> bool {
    component_of(registry, cmd.name@) matches Ok((name, network, version)) && exists|c: int| #[trigger]
        is_entry_refusal(cmd, registry, installed, name, network, version, e, c)
}

/// The entry of the binary `name` stands at `c` in the catalog, and with the network that
/// it settles the store has no record for the request, for the reason that `e` gives.
pub open spec fn is_entry_refusal(
    cmd: Command,
    registry: BinaryRegistry,
    installed: Seq<BinaryVersionView>,
    name: Seq<char>,
    network: Seq<char>,
    version: Option<Seq<char>>,
    e: DefaultSetError,
    c: int,
) -> bool {
    is_first_entry(registry.entries(), name, c) && is_refusal(
        installed,
        name,
        requested_network_of(registry.entries()[c], cmd.nightly, network),
        version,
        cmd.debug,
        e,
    )
}

impl Command {
    /// The request for the release build of a binary.
    pub fn new(name: String) -> (r: Self)
        ensures
            r.name == name,
            !r.debug,
            r.nightly is None,
    {
        Command { name, debug: false, nightly: None }
    }

    /// The target of a request that was read already.
    fn target_of(
        &self,
        registry: &BinaryRegistry,
        installed: &InstalledBinaries,
        metadata: &crate::commands::CommandMetadata,
    ) -> (r: Result<PromotionTarget, DefaultSetError>)
        requires
            registry.knows(metadata.name@),
        ensures
            match r {
                Ok(target) => exists|c: int, meant: Seq<char>, i: int| #[trigger]
                    is_target_of(
                        *self,
                        *registry,
                        installed@,
                        metadata.name@,
                        metadata.network@,
                        optional_text(metadata.version),
                        target,
                        c,
                        meant,
                        i,
                    ),
                Err(e) => exists|c: int| #[trigger]
                    is_entry_refusal(
                        *self,
                        *registry,
                        installed@,
                        metadata.name@,
                        metadata.network@,
                        optional_text(metadata.version),
                        e,
                        c,
                    ),
            },
    {
        let config = metadata.name.config(registry);
        let network = requested_network(config, &self.nightly, metadata.network.as_str());
        let version = match &metadata.version {
            Some(v) => Some(v.as_str()),
            None => None,
        };
        assert(spec_text(version) == optional_text(metadata.version));
        match select_version(installed, metadata.name.as_str(), network.as_str(), version, self.debug) {
            Ok(record) => {
                let ghost name = metadata.name@;
                let ghost c = choose|c: int| #[trigger]
                    is_first_entry(registry.entries(), name, c) && *config == registry.entries()[c];
                let ghost (meant, i) = choose|meant: Seq<char>, i: int|
                    is_meant_version(installed@, name, network@, spec_text(version), meant)
                        && #[trigger] is_first_requested(
                        installed@,
                        name,
                        network@,
                        meant,
                        self.debug,
                        i,
                    ) && record@ == installed@[i];
                let r: Result<PromotionTarget, DefaultSetError> = Ok(
                    PromotionTarget {
                        binary_name: record.binary_name,
                        network_release: network,
                        version: record.version,
                        debug: self.debug,
                    },
                );
                assert(is_target_of(
                    *self,
                    *registry,
                    installed@,
                    name,
                    metadata.network@,
                    optional_text(metadata.version),
                    r->Ok_0,
                    c,
                    meant,
                    i,
                ));
                r
            },
            Err(e) => {
                let ghost c = choose|c: int| #[trigger]
                    is_first_entry(registry.entries(), metadata.name@, c) && *config
                        == registry.entries()[c];
                let r: Result<PromotionTarget, DefaultSetError> = Err(e);
                assert(is_entry_refusal(
                    *self,
                    *registry,
                    installed@,
                    metadata.name@,
                    metadata.network@,
                    optional_text(metadata.version),
                    r->Err_0,
                    c,
                ));
                r
            },
        }
    }

    /// The installed artifact that the request names, ready to be promoted. The request
    /// is read against the catalog, its network is settled by the binary's entry, and the
    /// record is picked from the store as `select_version` says. The request succeeds
    /// unless nothing was asked for, it cannot be read, or the store has no record for it;
    /// the error says which.
    pub fn resolve(&self, registry: &BinaryRegistry, installed: &InstalledBinaries) -> (r: Result<
        PromotionTarget,
        DefaultSetError,
    >)
        ensures
            match r {
                Ok(target) => names_target(*self, *registry, installed@, target),
                Err(DefaultSetError::MissingArguments) => self.name@.len() == 0
                    && self.nightly is None,
                Err(DefaultSetError::Parse(e)) => !(self.name@.len() == 0 && self.nightly is None)
                    && is_component_error(*registry, self.name@, e),
                Err(e) => !(self.name@.len() == 0 && self.nightly is None) && refuses(
                    *self,
                    *registry,
                    installed@,
                    e,
                ),
            },
    {
        if self.name.as_str().unicode_len() == 0 && self.nightly.is_none() {
            return Err(DefaultSetError::MissingArguments);
        }
        let metadata = match parse_component_with_version(registry, self.name.as_str()) {
            Ok(m) => m,
            Err(e) => {
                return Err(DefaultSetError::Parse(e));
            },
        };
        let r = self.target_of(registry, installed, &metadata);
        proof {
            if r is Ok {
                let target = r->Ok_0;
                let (c, meant, i) = choose|c: int, meant: Seq<char>, i: int| #[trigger]
                    is_target_of(
                        *self,
                        *registry,
                        installed@,
                        metadata.name@,
                        metadata.network@,
                        optional_text(metadata.version),
                        target,
                        c,
                        meant,
                        i,
                    );
                assert(is_target_of(
                    *self,
                    *registry,
                    installed@,
                    metadata.name@,
                    metadata.network@,
                    optional_text(metadata.version),
                    r->Ok_0,
                    c,
                    meant,
                    i,
                ));
                let parsed = component_of(*registry, self.name@);
                assert(parsed == Ok::<_, ()>(
                    (metadata.name@, metadata.network@, optional_text(metadata.version)),
                ));
                let (name, network, version) = parsed->Ok_0;
                assert(is_target_of(
                    *self,
                    *registry,
                    installed@,
                    name,
                    network,
                    version,
                    r->Ok_0,
                    c,
                    meant,
                    i,
                ));
                assert(names_target(*self, *registry, installed@, r->Ok_0));
            } else {
                let e = r->Err_0;
                let c = choose|c: int| #[trigger]
                    is_entry_refusal(
                        *self,
                        *registry,
                        installed@,
                        metadata.name@,
                        metadata.network@,
                        optional_text(metadata.version),
                        e,
                        c,
                    );
                let parsed = component_of(*registry, self.name@);
                assert(parsed == Ok::<_, ()>(
                    (metadata.name@, metadata.network@, optional_text(metadata.version)),
                ));
                let (name, network, version) = parsed->Ok_0;
                assert(is_entry_refusal(*self, *registry, installed@, name, network, version, e, c));
                assert(refuses(*self, *registry, installed@, e));
            }
        }
        r
    }
}

} // verus!
