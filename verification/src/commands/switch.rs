//! Switching to the latest installed version of a binary on a network.

use crate::sequences::lemma_filter_none;
use crate::text::{concat, split, split_on, text_eq, texts};
use crate::types::{BinaryVersion, BinaryVersionView, InstalledBinaries};
use crate::version::{lemma_precedes_transitive, precedes, version_precedes};
use vstd::prelude::*;

verus! {

/// The request to switch: a binary and a network or branch, as `binary@network`.
#[derive(Debug)]
pub struct Command {
    pub binary_spec: String,
}

/// Why a switch cannot be made.
#[derive(Debug)]
pub enum SwitchError {
    /// The request is not one binary and one network with `@` between.
    InvalidFormat,
    /// The binary or the network is empty.
    EmptyPart,
    /// No installed record is of this binary on this network.
    NotInstalled { binary_name: String, network_release: String },
}

impl SwitchError {
    /// What to tell the user.
    pub fn message(&self) -> (r: String)
        ensures
            r@ == match *self {
                SwitchError::InvalidFormat => "Invalid format. Use 'binary@network_release' format (e.g., 'sui@testnet', 'mvr@main')"@,
                SwitchError::EmptyPart => "Binary name and network/release cannot be empty"@,
                SwitchError::NotInstalled { binary_name, network_release } =>
                    "No installed binary found for "@ + binary_name@ + "@"@ + network_release@
                        + ". Use 'suiup show' to see available binaries."@,
            },
    {
        match self {
            SwitchError::InvalidFormat => String::from_str(
                "Invalid format. Use 'binary@network_release' format (e.g., 'sui@testnet', 'mvr@main')",
            ),
            SwitchError::EmptyPart => String::from_str(
                "Binary name and network/release cannot be empty",
            ),
            SwitchError::NotInstalled { binary_name, network_release } => {
                let mut r = concat("No installed binary found for ", binary_name.as_str());
                r.append("@");
                r.append(network_release.as_str());
                r.append(". Use 'suiup show' to see available binaries.");
                r
            },
        }
    }
}

/// Reads `binary@network`: exactly one `@`, with something on both sides of it.
pub fn parse_binary_spec(spec: &str) -> (r: Result<(String, String), SwitchError>)
    ensures
        ({
            let parts = split_on(spec@, '@');
            match r {
                Ok((binary_name, network_release)) => parts.len() == 2 && parts[0].len() > 0
                    && parts[1].len() > 0 && binary_name@ == parts[0] && network_release@ == parts[1],
                Err(SwitchError::InvalidFormat) => parts.len() != 2,
                Err(SwitchError::EmptyPart) => parts.len() == 2 && (parts[0].len() == 0
                    || parts[1].len() == 0),
                Err(SwitchError::NotInstalled { .. }) => false,
            }
        }),
{
    let mut parts = split(spec, '@');
    if parts.len() != 2 {
        return Err(SwitchError::InvalidFormat);
    }
    assert(texts(parts@)[0] == parts@[0]@);
    assert(texts(parts@)[1] == parts@[1]@);
    let network_release = parts.remove(1);
    let binary_name = parts.remove(0);
    if binary_name.as_str().unicode_len() == 0 || network_release.as_str().unicode_len() == 0 {
        return Err(SwitchError::EmptyPart);
    }
    Ok((binary_name, network_release))
}

/// The record is of the binary `name` on the network or branch `network`.
pub open spec fn is_candidate(r: BinaryVersionView, name: Seq<char>, network: Seq<char>) -> bool {
    r.binary_name == name && r.network_release == network
}

/// `i` is the position of the latest version of `name` on `network` in `s`: no candidate
/// has a later version, and no earlier candidate the same.
pub open spec fn is_latest(s: Seq<BinaryVersionView>, name: Seq<char>, network: Seq<char>, i: int) -> bool {
    &&& 0 <= i < s.len()
    &&& is_candidate(s[i], name, network)
    &&& forall|j: int|
        0 <= j < s.len() && is_candidate(#[trigger] s[j], name, network) ==> !precedes(
            s[i].version,
            s[j].version,
        )
    &&& forall|j: int|
        0 <= j < i && is_candidate(#[trigger] s[j], name, network) ==> s[j].version != s[i].version
}

/// Some record of `s` is a candidate.
pub open spec fn has_candidate(s: Seq<BinaryVersionView>, name: Seq<char>, network: Seq<char>) -> bool {
    exists|j: int| 0 <= j < s.len() && is_candidate(#[trigger] s[j], name, network)
}

/// The installed record of the binary on the network or branch that has the latest
/// version, in the order of versions; of several records with that version, the first.
pub fn find_matching_binary(
    installed_binaries: &InstalledBinaries,
    binary_name: &str,
    network_release: &str,
) -> (r: Result<BinaryVersion, SwitchError>)
    ensures
        match r {
            Ok(b) => exists|i: int| #[trigger]
                is_latest(installed_binaries@, binary_name@, network_release@, i) && b@
                    == installed_binaries@[i],
            Err(SwitchError::NotInstalled { binary_name: n, network_release: m }) => !has_candidate(
                installed_binaries@,
                binary_name@,
                network_release@,
            ) && n@ == binary_name@ && m@ == network_release@,
            Err(_) => false,
        },
{
    let records = installed_binaries.binaries();
    let ghost s = installed_binaries@;
    let mut best: Option<usize> = None;
    let mut i: usize = 0;
    while i < records.len()
        invariant
            i <= records.len(),
            s == installed_binaries@,
            s == crate::types::records_view(records@),
            match best {
                None => forall|j: int| 0 <= j < i ==> !is_candidate(
                    #[trigger] s[j],
                    binary_name@,
                    network_release@,
                ),
                Some(b) => {
                    &&& b < i
                    &&& is_candidate(s[b as int], binary_name@, network_release@)
                    &&& forall|j: int|
                        0 <= j < i && is_candidate(#[trigger] s[j], binary_name@, network_release@)
                            ==> !precedes(s[b as int].version, s[j].version)
                    &&& forall|j: int|
                        0 <= j < b && is_candidate(#[trigger] s[j], binary_name@, network_release@)
                            ==> s[j].version != s[b as int].version
                },
            },
        decreases records.len() - i,
    {
        let record = &records[i];
        assert(s[i as int] == record@);
        if text_eq(record.binary_name.as_str(), binary_name) && text_eq(
            record.network_release.as_str(),
            network_release,
        ) {
            match best {
                None => {
                    proof {
                        crate::version::lemma_precedes_irreflexive(s[i as int].version);
                    }
                    best = Some(i);
                },
                Some(b) => {
                    assert(s[b as int] == records@[b as int]@);
                    if version_precedes(records[b].version.as_str(), record.version.as_str()) {
                        proof {
                            crate::version::lemma_precedes_irreflexive(s[i as int].version);
                            assert forall|j: int|
                                0 <= j < i && is_candidate(
                                    #[trigger] s[j],
                                    binary_name@,
                                    network_release@,
                                ) implies !precedes(s[i as int].version, s[j].version)
                                && s[j].version != s[i as int].version by {
                                if precedes(s[i as int].version, s[j].version) {
                                    lemma_precedes_transitive(
                                        s[b as int].version,
                                        s[i as int].version,
                                        s[j].version,
                                    );
                                }
                            }
                        }
                        best = Some(i);
                    }
                },
            }
        }
        i = i + 1;
    }
    match best {
        Some(b) => {
            assert(is_latest(s, binary_name@, network_release@, b as int));
            Ok(records[b].clone())
        },
        None => Err(
            SwitchError::NotInstalled {
                binary_name: String::from_str(binary_name),
                network_release: String::from_str(network_release),
            },
        ),
    }
}

} // verus!
