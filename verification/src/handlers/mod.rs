//! What the commands do, as far as it is decided here.

pub mod cleanup;
pub mod install;
pub mod release;
pub mod self_;
pub mod show;
pub mod suibase;

use crate::commands::clean::{answer_of, interpret_answer, Answer};
use crate::defaults::{DefaultVersionView, DefaultVersions};
use crate::paths::{install_path, install_path_of};
use crate::platform::Platform;
use crate::promotion::PromotionTarget;
use crate::removal::{is_on_disk, on_disk};
use crate::types::{is_grouping, BinaryVersion, InstalledBinaries};
use vstd::prelude::*;

verus! {

/// The directory of the cache that keeps release archives.
pub const RELEASES_ARCHIVES_FOLDER: &'static str = "releases";

/// The binaries that can be installed.
pub open spec fn component_names() -> Seq<Seq<char>> {
    seq!["sui"@, "sui-node"@, "mvr"@, "walrus"@, "site-builder"@, "move-analyzer"@]
}

/// The binaries that can be installed.
pub fn available_components() -> (r: Vec<&'static str>)
    ensures
        r@.len() == 6,
        forall|i: int| 0 <= i < 6 ==> (#[trigger] r@[i])@ == component_names()[i],
{
    let mut names: Vec<&'static str> = Vec::new();
    names.push("sui");
    names.push("sui-node");
    names.push("mvr");
    names.push("walrus");
    names.push("site-builder");
    names.push("move-analyzer");
    names
}

/// The defaults after the given binaries, in turn, were set to one network, version and
/// build kind.
pub open spec fn with_defaults(
    defaults: Map<Seq<char>, DefaultVersionView>,
    binaries: Seq<String>,
    entry: DefaultVersionView,
) -> Map<Seq<char>, DefaultVersionView>
    decreases binaries.len(),
{
    if binaries.len() == 0 {
        defaults
    } else {
        with_defaults(defaults, binaries.drop_last(), entry).insert(binaries.last()@, entry)
    }
}

/// Sets the default of every one of the given binaries to the network, version and build
/// kind, in place of what each had.
pub fn update_default_versions(
    defaults: &mut DefaultVersions,
    binaries: &Vec<String>,
    network: &str,
    version: &str,
    debug: bool,
)
    requires
        old(defaults).wf(),
    ensures
        final(defaults).wf(),
        final(defaults)@ == with_defaults(
            old(defaults)@,
            binaries@,
            DefaultVersionView { network_release: network@, version: version@, debug },
        ),
{
    let ghost entry = DefaultVersionView { network_release: network@, version: version@, debug };
    let mut i: usize = 0;
    assert(binaries@.take(0) =~= Seq::<String>::empty());
    while i < binaries.len()
        invariant
            i <= binaries.len(),
            defaults.wf(),
            entry == (DefaultVersionView { network_release: network@, version: version@, debug }),
            defaults@ == with_defaults(old(defaults)@, binaries@.take(i as int), entry),
        decreases binaries.len() - i,
    {
        proof {
            assert(binaries@.take(i as int + 1).drop_last() =~= binaries@.take(i as int));
            assert(binaries@.take(i as int + 1).last() == binaries@[i as int]);
        }
        defaults.set(binaries[i].as_str(), network, version, debug);
        i = i + 1;
    }
    assert(binaries@.take(binaries.len() as int) =~= binaries@);
}

/// The installed binaries by network or branch: each network that the store names, with
/// its records in the store's order.
pub fn installed_binaries_grouped_by_network(installed_binaries: &InstalledBinaries) -> (r: Vec<
    (String, Vec<BinaryVersion>),
>)
    ensures
        is_grouping(r@, installed_binaries@),
{
    installed_binaries.grouped_by_network()
}

/// What follows an installation.
#[derive(Debug)]
pub enum AfterInstall {
    /// An artifact is not where it should be: the defaults stay as they are.
    Skip { missing: String },
    /// The user keeps the defaults as they are.
    Keep,
    /// The answer was neither yes nor no: ask again.
    AskAgain,
    /// Each of these is to be promoted, in turn.
    Promote(Vec<PromotionTarget>),
}

/// The artifact of the binary is not on disk.
pub open spec fn is_absent(
    binary: String,
    root: Seq<char>,
    network: Seq<char>,
    version: Seq<char>,
    debug: bool,
    platform: Platform,
    existing: Seq<String>,
) -> bool {
    !on_disk(existing, install_path_of(root, binary@, network, version, debug, platform))
}

/// `i` is the first position among `names` of a binary whose artifact is not on disk.
pub open spec fn is_first_absent(
    names: Seq<String>,
    root: Seq<char>,
    network: Seq<char>,
    version: Seq<char>,
    debug: bool,
    platform: Platform,
    existing: Seq<String>,
    i: int,
) -> bool {
    &&& 0 <= i < names.len()
    &&& is_absent(names[i], root, network, version, debug, platform, existing)
    &&& forall|j: int|
        0 <= j < i ==> !is_absent(#[trigger] names[j], root, network, version, debug, platform, existing)
}

/// The targets are the given binaries, in turn, in one network, version and build kind.
pub open spec fn are_targets(
    targets: Seq<PromotionTarget>,
    names: Seq<String>,
    network: Seq<char>,
    version: Seq<char>,
    debug: bool,
) -> bool {
    &&& targets.len() == names.len()
    &&& forall|i: int|
        0 <= i < targets.len() ==> (#[trigger] targets[i]).binary_name@ == names[i]@
            && targets[i].network_release@ == network && targets[i].version@ == version
            && targets[i].debug == debug
}

/// Decides what follows the installation of the given binaries in one network, version
/// and build kind. `existing` holds the paths, among those of the artifacts, at which a
/// file lies; `answer` is what the user said, in lower case, when asked whether the new
/// version is to be the default, and is not looked at where `yes` was given beforehand.
///
/// Where an artifact is missing, nothing follows. Else the binaries are promoted where
/// the user agrees, and the defaults are kept where they decline.
pub fn update_after_install(
    name: &Vec<String>,
    network: &str,
    version: &str,
    debug: bool,
    yes: bool,
    answer: &str,
    binaries_root: &str,
    existing: &Vec<String>,
    platform: Platform,
) -> (r: AfterInstall)
    ensures
        match r {
            AfterInstall::Skip { missing } => exists|i: int| #[trigger]
                is_first_absent(
                    name@,
                    binaries_root@,
                    network@,
                    version@,
                    debug,
                    platform,
                    existing@,
                    i,
                ) && missing@ == install_path_of(
                    binaries_root@,
                    name@[i]@,
                    network@,
                    version@,
                    debug,
                    platform,
                ),
            _ => forall|j: int|
                0 <= j < name@.len() ==> !is_absent(
                    #[trigger] name@[j],
                    binaries_root@,
                    network@,
                    version@,
                    debug,
                    platform,
                    existing@,
                ),
        },
        match r {
            AfterInstall::Skip { .. } => true,
            AfterInstall::Promote(targets) => (yes || answer_of(answer@) == Answer::Yes)
                && are_targets(targets@, name@, network@, version@, debug),
            AfterInstall::Keep => !yes && answer_of(answer@) == Answer::No,
            AfterInstall::AskAgain => !yes && answer_of(answer@) == Answer::Unclear,
        },
{
    let mut i: usize = 0;
    while i < name.len()
        invariant
            i <= name.len(),
            forall|j: int|
                0 <= j < i ==> !is_absent(
                    #[trigger] name@[j],
                    binaries_root@,
                    network@,
                    version@,
                    debug,
                    platform,
                    existing@,
                ),
        decreases name.len() - i,
    {
        let path = install_path(binaries_root, name[i].as_str(), network, version, debug, platform);
        if !is_on_disk(existing, path.as_str()) {
            assert(is_first_absent(
                name@,
                binaries_root@,
                network@,
                version@,
                debug,
                platform,
                existing@,
                i as int,
            ));
            return AfterInstall::Skip { missing: path };
        }
        i = i + 1;
    }
    let agreed = if yes {
        Answer::Yes
    } else {
        interpret_answer(answer)
    };
    match agreed {
        Answer::Yes => {
            let mut targets: Vec<PromotionTarget> = Vec::new();
            let mut k: usize = 0;
            while k < name.len()
                invariant
                    k <= name.len(),
                    targets@.len() == k,
                    forall|j: int|
                        0 <= j < k ==> (#[trigger] targets@[j]).binary_name@ == name@[j]@
                            && targets@[j].network_release@ == network@ && targets@[j].version@
                            == version@ && targets@[j].debug == debug,
                decreases name.len() - k,
            {
                targets.push(
                    PromotionTarget {
                        binary_name: name[k].clone(),
                        network_release: String::from_str(network),
                        version: String::from_str(version),
                        debug,
                    },
                );
                k = k + 1;
            }
            AfterInstall::Promote(targets)
        },
        Answer::No => AfterInstall::Keep,
        Answer::Unclear => AfterInstall::AskAgain,
    }
}

} // verus!
