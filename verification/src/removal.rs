//! Uninstalling a binary: first see that every artifact is there, then delete all of them
//! or none.

use crate::defaults::DefaultVersions;
use crate::paths::{default_bin_path, default_bin_path_of};
use crate::platform::Platform;
use crate::sequences::lemma_filter_all;
use crate::text::{text_eq, texts};
use crate::types::{named, not_named, records_view, BinaryVersion, BinaryVersionView, InstalledBinaries, has_binary};
use vstd::prelude::*;

verus! {

/// What is to be done to uninstall a binary.
#[derive(Debug)]
pub enum RemovalPlan {
    /// The binary has no installed record.
    NothingToRemove,
    /// The artifact of a record is not on disk: nothing is to be deleted. The path is the
    /// one that is missing.
    Aborted { missing: String },
    /// Delete the artifacts, then the default copies where they exist, then save both
    /// stores.
    Proceed { artifacts: Vec<String>, default_copies: Vec<String> },
}

/// `path` is among `existing`.
pub open spec fn on_disk(existing: Seq<String>, path: Seq<char>) -> bool {
    exists|i: int| 0 <= i < existing.len() && (#[trigger] existing[i])@ == path
}

/// The record has a path at which nothing lies.
pub open spec fn is_missing(r: BinaryVersionView, existing: Seq<String>) -> bool {
    r.path matches Some(p) && !on_disk(existing, p)
}

/// `i` is the first position of `s` whose record has a path at which nothing lies.
pub open spec fn is_first_missing(s: Seq<BinaryVersionView>, existing: Seq<String>, i: int) -> bool {
    &&& 0 <= i < s.len()
    &&& is_missing(s[i], existing)
    &&& forall|j: int| 0 <= j < i ==> !is_missing(#[trigger] s[j], existing)
}

/// Every record of `s` that has a path has its artifact on disk.
pub open spec fn all_present(s: Seq<BinaryVersionView>, existing: Seq<String>) -> bool {
    forall|j: int| 0 <= j < s.len() ==> !is_missing(#[trigger] s[j], existing)
}

/// The paths of the records that have one, in order.
pub open spec fn artifact_paths(s: Seq<BinaryVersionView>) -> Seq<Seq<char>>
    decreases s.len(),
{
    if s.len() == 0 {
        Seq::empty()
    } else {
        match s.last().path {
            Some(p) => artifact_paths(s.drop_last()).push(p),
            None => artifact_paths(s.drop_last()),
        }
    }
}

/// Whether `path` is among `existing`.
pub fn is_on_disk(existing: &Vec<String>, path: &str) -> (r: bool)
    ensures
        r == on_disk(existing@, path@),
{
    let mut i: usize = 0;
    while i < existing.len()
        invariant
            i <= existing.len(),
            forall|j: int| 0 <= j < i ==> (#[trigger] existing@[j])@ != path@,
        decreases existing.len() - i,
    {
        if text_eq(existing[i].as_str(), path) {
            return true;
        }
        i = i + 1;
    }
    false
}

/// Plans the removal of the binary `name`. `existing` holds the paths, among those of the
/// binary's records, at which a file lies.
///
/// Where the binary has no record, there is nothing to remove. Where the artifact of one
/// of its records is missing, the removal is called off as a whole: both stores stay as
/// they are and nothing is to be deleted. Else every artifact is to be deleted, as are
/// the default copies of both build kinds, and the binary leaves both stores: all its
/// records, and its default whichever version that named.
pub fn plan_removal(
    installed: &mut InstalledBinaries,
    defaults: &mut DefaultVersions,
    name: &str,
    existing: &Vec<String>,
    default_bin_root: &str,
    platform: Platform,
) -> (plan: RemovalPlan)
    requires
        old(installed).wf(),
        old(defaults).wf(),
    ensures
        final(installed).wf(),
        final(defaults).wf(),
        ({
            let candidates = old(installed)@.filter(named(name@));
            match plan {
                RemovalPlan::NothingToRemove => {
                    &&& candidates.len() == 0
                    &&& final(installed)@ == old(installed)@
                    &&& final(defaults)@ == old(defaults)@
                },
                RemovalPlan::Aborted { missing } => {
                    &&& exists|i: int| #[trigger]
                        is_first_missing(candidates, existing@, i) && candidates[i].path == Some(
                            missing@,
                        )
                    &&& final(installed)@ == old(installed)@
                    &&& final(defaults)@ == old(defaults)@
                },
                RemovalPlan::Proceed { artifacts, default_copies } => {
                    &&& candidates.len() > 0
                    &&& all_present(candidates, existing@)
                    &&& texts(artifacts@) == artifact_paths(candidates)
                    &&& texts(default_copies@) == seq![
                        default_bin_path_of(default_bin_root@, name@, false, platform),
                        default_bin_path_of(default_bin_root@, name@, true, platform),
                    ]
                    &&& final(installed)@ == old(installed)@.filter(not_named(name@))
                    &&& final(defaults)@ == old(defaults)@.remove(name@)
                },
            }
        }),
{
    let candidates = installed.find_all(name);
    let ghost views = records_view(candidates@);
    if candidates.len() == 0 {
        return RemovalPlan::NothingToRemove;
    }
    let mut artifacts: Vec<String> = Vec::new();
    let mut i: usize = 0;
    assert(views.take(0) =~= Seq::<BinaryVersionView>::empty());
    assert(texts(artifacts@) =~= artifact_paths(views.take(0)));
    while i < candidates.len()
        invariant
            i <= candidates.len(),
            views == records_view(candidates@),
            views == old(installed)@.filter(named(name@)),
            installed@ == old(installed)@,
            defaults@ == old(defaults)@,
            installed.wf(),
            defaults.wf(),
            forall|j: int| 0 <= j < i ==> !is_missing(#[trigger] views[j], existing@),
            texts(artifacts@) == artifact_paths(views.take(i as int)),
        decreases candidates.len() - i,
    {
        proof {
            assert(views[i as int] == candidates@[i as int]@);
            assert(views.take(i as int + 1).drop_last() =~= views.take(i as int));
            assert(views.take(i as int + 1).last() == views[i as int]);
        }
        match &candidates[i].path {
            Some(path) => {
                if !is_on_disk(existing, path.as_str()) {
                    assert(is_first_missing(views, existing@, i as int));
                    return RemovalPlan::Aborted { missing: path.clone() };
                }
                let ghost before = texts(artifacts@);
                artifacts.push(path.clone());
                assert(texts(artifacts@) =~= before.push(path@));
            },
            None => {},
        }
        i = i + 1;
    }
    assert(views.take(candidates.len() as int) =~= views);
    let mut default_copies: Vec<String> = Vec::new();
    default_copies.push(default_bin_path(default_bin_root, name, false, platform));
    default_copies.push(default_bin_path(default_bin_root, name, true, platform));
    assert(texts(default_copies@) =~= seq![
        default_bin_path_of(default_bin_root@, name@, false, platform),
        default_bin_path_of(default_bin_root@, name@, true, platform),
    ]);
    installed.remove_by_binary_name(name);
    defaults.remove(name);
    RemovalPlan::Proceed { artifacts, default_copies }
}

} // verus!
