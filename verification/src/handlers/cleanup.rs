//! Cleaning the cache of release archives: which files have had their time.

use crate::text::texts;
use vstd::prelude::*;

verus! {

/// A file of the cache, as the caller found it.
#[derive(Clone, Debug)]
pub struct CachedFile {
    pub path: String,
    /// The seconds since the file was last written.
    pub age_secs: u64,
    /// The file's size in bytes.
    pub size: u64,
}

/// What is to be removed from the cache.
#[derive(Debug)]
pub struct CleanupPlan {
    /// The files to remove, in the order in which they were found.
    pub remove: Vec<String>,
    /// The bytes that this frees; no more than the machine counts.
    pub cleaned_size: u64,
}

/// The seconds of a day.
pub const SECONDS_PER_DAY: u64 = 86400;

/// A file has had its time when it is older than `days` days.
pub open spec fn is_expired(age_secs: u64, days: u32) -> bool {
    age_secs > days * 86400
}

/// The files that go: all of them, or those that have had their time.
pub open spec fn goes(all: bool, days: u32) -> spec_fn(CachedFile) -> bool {
    |f: CachedFile| all || is_expired(f.age_secs, days)
}

/// The bytes of the given files together.
pub open spec fn total_size(files: Seq<CachedFile>) -> nat
    decreases files.len(),
{
    if files.len() == 0 {
        0
    } else {
        total_size(files.drop_last()) + files.last().size as nat
    }
}

/// `n`, or the largest number that the machine counts where `n` is larger.
pub open spec fn capped(n: nat) -> u64 {
    if n > u64::MAX {
        u64::MAX
    } else {
        n as u64
    }
}

/// The paths of the given files.
pub open spec fn paths_of(files: Seq<CachedFile>) -> Seq<Seq<char>> {
    Seq::new(files.len(), |i: int| files[i].path@)
}

/// Whether a file of this age has had its time.
pub fn expired(age_secs: u64, days: u32) -> (r: bool)
    ensures
        r == is_expired(age_secs, days),
{
    age_secs > (days as u64) * SECONDS_PER_DAY
}

/// The whole days of an age.
pub fn days_old(age_secs: u64) -> (r: u64)
    ensures
        r == age_secs / 86400,
{
    age_secs / SECONDS_PER_DAY
}

/// Plans the cleaning of the cache: every file goes where `all` is asked for, else those
/// that are older than `days` days.
pub fn handle_cleanup(files: &Vec<CachedFile>, all: bool, days: u32) -> (r: CleanupPlan)
    ensures
        texts(r.remove@) == paths_of(files@.filter(goes(all, days))),
        r.cleaned_size == capped(total_size(files@.filter(goes(all, days)))),
{
    let mut remove: Vec<String> = Vec::new();
    let mut cleaned_size: u64 = 0;
    let ghost p = goes(all, days);
    let mut i: usize = 0;
    proof {
        crate::sequences::lemma_filter_empty(files@, p);
        assert(texts(remove@) =~= paths_of(files@.take(0).filter(p)));
    }
    while i < files.len()
        invariant
            i <= files.len(),
            p == goes(all, days),
            texts(remove@) == paths_of(files@.take(i as int).filter(p)),
            cleaned_size == capped(total_size(files@.take(i as int).filter(p))),
        decreases files.len() - i,
    {
        proof {
            crate::sequences::lemma_filter_step(files@, i as int, p);
        }
        if all || expired(files[i].age_secs, days) {
            let ghost before = files@.take(i as int).filter(p);
            let ghost paths = texts(remove@);
            remove.push(files[i].path.clone());
            proof {
                assert(before.push(files@[i as int]).drop_last() =~= before);
                assert(texts(remove@) =~= paths.push(files@[i as int].path@));
                assert(paths_of(before.push(files@[i as int])) =~= paths_of(before).push(
                    files@[i as int].path@,
                ));
            }
            cleaned_size = if cleaned_size > u64::MAX - files[i].size {
                u64::MAX
            } else {
                cleaned_size + files[i].size
            };
        }
        i = i + 1;
    }
    assert(files@.take(files.len() as int) =~= files@);
    CleanupPlan { remove, cleaned_size }
}

} // verus!
