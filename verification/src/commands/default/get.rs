//! Showing the defaults: one row for each binary.

use crate::defaults::{DefaultVersion, DefaultVersions};
use vstd::prelude::*;

verus! {

/// The request to show the defaults.
#[derive(Debug)]
pub struct Command;

/// How a build kind is shown.
pub open spec fn debug_text(debug: bool) -> Seq<char> {
    if debug {
        "Yes"@
    } else {
        "No"@
    }
}

/// How a build kind is shown.
pub fn debug_label(debug: bool) -> (r: &'static str)
    ensures
        r@ == debug_text(debug),
{
    if debug {
        "Yes"
    } else {
        "No"
    }
}

/// The row of one default: network, binary, version, build kind.
pub open spec fn row_of(name: Seq<char>, entry: DefaultVersion) -> Seq<Seq<char>> {
    seq![entry.network_release@, name, entry.version@, debug_text(entry.debug)]
}

impl Command {
    /// The rows of the table of defaults, one for each entry in the store's order. What
    /// the store records is shown whether or not the files are still there.
    pub fn rows(&self, defaults: &DefaultVersions) -> (r: Vec<Vec<String>>)
        ensures
            r@.len() == defaults.entries().len(),
            forall|i: int|
                0 <= i < r@.len() ==> crate::text::texts((#[trigger] r@[i])@) == row_of(
                    defaults.entries()[i].0@,
                    defaults.entries()[i].1,
                ),
    {
        let entries = defaults.all();
        let mut rows: Vec<Vec<String>> = Vec::new();
        let mut i: usize = 0;
        while i < entries.len()
            invariant
                i <= entries.len(),
                entries@ == defaults.entries(),
                rows@.len() == i,
                forall|j: int|
                    0 <= j < i ==> crate::text::texts((#[trigger] rows@[j])@) == row_of(
                        entries@[j].0@,
                        entries@[j].1,
                    ),
            decreases entries.len() - i,
        {
            let mut row: Vec<String> = Vec::new();
            row.push(entries[i].1.network_release.clone());
            row.push(entries[i].0.clone());
            row.push(entries[i].1.version.clone());
            row.push(String::from_str(debug_label(entries[i].1.debug)));
            assert(crate::text::texts(row@) =~= row_of(entries@[i as int].0@, entries@[i as int].1));
            rows.push(row);
            i = i + 1;
        }
        rows
    }
}

} // verus!
