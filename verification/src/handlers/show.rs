//! Showing what is installed and what is the default.

use crate::commands::default::get::{debug_label, debug_text, row_of};
use crate::defaults::DefaultVersions;
use crate::text::texts;
use crate::types::{is_grouping, BinaryVersion, InstalledBinaries};
use vstd::prelude::*;

verus! {

/// The head of both tables.
pub open spec fn show_header() -> Seq<Seq<char>> {
    seq!["Network"@, "Binary"@, "Version"@, "Debug"@]
}

/// The head of both tables.
pub fn header() -> (r: Vec<String>)
    ensures
        texts(r@) == show_header(),
{
    let mut row: Vec<String> = Vec::new();
    row.push(String::from_str("Network"));
    row.push(String::from_str("Binary"));
    row.push(String::from_str("Version"));
    row.push(String::from_str("Debug"));
    assert(texts(row@) =~= show_header());
    row
}

/// The row of an installed record: network, binary, version, build kind.
pub open spec fn installed_row(b: BinaryVersion) -> Seq<Seq<char>> {
    seq![b.network_release@, b.binary_name@, b.version@, debug_text(b.debug)]
}

/// The rows of the records of `groups`, group after group.
pub open spec fn rows_of_groups(groups: Seq<(String, Vec<BinaryVersion>)>) -> Seq<Seq<Seq<char>>>
    decreases groups.len(),
{
    if groups.len() == 0 {
        Seq::empty()
    } else {
        rows_of_groups(groups.drop_last()) + Seq::new(
            groups.last().1@.len(),
            |k: int| installed_row(groups.last().1@[k]),
        )
    }
}

/// The rows of a table.
pub open spec fn rows_view(rows: Seq<Vec<String>>) -> Seq<Seq<Seq<char>>> {
    Seq::new(rows.len(), |i: int| texts(rows[i]@))
}

/// The rows of the table of installed binaries, for records that are grouped by network:
/// one row for each record, group after group.
pub fn installed_rows(groups: &Vec<(String, Vec<BinaryVersion>)>) -> (r: Vec<Vec<String>>)
    ensures
        rows_view(r@) == rows_of_groups(groups@),
{
    let mut rows: Vec<Vec<String>> = Vec::new();
    let mut g: usize = 0;
    assert(groups@.take(0) =~= Seq::<(String, Vec<BinaryVersion>)>::empty());
    assert(rows_view(rows@) =~= rows_of_groups(groups@.take(0)));
    while g < groups.len()
        invariant
            g <= groups.len(),
            rows_view(rows@) == rows_of_groups(groups@.take(g as int)),
        decreases groups.len() - g,
    {
        let records = &groups[g].1;
        let ghost before = rows_view(rows@);
        let mut k: usize = 0;
        while k < records.len()
            invariant
                k <= records.len(),
                rows_view(rows@) == before + Seq::new(k as nat, |j: int| installed_row(records@[j])),
            decreases records.len() - k,
        {
            let mut row: Vec<String> = Vec::new();
            row.push(records[k].network_release.clone());
            row.push(records[k].binary_name.clone());
            row.push(records[k].version.clone());
            row.push(String::from_str(debug_label(records[k].debug)));
            assert(texts(row@) =~= installed_row(records@[k as int]));
            let ghost prev = rows_view(rows@);
            rows.push(row);
            assert(rows_view(rows@) =~= prev.push(installed_row(records@[k as int])));
            assert(rows_view(rows@) =~= before + Seq::new(
                (k + 1) as nat,
                |j: int| installed_row(records@[j]),
            ));
            k = k + 1;
        }
        proof {
            assert(groups@.take(g as int + 1).drop_last() =~= groups@.take(g as int));
            assert(groups@.take(g as int + 1).last() == groups@[g as int]);
        }
        g = g + 1;
    }
    assert(groups@.take(groups.len() as int) =~= groups@);
    rows
}

/// The rows of the two tables that are shown: the defaults, one row for each binary, and
/// the installed binaries, group after group by network.
pub fn handle_show(defaults: &DefaultVersions, installed: &InstalledBinaries) -> (r: (
    Vec<Vec<String>>,
    Vec<Vec<String>>,
))
    ensures
        r.0@.len() == defaults.entries().len(),
        forall|i: int|
            0 <= i < r.0@.len() ==> texts((#[trigger] r.0@[i])@) == row_of(
                defaults.entries()[i].0@,
                defaults.entries()[i].1,
            ),
        exists|groups: Seq<(String, Vec<BinaryVersion>)>| #[trigger]
            is_grouping(groups, installed@) && rows_view(r.1@) == rows_of_groups(groups),
{
    let default_rows = crate::commands::default::get::Command.rows(defaults);
    let groups = installed.grouped_by_network();
    let installed_rows = installed_rows(&groups);
    assert(is_grouping(groups@, installed@));
    (default_rows, installed_rows)
}

} // verus!
