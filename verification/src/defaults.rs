//! Which version of each binary is the default: one entry for each binary name.

use crate::text::text_eq;
use vstd::prelude::*;

verus! {

/// The default of one binary: its network or branch, its version and its build kind.
#[derive(Debug)]
pub struct DefaultVersion {
    pub network_release: String,
    pub version: String,
    pub debug: bool,
}

/// What an entry says, as plain values.
pub struct DefaultVersionView {
    pub network_release: Seq<char>,
    pub version: Seq<char>,
    pub debug: bool,
}

impl View for DefaultVersion {
    type V = DefaultVersionView;

    open spec fn view(&self) -> DefaultVersionView {
        DefaultVersionView {
            network_release: self.network_release@,
            version: self.version@,
            debug: self.debug,
        }
    }
}

impl Clone for DefaultVersion {
    fn clone(&self) -> (r: Self)
        ensures
            r == *self,
    {
        DefaultVersion {
            network_release: self.network_release.clone(),
            version: self.version.clone(),
            debug: self.debug,
        }
    }
}

impl PartialEq for DefaultVersion {
    fn eq(&self, other: &Self) -> (r: bool) {
        let r = self.network_release == other.network_release && self.version == other.version
            && self.debug == other.debug;
        proof {
            if r {
                assert(self@ == other@);
            }
        }
        r
    }
}

impl vstd::std_specs::cmp::PartialEqSpecImpl for DefaultVersion {
    open spec fn obeys_eq_spec() -> bool {
        true
    }

    open spec fn eq_spec(&self, other: &Self) -> bool {
        self@ == other@
    }
}

/// No two entries are for the same binary.
pub open spec fn names_distinct(s: Seq<(String, DefaultVersion)>) -> bool {
    forall|a: int, b: int| 0 <= a < b < s.len() ==> (#[trigger] s[a]).0@ != (#[trigger] s[b]).0@
}

/// Some entry of `s` is for the binary `name`.
pub open spec fn names(s: Seq<(String, DefaultVersion)>, name: Seq<char>) -> bool {
    exists|i: int| 0 <= i < s.len() && (#[trigger] s[i]).0@ == name
}

/// The position of an entry of `s` for the binary `name`.
pub open spec fn position(s: Seq<(String, DefaultVersion)>, name: Seq<char>) -> int {
    choose|i: int| 0 <= i < s.len() && (#[trigger] s[i]).0@ == name
}

/// The entries as a map from binary names.
pub open spec fn entries_map(s: Seq<(String, DefaultVersion)>) -> Map<Seq<char>, DefaultVersionView> {
    Map::new(|name: Seq<char>| names(s, name), |name: Seq<char>| s[position(s, name)].1@)
}

/// With distinct names, an entry is what the map holds for its name.
pub proof fn lemma_entry(s: Seq<(String, DefaultVersion)>, i: int)
    requires
        names_distinct(s),
        0 <= i < s.len(),
    ensures
        entries_map(s).dom().contains(s[i].0@),
        entries_map(s)[s[i].0@] == s[i].1@,
        position(s, s[i].0@) == i,
{
    let name = s[i].0@;
    assert(names(s, name));
    let p = position(s, name);
    if p < i {
        assert(s[p].0@ != s[i].0@);
    } else if i < p {
        assert(s[i].0@ != s[p].0@);
    }
}

/// A new name at the end is an insertion.
pub proof fn lemma_push(s: Seq<(String, DefaultVersion)>, e: (String, DefaultVersion))
    requires
        names_distinct(s),
        !names(s, e.0@),
    ensures
        names_distinct(s.push(e)),
        entries_map(s.push(e)) == entries_map(s).insert(e.0@, e.1@),
{
    let t = s.push(e);
    assert forall|a: int, b: int| 0 <= a < b < t.len() implies (#[trigger] t[a]).0@ != (
    #[trigger] t[b]).0@ by {
        if b < s.len() {
            assert(s[a].0@ != s[b].0@);
        } else {
            assert(s[a].0@ != e.0@);
        }
    }
    assert forall|name: Seq<char>| names(t, name) <==> (names(s, name) || name == e.0@) by {
        if names(t, name) {
            let i = position(t, name);
            if i < s.len() {
                assert(s[i].0@ == name);
            }
        }
        if names(s, name) {
            let i = position(s, name);
            assert(t[i].0@ == name);
        }
        if name == e.0@ {
            assert(t[s.len() as int].0@ == name);
        }
    }
    assert forall|name: Seq<char>| names(t, name) implies #[trigger] entries_map(t)[name]
        == entries_map(s).insert(e.0@, e.1@)[name] by {
        let i = position(t, name);
        lemma_entry(t, i);
        if i < s.len() {
            assert(s[i] == t[i]);
            lemma_entry(s, i);
        }
    }
    assert(entries_map(t) =~= entries_map(s).insert(e.0@, e.1@));
}

/// A new entry in the place of one with its name is an insertion.
pub proof fn lemma_update(s: Seq<(String, DefaultVersion)>, i: int, e: (String, DefaultVersion))
    requires
        names_distinct(s),
        0 <= i < s.len(),
        s[i].0@ == e.0@,
    ensures
        names_distinct(s.update(i, e)),
        entries_map(s.update(i, e)) == entries_map(s).insert(e.0@, e.1@),
{
    let t = s.update(i, e);
    assert forall|a: int, b: int| 0 <= a < b < t.len() implies (#[trigger] t[a]).0@ != (
    #[trigger] t[b]).0@ by {
        assert(s[a].0@ != s[b].0@);
    }
    assert forall|name: Seq<char>| names(t, name) <==> (names(s, name) || name == e.0@) by {
        if names(t, name) {
            let j = position(t, name);
            assert(s[j].0@ == name);
        }
        if names(s, name) {
            let j = position(s, name);
            assert(t[j].0@ == name);
        }
        if name == e.0@ {
            assert(t[i].0@ == name);
        }
    }
    assert forall|name: Seq<char>| names(t, name) implies #[trigger] entries_map(t)[name]
        == entries_map(s).insert(e.0@, e.1@)[name] by {
        let j = position(t, name);
        lemma_entry(t, j);
        if j != i {
            assert(s[j] == t[j]);
            lemma_entry(s, j);
        }
    }
    assert(entries_map(t) =~= entries_map(s).insert(e.0@, e.1@));
}

/// Taking an entry out removes its name.
pub proof fn lemma_remove(s: Seq<(String, DefaultVersion)>, i: int)
    requires
        names_distinct(s),
        0 <= i < s.len(),
    ensures
        names_distinct(s.remove(i)),
        entries_map(s.remove(i)) == entries_map(s).remove(s[i].0@),
{
    let t = s.remove(i);
    let gone = s[i].0@;
    assert forall|a: int, b: int| 0 <= a < b < t.len() implies (#[trigger] t[a]).0@ != (
    #[trigger] t[b]).0@ by {
        let x = if a < i {
            a
        } else {
            a + 1
        };
        let y = if b < i {
            b
        } else {
            b + 1
        };
        assert(t[a] == s[x]);
        assert(t[b] == s[y]);
        assert(s[x].0@ != s[y].0@);
    }
    assert forall|name: Seq<char>| names(t, name) <==> (names(s, name) && name != gone) by {
        if names(t, name) {
            let j = position(t, name);
            let x = if j < i {
                j
            } else {
                j + 1
            };
            assert(t[j] == s[x]);
            assert(s[x].0@ == name);
            if x < i {
                assert(s[x].0@ != s[i].0@);
            } else {
                assert(s[i].0@ != s[x].0@);
            }
        }
        if names(s, name) && name != gone {
            let j = position(s, name);
            let x = if j < i {
                j
            } else {
                j - 1
            };
            assert(t[x] == s[j]);
            assert(t[x].0@ == name);
        }
    }
    assert forall|name: Seq<char>| names(t, name) implies #[trigger] entries_map(t)[name]
        == entries_map(s).remove(gone)[name] by {
        let j = position(t, name);
        lemma_entry(t, j);
        let x = if j < i {
            j
        } else {
            j + 1
        };
        assert(t[j] == s[x]);
        lemma_entry(s, x);
    }
    assert(entries_map(t) =~= entries_map(s).remove(gone));
}

/// The default version of each binary: at most one entry for a binary name.
pub struct DefaultVersions {
    entries: Vec<(String, DefaultVersion)>,
}

impl View for DefaultVersions {
    type V = Map<Seq<char>, DefaultVersionView>;

    closed spec fn view(&self) -> Map<Seq<char>, DefaultVersionView> {
        entries_map(self.entries@)
    }
}

impl DefaultVersions {
    /// The entries with their binaries' names, in the store's order.
    pub closed spec fn entries(&self) -> Seq<(String, DefaultVersion)> {
        self.entries@
    }

    /// No two entries are for the same binary.
    pub closed spec fn wf(&self) -> bool {
        names_distinct(self.entries@)
    }

    /// The map is that of the entries, and their names are distinct.
    pub proof fn lemma_entries(&self)
        ensures
            self@ == entries_map(self.entries()),
            self.wf() == names_distinct(self.entries()),
    {
    }

    /// The store without entries.
    pub fn new() -> (r: Self)
        ensures
            r.wf(),
            r.entries() == Seq::<(String, DefaultVersion)>::empty(),
            r@ == Map::<Seq<char>, DefaultVersionView>::empty(),
    {
        let r = DefaultVersions { entries: Vec::new() };
        assert(r@ =~= Map::<Seq<char>, DefaultVersionView>::empty());
        r
    }

    /// The position of the entry for `name`.
    fn index_of(&self, name: &str) -> (r: Option<usize>)
        ensures
            r matches Some(i) ==> i < self.entries@.len() && self.entries@[i as int].0@ == name@,
            r is None ==> !names(self.entries@, name@),
    {
        let mut i: usize = 0;
        while i < self.entries.len()
            invariant
                i <= self.entries.len(),
                forall|j: int| 0 <= j < i ==> (#[trigger] self.entries@[j]).0@ != name@,
            decreases self.entries.len() - i,
        {
            if text_eq(self.entries[i].0.as_str(), name) {
                return Some(i);
            }
            i = i + 1;
        }
        None
    }

    /// The default of the binary `name`, if one is set.
    pub fn get(&self, name: &str) -> (r: Option<&DefaultVersion>)
        requires
            self.wf(),
        ensures
            r is Some == self@.dom().contains(name@),
            r matches Some(e) ==> e@ == self@[name@],
    {
        match self.index_of(name) {
            Some(i) => {
                proof {
                    lemma_entry(self.entries@, i as int);
                }
                Some(&self.entries[i].1)
            },
            None => None,
        }
    }

    /// Sets the default of the binary `name`, in place of the one it had.
    pub fn set(&mut self, name: &str, network_release: &str, version: &str, debug: bool)
        requires
            old(self).wf(),
        ensures
            final(self).wf(),
            final(self)@ == old(self)@.insert(
                name@,
                DefaultVersionView { network_release: network_release@, version: version@, debug },
            ),
    {
        let entry = (
            String::from_str(name),
            DefaultVersion {
                network_release: String::from_str(network_release),
                version: String::from_str(version),
                debug,
            },
        );
        match self.index_of(name) {
            Some(i) => {
                proof {
                    lemma_update(self.entries@, i as int, entry);
                }
                self.entries.set(i, entry);
            },
            None => {
                proof {
                    lemma_push(self.entries@, entry);
                }
                self.entries.push(entry);
            },
        }
    }

    /// Removes the default of the binary `name`; nothing changes where none is set.
    pub fn remove(&mut self, name: &str)
        requires
            old(self).wf(),
        ensures
            final(self).wf(),
            final(self)@ == old(self)@.remove(name@),
    {
        match self.index_of(name) {
            Some(i) => {
                proof {
                    lemma_remove(self.entries@, i as int);
                }
                self.entries.remove(i);
            },
            None => {
                assert(self@ =~= self@.remove(name@));
            },
        }
    }

    /// Every entry with its binary's name, in the store's order.
    pub fn all(&self) -> (r: &Vec<(String, DefaultVersion)>)
        ensures
            r@ == self.entries(),
    {
        &self.entries
    }

    /// The number of entries.
    pub fn len(&self) -> (r: usize)
        ensures
            r == self.entries().len(),
    {
        self.entries.len()
    }
}

} // verus!
