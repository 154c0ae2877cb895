//! The record of an installed binary, and the store of all such records.

use crate::sequences::{
    lemma_filter_all, lemma_filter_empty, lemma_filter_none, lemma_filter_nonempty, lemma_filter_step,
};
use crate::text::text_eq;
use vstd::prelude::*;

verus! {

/// One installed artifact: which binary, from which network or branch, in which version,
/// built how, and where it lies.
#[derive(Debug)]
pub struct BinaryVersion {
    pub binary_name: String,
    /// A network's name, a branch for what was built from source, or `standalone`.
    pub network_release: String,
    /// A version, or `nightly`.
    pub version: String,
    pub debug: bool,
    /// The artifact's path; absent in records that an interrupted install left behind.
    pub path: Option<String>,
}

/// What a record says, as plain values.
pub struct BinaryVersionView {
    pub binary_name: Seq<char>,
    pub network_release: Seq<char>,
    pub version: Seq<char>,
    pub debug: bool,
    pub path: Option<Seq<char>>,
}

/// What tells one record from another: binary, network or branch, version, build kind.
pub type BinaryKey = (Seq<char>, Seq<char>, Seq<char>, bool);

impl BinaryVersionView {
    pub open spec fn key(self) -> BinaryKey {
        (self.binary_name, self.network_release, self.version, self.debug)
    }
}

impl View for BinaryVersion {
    type V = BinaryVersionView;

    open spec fn view(&self) -> BinaryVersionView {
        BinaryVersionView {
            binary_name: self.binary_name@,
            network_release: self.network_release@,
            version: self.version@,
            debug: self.debug,
            path: match self.path {
                Some(p) => Some(p@),
                None => None,
            },
        }
    }
}

impl Clone for BinaryVersion {
    fn clone(&self) -> (r: Self)
        ensures
            r == *self,
    {
        BinaryVersion {
            binary_name: self.binary_name.clone(),
            network_release: self.network_release.clone(),
            version: self.version.clone(),
            debug: self.debug,
            path: match &self.path {
                Some(p) => Some(p.clone()),
                None => None,
            },
        }
    }
}

impl PartialEq for BinaryVersion {
    fn eq(&self, other: &Self) -> (r: bool) {
        let same_path = match (&self.path, &other.path) {
            (Some(a), Some(b)) => text_eq(a.as_str(), b.as_str()),
            (None, None) => true,
            _ => false,
        };
        let r = self.binary_name == other.binary_name && self.network_release
            == other.network_release && self.version == other.version && self.debug == other.debug
            && same_path;
        proof {
            if r {
                assert(self@.path == other@.path);
                assert(self@ == other@);
            }
        }
        r
    }
}

impl vstd::std_specs::cmp::PartialEqSpecImpl for BinaryVersion {
    open spec fn obeys_eq_spec() -> bool {
        true
    }

    open spec fn eq_spec(&self, other: &Self) -> bool {
        self@ == other@
    }
}

impl BinaryVersion {
    /// Whether this record has the given key.
    pub fn has_key(&self, binary_name: &str, network_release: &str, version: &str, debug: bool) -> (r:
        bool)
        ensures
            r == (self@.key() == (binary_name@, network_release@, version@, debug)),
    {
        text_eq(self.binary_name.as_str(), binary_name) && text_eq(
            self.network_release.as_str(),
            network_release,
        ) && text_eq(self.version.as_str(), version) && self.debug == debug
    }
}

/// The views of a sequence of records.
pub open spec fn records_view(s: Seq<BinaryVersion>) -> Seq<BinaryVersionView> {
    Seq::new(s.len(), |i: int| s[i]@)
}

/// No two records share a key.
pub open spec fn keys_distinct(s: Seq<BinaryVersionView>) -> bool {
    forall|i: int, j: int| 0 <= i < j < s.len() ==> (#[trigger] s[i]).key() != (#[trigger] s[j]).key()
}

/// Some record of `s` has the key `k`.
pub open spec fn has_key(s: Seq<BinaryVersionView>, k: BinaryKey) -> bool {
    exists|i: int| 0 <= i < s.len() && (#[trigger] s[i]).key() == k
}

/// `i` is the first position of `s` whose record has the key `k`.
pub open spec fn is_first_with_key(s: Seq<BinaryVersionView>, k: BinaryKey, i: int) -> bool {
    &&& 0 <= i < s.len()
    &&& s[i].key() == k
    &&& forall|j: int| 0 <= j < i ==> (#[trigger] s[j]).key() != k
}

/// The first position of `s` whose record has the key `k`.
pub open spec fn key_index(s: Seq<BinaryVersionView>, k: BinaryKey) -> Option<int> {
    if has_key(s, k) {
        Some(choose|i: int| is_first_with_key(s, k, i))
    } else {
        None
    }
}

/// `s` after `r` was recorded: in the place of the record with its key, or at the end.
pub open spec fn with_record(s: Seq<BinaryVersionView>, r: BinaryVersionView) -> Seq<
    BinaryVersionView,
> {
    match key_index(s, r.key()) {
        Some(i) => s.update(i, r),
        None => s.push(r),
    }
}

/// The records of the binary `name`.
pub open spec fn named(name: Seq<char>) -> spec_fn(BinaryVersionView) -> bool {
    |r: BinaryVersionView| r.binary_name == name
}

/// The records of every binary but `name`.
pub open spec fn not_named(name: Seq<char>) -> spec_fn(BinaryVersionView) -> bool {
    |r: BinaryVersionView| r.binary_name != name
}

/// A first position with a key is the value of `key_index`.
pub proof fn lemma_key_index(s: Seq<BinaryVersionView>, k: BinaryKey, i: int)
    requires
        is_first_with_key(s, k, i),
    ensures
        key_index(s, k) == Some(i),
{
    let c = choose|c: int| is_first_with_key(s, k, c);
    assert(is_first_with_key(s, k, c));
    if c < i {
        assert(s[c].key() != k);
    } else if i < c {
        assert(s[i].key() != k);
    }
}

/// Where a key occurs, it occurs first somewhere.
pub proof fn lemma_first_with_key(s: Seq<BinaryVersionView>, k: BinaryKey, n: int)
    requires
        0 <= n < s.len(),
        s[n].key() == k,
    ensures
        key_index(s, k) is Some,
        is_first_with_key(s, k, key_index(s, k)->0),
        key_index(s, k)->0 <= n,
    decreases n,
{
    if forall|j: int| 0 <= j < n ==> (#[trigger] s[j]).key() != k {
        assert(is_first_with_key(s, k, n));
        lemma_key_index(s, k, n);
    } else {
        let j = choose|j: int| 0 <= j < n && (#[trigger] s[j]).key() == k;
        lemma_first_with_key(s, k, j);
    }
}

/// What `key_index` finds is a first position with the key.
pub proof fn lemma_key_index_found(s: Seq<BinaryVersionView>, k: BinaryKey)
    ensures
        key_index(s, k) matches Some(i) ==> is_first_with_key(s, k, i),
        key_index(s, k) is None ==> forall|j: int| 0 <= j < s.len() ==> (#[trigger] s[j]).key() != k,
{
    if has_key(s, k) {
        let n = choose|n: int| 0 <= n < s.len() && (#[trigger] s[n]).key() == k;
        lemma_first_with_key(s, k, n);
    }
}

/// Recording keeps keys distinct.
pub proof fn lemma_with_record_distinct(s: Seq<BinaryVersionView>, r: BinaryVersionView)
    requires
        keys_distinct(s),
    ensures
        keys_distinct(with_record(s, r)),
{
    let t = with_record(s, r);
    lemma_key_index_found(s, r.key());
    match key_index(s, r.key()) {
        Some(i) => {
            assert forall|a: int, b: int| 0 <= a < b < t.len() implies (#[trigger] t[a]).key() != (
            #[trigger] t[b]).key() by {
                assert(s[a].key() != s[b].key());
            }
        },
        None => {
            assert forall|a: int, b: int| 0 <= a < b < t.len() implies (#[trigger] t[a]).key() != (
            #[trigger] t[b]).key() by {
                if b < s.len() {
                    assert(s[a].key() != s[b].key());
                } else {
                    assert(s[a].key() != r.key());
                }
            }
        },
    }
}

/// Recording a key that the store holds overwrites: the store keeps its length, the new
/// record stands where the old one stood, and every other record stays. Recording a new
/// key appends.
pub proof fn lemma_with_record_overwrites(s: Seq<BinaryVersionView>, r: BinaryVersionView)
    ensures
        key_index(s, r.key()) matches Some(i) ==> with_record(s, r).len() == s.len() && with_record(
            s,
            r,
        )[i] == r && forall|j: int| 0 <= j < s.len() && j != i ==> with_record(s, r)[j] == s[j],
        key_index(s, r.key()) is None ==> with_record(s, r) == s.push(r),
        has_key(with_record(s, r), r.key()),
{
    lemma_key_index_found(s, r.key());
    match key_index(s, r.key()) {
        Some(i) => {
            assert(with_record(s, r)[i].key() == r.key());
        },
        None => {
            assert(with_record(s, r)[s.len() as int].key() == r.key());
        },
    }
}

/// The records of the network or branch `network`.
pub open spec fn in_network(network: Seq<char>) -> spec_fn(BinaryVersionView) -> bool {
    |r: BinaryVersionView| r.network_release == network
}

/// Some record of `s` belongs to the binary `name`.
pub open spec fn has_binary(s: Seq<BinaryVersionView>, name: Seq<char>) -> bool {
    exists|i: int| 0 <= i < s.len() && (#[trigger] s[i]).binary_name == name
}

/// Some record of `s` belongs to the network or branch `network`.
pub open spec fn has_network(s: Seq<BinaryVersionView>, network: Seq<char>) -> bool {
    exists|i: int| 0 <= i < s.len() && (#[trigger] s[i]).network_release == network
}

/// `name` is among `names`.
pub open spec fn names_include(names: Seq<String>, name: Seq<char>) -> bool {
    exists|a: int| 0 <= a < names.len() && (#[trigger] names[a])@ == name
}

/// One of `groups` is that of the network or branch `name`.
pub open spec fn groups_include(groups: Seq<(String, Vec<BinaryVersion>)>, name: Seq<char>) -> bool {
    exists|a: int| 0 <= a < groups.len() && (#[trigger] groups[a]).0@ == name
}

/// `groups` are the records of `s` by network or branch: no network has two groups, each
/// group holds the records of its network, in their order and at least one, and every
/// record's network has a group.
pub open spec fn is_grouping(groups: Seq<(String, Vec<BinaryVersion>)>, s: Seq<BinaryVersionView>) -> bool {
    &&& forall|a: int, b: int|
        0 <= a < b < groups.len() ==> (#[trigger] groups[a]).0@ != (#[trigger] groups[b]).0@
    &&& forall|a: int|
        0 <= a < groups.len() ==> records_view((#[trigger] groups[a]).1@) == s.filter(
            in_network(groups[a].0@),
        ) && groups[a].1@.len() > 0
    &&& forall|i: int| 0 <= i < s.len() ==> groups_include(groups, (#[trigger] s[i]).network_release)
}

/// The store that results from recording the records of `s` one after the other.
pub open spec fn recorded_all(s: Seq<BinaryVersionView>) -> Seq<BinaryVersionView>
    decreases s.len(),
{
    if s.len() == 0 {
        Seq::empty()
    } else {
        with_record(recorded_all(s.drop_last()), s.last())
    }
}

/// Every installed binary that the tool knows of: at most one record for each key.
pub struct InstalledBinaries {
    binaries: Vec<BinaryVersion>,
}

impl View for InstalledBinaries {
    type V = Seq<BinaryVersionView>;

    closed spec fn view(&self) -> Seq<BinaryVersionView> {
        records_view(self.binaries@)
    }
}

impl InstalledBinaries {
    /// No two records of the store share a key.
    pub open spec fn wf(&self) -> bool {
        keys_distinct(self@)
    }

    /// The empty store.
    pub fn new() -> (r: Self)
        ensures
            r@ == Seq::<BinaryVersionView>::empty(),
            r.wf(),
    {
        let r = InstalledBinaries { binaries: Vec::new() };
        assert(r@ =~= Seq::<BinaryVersionView>::empty());
        r
    }

    /// The store that holds the given records, a later one replacing an earlier one of the
    /// same key.
    pub fn from_records(records: Vec<BinaryVersion>) -> (r: Self)
        ensures
            r@ == recorded_all(records_view(records@)),
            r.wf(),
    {
        let mut store = InstalledBinaries::new();
        let ghost all = records_view(records@);
        let mut i: usize = 0;
        assert(all.take(0) =~= Seq::<BinaryVersionView>::empty());
        while i < records.len()
            invariant
                i <= records.len(),
                all == records_view(records@),
                store.wf(),
                store@ == recorded_all(all.take(i as int)),
            decreases records.len() - i,
        {
            store.add_or_replace(records[i].clone());
            proof {
                assert(all.take(i as int + 1).drop_last() =~= all.take(i as int));
                assert(all.take(i as int + 1).last() == records@[i as int]@);
            }
            i = i + 1;
        }
        assert(all.take(records.len() as int) =~= all);
        store
    }

    /// The records, in the store's order.
    pub fn binaries(&self) -> (r: &Vec<BinaryVersion>)
        ensures
            records_view(r@) == self@,
    {
        &self.binaries
    }

    /// The number of records.
    pub fn len(&self) -> (r: usize)
        ensures
            r == self@.len(),
    {
        self.binaries.len()
    }

    /// Records an installed binary: in the place of the record with the same key where
    /// there is one, else at the end.
    pub fn add_or_replace(&mut self, record: BinaryVersion)
        requires
            old(self).wf(),
        ensures
            final(self).wf(),
            final(self)@ == with_record(old(self)@, record@),
    {
        let ghost before = self@;
        let mut i: usize = 0;
        while i < self.binaries.len()
            invariant
                i <= self.binaries.len(),
                self@ == before,
                before == old(self)@,
                keys_distinct(before),
                forall|j: int| 0 <= j < i ==> (#[trigger] before[j]).key() != record@.key(),
            decreases self.binaries.len() - i,
        {
            if self.binaries[i].has_key(
                record.binary_name.as_str(),
                record.network_release.as_str(),
                record.version.as_str(),
                record.debug,
            ) {
                proof {
                    assert(before[i as int] == self.binaries@[i as int]@);
                    assert(is_first_with_key(before, record@.key(), i as int));
                    lemma_key_index(before, record@.key(), i as int);
                    lemma_with_record_distinct(before, record@);
                }
                self.binaries.set(i, record);
                assert(self@ =~= before.update(i as int, record@));
                return ;
            }
            assert(before[i as int] == self.binaries@[i as int]@);
            i = i + 1;
        }
        proof {
            assert(!has_key(before, record@.key()));
            lemma_with_record_distinct(before, record@);
        }
        self.binaries.push(record);
        assert(self@ =~= before.push(record@));
    }

    /// Removes every record of the binary `name`, whatever its network, version and build
    /// kind, and returns what was removed. Where there is none, nothing changes.
    pub fn remove_by_binary_name(&mut self, name: &str) -> (removed: Vec<BinaryVersion>)
        requires
            old(self).wf(),
        ensures
            final(self).wf(),
            final(self)@ == old(self)@.filter(not_named(name@)),
            records_view(removed@) == old(self)@.filter(named(name@)),
            !has_binary(old(self)@, name@) ==> removed@.len() == 0 && final(self)@ == old(self)@,
    {
        let ghost before = self@;
        let mut kept: Vec<BinaryVersion> = Vec::new();
        let mut removed: Vec<BinaryVersion> = Vec::new();
        let ghost mut origin: Seq<int> = Seq::empty();
        let mut i: usize = 0;
        proof {
            lemma_filter_empty(before, not_named(name@));
            lemma_filter_empty(before, named(name@));
            assert(records_view(kept@) =~= Seq::<BinaryVersionView>::empty());
            assert(records_view(removed@) =~= Seq::<BinaryVersionView>::empty());
        }
        while i < self.binaries.len()
            invariant
                i <= self.binaries.len(),
                self@ == before,
                keys_distinct(before),
                records_view(kept@) == before.take(i as int).filter(not_named(name@)),
                records_view(removed@) == before.take(i as int).filter(named(name@)),
                origin.len() == kept@.len(),
                forall|a: int| 0 <= a < origin.len() ==> 0 <= #[trigger] origin[a] < i,
                forall|a: int| 0 <= a < origin.len() ==> kept@[a]@ == before[#[trigger] origin[a]],
                forall|a: int, b: int| 0 <= a < b < origin.len() ==> origin[a] < origin[b],
            decreases self.binaries.len() - i,
        {
            let record = self.binaries[i].clone();
            proof {
                assert(before[i as int] == record@);
                lemma_filter_step(before, i as int, not_named(name@));
                lemma_filter_step(before, i as int, named(name@));
            }
            if text_eq(record.binary_name.as_str(), name) {
                let ghost prev = records_view(removed@);
                removed.push(record);
                assert(records_view(removed@) =~= prev.push(before[i as int]));
            } else {
                let ghost prev = records_view(kept@);
                kept.push(record);
                proof {
                    origin = origin.push(i as int);
                    assert(records_view(kept@) =~= prev.push(before[i as int]));
                }
            }
            i = i + 1;
        }
        proof {
            assert(before.take(self.binaries.len() as int) =~= before);
            let k = records_view(kept@);
            assert forall|a: int, b: int| 0 <= a < b < k.len() implies (#[trigger] k[a]).key() != (
            #[trigger] k[b]).key() by {
                assert(k[a] == before[origin[a]]);
                assert(k[b] == before[origin[b]]);
            }
            if !has_binary(before, name@) {
                lemma_filter_all(before, not_named(name@));
                lemma_filter_none(before, named(name@));
            }
        }
        self.binaries = kept;
        removed
    }

    /// The record with the given key.
    pub fn find(&self, binary_name: &str, network_release: &str, version: &str, debug: bool) -> (r:
        Option<&BinaryVersion>)
        ensures
            match key_index(self@, (binary_name@, network_release@, version@, debug)) {
                Some(i) => r matches Some(b) && b@ == self@[i],
                None => r is None,
            },
    {
        let ghost k = (binary_name@, network_release@, version@, debug);
        let mut i: usize = 0;
        while i < self.binaries.len()
            invariant
                i <= self.binaries.len(),
                k == (binary_name@, network_release@, version@, debug),
                forall|j: int| 0 <= j < i ==> (#[trigger] self@[j]).key() != k,
            decreases self.binaries.len() - i,
        {
            assert(self@[i as int] == self.binaries@[i as int]@);
            if self.binaries[i].has_key(binary_name, network_release, version, debug) {
                proof {
                    lemma_key_index(self@, k, i as int);
                }
                return Some(&self.binaries[i]);
            }
            i = i + 1;
        }
        assert(!has_key(self@, k));
        None
    }

    /// The records of the binary `name`, in the store's order.
    pub fn find_all(&self, name: &str) -> (r: Vec<BinaryVersion>)
        ensures
            records_view(r@) == self@.filter(named(name@)),
    {
        let mut found: Vec<BinaryVersion> = Vec::new();
        let mut i: usize = 0;
        proof {
            lemma_filter_empty(self@, named(name@));
            assert(records_view(found@) =~= Seq::<BinaryVersionView>::empty());
        }
        while i < self.binaries.len()
            invariant
                i <= self.binaries.len(),
                records_view(found@) == self@.take(i as int).filter(named(name@)),
            decreases self.binaries.len() - i,
        {
            let record = self.binaries[i].clone();
            proof {
                assert(self@[i as int] == record@);
                lemma_filter_step(self@, i as int, named(name@));
            }
            if text_eq(record.binary_name.as_str(), name) {
                let ghost prev = records_view(found@);
                found.push(record);
                assert(records_view(found@) =~= prev.push(self@[i as int]));
            }
            i = i + 1;
        }
        assert(self@.take(self.binaries.len() as int) =~= self@);
        found
    }

    /// Whether any record belongs to the binary `name`.
    pub fn contains_binary(&self, name: &str) -> (r: bool)
        ensures
            r == has_binary(self@, name@),
    {
        let mut i: usize = 0;
        while i < self.binaries.len()
            invariant
                i <= self.binaries.len(),
                forall|j: int| 0 <= j < i ==> (#[trigger] self@[j]).binary_name != name@,
            decreases self.binaries.len() - i,
        {
            assert(self@[i as int] == self.binaries@[i as int]@);
            if text_eq(self.binaries[i].binary_name.as_str(), name) {
                return true;
            }
            i = i + 1;
        }
        false
    }

    /// The records of the network or branch `network`, in the store's order.
    pub fn find_in_network(&self, network: &str) -> (r: Vec<BinaryVersion>)
        ensures
            records_view(r@) == self@.filter(in_network(network@)),
    {
        let mut found: Vec<BinaryVersion> = Vec::new();
        let mut i: usize = 0;
        proof {
            lemma_filter_empty(self@, in_network(network@));
            assert(records_view(found@) =~= Seq::<BinaryVersionView>::empty());
        }
        while i < self.binaries.len()
            invariant
                i <= self.binaries.len(),
                records_view(found@) == self@.take(i as int).filter(in_network(network@)),
            decreases self.binaries.len() - i,
        {
            let record = self.binaries[i].clone();
            proof {
                assert(self@[i as int] == record@);
                lemma_filter_step(self@, i as int, in_network(network@));
            }
            if text_eq(record.network_release.as_str(), network) {
                let ghost prev = records_view(found@);
                found.push(record);
                assert(records_view(found@) =~= prev.push(self@[i as int]));
            }
            i = i + 1;
        }
        assert(self@.take(self.binaries.len() as int) =~= self@);
        found
    }

    /// The networks and branches that the store has records of, each once.
    pub fn networks(&self) -> (r: Vec<String>)
        ensures
            forall|a: int, b: int| 0 <= a < b < r@.len() ==> (#[trigger] r@[a])@ != (#[trigger] r@[b])@,
            forall|a: int| 0 <= a < r@.len() ==> has_network(self@, (#[trigger] r@[a])@),
            forall|i: int| 0 <= i < self@.len() ==> names_include(r@, (#[trigger] self@[i]).network_release),
    {
        let mut names: Vec<String> = Vec::new();
        let mut i: usize = 0;
        while i < self.binaries.len()
            invariant
                i <= self.binaries.len(),
                forall|a: int, b: int|
                    0 <= a < b < names@.len() ==> (#[trigger] names@[a])@ != (#[trigger] names@[b])@,
                forall|a: int| 0 <= a < names@.len() ==> has_network(self@, (#[trigger] names@[a])@),
                forall|j: int|
                    0 <= j < i ==> names_include(names@, (#[trigger] self@[j]).network_release),
            decreases self.binaries.len() - i,
        {
            let network = &self.binaries[i].network_release;
            assert(self@[i as int].network_release == network@);
            let mut known = false;
            let mut a: usize = 0;
            while a < names.len()
                invariant
                    a <= names@.len(),
                    known ==> names_include(names@, network@),
                    !known ==> forall|b: int| 0 <= b < a ==> (#[trigger] names@[b])@ != network@,
                decreases names.len() - a,
            {
                if text_eq(names[a].as_str(), network.as_str()) {
                    known = true;
                }
                a = a + 1;
            }
            let ghost before = names@;
            if !known {
                names.push(network.clone());
                assert(names@[before.len() as int]@ == network@);
            }
            proof {
                assert(names_include(names@, network@));
                assert forall|j: int| 0 <= j < i implies names_include(
                    names@,
                    (#[trigger] self@[j]).network_release,
                ) by {
                    let b = choose|b: int|
                        0 <= b < before.len() && (#[trigger] before[b])@ == self@[j].network_release;
                    assert(names@[b] == before[b]);
                }
                assert forall|b: int| 0 <= b < names@.len() implies has_network(
                    self@,
                    (#[trigger] names@[b])@,
                ) by {
                    if b < before.len() {
                        assert(names@[b] == before[b]);
                    }
                }
            }
            i = i + 1;
        }
        names
    }

    /// The records by network or branch: each network that the store names, with its
    /// records in the store's order.
    pub fn grouped_by_network(&self) -> (r: Vec<(String, Vec<BinaryVersion>)>)
        ensures
            is_grouping(r@, self@),
    {
        let names = self.networks();
        let mut groups: Vec<(String, Vec<BinaryVersion>)> = Vec::new();
        let mut a: usize = 0;
        while a < names.len()
            invariant
                a <= names@.len(),
                groups@.len() == a,
                forall|b: int| 0 <= b < a ==> (#[trigger] groups@[b]).0@ == names@[b]@,
                forall|b: int|
                    0 <= b < a ==> records_view((#[trigger] groups@[b]).1@) == self@.filter(
                        in_network(groups@[b].0@),
                    ) && groups@[b].1@.len() > 0,
                forall|b: int| 0 <= b < names@.len() ==> has_network(self@, (#[trigger] names@[b])@),
            decreases names.len() - a,
        {
            let name = names[a].clone();
            let group = self.find_in_network(name.as_str());
            proof {
                assert(has_network(self@, names@[a as int]@));
                let i = choose|i: int|
                    0 <= i < self@.len() && (#[trigger] self@[i]).network_release == name@;
                lemma_filter_nonempty(self@, in_network(name@), i);
                assert(records_view(group@).len() == group@.len());
            }
            groups.push((name, group));
            a = a + 1;
        }
        proof {
            assert forall|i: int| 0 <= i < self@.len() implies groups_include(
                groups@,
                (#[trigger] self@[i]).network_release,
            ) by {
                assert(names_include(names@, self@[i].network_release));
                let b = choose|b: int|
                    0 <= b < names@.len() && (#[trigger] names@[b])@ == self@[i].network_release;
                assert(groups@[b].0@ == self@[i].network_release);
            }
            assert forall|x: int, y: int| 0 <= x < y < groups@.len() implies (
            #[trigger] groups@[x]).0@ != (#[trigger] groups@[y]).0@ by {
                assert(names@[x]@ != names@[y]@);
            }
        }
        groups
    }
}

} // verus!
